use vstd::prelude::*;

verus! {

/// Length in bytes of the tag that opens every encoded account and event.
pub const DISCRIMINATOR_LEN: usize = 8;

/// `bytes` opens with `tag`.
pub open spec fn spec_has_tag(bytes: Seq<u8>, tag: Seq<u8>) -> bool {
    tag.len() <= bytes.len() && bytes.subrange(0, tag.len() as int) == tag
}

/// What follows the tag in `bytes`, where `bytes` opens with `tag`.
pub open spec fn spec_tagged_body(bytes: Seq<u8>, tag: Seq<u8>) -> Option<Seq<u8>> {
    if spec_has_tag(bytes, tag) {
        Some(bytes.skip(tag.len() as int))
    } else {
        None
    }
}

/// Tells whether `bytes` opens with `prefix`.
pub fn starts_with(bytes: &Vec<u8>, prefix: &[u8]) -> (r: bool)
    ensures
        r == spec_has_tag(bytes@, prefix@),
{
    let n = prefix.len();
    if bytes.len() < n {
        return false;
    }
    let mut i: usize = 0;
    while i < n
        invariant
            i <= n,
            n == prefix@.len(),
            bytes@.len() >= n,
            forall|j: int| 0 <= j < i ==> bytes@[j] == prefix@[j],
        decreases n - i,
    {
        if bytes[i] != prefix[i] {
            assert(bytes@.subrange(0, n as int)[i as int] == bytes@[i as int]);
            return false;
        }
        i += 1;
    }
    assert(bytes@.subrange(0, n as int) =~= prefix@);
    true
}

/// Strips `prefix`: the bytes after it where `bytes` opens with it, nothing
/// where it does not.
pub fn strip_prefix(bytes: &Vec<u8>, prefix: &[u8]) -> (r: Option<Vec<u8>>)
    ensures
        match r {
            Some(rest) => spec_tagged_body(bytes@, prefix@) == Some(rest@),
            None => spec_tagged_body(bytes@, prefix@) is None,
        },
{
    if !starts_with(bytes, prefix) {
        return None;
    }
    let n = prefix.len();
    let mut rest: Vec<u8> = Vec::new();
    let mut i: usize = n;
    while i < bytes.len()
        invariant
            n <= i <= bytes@.len(),
            rest@ == bytes@.subrange(n as int, i as int),
        decreases bytes@.len() - i,
    {
        rest.push(bytes[i]);
        assert(rest@ =~= bytes@.subrange(n as int, i + 1));
        i += 1;
    }
    assert(rest@ =~= bytes@.skip(n as int));
    Some(rest)
}

/// A copy of the bytes of `bytes` from `from` up to `to`.
pub fn copy_range(bytes: &Vec<u8>, from: usize, to: usize) -> (r: Vec<u8>)
    requires
        from <= to <= bytes@.len(),
    ensures
        r@ == bytes@.subrange(from as int, to as int),
{
    let mut r: Vec<u8> = Vec::new();
    let mut i: usize = from;
    while i < to
        invariant
            from <= i <= to <= bytes@.len(),
            r@ == bytes@.subrange(from as int, i as int),
        decreases to - i,
    {
        r.push(bytes[i]);
        assert(r@ =~= bytes@.subrange(from as int, i + 1));
        i += 1;
    }
    r
}

/// Tells whether `a` and `b` hold the same bytes.
pub fn same_bytes(a: &Vec<u8>, b: &[u8]) -> (r: bool)
    ensures
        r == (a@ == b@),
{
    if a.len() != b.len() {
        return false;
    }
    let r = starts_with(a, b);
    assert(a@.subrange(0, a@.len() as int) =~= a@);
    r
}

/// Tells whether `bytes` opens with the type tag `tag`.
pub fn has_tag(bytes: &Vec<u8>, tag: &[u8; 8]) -> (r: bool)
    ensures
        r == spec_has_tag(bytes@, tag@),
{
    starts_with(bytes, tag.as_slice())
}

/// Strips the type tag: the bytes after it where `bytes` opens with `tag`,
/// nothing where it does not.
pub fn tagged_body(bytes: &Vec<u8>, tag: &[u8; 8]) -> (r: Option<Vec<u8>>)
    ensures
        match r {
            Some(body) => spec_tagged_body(bytes@, tag@) == Some(body@),
            None => spec_tagged_body(bytes@, tag@) is None,
        },
{
    strip_prefix(bytes, tag.as_slice())
}

} // verus!
