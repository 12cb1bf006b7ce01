use vstd::prelude::*;
use crate::error::ClientError;
use crate::events::{spec_events, spec_line_event, spec_running, spec_stack, Notification};
use crate::program::{spec_accepts, spec_collected, spec_decoded, spec_drained, spec_yields, ProgramAccountsIterator, RawAccount};
use crate::request::{
    lemma_find_first, spec_find, spec_put, spec_put_all, spec_unique, AccountMeta, Instruction,
    Message, RequestBuilder, Transaction,
};
use crate::subscription::Subscription;
use crate::types::{Address, Blockhash, Signature};

verus! {

/// The codec is a function: it gives the same bytes the same answer.
pub open spec fn spec_functional<T, F: Fn(&Vec<u8>) -> Option<T>>(decode: F) -> bool {
    forall|data: &Vec<u8>, a: Option<T>, b: Option<T>|
        #[trigger] decode.ensures((data,), a) && #[trigger] decode.ensures((data,), b) ==> a == b
}

/// Fetching an account gives what the codec itself makes of the fetched
/// bytes: where the codec decodes them to `value`, the account is `value`.
pub proof fn account_is_direct_decoding<T, F: Fn(&Vec<u8>) -> Option<T>>(
    decode: F,
    data: Vec<u8>,
    value: T,
    result: Result<T, ClientError>,
)
    requires
        spec_functional(decode),
        decode.ensures((&data,), Some(value)),
        spec_decoded(decode, data, result),
    ensures
        result == Ok::<T, ClientError>(value),
{
    match result {
        Ok(other) => {
            assert(decode.ensures((&data,), Some(other)));
        },
        Err(e) => {
            assert(decode.ensures((&data,), None::<T>));
        },
    }
}

/// Collecting a scan gives the pairs that draining the lazy sequence over
/// the same scan yields, one for one and in the same order; it fails exactly
/// where the drained sequence holds an error, at the first of them.
pub proof fn accounts_is_drained_accounts_lazy<T, F: Fn(&Vec<u8>) -> Option<T>>(
    decode: F,
    entries: Seq<RawAccount>,
    items: Seq<Result<(Address, T), ClientError>>,
    result: Result<Vec<(Address, T)>, ClientError>,
)
    requires
        spec_functional(decode),
        spec_drained(decode, entries, items),
        spec_collected(decode, entries, result),
    ensures
        match result {
            Ok(pairs) => pairs@.len() == items.len() && forall|i: int|
                0 <= i < items.len() ==> #[trigger] items[i] == Ok::<(Address, T), ClientError>(
                    pairs@[i],
                ),
            Err(e) => exists|k: int|
                0 <= k < items.len() && (#[trigger] items[k]) is Err && forall|i: int|
                    0 <= i < k ==> (#[trigger] items[i]) is Ok,
        },
{
    match result {
        Ok(pairs) => {
            assert forall|i: int| 0 <= i < items.len() implies #[trigger] items[i] == Ok::<
                (Address, T),
                ClientError,
            >(pairs@[i]) by {
                assert(spec_yields(decode, entries[i], items[i]));
                assert(spec_yields(decode, entries[i], Ok::<(Address, T), ClientError>(pairs@[i])));
                assert(decode.ensures((&entries[i].data,), Some(pairs@[i].1)));
                match items[i] {
                    Ok(pair) => {
                        assert(decode.ensures((&entries[i].data,), Some(pair.1)));
                    },
                    Err(e) => {
                        assert(decode.ensures((&entries[i].data,), None::<T>));
                    },
                }
            }
        },
        Err(e) => {
            let k = choose|k: int|
                0 <= k < entries.len() && #[trigger] decode.ensures(
                    (&entries[k].data,),
                    None::<T>,
                ) && forall|i: int|
                    0 <= i < k ==> #[trigger] spec_accepts::<T, F>(decode, entries[i]);
            assert(spec_yields(decode, entries[k], items[k]));
            match items[k] {
                Ok(pair) => {
                    assert(decode.ensures((&entries[k].data,), Some(pair.1)));
                },
                Err(_) => {},
            }
            assert forall|i: int| 0 <= i < k implies (#[trigger] items[i]) is Ok by {
                assert(spec_accepts::<T, F>(decode, entries[i]));
                let value = choose|value: T| decode.ensures((&entries[i].data,), Some(value));
                assert(spec_yields(decode, entries[i], items[i]));
                match items[i] {
                    Ok(_) => {},
                    Err(_) => {
                        assert(decode.ensures((&entries[i].data,), None::<T>));
                        assert(decode.ensures((&entries[i].data,), Some(value)));
                    },
                }
            }
        },
    }
}

/// Over an empty scan the lazy sequence signals its end at the first step,
/// and collecting gives an empty list: there is no error.
pub proof fn empty_scan_ends_at_once<T, F: Fn(&Vec<u8>) -> Option<T>>(
    before: ProgramAccountsIterator<F>,
    item: Option<Result<(Address, T), ClientError>>,
    after: ProgramAccountsIterator<F>,
    result: Result<Vec<(Address, T)>, ClientError>,
)
    requires
        before.entries@.len() == 0,
        before.wf::<T>(),
        before.spec_step(item, after),
        spec_collected(before.decode, before.entries@, result),
    ensures
        item is None,
        result is Ok,
        result->Ok_0@.len() == 0,
{
}

/// An emitted line counts only while the subscribed program is the
/// innermost running one: a line that comes while another program runs, or
/// none, adds no event, whatever it holds.
pub proof fn other_programs_events_are_passed_over(
    lines: Seq<Seq<u8>>,
    line: Seq<u8>,
    tag: Seq<u8>,
    program: Seq<u8>,
)
    requires
        !spec_running(spec_stack(lines), program),
    ensures
        spec_events(lines.push(line), tag, program) == spec_events(lines, tag, program),
{
    assert(lines.push(line).drop_last() =~= lines);
}

/// While the subscribed program is the innermost running one, a line that
/// holds an event of the subscribed type adds exactly that event.
pub proof fn own_events_are_delivered(
    lines: Seq<Seq<u8>>,
    line: Seq<u8>,
    tag: Seq<u8>,
    program: Seq<u8>,
)
    requires
        spec_running(spec_stack(lines), program),
    ensures
        spec_events(lines.push(line), tag, program) == match spec_line_event(line, tag) {
            Some(body) => spec_events(lines, tag, program).push(body),
            None => spec_events(lines, tag, program),
        },
{
    assert(lines.push(line).drop_last() =~= lines);
}

/// Once a subscription has been unsubscribed it is closed, and no
/// notification that still arrives, however many, is delivered.
pub proof fn unsubscribed_delivers_nothing(before: Subscription, notifications: Seq<Notification>)
    ensures
        !before.spec_closed().spec_delivers(),
        before.spec_closed().spec_deliveries_of_all(notifications).len() == 0,
    decreases notifications.len(),
{
    let closed = before.spec_closed();
    if notifications.len() > 0 {
        assert(closed.spec_after(&notifications[0]) == closed);
        assert(closed.spec_closed() == closed);
        unsubscribed_delivers_nothing(closed, notifications.skip(1));
    }
}

/// The last write for an address wins: after `meta` is written it is the
/// one entry for its address, every entry for another address is where and
/// what it was, and there is still at most one entry for each address.
pub proof fn last_account_write_wins(metas: Seq<AccountMeta>, meta: AccountMeta)
    requires
        spec_unique(metas),
    ensures
        spec_unique(spec_put(metas, meta)),
        0 <= spec_find(metas, meta.address) < spec_put(metas, meta).len(),
        spec_put(metas, meta)[spec_find(metas, meta.address)] == meta,
        forall|k: int|
            0 <= k < metas.len() && metas[k].address.bytes@ != meta.address.bytes@ ==> spec_put(
                metas,
                meta,
            )[k] == metas[k],
{
    lemma_find_first(metas, meta.address);
    let at = spec_find(metas, meta.address);
    let after = spec_put(metas, meta);
    assert forall|i: int, j: int| 0 <= i < j < after.len() implies after[i].address.bytes@
        != after[j].address.bytes@ by {
        if at < metas.len() {
            if i == at {
                assert(metas[at].address.bytes@ != metas[j].address.bytes@);
            } else if j == at {
                assert(metas[i].address.bytes@ != metas[at].address.bytes@);
            }
        }
    }
}

/// Writing any run of account metadata into a list with at most one entry
/// for each address leaves it so.
pub proof fn accounts_hold_one_entry_per_address(metas: Seq<AccountMeta>, added: Seq<AccountMeta>)
    requires
        spec_unique(metas),
    ensures
        spec_unique(spec_put_all(metas, added)),
    decreases added.len(),
{
    if added.len() > 0 {
        accounts_hold_one_entry_per_address(metas, added.drop_last());
        last_account_write_wins(spec_put_all(metas, added.drop_last()), added.last());
    }
}

/// A builder with one instruction and one additional signer gives a
/// transaction signed by exactly the payer and that signer, in this order,
/// over exactly that instruction.
pub proof fn one_instruction_one_signer<F: Fn(&Address, &Message) -> Option<Signature>>(
    builder: RequestBuilder,
    ix: Instruction,
    extra: Address,
    blockhash: Blockhash,
    sign: F,
    transaction: Transaction,
)
    requires
        builder.instructions@ == seq![ix],
        builder.instruction_data is None,
        builder.signers@ == seq![extra],
        builder.spec_signing_result(
            Ok::<Blockhash, String>(blockhash),
            sign,
            Ok::<Transaction, ClientError>(transaction),
        ),
    ensures
        transaction.signers@ == seq![builder.payer, extra],
        transaction.signatures@.len() == 2,
        transaction.message@.instructions == seq![ix@],
        transaction.message@.fee_payer == builder.payer,
{
    assert(transaction.signers@ =~= seq![builder.payer, extra]);
    assert(transaction.message@.instructions =~= seq![ix@]);
}

/// Every signed transaction carries the payer's signature, first of all:
/// none is signed by fewer than one signer.
pub proof fn payer_always_signs<F: Fn(&Address, &Message) -> Option<Signature>>(
    builder: RequestBuilder,
    blockhash: Blockhash,
    sign: F,
    transaction: Transaction,
)
    requires
        builder.spec_signed(blockhash, transaction, sign),
    ensures
        transaction.signers@.len() == builder.signers@.len() + 1,
        transaction.signatures@.len() >= 1,
        transaction.signers@[0] == builder.payer,
        sign.ensures((&builder.payer, &transaction.message), Some(transaction.signatures@[0])),
{
    assert(sign.ensures(
        (&transaction.signers@[0], &transaction.message),
        Some(transaction.signatures@[0]),
    ));
}

} // verus!
