use vstd::prelude::*;

verus! {

/// A fixed-size address: the identity of a program, an account or a signer.
#[derive(Debug, Clone, Copy)]
pub struct Address {
    pub bytes: [u8; 32],
}

impl Address {
    pub fn new(bytes: [u8; 32]) -> (r: Address)
        ensures
            r.bytes == bytes,
    {
        Address { bytes }
    }

    /// The address in base58, as log filters and log lines name it.
    pub fn to_text(&self) -> (text: Vec<u8>)
        ensures
            text@ == base58_text(self.bytes@),
    {
        address_text(self)
    }

    /// Byte-wise equality of two addresses.
    pub fn same(&self, other: &Address) -> (r: bool)
        ensures
            r == (self.bytes@ == other.bytes@),
    {
        let mut i: usize = 0;
        while i < 32
            invariant
                i <= 32,
                forall|j: int| 0 <= j < i ==> self.bytes@[j] == other.bytes@[j],
            decreases 32 - i,
        {
            if self.bytes[i] != other.bytes[i] {
                return false;
            }
            i += 1;
        }
        assert(self.bytes@ =~= other.bytes@);
        true
    }
}

/// The base58 text of an address, as the cluster's tools and log lines
/// print it, one byte for each character.
pub uninterp spec fn base58_text(bytes: Seq<u8>) -> Seq<u8>;

/// Calls `to_string` of `solana_sdk::pubkey::Pubkey` on the key made of the
/// address's bytes, and hands out the bytes of that string. The result is
/// the base58 encoding of the 32 bytes, a function of the bytes alone.
#[verifier::external_body]
fn address_text(address: &Address) -> (text: Vec<u8>)
    ensures
        text@ == base58_text(address.bytes@),
{
    solana_sdk::pubkey::Pubkey::new_from_array(address.bytes).to_string().into_bytes()
}

/// How final the cluster's state must be before it is read or reported.
#[derive(Debug, Clone, Copy, PartialEq, Eq, Structural)]
pub enum Commitment {
    Processed,
    Confirmed,
    Finalized,
}

impl Commitment {
    /// The level that applies where the configuration names none.
    pub open spec fn spec_or_default(options: Option<Commitment>) -> Commitment {
        match options {
            Some(c) => c,
            None => Commitment::Finalized,
        }
    }

    pub fn or_default(options: Option<Commitment>) -> (r: Commitment)
        ensures
            r == Self::spec_or_default(options),
    {
        match options {
            Some(c) => c,
            None => Commitment::Finalized,
        }
    }
}

/// What a `Program` is built from. It does not change afterwards.
#[derive(Debug, Clone)]
pub struct Config {
    /// Where the cluster is reached.
    pub cluster: String,
    /// The address of the signer that pays for every transaction.
    pub payer: Address,
    /// The commitment level, if the caller chose one.
    pub options: Option<Commitment>,
}

/// The hash of a recent block, which dates a transaction.
#[derive(Debug, Clone, Copy)]
pub struct Blockhash {
    pub bytes: [u8; 32],
}

/// A signature over a message.
#[derive(Debug, Clone, Copy)]
pub struct Signature {
    pub bytes: [u8; 64],
}

/// Where an event was observed.
#[derive(Debug, Clone, Copy)]
pub struct EventContext {
    /// The signature of the transaction that emitted the event.
    pub signature: Signature,
    /// The slot in which that transaction was processed.
    pub slot: u64,
}

} // verus!
