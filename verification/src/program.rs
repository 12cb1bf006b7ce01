use vstd::prelude::*;
use crate::error::ClientError;
use crate::request::RequestBuilder;
use crate::subscription::{EventUnsubscriber, Subscription, SubscriptionState};
use crate::types::{base58_text, Address, Commitment, Config};

verus! {

/// A condition on the accounts that a scan returns.
#[derive(Debug, Clone)]
pub enum AccountFilter {
    /// The account's data has exactly this many bytes.
    DataSize(u64),
    /// The account's data holds `bytes` at `offset`.
    Bytes { offset: usize, bytes: Vec<u8> },
}

/// The fetch of one account.
#[derive(Debug, Clone, Copy)]
pub struct AccountRequest {
    pub address: Address,
    pub commitment: Commitment,
}

/// The scan of a program's accounts.
#[derive(Debug, Clone)]
pub struct AccountsRequest {
    pub program_id: Address,
    pub commitment: Commitment,
    pub filters: Vec<AccountFilter>,
}

/// The request for a program's log stream.
#[derive(Debug, Clone)]
pub struct LogsRequest {
    /// The base58 text of the address that a transaction has to mention.
    pub mentions: Vec<u8>,
    pub commitment: Commitment,
}

/// An account as a scan returns it: its address and its raw data.
#[derive(Debug, Clone)]
pub struct RawAccount {
    pub address: Address,
    pub data: Vec<u8>,
}

/// The client of one deployed program.
#[derive(Debug)]
pub struct Program {
    pub program_id: Address,
    pub cfg: Config,
    /// Whether the program owns a private task runtime on which its calls
    /// are run to completion.
    pub blocking: bool,
    /// Whether the shared subscription client has been established.
    pub subscription_client: bool,
}

/// The accounts of one scan, decoded one by one as they are asked for.
pub struct ProgramAccountsIterator<F> {
    pub entries: Vec<RawAccount>,
    pub position: usize,
    pub decode: F,
}

/// `item` is what decoding `data` through `decode` gives: the value, or a
/// decode error where the codec rejects the bytes.
pub open spec fn spec_decoded<T, F: Fn(&Vec<u8>) -> Option<T>>(
    decode: F,
    data: Vec<u8>,
    item: Result<T, ClientError>,
) -> bool {
    match item {
        Ok(value) => decode.ensures((&data,), Some(value)),
        Err(e) => e is Decode && decode.ensures((&data,), None::<T>),
    }
}

/// `item` is what the scan's entry `entry` yields through `decode`.
pub open spec fn spec_yields<T, F: Fn(&Vec<u8>) -> Option<T>>(
    decode: F,
    entry: RawAccount,
    item: Result<(Address, T), ClientError>,
) -> bool {
    match item {
        Ok(pair) => pair.0 == entry.address && decode.ensures((&entry.data,), Some(pair.1)),
        Err(e) => e is Decode && decode.ensures((&entry.data,), None::<T>),
    }
}

/// `items` is what draining a scan of `entries` yields: one item for each
/// entry, in the entries' order.
pub open spec fn spec_drained<T, F: Fn(&Vec<u8>) -> Option<T>>(
    decode: F,
    entries: Seq<RawAccount>,
    items: Seq<Result<(Address, T), ClientError>>,
) -> bool {
    items.len() == entries.len() && forall|i: int|
        0 <= i < entries.len() ==> spec_yields(decode, entries[i], #[trigger] items[i])
}

/// `result` is what collecting a scan of `entries` returns: every pair in
/// order where every entry decodes, a decode error where some entry, after
/// entries that all decode, does not.
pub open spec fn spec_collected<T, F: Fn(&Vec<u8>) -> Option<T>>(
    decode: F,
    entries: Seq<RawAccount>,
    result: Result<Vec<(Address, T)>, ClientError>,
) -> bool {
    match result {
        Ok(pairs) => pairs@.len() == entries.len() && forall|i: int|
            0 <= i < entries.len() ==> spec_yields(
                decode,
                entries[i],
                Ok::<(Address, T), ClientError>(#[trigger] pairs@[i]),
            ),
        Err(e) => e is Decode && exists|k: int|
            0 <= k < entries.len() && #[trigger] decode.ensures((&entries[k].data,), None::<T>)
                && forall|i: int| 0 <= i < k ==> #[trigger] spec_accepts::<T, F>(decode, entries[i]),
    }
}

/// The codec accepts the data of `entry`.
pub open spec fn spec_accepts<T, F: Fn(&Vec<u8>) -> Option<T>>(decode: F, entry: RawAccount) -> bool {
    exists|value: T| decode.ensures((&entry.data,), Some(value))
}

/// The filters of a scan for the type tagged `tag`: first the match of the
/// tag at the start of the data, then the caller's filters in order.
pub open spec fn spec_scan_filters(tag: Seq<u8>, filters: Seq<AccountFilter>, all: Seq<
    AccountFilter,
>) -> bool {
    &&& all.len() == filters.len() + 1
    &&& all[0] matches AccountFilter::Bytes { offset, bytes } && offset == 0 && bytes@ == tag
    &&& all.subrange(1, all.len() as int) == filters
}

impl<F> ProgramAccountsIterator<F> {
    /// The position is inside the scan, and the codec takes any bytes.
    pub open spec fn wf<T>(&self) -> bool where F: Fn(&Vec<u8>) -> Option<T> {
        &&& self.position <= self.entries@.len()
        &&& forall|data: &Vec<u8>| self.decode.requires((data,))
    }

    /// One step of the iteration from this state: the end is signalled
    /// exactly at the end of the scan, and nothing moves then; before it,
    /// `item` is what the entry at the position yields, and the position
    /// moves on by one.
    pub open spec fn spec_step<T>(
        &self,
        item: Option<Result<(Address, T), ClientError>>,
        after: Self,
    ) -> bool where F: Fn(&Vec<u8>) -> Option<T> {
        &&& after.entries == self.entries
        &&& after.decode == self.decode
        &&& match item {
            None => self.position == self.entries@.len() && after.position == self.position,
            Some(found) => self.position < self.entries@.len() && after.position == self.position
                + 1 && spec_yields(self.decode, self.entries@[self.position as int], found),
        }
    }

    /// How many entries have not been asked for yet.
    pub fn remaining(&self) -> (n: usize)
        requires
            self.position <= self.entries@.len(),
        ensures
            n == self.entries@.len() - self.position,
    {
        self.entries.len() - self.position
    }

    /// Decodes the next entry of the scan. At the end of the scan the answer
    /// is `None`, and stays so. An entry that does not decode is a decode
    /// error for that entry alone: the scan goes on behind it.
    pub fn next<T>(&mut self) -> (item: Option<Result<(Address, T), ClientError>>) where
        F: Fn(&Vec<u8>) -> Option<T>,

        requires
            old(self).wf::<T>(),
        ensures
            final(self).wf::<T>(),
            old(self).spec_step(item, *final(self)),
    {
        if self.position >= self.entries.len() {
            return None;
        }
        let at = self.position;
        self.position = at + 1;
        let entry = &self.entries[at];
        match (self.decode)(&entry.data) {
            Some(value) => Some(Ok((entry.address, value))),
            None => Some(Err(ClientError::Decode)),
        }
    }
}

impl Program {
    /// What constructing a program gives: a runtime-init error with the
    /// reason where a private runtime was asked for and could not be
    /// created; otherwise the program, blocking exactly where it has a
    /// private runtime, with no subscription client yet.
    pub open spec fn spec_new(
        program_id: Address,
        cfg: Config,
        runtime: Option<Result<(), String>>,
        r: Result<Program, ClientError>,
    ) -> bool {
        match runtime {
            Some(Err(reason)) => r == Err::<Program, ClientError>(ClientError::RuntimeInit(reason)),
            _ => r == Ok::<Program, ClientError>(
                Program { program_id, cfg, blocking: runtime is Some, subscription_client: false },
            ),
        }
    }

    /// The client of the program at `program_id`. `runtime` is `None` for a
    /// non-blocking client, and for a blocking one the outcome of creating
    /// its private runtime. Nothing is contacted: the subscription client is
    /// established by the first subscription.
    pub fn new(program_id: Address, cfg: Config, runtime: Option<Result<(), String>>) -> (r: Result<
        Program,
        ClientError,
    >)
        ensures
            Self::spec_new(program_id, cfg, runtime, r),
    {
        match runtime {
            Some(Err(reason)) => Err(ClientError::RuntimeInit(reason)),
            Some(Ok(_)) => Ok(Program { program_id, cfg, blocking: true, subscription_client: false }),
            None => Ok(Program { program_id, cfg, blocking: false, subscription_client: false }),
        }
    }

    /// As `new`, for a caller that brings its own connections to the
    /// cluster: they stay with the caller, and the program is the same.
    pub fn new_with_rpc(program_id: Address, cfg: Config, runtime: Option<Result<(), String>>) -> (r:
        Result<Program, ClientError>)
        ensures
            Self::spec_new(program_id, cfg, runtime, r),
    {
        Self::new(program_id, cfg, runtime)
    }

    /// The program's address.
    pub fn id(&self) -> (r: Address)
        ensures
            r == self.program_id,
    {
        self.program_id
    }

    /// The payer's address.
    pub fn payer(&self) -> (r: Address)
        ensures
            r == self.cfg.payer,
    {
        self.cfg.payer
    }

    /// The commitment level of every read and subscription.
    pub fn commitment(&self) -> (r: Commitment)
        ensures
            r == Commitment::spec_or_default(self.cfg.options),
    {
        Commitment::or_default(self.cfg.options)
    }

    /// An empty request builder with a snapshot of this configuration.
    pub fn request(&self) -> (r: RequestBuilder)
        ensures
            r.program_id == self.program_id,
            r.cluster@ == self.cfg.cluster@,
            r.payer == self.cfg.payer,
            r.options == Commitment::spec_or_default(self.cfg.options),
            r.accounts@.len() == 0,
            r.instructions@.len() == 0,
            r.instruction_data is None,
            r.signers@.len() == 0,
    {
        RequestBuilder::from(
            self.program_id,
            self.cfg.cluster.as_str(),
            self.cfg.payer,
            self.cfg.options,
        )
    }

    /// What to ask the cluster for the account at `address`.
    pub fn account_request(&self, address: Address) -> (r: AccountRequest)
        ensures
            r.address == address,
            r.commitment == Commitment::spec_or_default(self.cfg.options),
    {
        AccountRequest { address, commitment: self.commitment() }
    }

    /// The account that the cluster answered with, decoded. `fetched` is the
    /// outcome of the fetch: the account's data, `None` where there is no
    /// such account, or the reason of a failure.
    ///
    /// A failed fetch and a missing account are transport errors; data that
    /// the codec rejects is a decode error; otherwise the result is what the
    /// codec makes of the data.
    pub fn account<T, F: Fn(&Vec<u8>) -> Option<T>>(
        &self,
        fetched: Result<Option<Vec<u8>>, String>,
        decode: &F,
    ) -> (r: Result<T, ClientError>)
        requires
            forall|data: &Vec<u8>| decode.requires((data,)),
        ensures
            match fetched {
                Err(reason) => r == Err::<T, ClientError>(ClientError::Transport(reason)),
                Ok(None) => r matches Err(e) && e is Transport && e->Transport_0@
                    == "account not found"@,
                Ok(Some(data)) => spec_decoded(*decode, data, r),
            },
    {
        match fetched {
            Err(reason) => Err(ClientError::Transport(reason)),
            Ok(None) => Err(ClientError::Transport("account not found".to_owned())),
            Ok(Some(data)) => match decode(&data) {
                Some(value) => Ok(value),
                None => Err(ClientError::Decode),
            },
        }
    }

    /// What to ask the cluster for the program's accounts of the type tagged
    /// `tag` that match `filters`: the match of the tag comes first, the
    /// caller's filters follow unchanged.
    pub fn accounts_request(&self, tag: &[u8; 8], filters: Vec<AccountFilter>) -> (r:
        AccountsRequest)
        ensures
            r.program_id == self.program_id,
            r.commitment == Commitment::spec_or_default(self.cfg.options),
            spec_scan_filters(tag@, filters@, r.filters@),
    {
        let mut bytes: Vec<u8> = Vec::new();
        let mut i: usize = 0;
        while i < 8
            invariant
                i <= 8,
                bytes@ == tag@.subrange(0, i as int),
            decreases 8 - i,
        {
            bytes.push(tag[i]);
            assert(bytes@ =~= tag@.subrange(0, i + 1));
            i += 1;
        }
        assert(bytes@ =~= tag@);
        let mut all: Vec<AccountFilter> = Vec::new();
        all.push(AccountFilter::Bytes { offset: 0, bytes });
        let ghost given = filters@;
        let mut filters = filters;
        all.append(&mut filters);
        assert(all@.subrange(1, all@.len() as int) =~= given);
        AccountsRequest { program_id: self.program_id, commitment: self.commitment(), filters: all }
    }

    /// The accounts that a scan returned, to be decoded as they are asked
    /// for. A failed scan is a transport error; otherwise the iterator
    /// stands before the first entry.
    pub fn accounts_lazy<T, F: Fn(&Vec<u8>) -> Option<T>>(
        &self,
        fetched: Result<Vec<RawAccount>, String>,
        decode: F,
    ) -> (r: Result<ProgramAccountsIterator<F>, ClientError>)
        requires
            forall|data: &Vec<u8>| decode.requires((data,)),
        ensures
            match fetched {
                Err(reason) => r matches Err(e) && e == ClientError::Transport(reason),
                Ok(entries) => r matches Ok(it) && it.entries == entries && it.position == 0
                    && it.decode == decode && it.wf::<T>(),
            },
    {
        match fetched {
            Err(reason) => Err(ClientError::Transport(reason)),
            Ok(entries) => Ok(ProgramAccountsIterator { entries, position: 0, decode }),
        }
    }

    /// The accounts that a scan returned, all decoded, in the scan's order:
    /// what draining `accounts_lazy` yields, up to the first entry that does
    /// not decode, whose error is then the result.
    pub fn accounts<T, F: Fn(&Vec<u8>) -> Option<T>>(
        &self,
        fetched: Result<Vec<RawAccount>, String>,
        decode: F,
    ) -> (r: Result<Vec<(Address, T)>, ClientError>)
        requires
            forall|data: &Vec<u8>| decode.requires((data,)),
        ensures
            match fetched {
                Err(reason) => r == Err::<Vec<(Address, T)>, ClientError>(
                    ClientError::Transport(reason),
                ),
                Ok(entries) => spec_collected(decode, entries@, r),
            },
    {
        let mut it = match self.accounts_lazy::<T, F>(fetched, decode) {
            Ok(it) => it,
            Err(e) => {
                return Err(e);
            },
        };
        let mut pairs: Vec<(Address, T)> = Vec::new();
        loop
            invariant
                it.wf::<T>(),
                it.decode == decode,
                fetched == Ok::<Vec<RawAccount>, String>(it.entries),
                pairs@.len() == it.position,
                forall|i: int|
                    0 <= i < it.position ==> spec_yields(
                        decode,
                        it.entries@[i],
                        Ok::<(Address, T), ClientError>(#[trigger] pairs@[i]),
                    ),
            decreases it.entries@.len() - it.position,
        {
            let ghost at = it.position as int;
            match it.next::<T>() {
                None => {
                    return Ok(pairs);
                },
                Some(Ok(pair)) => {
                    pairs.push(pair);
                },
                Some(Err(e)) => {
                    proof {
                        assert(decode.ensures((&it.entries@[at].data,), None::<T>));
                        assert forall|i: int| 0 <= i < at implies #[trigger] spec_accepts::<T, F>(
                            decode,
                            it.entries@[i],
                        ) by {
                            assert(spec_yields(
                                decode,
                                it.entries@[i],
                                Ok::<(Address, T), ClientError>(pairs@[i]),
                            ));
                            assert(decode.ensures((&it.entries@[i].data,), Some(pairs@[i].1)));
                        }
                    }
                    return Err(e);
                },
            }
        }
    }

    /// What to ask the subscription client for: the logs of the
    /// transactions that mention this program, at the configured commitment
    /// level.
    pub fn logs_request(&self) -> (r: LogsRequest)
        ensures
            r.mentions@ == base58_text(self.program_id.bytes@),
            r.commitment == Commitment::spec_or_default(self.cfg.options),
    {
        LogsRequest { mentions: self.program_id.to_text(), commitment: self.commitment() }
    }

    /// Whether the next subscription has to establish the subscription
    /// client first.
    pub fn needs_subscription_client(&self) -> (r: bool)
        ensures
            r == !self.subscription_client,
    {
        !self.subscription_client
    }

    /// What `on` returns. The connection outcome counts only where the
    /// subscription client is not established yet, the stream outcome only
    /// where the client is established, before or by this call.
    pub open spec fn spec_on(
        &self,
        tag: [u8; 8],
        connection: Result<(), String>,
        stream: Result<(), String>,
        r: Result<EventUnsubscriber, ClientError>,
        after: Program,
    ) -> bool {
        &&& after.program_id == self.program_id
        &&& after.cfg == self.cfg
        &&& after.blocking == self.blocking
        &&& if !self.subscription_client && connection is Err {
            !after.subscription_client && r == Err::<EventUnsubscriber, ClientError>(
                ClientError::Transport(connection->Err_0),
            )
        } else {
            after.subscription_client && match stream {
                Err(reason) => r == Err::<EventUnsubscriber, ClientError>(
                    ClientError::Transport(reason),
                ),
                Ok(_) => r == Ok::<EventUnsubscriber, ClientError>(
                    EventUnsubscriber {
                        subscription: Subscription {
                            program: self.program_id,
                            tag,
                            state: SubscriptionState::Subscribed,
                            delivered: 0,
                        },
                    },
                ),
            }
        }
    }

    /// Starts a subscription to this program's events of the type tagged
    /// `tag`. `connection` is the outcome of establishing the shared
    /// subscription client; it counts only where the client is not
    /// established yet. `stream` is the answer to the request for the log
    /// stream, made once the client is established.
    ///
    /// A failed connection is a transport error and leaves the client to be
    /// established by a later call. A refused stream is a transport error
    /// too. Otherwise the result is the handle of a new subscription whose
    /// stream is open.
    pub fn on(
        &mut self,
        tag: [u8; 8],
        connection: Result<(), String>,
        stream: Result<(), String>,
    ) -> (r: Result<EventUnsubscriber, ClientError>)
        ensures
            old(self).spec_on(tag, connection, stream, r, *final(self)),
    {
        if !self.subscription_client {
            match connection {
                Ok(_) => {
                    self.subscription_client = true;
                },
                Err(reason) => {
                    return Err(ClientError::Transport(reason));
                },
            }
        }
        match stream {
            Err(reason) => Err(ClientError::Transport(reason)),
            Ok(_) => {
                let mut subscription = Subscription::new(self.program_id, tag);
                subscription.stream_opened(true);
                Ok(EventUnsubscriber::new(subscription))
            },
        }
    }
}

} // verus!
