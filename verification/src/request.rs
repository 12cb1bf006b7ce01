use vstd::prelude::*;
use crate::error::ClientError;
use crate::types::{Address, Blockhash, Commitment, Signature};

verus! {

/// One account that an instruction touches.
#[derive(Debug, Clone, Copy)]
pub struct AccountMeta {
    pub address: Address,
    pub is_signer: bool,
    pub is_writable: bool,
}

/// A directive to a program: which program, on which accounts, with what data.
#[derive(Debug, Clone)]
pub struct Instruction {
    pub program_id: Address,
    pub accounts: Vec<AccountMeta>,
    pub data: Vec<u8>,
}

pub struct InstructionView {
    pub program_id: Address,
    pub accounts: Seq<AccountMeta>,
    pub data: Seq<u8>,
}

impl View for Instruction {
    type V = InstructionView;

    open spec fn view(&self) -> InstructionView {
        InstructionView { program_id: self.program_id, accounts: self.accounts@, data: self.data@ }
    }
}

/// What the signers sign: the instructions, who pays, and a recent blockhash.
#[derive(Debug, Clone)]
pub struct Message {
    pub fee_payer: Address,
    pub instructions: Vec<Instruction>,
    pub recent_blockhash: Blockhash,
}

pub struct MessageView {
    pub fee_payer: Address,
    pub instructions: Seq<InstructionView>,
    pub recent_blockhash: Blockhash,
}

impl View for Message {
    type V = MessageView;

    open spec fn view(&self) -> MessageView {
        MessageView {
            fee_payer: self.fee_payer,
            instructions: spec_instruction_views(self.instructions@),
            recent_blockhash: self.recent_blockhash,
        }
    }
}

/// A message with the signature of each of its signers, in the signers' order.
#[derive(Debug, Clone)]
pub struct Transaction {
    pub message: Message,
    pub signers: Vec<Address>,
    pub signatures: Vec<Signature>,
}

/// How a transaction is submitted.
#[derive(Debug, Clone, Copy)]
pub struct SendConfig {
    pub skip_preflight: bool,
    pub preflight_commitment: Option<Commitment>,
    pub max_retries: Option<usize>,
}

/// A signed transaction on its way to the cluster.
#[derive(Debug, Clone)]
pub struct Submission {
    pub transaction: Transaction,
    pub config: SendConfig,
    /// The commitment level to wait for after the cluster has acknowledged
    /// the transaction; `None` where the acknowledgement is enough.
    pub confirm: Option<Commitment>,
}

/// The pieces of one transaction, gathered step by step.
#[derive(Debug, Clone)]
pub struct RequestBuilder {
    pub program_id: Address,
    pub cluster: String,
    pub payer: Address,
    pub options: Commitment,
    pub accounts: Vec<AccountMeta>,
    pub instructions: Vec<Instruction>,
    pub instruction_data: Option<Vec<u8>>,
    pub signers: Vec<Address>,
}

pub open spec fn spec_instruction_views(instructions: Seq<Instruction>) -> Seq<InstructionView> {
    instructions.map_values(|ix: Instruction| ix@)
}

/// The first position in `metas` that holds `address`, or the length of
/// `metas` where none does.
pub open spec fn spec_find(metas: Seq<AccountMeta>, address: Address) -> int
    decreases metas.len(),
{
    if metas.len() == 0 {
        0
    } else if metas[0].address.bytes@ == address.bytes@ {
        0
    } else {
        1 + spec_find(metas.skip(1), address)
    }
}

/// `metas` with `meta` written: in place of the entry for the same address
/// where there is one, at the end where there is none.
pub open spec fn spec_put(metas: Seq<AccountMeta>, meta: AccountMeta) -> Seq<AccountMeta> {
    let at = spec_find(metas, meta.address);
    if at < metas.len() {
        metas.update(at, meta)
    } else {
        metas.push(meta)
    }
}

/// `metas` with every entry of `added` written, in order.
pub open spec fn spec_put_all(metas: Seq<AccountMeta>, added: Seq<AccountMeta>) -> Seq<AccountMeta>
    decreases added.len(),
{
    if added.len() == 0 {
        metas
    } else {
        spec_put(spec_put_all(metas, added.drop_last()), added.last())
    }
}

/// No two entries of `metas` are for the same address.
pub open spec fn spec_unique(metas: Seq<AccountMeta>) -> bool {
    forall|i: int, j: int|
        0 <= i < j < metas.len() ==> metas[i].address.bytes@ != metas[j].address.bytes@
}

/// `spec_find` stays inside `metas`, passes over no entry for `address`, and
/// stops only at one.
pub proof fn lemma_find_first(metas: Seq<AccountMeta>, address: Address)
    ensures
        0 <= spec_find(metas, address) <= metas.len(),
        forall|j: int|
            0 <= j < spec_find(metas, address) ==> metas[j].address.bytes@ != address.bytes@,
        spec_find(metas, address) < metas.len() ==> metas[spec_find(
            metas,
            address,
        )].address.bytes@ == address.bytes@,
    decreases metas.len(),
{
    if metas.len() > 0 && metas[0].address.bytes@ != address.bytes@ {
        let rest = metas.skip(1);
        lemma_find_first(rest, address);
        let at = spec_find(rest, address);
        assert forall|j: int| 0 <= j < at + 1 implies metas[j].address.bytes@
            != address.bytes@ by {
            if j > 0 {
                assert(rest[j - 1] == metas[j]);
            }
        }
        if at < rest.len() {
            assert(rest[at] == metas[at + 1]);
        }
    }
}

/// `spec_find` is the position before which no entry holds `address` and at
/// which, inside `metas`, one does.
pub proof fn lemma_find(metas: Seq<AccountMeta>, address: Address, at: int)
    requires
        0 <= at <= metas.len(),
        forall|j: int| 0 <= j < at ==> metas[j].address.bytes@ != address.bytes@,
        at < metas.len() ==> metas[at].address.bytes@ == address.bytes@,
    ensures
        spec_find(metas, address) == at,
    decreases metas.len(),
{
    if metas.len() > 0 && at > 0 {
        let rest = metas.skip(1);
        assert forall|j: int| 0 <= j < at - 1 implies rest[j].address.bytes@ != address.bytes@ by {
            assert(rest[j] == metas[j + 1]);
        }
        lemma_find(rest, address, at - 1);
    }
}

/// Writes `meta` into `metas`: the last write for an address stands.
pub fn put_account(metas: &mut Vec<AccountMeta>, meta: AccountMeta)
    ensures
        final(metas)@ == spec_put(old(metas)@, meta),
{
    let mut i: usize = 0;
    while i < metas.len()
        invariant
            i <= metas@.len(),
            metas@ == old(metas)@,
            forall|j: int| 0 <= j < i ==> metas@[j].address.bytes@ != meta.address.bytes@,
        decreases metas@.len() - i,
    {
        if metas[i].address.same(&meta.address) {
            proof {
                lemma_find(metas@, meta.address, i as int);
            }
            metas.set(i, meta);
            return;
        }
        i += 1;
    }
    proof {
        lemma_find(metas@, meta.address, i as int);
    }
    metas.push(meta);
}

/// A copy of `bytes`.
pub fn copy_bytes(bytes: &Vec<u8>) -> (r: Vec<u8>)
    ensures
        r@ == bytes@,
{
    let mut r: Vec<u8> = Vec::new();
    let mut i: usize = 0;
    while i < bytes.len()
        invariant
            i <= bytes@.len(),
            r@ == bytes@.subrange(0, i as int),
        decreases bytes@.len() - i,
    {
        r.push(bytes[i]);
        assert(r@ =~= bytes@.subrange(0, i + 1));
        i += 1;
    }
    assert(r@ =~= bytes@);
    r
}

/// A copy of `metas`.
pub fn copy_accounts(metas: &Vec<AccountMeta>) -> (r: Vec<AccountMeta>)
    ensures
        r@ == metas@,
{
    let mut r: Vec<AccountMeta> = Vec::new();
    let mut i: usize = 0;
    while i < metas.len()
        invariant
            i <= metas@.len(),
            r@ == metas@.subrange(0, i as int),
        decreases metas@.len() - i,
    {
        r.push(metas[i]);
        assert(r@ =~= metas@.subrange(0, i + 1));
        i += 1;
    }
    assert(r@ =~= metas@);
    r
}

impl Instruction {
    /// A copy of this instruction.
    pub fn duplicate(&self) -> (r: Instruction)
        ensures
            r@ == self@,
    {
        Instruction {
            program_id: self.program_id,
            accounts: copy_accounts(&self.accounts),
            data: copy_bytes(&self.data),
        }
    }
}

impl SendConfig {
    /// The configuration of a plain `send`: preflight checks on, and the
    /// retry policy left to the cluster's client.
    pub fn standard() -> (r: SendConfig)
        ensures
            r == (SendConfig { skip_preflight: false, preflight_commitment: None, max_retries: None }),
    {
        SendConfig { skip_preflight: false, preflight_commitment: None, max_retries: None }
    }
}

impl Submission {
    /// The result of a submission, from what the cluster's client answered:
    /// the transaction's signature, or the transport failure it reported.
    pub fn acknowledged(self, outcome: Result<Signature, String>) -> (r: Result<
        Signature,
        ClientError,
    >)
        ensures
            r == match outcome {
                Ok(signature) => Ok::<Signature, ClientError>(signature),
                Err(reason) => Err::<Signature, ClientError>(ClientError::Transport(reason)),
            },
    {
        match outcome {
            Ok(signature) => Ok(signature),
            Err(reason) => Err(ClientError::Transport(reason)),
        }
    }
}

impl RequestBuilder {
    /// The instructions of the transaction: those added one by one, in the
    /// order they were added, and after them, where fixed instruction data
    /// was set, one instruction to the builder's program with that data and
    /// the builder's accounts.
    pub open spec fn spec_instructions(&self) -> Seq<InstructionView> {
        let added = spec_instruction_views(self.instructions@);
        match self.instruction_data {
            Some(data) => added.push(
                InstructionView {
                    program_id: self.program_id,
                    accounts: self.accounts@,
                    data: data@,
                },
            ),
            None => added,
        }
    }

    /// Who signs: the payer first, then the additional signers as supplied.
    pub open spec fn spec_signers(&self) -> Seq<Address> {
        seq![self.payer] + self.signers@
    }

    /// The message that is signed when the latest blockhash is `blockhash`.
    pub open spec fn spec_message(&self, blockhash: Blockhash) -> MessageView {
        MessageView {
            fee_payer: self.payer,
            instructions: self.spec_instructions(),
            recent_blockhash: blockhash,
        }
    }

    /// `transaction` is this builder's transaction for `blockhash`, signed
    /// through `sign` by every signer in order.
    pub open spec fn spec_signed<F: Fn(&Address, &Message) -> Option<Signature>>(
        &self,
        blockhash: Blockhash,
        transaction: Transaction,
        sign: F,
    ) -> bool {
        &&& transaction.message@ == self.spec_message(blockhash)
        &&& transaction.signers@ == self.spec_signers()
        &&& transaction.signatures@.len() == transaction.signers@.len()
        &&& forall|i: int|
            0 <= i < transaction.signers@.len() ==> #[trigger] sign.ensures(
                (&transaction.signers@[i], &transaction.message),
                Some(transaction.signatures@[i]),
            )
    }

    /// One of this builder's signers refused its message for `blockhash`.
    pub open spec fn spec_refused<F: Fn(&Address, &Message) -> Option<Signature>>(
        &self,
        blockhash: Blockhash,
        sign: F,
    ) -> bool {
        exists|message: Message, i: int|
            message@ == self.spec_message(blockhash) && 0 <= i < self.spec_signers().len()
                && #[trigger] sign.ensures((&self.spec_signers()[i], &message), None)
    }

    /// What `signed_transaction` returns from the outcome of the blockhash
    /// query and the signers' answers.
    pub open spec fn spec_signing_result<F: Fn(&Address, &Message) -> Option<Signature>>(
        &self,
        blockhash: Result<Blockhash, String>,
        sign: F,
        result: Result<Transaction, ClientError>,
    ) -> bool {
        match blockhash {
            Err(reason) => result == Err::<Transaction, ClientError>(ClientError::Transport(reason)),
            Ok(hash) => match result {
                Ok(transaction) => self.spec_signed(hash, transaction, sign),
                Err(e) => e is Signing && self.spec_refused(hash, sign),
            },
        }
    }

    /// An empty builder for `program_id` with a snapshot of the owner's
    /// cluster, payer and commitment level (the default where none is given).
    pub fn from(program_id: Address, cluster: &str, payer: Address, options: Option<Commitment>) -> (r:
        RequestBuilder)
        ensures
            r.program_id == program_id,
            r.cluster@ == cluster@,
            r.payer == payer,
            r.options == Commitment::spec_or_default(options),
            r.accounts@.len() == 0,
            r.instructions@.len() == 0,
            r.instruction_data is None,
            r.signers@.len() == 0,
    {
        RequestBuilder {
            program_id,
            cluster: cluster.to_owned(),
            payer,
            options: Commitment::or_default(options),
            accounts: Vec::new(),
            instructions: Vec::new(),
            instruction_data: None,
            signers: Vec::new(),
        }
    }

    /// As `from`, for signers that are shared between threads.
    pub fn from_threadsafe(
        program_id: Address,
        cluster: &str,
        payer: Address,
        options: Option<Commitment>,
    ) -> (r: RequestBuilder)
        ensures
            r.program_id == program_id,
            r.cluster@ == cluster@,
            r.payer == payer,
            r.options == Commitment::spec_or_default(options),
            r.accounts@.len() == 0,
            r.instructions@.len() == 0,
            r.instruction_data is None,
            r.signers@.len() == 0,
    {
        Self::from(program_id, cluster, payer, options)
    }

    /// Adds an instruction after those already there.
    pub fn instruction(self, ix: Instruction) -> (r: RequestBuilder)
        ensures
            r.instructions@ == self.instructions@.push(ix),
            r.program_id == self.program_id,
            r.cluster == self.cluster,
            r.payer == self.payer,
            r.options == self.options,
            r.accounts == self.accounts,
            r.instruction_data == self.instruction_data,
            r.signers == self.signers,
    {
        let mut r = self;
        r.instructions.push(ix);
        r
    }

    /// Writes account metadata, entry by entry: an entry for an address that
    /// the builder already holds replaces the earlier one, a new address is
    /// added at the end.
    pub fn accounts(self, metas: Vec<AccountMeta>) -> (r: RequestBuilder)
        ensures
            r.accounts@ == spec_put_all(self.accounts@, metas@),
            r.program_id == self.program_id,
            r.cluster == self.cluster,
            r.payer == self.payer,
            r.options == self.options,
            r.instructions == self.instructions,
            r.instruction_data == self.instruction_data,
            r.signers == self.signers,
    {
        let mut r = self;
        let mut i: usize = 0;
        assert(metas@.subrange(0, 0) =~= Seq::<AccountMeta>::empty());
        while i < metas.len()
            invariant
                i <= metas@.len(),
                r.accounts@ == spec_put_all(self.accounts@, metas@.subrange(0, i as int)),
                r.program_id == self.program_id,
                r.cluster == self.cluster,
                r.payer == self.payer,
                r.options == self.options,
                r.instructions == self.instructions,
                r.instruction_data == self.instruction_data,
                r.signers == self.signers,
            decreases metas@.len() - i,
        {
            proof {
                let upto = metas@.subrange(0, i + 1);
                assert(upto.drop_last() =~= metas@.subrange(0, i as int));
                assert(upto.last() == metas@[i as int]);
            }
            put_account(&mut r.accounts, metas[i]);
            i += 1;
        }
        assert(metas@.subrange(0, i as int) =~= metas@);
        r
    }

    /// Adds a signer after those already there. Nothing is checked: a
    /// signer given twice signs twice.
    pub fn signer(self, signer: Address) -> (r: RequestBuilder)
        ensures
            r.signers@ == self.signers@.push(signer),
            r.program_id == self.program_id,
            r.cluster == self.cluster,
            r.payer == self.payer,
            r.options == self.options,
            r.accounts == self.accounts,
            r.instructions == self.instructions,
            r.instruction_data == self.instruction_data,
    {
        let mut r = self;
        r.signers.push(signer);
        r
    }

    /// Sets the fixed instruction data, in place of any set before.
    pub fn args(self, data: Vec<u8>) -> (r: RequestBuilder)
        ensures
            r.instruction_data == Some(data),
            r.program_id == self.program_id,
            r.cluster == self.cluster,
            r.payer == self.payer,
            r.options == self.options,
            r.accounts == self.accounts,
            r.instructions == self.instructions,
            r.signers == self.signers,
    {
        let mut r = self;
        r.instruction_data = Some(data);
        r
    }

    /// The instructions of the transaction, in order.
    pub fn instructions(&self) -> (r: Vec<Instruction>)
        ensures
            spec_instruction_views(r@) == self.spec_instructions(),
    {
        let mut r: Vec<Instruction> = Vec::new();
        let mut i: usize = 0;
        assert(spec_instruction_views(r@) =~= spec_instruction_views(
            self.instructions@,
        ).subrange(0, 0));
        while i < self.instructions.len()
            invariant
                i <= self.instructions@.len(),
                spec_instruction_views(r@) == spec_instruction_views(self.instructions@).subrange(
                    0,
                    i as int,
                ),
            decreases self.instructions@.len() - i,
        {
            let ghost before = spec_instruction_views(r@);
            let ix = self.instructions[i].duplicate();
            r.push(ix);
            assert(spec_instruction_views(r@) =~= before.push(ix@));
            assert(spec_instruction_views(r@) =~= spec_instruction_views(
                self.instructions@,
            ).subrange(0, i + 1));
            i += 1;
        }
        assert(spec_instruction_views(r@) =~= spec_instruction_views(self.instructions@));
        match &self.instruction_data {
            Some(data) => {
                let ghost before = spec_instruction_views(r@);
                let ix = Instruction {
                    program_id: self.program_id,
                    accounts: copy_accounts(&self.accounts),
                    data: copy_bytes(data),
                };
                r.push(ix);
                assert(spec_instruction_views(r@) =~= before.push(ix@));
            },
            None => {},
        }
        r
    }

    /// The signers of the transaction: the payer, then the additional
    /// signers in the order they were supplied.
    pub fn transaction_signers(&self) -> (r: Vec<Address>)
        ensures
            r@ == self.spec_signers(),
    {
        let mut r: Vec<Address> = Vec::new();
        r.push(self.payer);
        let mut i: usize = 0;
        assert(r@ =~= seq![self.payer] + self.signers@.subrange(0, 0));
        while i < self.signers.len()
            invariant
                i <= self.signers@.len(),
                r@ == seq![self.payer] + self.signers@.subrange(0, i as int),
            decreases self.signers@.len() - i,
        {
            r.push(self.signers[i]);
            assert(r@ =~= seq![self.payer] + self.signers@.subrange(0, i + 1));
            i += 1;
        }
        assert(self.signers@.subrange(0, i as int) =~= self.signers@);
        r
    }

    /// The commitment level at which the latest blockhash is asked for: the
    /// builder's own.
    pub fn blockhash_commitment(&self) -> (r: Commitment)
        ensures
            r == self.options,
    {
        self.options
    }

    /// Assembles the message for the latest blockhash and has it signed by
    /// the payer and then by each additional signer. `blockhash` is the
    /// outcome of the blockhash query at the builder's commitment level;
    /// `sign` asks the signer with the given address for its signature.
    ///
    /// A failed query is a transport error with the query's reason; a signer
    /// that answers `None` is a signing error. The builder can be used again.
    pub fn signed_transaction<F: Fn(&Address, &Message) -> Option<Signature>>(
        &self,
        blockhash: Result<Blockhash, String>,
        sign: &F,
    ) -> (r: Result<Transaction, ClientError>)
        requires
            forall|a: &Address, m: &Message| sign.requires((a, m)),
        ensures
            self.spec_signing_result(blockhash, *sign, r),
    {
        let hash = match blockhash {
            Ok(hash) => hash,
            Err(reason) => {
                return Err(ClientError::Transport(reason));
            },
        };
        let message = Message {
            fee_payer: self.payer,
            instructions: self.instructions(),
            recent_blockhash: hash,
        };
        let signers = self.transaction_signers();
        let mut signatures: Vec<Signature> = Vec::new();
        let mut i: usize = 0;
        while i < signers.len()
            invariant
                i <= signers@.len(),
                signatures@.len() == i,
                signers@ == self.spec_signers(),
                message@ == self.spec_message(hash),
                blockhash == Ok::<Blockhash, String>(hash),
                forall|a: &Address, m: &Message| sign.requires((a, m)),
                forall|j: int|
                    0 <= j < i ==> #[trigger] sign.ensures(
                        (&signers@[j], &message),
                        Some(signatures@[j]),
                    ),
            decreases signers@.len() - i,
        {
            match sign(&signers[i], &message) {
                Some(signature) => {
                    signatures.push(signature);
                },
                None => {
                    assert(signers@[i as int] == self.spec_signers()[i as int]);
                    assert(sign.ensures((&self.spec_signers()[i as int], &message), None));
                    assert(self.spec_refused(hash, *sign));
                    return Err(ClientError::Signing);
                },
            }
            i += 1;
        }
        Ok(Transaction { message, signers, signatures })
    }

    /// Signs the transaction as `signed_transaction` does and hands it over
    /// for submission with the standard configuration. The cluster's
    /// acknowledgement completes it; no confirmation is waited for. The
    /// builder is used up.
    pub fn send<F: Fn(&Address, &Message) -> Option<Signature>>(
        self,
        blockhash: Result<Blockhash, String>,
        sign: &F,
    ) -> (r: Result<Submission, ClientError>)
        requires
            forall|a: &Address, m: &Message| sign.requires((a, m)),
        ensures
            match r {
                Ok(submission) => self.spec_signing_result(
                    blockhash,
                    *sign,
                    Ok(submission.transaction),
                ) && submission.config == (SendConfig {
                    skip_preflight: false,
                    preflight_commitment: None,
                    max_retries: None,
                }) && submission.confirm is None,
                Err(e) => self.spec_signing_result(blockhash, *sign, Err(e)),
            },
    {
        match self.signed_transaction(blockhash, sign) {
            Ok(transaction) => Ok(
                Submission { transaction, config: SendConfig::standard(), confirm: None },
            ),
            Err(e) => Err(e),
        }
    }

    /// Signs the transaction as `signed_transaction` does and hands it over
    /// for submission with the caller's configuration, to be followed until
    /// it reaches the builder's commitment level. The builder is used up.
    pub fn send_with_spinner_and_config<F: Fn(&Address, &Message) -> Option<Signature>>(
        self,
        config: SendConfig,
        blockhash: Result<Blockhash, String>,
        sign: &F,
    ) -> (r: Result<Submission, ClientError>)
        requires
            forall|a: &Address, m: &Message| sign.requires((a, m)),
        ensures
            match r {
                Ok(submission) => self.spec_signing_result(
                    blockhash,
                    *sign,
                    Ok(submission.transaction),
                ) && submission.config == config && submission.confirm == Some(self.options),
                Err(e) => self.spec_signing_result(blockhash, *sign, Err(e)),
            },
    {
        match self.signed_transaction(blockhash, sign) {
            Ok(transaction) => Ok(Submission { transaction, config, confirm: Some(self.options) }),
            Err(e) => Err(e),
        }
    }
}

} // verus!
