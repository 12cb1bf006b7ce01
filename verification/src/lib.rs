//! Core of a client for a deployed on-chain program: reading and decoding its
//! accounts, assembling signed transactions, and following the events it emits.
//!
//! Network access, signing keys and the task runtime are supplied by the caller;
//! every decision the client makes is a verified function of plain values.

pub mod types;
pub mod error;
pub mod codec;
pub mod events;
pub mod subscription;
pub mod request;
pub mod program;
pub mod laws;

pub use error::ClientError;
pub use events::{Event, LogLine, Notification};
pub use program::{
    AccountFilter, AccountRequest, AccountsRequest, LogsRequest, Program, ProgramAccountsIterator,
    RawAccount,
};
pub use request::{
    AccountMeta, Instruction, Message, RequestBuilder, SendConfig, Submission, Transaction,
};
pub use subscription::{
    EventUnsubscriber, Shutdown, ShutdownStep, Subscription, SubscriptionState,
};
pub use types::{Address, Blockhash, Commitment, Config, EventContext, Signature};
