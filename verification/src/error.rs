use vstd::prelude::*;

verus! {

/// Everything that can go wrong in a client operation.
#[derive(Debug, Clone)]
pub enum ClientError {
    /// The cluster could not be reached, refused the request, or had no such
    /// account. Carries the collaborator's own description.
    Transport(String),
    /// The bytes do not have the layout or the tag of the expected type.
    Decode,
    /// A signer refused, or failed, to sign the message.
    Signing,
    /// The private task runtime of a blocking client could not be created.
    RuntimeInit(String),
}

impl ClientError {
    /// Whether this is a transport failure.
    pub fn is_transport(&self) -> (r: bool)
        ensures
            r == (*self is Transport),
    {
        match self {
            ClientError::Transport(_) => true,
            _ => false,
        }
    }

    /// Whether this is a decode failure.
    pub fn is_decode(&self) -> (r: bool)
        ensures
            r == (*self is Decode),
    {
        match self {
            ClientError::Decode => true,
            _ => false,
        }
    }

    /// Whether this is a signing failure.
    pub fn is_signing(&self) -> (r: bool)
        ensures
            r == (*self is Signing),
    {
        match self {
            ClientError::Signing => true,
            _ => false,
        }
    }
}

} // verus!
