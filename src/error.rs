use vstd::prelude::*;

verus! {

/// The four ways a bridged call can fail, each kept apart from the others.
#[derive(Debug, Clone, PartialEq, Eq)]
pub enum BridgeError {
    /// The outer envelope could not be serialized; no call was made.
    Serialization(String),
    /// The querier could not deliver or answer the call; carries its message verbatim.
    Transport(String),
    /// The remote operation rejected the call; carries its message verbatim.
    Remote(String),
    /// The reply bytes could not be parsed into the expected response.
    Decode(String),
}

impl BridgeError {
    /// The message carried by the error, whatever its kind.
    pub fn message(&self) -> (r: &String)
        ensures
            r == self.carried(),
    {
        match self {
            BridgeError::Serialization(m) => m,
            BridgeError::Transport(m) => m,
            BridgeError::Remote(m) => m,
            BridgeError::Decode(m) => m,
        }
    }

    pub open spec fn carried(&self) -> &String {
        match self {
            BridgeError::Serialization(m) => m,
            BridgeError::Transport(m) => m,
            BridgeError::Remote(m) => m,
            BridgeError::Decode(m) => m,
        }
    }
}

} // verus!
