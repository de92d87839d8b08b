use vstd::prelude::*;
use vstd::string::StringExecFns;

verus! {

/// How a remote call failed.
#[derive(Debug, Clone, PartialEq, Eq)]
pub enum RemoteError {
    /// The server answered with a structured 400/500 validation payload.
    ServerRejected(String),
    /// Any other response shape; the response's content.
    Unexpected(String),
    /// The server could not be reached.
    Network,
}

/// The text a remote failure is shown as.
pub open spec fn remote_reason(e: RemoteError) -> Seq<char> {
    match e {
        RemoteError::ServerRejected(m) => m@,
        RemoteError::Unexpected(m) => m@,
        RemoteError::Network => "network error"@,
    }
}

impl RemoteError {
    pub fn reason(&self) -> (r: String)
        ensures
            r@ == remote_reason(*self),
    {
        match self {
            RemoteError::ServerRejected(m) => m.clone(),
            RemoteError::Unexpected(m) => m.clone(),
            RemoteError::Network => {
                proof {
                    reveal_strlit("network error");
                }
                String::from_str("network error")
            },
        }
    }
}

} // verus!
