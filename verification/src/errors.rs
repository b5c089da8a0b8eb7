use vstd::prelude::*;
use vstd::string::StringExecFns;

verus! {

/// The kinds of failure the bundler reports to its callers.
///
/// Each variant carries a human-readable message; `display_string` renders
/// the message under the variant's conventional prefix.
#[derive(Debug, Clone)]
pub enum BundlerError {
    Config(String),
    Rpc(String),
    Signing(String),
    Simulation(String),
    Transaction(String),
    Timeout(String),
    InvalidInput(String),
    InvalidInstruction(String),
    RpcError(String),
    Internal(String),
}

/// Result type used throughout the bundler.
pub type BundlerResult<T> = Result<T, BundlerError>;

impl BundlerError {
    /// The message carried by the error, without its prefix.
    pub open spec fn spec_message(&self) -> Seq<char> {
        match self {
            BundlerError::Config(m) => m@,
            BundlerError::Rpc(m) => m@,
            BundlerError::Signing(m) => m@,
            BundlerError::Simulation(m) => m@,
            BundlerError::Transaction(m) => m@,
            BundlerError::Timeout(m) => m@,
            BundlerError::InvalidInput(m) => m@,
            BundlerError::InvalidInstruction(m) => m@,
            BundlerError::RpcError(m) => m@,
            BundlerError::Internal(m) => m@,
        }
    }

    /// The prefix under which each kind of error is rendered.
    pub open spec fn spec_prefix(&self) -> Seq<char> {
        match self {
            BundlerError::Config(_) => "Configuration error: "@,
            BundlerError::Rpc(_) => "RPC error: "@,
            BundlerError::Signing(_) => "Signing error: "@,
            BundlerError::Simulation(_) => "Simulation error: "@,
            BundlerError::Transaction(_) => "Transaction error: "@,
            BundlerError::Timeout(_) => "Timeout error: "@,
            BundlerError::InvalidInput(_) => "Invalid input: "@,
            BundlerError::InvalidInstruction(_) => "Invalid instruction: "@,
            BundlerError::RpcError(_) => "RPC error: "@,
            BundlerError::Internal(_) => "Internal error: "@,
        }
    }

    /// Renders the error as its conventional one-line form: prefix, then
    /// message.
    pub fn display_string(&self) -> (r: String)
        ensures
            r@ == self.spec_prefix() + self.spec_message(),
    {
        let prefix: &str = match self {
            BundlerError::Config(_) => "Configuration error: ",
            BundlerError::Rpc(_) => "RPC error: ",
            BundlerError::Signing(_) => "Signing error: ",
            BundlerError::Simulation(_) => "Simulation error: ",
            BundlerError::Transaction(_) => "Transaction error: ",
            BundlerError::Timeout(_) => "Timeout error: ",
            BundlerError::InvalidInput(_) => "Invalid input: ",
            BundlerError::InvalidInstruction(_) => "Invalid instruction: ",
            BundlerError::RpcError(_) => "RPC error: ",
            BundlerError::Internal(_) => "Internal error: ",
        };
        let message: &String = match self {
            BundlerError::Config(m) => m,
            BundlerError::Rpc(m) => m,
            BundlerError::Signing(m) => m,
            BundlerError::Simulation(m) => m,
            BundlerError::Transaction(m) => m,
            BundlerError::Timeout(m) => m,
            BundlerError::InvalidInput(m) => m,
            BundlerError::InvalidInstruction(m) => m,
            BundlerError::RpcError(m) => m,
            BundlerError::Internal(m) => m,
        };
        let mut out = String::from_str(prefix);
        out.append(message.as_str());
        out
    }

    /// The message carried by the error, as an owned string.
    pub fn message(&self) -> (r: String)
        ensures
            r@ == self.spec_message(),
    {
        match self {
            BundlerError::Config(m) => m.clone(),
            BundlerError::Rpc(m) => m.clone(),
            BundlerError::Signing(m) => m.clone(),
            BundlerError::Simulation(m) => m.clone(),
            BundlerError::Transaction(m) => m.clone(),
            BundlerError::Timeout(m) => m.clone(),
            BundlerError::InvalidInput(m) => m.clone(),
            BundlerError::InvalidInstruction(m) => m.clone(),
            BundlerError::RpcError(m) => m.clone(),
            BundlerError::Internal(m) => m.clone(),
        }
    }
}

} // verus!
