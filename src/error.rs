//! The errors of the sync core, and how they reach callers.
use vstd::prelude::*;

verus! {

/// The status codes of a remote call that the sync core tells apart.
#[derive(Debug, Clone, Copy, PartialEq, Eq, Structural)]
pub enum TransportCode {
    /// The remote call was cancelled.
    Cancelled,
    /// Any other failure of the transport or of the remote node.
    Other,
}

/// A failure of the sync core.
#[derive(Debug, Clone, PartialEq, Eq)]
pub enum Error {
    /// A remote call failed.
    Transport { code: TransportCode, message: String },
    /// The operation was canceled.
    Canceled,
    /// A caller handed in an argument that is out of range.
    InvalidArgument(String),
    /// An internal invariant did not hold.
    Internal(String),
    /// The wallet must be synced before this can be answered.
    SyncFirst,
    /// Spending needs more than the wallet holds.
    InsufficientFunds { required: u64, available: u64 },
    /// The wallet store failed.
    Storage(String),
    /// Note scanning failed for a reason other than a reorganization.
    Scan(String),
    /// A block that the pipeline should have cached is missing.
    BlockNotFound(u32),
    /// A transaction spends an output that the wallet does not know.
    OutPointMissing,
    /// The remote node refused a submitted transaction.
    SendFailed { code: i32, reason: String },
}

/// The errors that the wallet's public interface reports.
#[derive(Debug, Clone, PartialEq, Eq)]
pub enum LightWalletError {
    InvalidArgument { message: String },
    InvalidUri,
    /// No light client is registered under the given handle.
    InvalidHandle,
    SqliteClientError { message: String },
    Canceled,
    SyncFirst,
    InsufficientFunds { required: u64, available: u64 },
    Other { message: String },
}

impl Error {
    /// Whether this error is a cancellation, in either of its two forms.
    pub open spec fn is_cancellation(&self) -> bool {
        match self {
            Error::Canceled => true,
            Error::Transport { code, .. } => code == TransportCode::Cancelled,
            _ => false,
        }
    }

    /// A sentence that describes the error; an error that carries a message
    /// or a reason describes itself by it.
    pub fn message(&self) -> (r: String)
        ensures
            self matches Error::Transport { message, .. } ==> r@ == message@,
            self matches Error::InvalidArgument(m) ==> r@ == m@,
            self matches Error::Internal(m) ==> r@ == m@,
            self matches Error::Storage(m) ==> r@ == m@,
            self matches Error::Scan(m) ==> r@ == m@,
            self matches Error::SendFailed { reason, .. } ==> r@ == reason@,
    {
        match self {
            Error::Transport { message, .. } => message.clone(),
            Error::Canceled => String::from_str("The operation was canceled."),
            Error::InvalidArgument(m) => m.clone(),
            Error::Internal(m) => m.clone(),
            Error::SyncFirst => String::from_str("Sync first."),
            Error::InsufficientFunds { .. } => String::from_str("Insufficient funds."),
            Error::Storage(m) => m.clone(),
            Error::Scan(m) => m.clone(),
            Error::BlockNotFound(_) => String::from_str("Block not found in cache"),
            Error::OutPointMissing => String::from_str("A spent output is missing."),
            Error::SendFailed { reason, .. } => reason.clone(),
        }
    }
}

impl LightWalletError {
    /// The error that the public interface reports for `e`: cancellations,
    /// invalid arguments, internal errors, and missing funds keep their kind;
    /// storage failures are reported as such; everything else carries its
    /// message.
    pub fn from_error(e: Error) -> (r: LightWalletError)
        ensures
            e.is_cancellation() <==> r == LightWalletError::Canceled,
            e == Error::SyncFirst ==> r == LightWalletError::SyncFirst,
            e matches Error::InvalidArgument(m) ==> r == (LightWalletError::InvalidArgument { message: m }),
            e matches Error::Internal(m) ==> r == (LightWalletError::Other { message: m }),
            e matches Error::InsufficientFunds { required, available } ==> r == (
            LightWalletError::InsufficientFunds { required, available }),
            e matches Error::Storage(_) ==> r is SqliteClientError,
            (e is Transport && !e.is_cancellation()) || e is Scan || e is BlockNotFound
                || e is OutPointMissing || e is SendFailed ==> r is Other,
    {
        match e {
            Error::Transport { code: TransportCode::Cancelled, .. } => LightWalletError::Canceled,
            Error::Canceled => LightWalletError::Canceled,
            Error::InvalidArgument(m) => LightWalletError::InvalidArgument { message: m },
            Error::Internal(m) => LightWalletError::Other { message: m },
            Error::SyncFirst => LightWalletError::SyncFirst,
            Error::InsufficientFunds { required, available } => LightWalletError::InsufficientFunds {
                required,
                available,
            },
            Error::Storage(m) => LightWalletError::SqliteClientError { message: m },
            other => LightWalletError::Other { message: other.message() },
        }
    }
}

} // verus!
