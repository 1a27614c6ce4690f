use vstd::prelude::*;

verus! {

/// Client facing errors regarding transaction submission through the driver.
/// Every variant carries enough content to instruct client handling.
#[derive(Eq, PartialEq, Clone, Debug, Hash)]
pub enum TransactionDriverError {
    SerializationError(String),
    DeserializationError(String),
    TimeoutSubmittingTransaction,
    TimeoutWaitingForEffects,
    TimeoutBeforeFinality,
    RpcFailure(String, String),
    ExecutionDataNotFound(String),
    TransactionRejected(String),
    TransactionExpired(String),
}

/// The discriminant of a `TransactionDriverError`, without its details.
#[derive(Clone, Copy, Debug, PartialEq, Eq, Structural, Hash)]
pub enum ErrorKind {
    Serialization,
    Deserialization,
    TimeoutSubmittingTransaction,
    TimeoutWaitingForEffects,
    TimeoutBeforeFinality,
    RpcFailure,
    ExecutionDataNotFound,
    TransactionRejected,
    TransactionExpired,
}

impl TransactionDriverError {
    pub open spec fn kind_of(&self) -> ErrorKind {
        match self {
            TransactionDriverError::SerializationError(_) => ErrorKind::Serialization,
            TransactionDriverError::DeserializationError(_) => ErrorKind::Deserialization,
            TransactionDriverError::TimeoutSubmittingTransaction => ErrorKind::TimeoutSubmittingTransaction,
            TransactionDriverError::TimeoutWaitingForEffects => ErrorKind::TimeoutWaitingForEffects,
            TransactionDriverError::TimeoutBeforeFinality => ErrorKind::TimeoutBeforeFinality,
            TransactionDriverError::RpcFailure(_, _) => ErrorKind::RpcFailure,
            TransactionDriverError::ExecutionDataNotFound(_) => ErrorKind::ExecutionDataNotFound,
            TransactionDriverError::TransactionRejected(_) => ErrorKind::TransactionRejected,
            TransactionDriverError::TransactionExpired(_) => ErrorKind::TransactionExpired,
        }
    }

    /// The variant's discriminant.
    pub fn kind(&self) -> (r: ErrorKind)
        ensures
            r == self.kind_of(),
    {
        match self {
            TransactionDriverError::SerializationError(_) => ErrorKind::Serialization,
            TransactionDriverError::DeserializationError(_) => ErrorKind::Deserialization,
            TransactionDriverError::TimeoutSubmittingTransaction => ErrorKind::TimeoutSubmittingTransaction,
            TransactionDriverError::TimeoutWaitingForEffects => ErrorKind::TimeoutWaitingForEffects,
            TransactionDriverError::TimeoutBeforeFinality => ErrorKind::TimeoutBeforeFinality,
            TransactionDriverError::RpcFailure(_, _) => ErrorKind::RpcFailure,
            TransactionDriverError::ExecutionDataNotFound(_) => ErrorKind::ExecutionDataNotFound,
            TransactionDriverError::TransactionRejected(_) => ErrorKind::TransactionRejected,
            TransactionDriverError::TransactionExpired(_) => ErrorKind::TransactionExpired,
        }
    }
}

impl ErrorKind {
    /// Whether a caller may usefully try again after an error of this kind:
    /// codec faults, rejections and expiry are final; timeouts, missing data
    /// and exhausted transport retries are not.
    pub open spec fn retryable_spec(self) -> bool {
        !(self is Serialization || self is Deserialization || self is TransactionRejected
            || self is TransactionExpired)
    }

    pub fn is_retryable(self) -> (r: bool)
        ensures
            r == self.retryable_spec(),
    {
        match self {
            ErrorKind::Serialization | ErrorKind::Deserialization | ErrorKind::TransactionRejected
            | ErrorKind::TransactionExpired => false,
            _ => true,
        }
    }
}

} // verus!
