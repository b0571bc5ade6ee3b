use vstd::prelude::*;

verus! {

/// The error taxonomy of the relay core.
///
/// `StatusQueryTransient` conditions are handled inside the remote polling
/// state machine (they cause a retry) and therefore have no variant here:
/// they are never surfaced to a caller.
#[derive(Debug, Clone, PartialEq, Eq)]
pub enum RelayError {
    /// No registered guest matches the requested selector. Carries the
    /// selector and the hex-encoded content identifiers of the known
    /// guests, for diagnostics.
    UnknownImage { selector: Vec<u8>, known: Vec<Vec<u8>> },
    /// The proving-mode configuration value is not one of the recognized
    /// values. Carries the offending value.
    InvalidBackendConfig { value: Vec<u8> },
    /// Local execution of the guest failed (invalid binary, trap). Such a
    /// failure is deterministic for a given binary and input, so it is
    /// never retried.
    ExecutionFailed,
    /// Uploading the program binary or the input to the remote backend
    /// failed.
    UploadFailed,
    /// Creating the remote proving session failed.
    SubmissionFailed,
    /// A remote job reported success but carried no receipt location.
    MissingReceiptLocation,
    /// The receipt of a succeeded remote job could not be fetched or
    /// decoded; a succeeded job with an undecodable receipt will not
    /// self-correct, so this is terminal.
    ReceiptDecodeFailed,
    /// The remote job reported a status that is neither in-progress nor
    /// success. Carries the reported status bytes.
    BadJobStatus { status: Vec<u8> },
    /// Subscribing to the chain event stream failed.
    ChainSubscriptionFailed,
    /// Submitting the callback transaction failed.
    TransactionFailed,
}

} // verus!
