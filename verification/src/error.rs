//! Errors of a scan.

use vstd::prelude::*;

verus! {

/// What went wrong on the way to storage and back.
pub enum IoFault {
    /// The storage resource refused or failed the read.
    Unavailable { message: String },
    /// The read gave another number of bytes than the range asked for.
    ShortRead { wanted: usize, got: usize },
    /// The bytes came, but they are no footer.
    MalformedFooter { message: String },
}

/// The one kind of error that a read hands to the partition that issued it.
/// Whether it ends the scan is the partition's policy, not the reader's, and
/// the reader never retries.
pub enum ScanError {
    ExternalIo { fault: IoFault },
}

impl ScanError {
    /// The fault behind the error.
    pub fn fault(&self) -> (fault: &IoFault)
        ensures
            *self == (ScanError::ExternalIo { fault: *fault }),
    {
        match self {
            ScanError::ExternalIo { fault } => fault,
        }
    }
}

/// A footer that would not parse is an external I/O error like any other.
pub fn footer_outcome<T>(parsed: Result<T, String>) -> (outcome: Result<T, ScanError>)
    ensures
        match parsed {
            Ok(footer) => outcome == Ok::<T, ScanError>(footer),
            Err(message) => outcome == Err::<T, ScanError>(
                ScanError::ExternalIo { fault: IoFault::MalformedFooter { message } },
            ),
        },
{
    match parsed {
        Ok(footer) => Ok(footer),
        Err(message) => Err(ScanError::ExternalIo { fault: IoFault::MalformedFooter { message } }),
    }
}

} // verus!
