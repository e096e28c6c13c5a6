//! Progress of a streamed download, and its final integrity check.
use vstd::prelude::*;

verus! {

/// Why a transfer is rejected once its body has been received.
#[derive(PartialEq, Eq, Structural, Clone, Copy, Debug)]
pub enum TransferError {
    /// The body's length differs from the length the response declared.
    LengthMismatch { declared: u64, received: u64 },
}

/// The bytes received so far, and the total when the response declared one.
#[derive(PartialEq, Eq, Structural, Clone, Copy, Debug)]
pub struct DownloadProgress {
    pub total: Option<u64>,
    pub received: u64,
}

impl DownloadProgress {
    /// A download that has received nothing yet.
    pub fn new(total: Option<u64>) -> (r: DownloadProgress)
        ensures
            r.total == total,
            r.received == 0,
    {
        DownloadProgress { total, received: 0 }
    }

    /// Whether progress is shown against a known total.
    pub fn is_determinate(&self) -> (r: bool)
        ensures
            r == self.total is Some,
    {
        self.total.is_some()
    }

    /// Whether a chunk of `len` bytes can still be counted.
    pub fn can_record(&self, len: u64) -> (r: bool)
        ensures
            r == (self.received + len <= u64::MAX),
    {
        len <= u64::MAX - self.received
    }

    /// Counts a chunk of `len` bytes written to the destination.
    pub fn record(&mut self, len: u64)
        requires
            old(self).received + len <= u64::MAX,
        ensures
            final(self).total == old(self).total,
            final(self).received == old(self).received + len,
    {
        self.received = self.received + len;
    }

    /// Accepts the finished transfer exactly when it received as many bytes
    /// as the response declared, or when it declared none.
    pub fn finish(&self) -> (r: Result<u64, TransferError>)
        ensures
            match self.total {
                Some(t) => if t == self.received {
                    r == Ok::<u64, TransferError>(self.received)
                } else {
                    r == Err::<u64, TransferError>(
                        TransferError::LengthMismatch { declared: t, received: self.received },
                    )
                },
                None => r == Ok::<u64, TransferError>(self.received),
            },
    {
        match self.total {
            Some(t) => if t == self.received {
                Ok(self.received)
            } else {
                Err(TransferError::LengthMismatch { declared: t, received: self.received })
            },
            None => Ok(self.received),
        }
    }
}

} // verus!
