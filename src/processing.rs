use std::sync::atomic::{AtomicBool, Ordering};
use std::sync::Arc;
use vstd::prelude::*;

verus! {

/// A unit of background work.
pub enum ProcessEvent {
    /// Read the whole content of the file at this path.
    File(String),
}

/// What a finished unit of work produced.
#[derive(Debug)]
pub enum ProcessResult {
    /// The bytes of the file that was read.
    File(Vec<u8>),
}

/// Why a unit of work produced nothing.
#[derive(Debug)]
pub enum ProcessError {
    /// Opening or reading failed, with the system's message.
    Io(String),
    /// Cancellation was asked for and seen by the work.
    Cancelled,
}

/// The outcome that a finished job delivers, exactly once.
pub type JobResult = Result<ProcessResult, ProcessError>;

/// The outcome of a job from what it found: if it saw the cancellation flag
/// raised, `Cancelled`, whatever the read gave; else the bytes read, or the
/// read's error.
pub fn conclude(cancelled: bool, read: Result<Vec<u8>, String>) -> (r: JobResult)
    ensures
        cancelled ==> r is Err && r->Err_0 is Cancelled,
        !cancelled && read is Ok ==> r is Ok && r->Ok_0 == ProcessResult::File(read->Ok_0),
        !cancelled && read is Err ==> r is Err && r->Err_0 == ProcessError::Io(read->Err_0),
{
    if cancelled {
        Err(ProcessError::Cancelled)
    } else {
        match read {
            Ok(bytes) => Ok(ProcessResult::File(bytes)),
            Err(message) => Err(ProcessError::Io(message)),
        }
    }
}

/// The submitter's handle on a running job: through it the submitter asks
/// the job to stop. Cancellation is cooperative: the job stops early only if
/// it looks at the flag, through its [`CancelToken`].
pub struct Processor {
    cancelled: Arc<AtomicBool>,
    requested: bool,
}

impl View for Processor {
    /// Whether cancellation was asked for through this handle.
    type V = bool;

    closed spec fn view(&self) -> bool {
        self.requested
    }
}

impl Processor {
    /// A handle on a job that nobody has asked to stop.
    pub fn new() -> (r: Processor)
        ensures
            r@ == false,
    {
        Processor { cancelled: Arc::new(AtomicBool::new(false)), requested: false }
    }

    /// Raises the job's cancellation flag. Asking again changes nothing.
    pub fn cancel(&mut self)
        ensures
            final(self)@ == true,
    {
        self.cancelled.store(true, Ordering::Relaxed);
        self.requested = true;
    }

    /// Whether cancellation was asked for through this handle.
    pub fn is_cancel_requested(&self) -> (r: bool)
        ensures
            r == self@,
    {
        self.requested
    }

    /// The job's side of the flag, to be handed to the work that runs.
    pub fn token(&self) -> (r: CancelToken) {
        CancelToken { flag: self.cancelled.clone() }
    }
}

/// The running job's view of its cancellation flag.
pub struct CancelToken {
    flag: Arc<AtomicBool>,
}

impl CancelToken {
    /// Whether the submitter has asked the job to stop. The flag is shared
    /// with another thread: nothing is known of the answer in advance.
    pub fn is_cancelled(&self) -> (r: bool) {
        self.flag.load(Ordering::Relaxed)
    }
}

} // verus!
