use vstd::prelude::*;

verus! {

/// Exit code of the termination command when the host application stopped.
pub const EXIT_CLOSED: i32 = 0;

/// Exit code of the termination command when no such process was running.
pub const EXIT_NOT_RUNNING: i32 = 128;

/// How a request to terminate the host application ended.
#[derive(PartialEq, Eq, Structural, Clone, Copy, Debug)]
pub enum CloseResult {
    Closed,
    ProcessNotRunning,
}

/// A termination request that failed, so the host application's state is unknown.
#[derive(PartialEq, Eq, Structural, Clone, Copy, Debug)]
pub enum CloseError {
    /// The termination command exited with a code that means neither outcome.
    UnknownExitCode(i32),
    /// The termination command ended without an exit code.
    NoExitCode,
}

/// The outcome that the termination command's exit code stands for.
pub open spec fn close_outcome(code: Option<i32>) -> Result<CloseResult, CloseError> {
    match code {
        Some(c) => if c == EXIT_CLOSED {
            Ok(CloseResult::Closed)
        } else if c == EXIT_NOT_RUNNING {
            Ok(CloseResult::ProcessNotRunning)
        } else {
            Err(CloseError::UnknownExitCode(c))
        },
        None => Err(CloseError::NoExitCode),
    }
}

/// Reads the exit code of the termination command. A process that was not
/// running is a normal outcome, not an error.
pub fn close_result_from_exit_code(code: Option<i32>) -> (r: Result<CloseResult, CloseError>)
    ensures
        r == close_outcome(code),
        code == Some(EXIT_CLOSED) <==> r == Ok::<CloseResult, CloseError>(CloseResult::Closed),
        code == Some(EXIT_NOT_RUNNING) <==> r == Ok::<CloseResult, CloseError>(
            CloseResult::ProcessNotRunning,
        ),
        r is Err <==> code != Some(EXIT_CLOSED) && code != Some(EXIT_NOT_RUNNING),
{
    match code {
        Some(c) => {
            if c == EXIT_CLOSED {
                Ok(CloseResult::Closed)
            } else if c == EXIT_NOT_RUNNING {
                Ok(CloseResult::ProcessNotRunning)
            } else {
                Err(CloseError::UnknownExitCode(c))
            }
        },
        None => Err(CloseError::NoExitCode),
    }
}

/// What to do next while waiting for the host application to rewrite its
/// open-tabs record after being asked to stop.
#[derive(PartialEq, Eq, Structural, Clone, Copy, Debug)]
pub enum WaitStep {
    /// Sleep this many milliseconds, then look again.
    Sleep(u64),
    /// Stop waiting.
    Finish,
}

/// A bounded wait for the open-tabs record to change: it is looked at every
/// `poll_interval_ms` until its modification time differs from the one seen
/// before the stop request, or `timeout_ms` has passed. When no modification
/// time could be read before the request, the whole timeout is slept instead.
#[derive(PartialEq, Eq, Structural, Clone, Copy, Debug)]
pub struct SessionWatch {
    pub timeout_ms: u64,
    pub poll_interval_ms: u64,
}

impl SessionWatch {
    /// A four-second timeout, looking every 200 milliseconds.
    pub fn standard() -> (r: SessionWatch)
        ensures
            r.timeout_ms == 4000,
            r.poll_interval_ms == 200,
    {
        SessionWatch { timeout_ms: 4000, poll_interval_ms: 200 }
    }

    /// The step after `elapsed_ms` milliseconds of waiting, given the
    /// modification time read before the stop request and the one read now
    /// (each `None` when it could not be read).
    pub open spec fn spec_next_step(
        self,
        elapsed_ms: u64,
        initial_modified: Option<u128>,
        latest_modified: Option<u128>,
    ) -> WaitStep {
        match initial_modified {
            None => if elapsed_ms < self.timeout_ms {
                WaitStep::Sleep((self.timeout_ms - elapsed_ms) as u64)
            } else {
                WaitStep::Finish
            },
            Some(initial) => if elapsed_ms > self.timeout_ms {
                WaitStep::Finish
            } else if latest_modified is Some && latest_modified->0 != initial {
                WaitStep::Finish
            } else {
                WaitStep::Sleep(self.poll_interval_ms)
            },
        }
    }

    /// The step after `elapsed_ms` milliseconds of waiting.
    pub fn next_step(
        &self,
        elapsed_ms: u64,
        initial_modified: Option<u128>,
        latest_modified: Option<u128>,
    ) -> (r: WaitStep)
        ensures
            r == self.spec_next_step(elapsed_ms, initial_modified, latest_modified),
            r matches WaitStep::Sleep(ms) ==> ms <= self.timeout_ms || ms == self.poll_interval_ms,
    {
        match initial_modified {
            None => {
                if elapsed_ms < self.timeout_ms {
                    WaitStep::Sleep(self.timeout_ms - elapsed_ms)
                } else {
                    WaitStep::Finish
                }
            },
            Some(initial) => {
                if elapsed_ms > self.timeout_ms {
                    WaitStep::Finish
                } else {
                    match latest_modified {
                        Some(latest) => {
                            if latest != initial {
                                WaitStep::Finish
                            } else {
                                WaitStep::Sleep(self.poll_interval_ms)
                            }
                        },
                        None => WaitStep::Sleep(self.poll_interval_ms),
                    }
                }
            },
        }
    }
}

} // verus!
