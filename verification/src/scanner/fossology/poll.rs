//! The two waiting loops of the remote analyzer's protocol, as decisions.
//!
//! The caller makes the requests, reads the clock and sleeps; between two
//! such steps it asks here what to do next. Waiting for an upload follows a
//! backoff schedule under a ceiling of elapsed time. Waiting for a job polls
//! at a fixed interval under a ceiling of attempts and forgives a few
//! request errors in a row.
use vstd::prelude::*;
use crate::scanner::fossology::client::JobStatus;
use crate::scanner::traits::{ScanError, ScanErrorView};
use crate::text::{decimal, push_decimal, push_signed_decimal, push_text, signed_decimal, text_eq};

verus! {

/// What the caller of a waiting loop does next.
pub enum PollStep {
    /// Ask the service once more.
    Probe,
    /// Sleep for so many seconds, then come back.
    Wait(u64),
    /// The wait is over: what was waited for has happened.
    Done,
    /// The wait is over: give up with this error.
    Abort(ScanError),
}

/// Mathematical value of a [`PollStep`].
pub enum PollStepView {
    Probe,
    Wait(u64),
    Done,
    Abort(ScanErrorView),
}

impl View for PollStep {
    type V = PollStepView;

    open spec fn view(&self) -> PollStepView {
        match self {
            PollStep::Probe => PollStepView::Probe,
            PollStep::Wait(secs) => PollStepView::Wait(*secs),
            PollStep::Done => PollStepView::Done,
            PollStep::Abort(e) => PollStepView::Abort(e@),
        }
    }
}

/// What one request for an upload's details brought.
pub enum UploadProbe {
    /// The details came and hold the upload's digests.
    Ready,
    /// The details came without digests.
    NotHashed,
    /// The service answered with success, but not with readable details.
    Unreadable,
    /// The service answered 503: it is still processing the upload.
    Processing,
    /// The service answered with another status.
    Refused,
    /// The request itself failed; the text says how.
    RequestFailed(String),
}

/// The seconds at which waiting for an upload is given up.
pub const READINESS_CEILING_SECS: u64 = 300;

/// The seconds between two polls of a job.
pub const JOB_POLL_INTERVAL_SECS: u64 = 5;

/// The number of polls after which waiting for a job is given up.
pub const JOB_POLL_MAX_ATTEMPTS: u32 = 120;

/// The number of request errors in a row after which waiting for a job is
/// given up.
pub const JOB_POLL_MAX_CONSECUTIVE_ERRORS: u32 = 3;

/// The seconds to wait after the given attempt (counted from 1) at reading
/// an upload's details: 1, 2, 4, 8, 15, and 30 from then on.
pub open spec fn readiness_delay(attempt: nat) -> nat {
    if attempt <= 1 {
        1
    } else if attempt == 2 {
        2
    } else if attempt == 3 {
        4
    } else if attempt == 4 {
        8
    } else if attempt == 5 {
        15
    } else {
        30
    }
}

/// Whether the elapsed time has reached the ceiling of five minutes. The
/// ceiling is hard: at five minutes the wait is over. Whole seconds decide,
/// since five minutes are reached exactly when 300 of them have passed.
pub open spec fn readiness_exceeded(elapsed_secs: u64) -> bool {
    elapsed_secs >= 300
}

/// The error with which waiting for an upload is given up.
pub open spec fn readiness_timeout(upload_id: i32, elapsed_secs: u64, attempts: u64) -> Seq<char> {
    "Upload "@ + signed_decimal(upload_id as int) + " readiness timeout after "@ + decimal(
        elapsed_secs as nat,
    ) + " seconds ("@ + decimal(attempts as nat) + " attempts)"@
}

/// Waiting for an upload to be unpacked and indexed.
pub struct ReadinessPoll {
    pub upload_id: i32,
    /// The number of attempts begun so far.
    pub attempts: u64,
}

impl ReadinessPoll {
    /// The wait for the given upload, before its first attempt.
    pub fn new(upload_id: i32) -> (poll: Self)
        ensures
            poll.upload_id == upload_id,
            poll.attempts == 0,
    {
        ReadinessPoll { upload_id, attempts: 0 }
    }

    /// Decides, with the whole seconds elapsed since the wait began, whether
    /// another attempt is made: once the ceiling is reached the wait is
    /// given up with `Failed`, which tells the elapsed seconds and the
    /// attempts made; before that the attempt is counted and the service is
    /// asked.
    pub fn before_attempt(&mut self, elapsed_secs: u64) -> (step: PollStep)
        ensures
            final(self).upload_id == old(self).upload_id,
            readiness_exceeded(elapsed_secs) ==> {
                &&& final(self).attempts == old(self).attempts
                &&& step@ == PollStepView::Abort(
                    ScanErrorView::Failed(
                        readiness_timeout(old(self).upload_id, elapsed_secs, old(self).attempts),
                    ),
                )
            },
            !readiness_exceeded(elapsed_secs) ==> {
                &&& final(self).attempts == if old(self).attempts < u64::MAX {
                    old(self).attempts + 1
                } else {
                    u64::MAX as int
                }
                &&& step@ == PollStepView::Probe
            },
    {
        if elapsed_secs >= READINESS_CEILING_SECS {
            let mut message = String::from_str("Upload ");
            push_signed_decimal(&mut message, self.upload_id as i64);
            push_text(&mut message, " readiness timeout after ");
            push_decimal(&mut message, elapsed_secs);
            push_text(&mut message, " seconds (");
            push_decimal(&mut message, self.attempts);
            push_text(&mut message, " attempts)");
            PollStep::Abort(ScanError::Failed(message))
        } else {
            if self.attempts < u64::MAX {
                self.attempts = self.attempts + 1;
            }
            PollStep::Probe
        }
    }

    /// Decides what follows an attempt: the wait is over when the upload is
    /// ready; a failed request ends it with an `Http` error; everything
    /// else, a 503 included, means "not yet" and is followed by the
    /// schedule's delay for this attempt.
    pub fn after_attempt(&self, probe: UploadProbe) -> (step: PollStep)
        ensures
            step@ == match probe {
                UploadProbe::Ready => PollStepView::Done,
                UploadProbe::RequestFailed(e) => PollStepView::Abort(ScanErrorView::Http(e@)),
                _ => PollStepView::Wait(readiness_delay(self.attempts as nat) as u64),
            },
    {
        match probe {
            UploadProbe::Ready => PollStep::Done,
            UploadProbe::RequestFailed(e) => PollStep::Abort(ScanError::Http(e)),
            _ => PollStep::Wait(readiness_delay_secs(self.attempts)),
        }
    }
}

/// The seconds to wait after the given attempt at reading an upload's details.
pub fn readiness_delay_secs(attempt: u64) -> (secs: u64)
    ensures
        secs == readiness_delay(attempt as nat),
{
    if attempt <= 1 {
        1
    } else if attempt == 2 {
        2
    } else if attempt == 3 {
        4
    } else if attempt == 4 {
        8
    } else if attempt == 5 {
        15
    } else {
        30
    }
}

/// The seconds spent waiting once `attempts` attempts and their delays are over.
pub open spec fn scheduled_wait(attempts: nat) -> nat
    decreases attempts,
{
    if attempts == 0 {
        0
    } else {
        scheduled_wait((attempts - 1) as nat) + readiness_delay(attempts)
    }
}

/// The backoff schedule: five delays of 1, 2, 4, 8 and 15 seconds, which
/// add up to 30, and 30 seconds for every attempt after them.
pub proof fn backoff_schedule(attempts: nat)
    ensures
        scheduled_wait(1) == 1,
        scheduled_wait(2) == 3,
        scheduled_wait(3) == 7,
        scheduled_wait(4) == 15,
        scheduled_wait(5) == 30,
        attempts >= 5 ==> scheduled_wait(attempts) == 30 + 30 * (attempts - 5),
    decreases attempts,
{
    reveal_with_fuel(scheduled_wait, 6);
    if attempts > 5 {
        backoff_schedule((attempts - 1) as nat);
    }
}

/// A service that never becomes ready is given up on: the delays of up to
/// 13 attempts add up to less than 300 seconds, those of 14 attempts to
/// exactly 300. So once 14 attempts and their delays have passed, the next
/// decision is to give up, whatever the requests themselves took.
pub proof fn readiness_wait_ends(attempts: nat, elapsed_secs: u64)
    ensures
        attempts <= 13 ==> !readiness_exceeded(scheduled_wait(attempts) as u64),
        attempts >= 14 && elapsed_secs >= scheduled_wait(attempts) ==> readiness_exceeded(
            elapsed_secs,
        ),
        scheduled_wait(14) == 300,
{
    backoff_schedule(attempts);
    backoff_schedule(14);
    if attempts < 5 {
        reveal_with_fuel(scheduled_wait, 6);
    }
}

/// The milliseconds that have passed when the decision after `attempts`
/// attempts falls, if every delay is kept exactly and every request takes
/// `latency_ms` milliseconds.
pub open spec fn decision_time_ms(attempts: nat, latency_ms: nat) -> nat {
    scheduled_wait(attempts) * 1000 + attempts * latency_ms
}

/// Whether a time in milliseconds has reached the ceiling of five minutes.
pub open spec fn exceeded_at_ms(elapsed_ms: nat) -> bool {
    readiness_exceeded((elapsed_ms / 1000) as u64)
}

/// A service that never becomes ready, and that answers each request at
/// once or in the same short time (no more than a second for fourteen
/// requests), is given up on between 300 and 301 seconds after the wait
/// began: fourteen attempts are made, five on the backoff schedule and
/// nine at intervals of 30 seconds, and the fifteenth is not.
pub proof fn never_ready_is_given_up_at_five_minutes(latency_ms: nat, attempts: nat)
    requires
        latency_ms <= 71,
    ensures
        attempts <= 13 ==> !exceeded_at_ms(decision_time_ms(attempts, latency_ms)),
        exceeded_at_ms(decision_time_ms(14, latency_ms)),
        300_000 <= decision_time_ms(14, latency_ms) <= 301_000,
{
    backoff_schedule(attempts);
    backoff_schedule(14);
    if attempts < 5 {
        reveal_with_fuel(scheduled_wait, 6);
    }
    if attempts <= 13 {
        assert(scheduled_wait(attempts) <= 270);
        assert(attempts * latency_ms <= 13 * 71) by (nonlinear_arith)
            requires
                attempts <= 13,
                latency_ms <= 71,
        ;
        assert(decision_time_ms(attempts, latency_ms) < 300_000);
    }
    assert(14 * latency_ms <= 994);
    assert(decision_time_ms(14, latency_ms) == 300_000 + 14 * latency_ms);
}

/// The error with which a job's own failure is reported.
pub open spec fn job_failed_message(job_id: i32) -> Seq<char> {
    "Job "@ + signed_decimal(job_id as int) + " failed"@
}

/// The error with which repeated request errors are reported.
pub open spec fn job_errors_message(job_id: i32, errors: u32, last: Seq<char>) -> Seq<char> {
    "Job "@ + signed_decimal(job_id as int) + " status check failed after "@ + decimal(
        errors as nat,
    ) + " consecutive errors: "@ + last
}

/// Waiting for a job to end.
pub struct JobPoll {
    pub job_id: i32,
    /// The number of polls begun so far.
    pub attempts: u32,
    /// The number of request errors since the last poll that was answered.
    pub consecutive_errors: u32,
}

impl JobPoll {
    /// The wait for the given job, before its first poll.
    pub fn new(job_id: i32) -> (poll: Self)
        ensures
            poll.job_id == job_id,
            poll.attempts == 0,
            poll.consecutive_errors == 0,
    {
        JobPoll { job_id, attempts: 0, consecutive_errors: 0 }
    }

    /// Decides whether another poll is made: the 121st is not, and the wait
    /// is given up with `Failed("Job timeout")`.
    pub fn before_attempt(&mut self) -> (step: PollStep)
        ensures
            final(self).job_id == old(self).job_id,
            final(self).consecutive_errors == old(self).consecutive_errors,
            old(self).attempts >= 120 ==> {
                &&& final(self).attempts == 121
                &&& step@ == PollStepView::Abort(ScanErrorView::Failed("Job timeout"@))
            },
            old(self).attempts < 120 ==> {
                &&& final(self).attempts == old(self).attempts + 1
                &&& step@ == PollStepView::Probe
            },
    {
        if self.attempts >= JOB_POLL_MAX_ATTEMPTS {
            self.attempts = JOB_POLL_MAX_ATTEMPTS + 1;
            PollStep::Abort(ScanError::Failed(String::from_str("Job timeout")))
        } else {
            self.attempts = self.attempts + 1;
            PollStep::Probe
        }
    }

    /// Decides what follows a poll. An answer resets the count of request
    /// errors: `Completed` ends the wait, `Failed` ends it with `Failed`,
    /// any other state is followed by the polling interval. A request error
    /// is counted: the third in a row ends the wait with `Failed`, which
    /// quotes the error; before that the interval follows.
    pub fn after_attempt(&mut self, outcome: Result<JobStatus, ScanError>) -> (step: PollStep)
        ensures
            final(self).job_id == old(self).job_id,
            final(self).attempts == old(self).attempts,
            match outcome {
                Ok(status) => {
                    &&& final(self).consecutive_errors == 0
                    &&& step@ == if status.status@ == "Completed"@ {
                        PollStepView::Done
                    } else if status.status@ == "Failed"@ {
                        PollStepView::Abort(
                            ScanErrorView::Failed(job_failed_message(old(self).job_id)),
                        )
                    } else {
                        PollStepView::Wait(5)
                    }
                },
                Err(e) => if old(self).consecutive_errors >= 2 {
                    &&& final(self).consecutive_errors == 3
                    &&& step@ == PollStepView::Abort(
                        ScanErrorView::Failed(
                            job_errors_message(old(self).job_id, 3, e@.message()),
                        ),
                    )
                } else {
                    &&& final(self).consecutive_errors == old(self).consecutive_errors + 1
                    &&& step@ == PollStepView::Wait(5)
                },
            },
    {
        match outcome {
            Ok(status) => {
                self.consecutive_errors = 0;
                proof {
                    reveal_strlit("Completed");
                    reveal_strlit("Failed");
                    assert("Completed"@.len() == 9);
                    assert("Failed"@.len() == 6);
                }
                if text_eq(status.status.as_str(), "Completed") {
                    PollStep::Done
                } else if text_eq(status.status.as_str(), "Failed") {
                    let mut message = String::from_str("Job ");
                    push_signed_decimal(&mut message, self.job_id as i64);
                    push_text(&mut message, " failed");
                    PollStep::Abort(ScanError::Failed(message))
                } else {
                    PollStep::Wait(JOB_POLL_INTERVAL_SECS)
                }
            },
            Err(e) => {
                if self.consecutive_errors >= JOB_POLL_MAX_CONSECUTIVE_ERRORS - 1 {
                    self.consecutive_errors = JOB_POLL_MAX_CONSECUTIVE_ERRORS;
                    let mut message = String::from_str("Job ");
                    push_signed_decimal(&mut message, self.job_id as i64);
                    push_text(&mut message, " status check failed after ");
                    push_decimal(&mut message, JOB_POLL_MAX_CONSECUTIVE_ERRORS as u64);
                    push_text(&mut message, " consecutive errors: ");
                    let last = e.to_string();
                    push_text(&mut message, last.as_str());
                    PollStep::Abort(ScanError::Failed(message))
                } else {
                    self.consecutive_errors = self.consecutive_errors + 1;
                    PollStep::Wait(JOB_POLL_INTERVAL_SECS)
                }
            },
        }
    }
}

} // verus!
