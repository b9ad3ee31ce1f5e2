//! Daemon lifecycle coordination.
//!
//! A daemon process holds the display device and keeps the output off; a
//! record file holds its process identifier.  Everything that decides is
//! here: the record codec, the record-file path, the self-healing liveness
//! verdict, the start/stop polling steps, and the state machine the daemon
//! process itself follows.  The shell around the library reads and writes
//! the file, forks, sends signals and sleeps, and feeds the observations
//! back in as plain values.

use vstd::prelude::*;
use crate::error::Error;
use crate::text::{
    digits_val, format_u64, is_digit, lemma_spec_digits, lemma_trim_id, parse_i32, spec_digits,
    spec_is_ws, spec_parse_i32, spec_parse_signed, spec_trim,
};

verus! {

/// How many 100ms polls the client makes while waiting for the daemon to
/// confirm its start.
pub const START_ATTEMPTS: u32 = 20;

/// How many 100ms polls the client makes while waiting for a signalled
/// daemon to exit.
pub const STOP_ATTEMPTS: u32 = 50;

/// The sleep between two polls, and between two turns of the daemon's own
/// event loop, in milliseconds.
pub const POLL_INTERVAL_MS: u64 = 100;

/// The decimal rendering of a process identifier, as the record file holds
/// it: a minus sign for negative values, digits otherwise.
pub open spec fn spec_format_i32(p: int) -> Seq<char> {
    if p < 0 {
        seq!['-'] + spec_digits((-p) as nat)
    } else {
        spec_digits(p as nat)
    }
}

/// Render a process identifier for the record file.
pub fn format_pid_record(pid: i32) -> (r: String)
    ensures
        r@ == spec_format_i32(pid as int),
{
    if pid >= 0 {
        format_u64(pid as u64)
    } else {
        let m = -(pid as i64);
        let digits = format_u64(m as u64);
        proof {
            reveal_strlit("-");
            assert("-"@ =~= seq!['-']);
        }
        let r = "-".to_owned().concat(digits.as_str());
        proof {
            assert(r@ =~= seq!['-'] + spec_digits((-(pid as int)) as nat));
        }
        r
    }
}

/// Read a process identifier back from the record file's contents.
/// Succeeds exactly when the contents parse as a 32-bit integer.
pub fn parse_pid_record(contents: &str) -> (r: Result<i32, Error>)
    ensures
        spec_parse_i32(contents@) matches Some(v) ==> (r matches Ok(p) && p as int == v),
        spec_parse_i32(contents@) is None ==> (r matches Err(e) && e matches Error::PidFileError(
            _,
        )),
{
    match parse_i32(contents) {
        Some(v) => Ok(v),
        None => Err(Error::PidFileError("Invalid PID in file".to_owned())),
    }
}

/// Writing a process identifier and reading it back yields the identical
/// identifier, for every 32-bit value.
pub proof fn lemma_record_round_trip(p: int)
    requires
        -2147483648 <= p <= 2147483647,
    ensures
        spec_parse_i32(spec_format_i32(p)) == Some(p),
{
    let s = spec_format_i32(p);
    if p < 0 {
        let n = (-p) as nat;
        lemma_spec_digits(n);
        let d = spec_digits(n);
        assert(s == seq!['-'] + d);
        assert(s.len() == 1 + d.len());
        assert(s[0] == '-');
        assert(forall|i: int| 0 <= i < d.len() ==> is_digit(#[trigger] d[i]));
        assert(forall|i: int| 1 <= i < s.len() ==> s[i] == d[i - 1]);
        assert(forall|i: int| 0 <= i < s.len() ==> !spec_is_ws(#[trigger] s[i]));
        lemma_trim_id(s);
        assert(spec_trim(s) == s);
        assert(s.drop_first() =~= d);
        assert(digits_val(d) == n);
        assert(spec_parse_signed(d, true) == Some(p));
    } else {
        let n = p as nat;
        lemma_spec_digits(n);
        let d = spec_digits(n);
        assert(s == d);
        assert(forall|i: int| 0 <= i < s.len() ==> is_digit(#[trigger] s[i]));
        assert(forall|i: int| 0 <= i < s.len() ==> !spec_is_ws(#[trigger] s[i]));
        lemma_trim_id(s);
        assert(spec_trim(s) == s);
        assert(is_digit(s[0]));
        assert(s[0] != '-' && s[0] != '+');
        assert(digits_val(d) == n);
        assert(spec_parse_signed(s, false) == Some(p));
    }
}

/// The record-file path: `powermon.pid` inside the session's runtime
/// directory, or inside `/run/user/<uid>` when no directory is given.
pub fn get_pid_file_path(runtime_dir: Option<String>, uid: u32) -> (r: String)
    ensures
        runtime_dir matches Some(d) ==> r@ == d@ + "/powermon.pid"@,
        runtime_dir is None ==> r@ == "/run/user/"@ + spec_digits(uid as nat) + "/powermon.pid"@,
{
    match runtime_dir {
        Some(d) => d.concat("/powermon.pid"),
        None => {
            let mut p = "/run/user/".to_owned();
            p.append(format_u64(uid as u64).as_str());
            p.append("/powermon.pid");
            p
        },
    }
}

/// What a reader found in the record file.
#[derive(Debug, Clone, Copy, PartialEq, Eq, Structural)]
pub enum RecordState {
    /// The file does not exist.
    Missing,
    /// The file exists but does not hold a process identifier.
    Unreadable,
    /// The file holds this process identifier.
    Recorded(i32),
}

/// Answer "is the daemon running" from the record and a liveness probe of
/// the recorded process, and decide whether the record is stale.
///
/// The second component asks the caller to remove the record file: that is
/// the self-healing step, taken exactly when a recorded process is no
/// longer alive.
pub fn daemon_running_verdict(record: RecordState, alive: bool) -> (r: (Option<i32>, bool))
    ensures
        record matches RecordState::Recorded(p) ==> (if alive {
            r == (Some(p), false)
        } else {
            r == (None::<i32>, true)
        }),
        record is Missing || record is Unreadable ==> r == (None::<i32>, false),
{
    match record {
        RecordState::Recorded(p) => {
            if alive {
                (Some(p), false)
            } else {
                (None, true)
            }
        },
        _ => (None, false),
    }
}

/// What a client asked to turn the display off should do.
#[derive(Debug, Clone, Copy, PartialEq, Eq, Structural)]
pub enum StartAction {
    /// A daemon already runs: the display is already off; do nothing.
    AlreadyRunning,
    /// Spawn the daemon process.
    Fork,
}

/// Starting is idempotent: with a daemon already running nothing is
/// spawned, and the request still succeeds.
pub fn start_plan(running: bool) -> (r: StartAction)
    ensures
        running ==> r == StartAction::AlreadyRunning,
        !running ==> r == StartAction::Fork,
{
    if running {
        StartAction::AlreadyRunning
    } else {
        StartAction::Fork
    }
}

/// The forked daemon has confirmed its start exactly when the record holds
/// the identifier of the child the client forked — a record written by an
/// unrelated process does not count.
pub fn start_confirmed(record: RecordState, child: i32) -> (r: bool)
    ensures
        r <==> record == RecordState::Recorded(child),
{
    match record {
        RecordState::Recorded(p) => p == child,
        _ => false,
    }
}

/// The outcome of one polling step.
#[derive(Debug)]
pub enum LoopStep {
    /// The wait is over, with this result.
    Finish(Result<(), Error>),
    /// Sleep one interval and look again.
    Retry,
}

/// One step of the client's wait for the daemon to confirm its start:
/// confirmation ends the wait with success, exhausting the window fails
/// with the start error, anything else retries.
pub fn start_wait_step(confirmed: bool, attempt: u32) -> (r: LoopStep)
    requires
        attempt < START_ATTEMPTS,
    ensures
        confirmed ==> r == LoopStep::Finish(Ok::<(), Error>(())),
        !confirmed && attempt + 1 == START_ATTEMPTS ==> r == LoopStep::Finish(
            Err::<(), Error>(Error::DaemonStartFailed),
        ),
        !confirmed && attempt + 1 < START_ATTEMPTS ==> r is Retry,
{
    if confirmed {
        LoopStep::Finish(Ok(()))
    } else if attempt + 1 == START_ATTEMPTS {
        LoopStep::Finish(Err(Error::DaemonStartFailed))
    } else {
        LoopStep::Retry
    }
}

/// What a stop request should do first.
#[derive(Debug, Clone, Copy, PartialEq, Eq, Structural)]
pub enum StopAction {
    /// No record: no daemon to stop; succeed at once.
    AlreadyStopped,
    /// The recorded process is dead: delete the stale record and succeed.
    RemoveStaleRecord,
    /// Send the termination signal to this process and wait for it to exit.
    SignalAndWait(i32),
}

/// Decide a stop request from the record and a liveness probe.  A missing
/// record means there is nothing to stop and the request succeeds; an
/// unreadable record is a record-file error.
pub fn stop_plan(record: RecordState, alive: bool) -> (r: Result<StopAction, Error>)
    ensures
        record is Missing ==> r == Ok::<StopAction, Error>(StopAction::AlreadyStopped),
        record is Unreadable ==> (r matches Err(e) && e matches Error::PidFileError(_)),
        record matches RecordState::Recorded(p) ==> (if alive {
            r == Ok::<StopAction, Error>(StopAction::SignalAndWait(p))
        } else {
            r == Ok::<StopAction, Error>(StopAction::RemoveStaleRecord)
        }),
{
    match record {
        RecordState::Missing => Ok(StopAction::AlreadyStopped),
        RecordState::Unreadable => Err(Error::PidFileError("Invalid PID in file".to_owned())),
        RecordState::Recorded(p) => {
            if alive {
                Ok(StopAction::SignalAndWait(p))
            } else {
                Ok(StopAction::RemoveStaleRecord)
            }
        },
    }
}

/// One step of the client's wait for a signalled daemon to exit: the
/// process disappearing ends the wait with success, exhausting the window
/// fails with the stop timeout, anything else retries.  The daemon is
/// never killed forcibly.
pub fn stop_wait_step(alive: bool, attempt: u32) -> (r: LoopStep)
    requires
        attempt < STOP_ATTEMPTS,
    ensures
        !alive ==> r == LoopStep::Finish(Ok::<(), Error>(())),
        alive && attempt + 1 == STOP_ATTEMPTS ==> r == LoopStep::Finish(
            Err::<(), Error>(Error::DaemonStopTimeout),
        ),
        alive && attempt + 1 < STOP_ATTEMPTS ==> r is Retry,
{
    if !alive {
        LoopStep::Finish(Ok(()))
    } else if attempt + 1 == STOP_ATTEMPTS {
        LoopStep::Finish(Err(Error::DaemonStopTimeout))
    } else {
        LoopStep::Retry
    }
}

/// Where the daemon process stands in its life.
#[derive(Debug, Clone, Copy, PartialEq, Eq, Structural)]
pub enum DaemonPhase {
    /// Install the two termination-signal handlers.
    InstallHandlers,
    /// Acquire the display device.
    OpenDevice,
    /// Find the active display pipeline.
    FindPipeline,
    /// Commit the pipeline inactive — the display goes dark here.
    CommitOff,
    /// Write the daemon record with this process's identifier.
    WriteRecord,
    /// Service session events and sleep until told to shut down.
    Poll,
    /// Commit the pipeline active again; a failure is logged, not fatal.
    Restore,
    /// Remove the daemon record; a failure is logged, not fatal.
    RemoveRecord,
    /// Exit with a success status.
    ExitSuccess,
    /// Exit with a failure status.
    ExitFailure,
    /// The display is off but startup cannot finish: restore it
    /// best-effort, then exit with a failure status.
    RestoreThenFail,
}

/// The daemon's next phase, given whether the current phase's action
/// succeeded and whether a termination signal has set the shutdown flag.
///
/// Failures before the off commit just exit; a failure after it first
/// tries to restore the display.  Once shutting down, a failed restore or
/// record removal never stops the remaining cleanup: the record must not
/// outlive the daemon.
pub open spec fn spec_daemon_next(phase: DaemonPhase, ok: bool, shutdown: bool) -> DaemonPhase {
    match phase {
        DaemonPhase::InstallHandlers => if ok {
            DaemonPhase::OpenDevice
        } else {
            DaemonPhase::ExitFailure
        },
        DaemonPhase::OpenDevice => if ok {
            DaemonPhase::FindPipeline
        } else {
            DaemonPhase::ExitFailure
        },
        DaemonPhase::FindPipeline => if ok {
            DaemonPhase::CommitOff
        } else {
            DaemonPhase::ExitFailure
        },
        DaemonPhase::CommitOff => if ok {
            DaemonPhase::WriteRecord
        } else {
            DaemonPhase::ExitFailure
        },
        DaemonPhase::WriteRecord => if ok {
            DaemonPhase::Poll
        } else {
            DaemonPhase::RestoreThenFail
        },
        DaemonPhase::Poll => if shutdown || !ok {
            DaemonPhase::Restore
        } else {
            DaemonPhase::Poll
        },
        DaemonPhase::Restore => DaemonPhase::RemoveRecord,
        DaemonPhase::RemoveRecord => DaemonPhase::ExitSuccess,
        DaemonPhase::RestoreThenFail => DaemonPhase::ExitFailure,
        DaemonPhase::ExitSuccess => DaemonPhase::ExitSuccess,
        DaemonPhase::ExitFailure => DaemonPhase::ExitFailure,
    }
}

/// Step the daemon's state machine.
pub fn daemon_next(phase: DaemonPhase, ok: bool, shutdown: bool) -> (r: DaemonPhase)
    ensures
        r == spec_daemon_next(phase, ok, shutdown),
{
    match phase {
        DaemonPhase::InstallHandlers => if ok {
            DaemonPhase::OpenDevice
        } else {
            DaemonPhase::ExitFailure
        },
        DaemonPhase::OpenDevice => if ok {
            DaemonPhase::FindPipeline
        } else {
            DaemonPhase::ExitFailure
        },
        DaemonPhase::FindPipeline => if ok {
            DaemonPhase::CommitOff
        } else {
            DaemonPhase::ExitFailure
        },
        DaemonPhase::CommitOff => if ok {
            DaemonPhase::WriteRecord
        } else {
            DaemonPhase::ExitFailure
        },
        DaemonPhase::WriteRecord => if ok {
            DaemonPhase::Poll
        } else {
            DaemonPhase::RestoreThenFail
        },
        DaemonPhase::Poll => if shutdown || !ok {
            DaemonPhase::Restore
        } else {
            DaemonPhase::Poll
        },
        DaemonPhase::Restore => DaemonPhase::RemoveRecord,
        DaemonPhase::RemoveRecord => DaemonPhase::ExitSuccess,
        DaemonPhase::RestoreThenFail => DaemonPhase::ExitFailure,
        DaemonPhase::ExitSuccess => DaemonPhase::ExitSuccess,
        DaemonPhase::ExitFailure => DaemonPhase::ExitFailure,
    }
}

/// Some step takes phase `a` to phase `b`.
pub open spec fn spec_daemon_edge(a: DaemonPhase, b: DaemonPhase) -> bool {
    exists|ok: bool, shutdown: bool| spec_daemon_next(a, ok, shutdown) == b
}

/// A possible life of the daemon process: it begins by installing the
/// signal handlers, and every later phase follows from its predecessor by
/// one step.
pub open spec fn spec_daemon_run(ps: Seq<DaemonPhase>) -> bool {
    &&& ps.len() > 0
    &&& ps[0] == DaemonPhase::InstallHandlers
    &&& forall|i: int| 0 <= i < ps.len() - 1 ==> spec_daemon_edge(ps[i], #[trigger] ps[i + 1])
}

/// The phases a daemon can only be in once the off commit has succeeded.
pub open spec fn spec_past_off(p: DaemonPhase) -> bool {
    ||| p == DaemonPhase::WriteRecord
    ||| p == DaemonPhase::Poll
    ||| p == DaemonPhase::Restore
    ||| p == DaemonPhase::RemoveRecord
    ||| p == DaemonPhase::ExitSuccess
    ||| p == DaemonPhase::RestoreThenFail
}

/// Within one daemon lifetime the off commit precedes the restore: any run
/// that stands in a phase past the off commit — the restore in
/// particular — passed through the off commit earlier.
/// A daemon that exits with success removed its record first: the record
/// never outlives a cleanly exiting daemon.
pub proof fn lemma_record_removed_before_exit(ps: Seq<DaemonPhase>)
    requires
        spec_daemon_run(ps),
        ps.last() == DaemonPhase::ExitSuccess,
    ensures
        exists|j: int| 0 <= j < ps.len() && ps[j] == DaemonPhase::RemoveRecord,
    decreases ps.len(),
{
    if ps.len() == 1 {
        assert(ps.last() == ps[0]);
        assert(false);
    } else {
        let n = ps.len() as int;
        let prev = ps[n - 2];
        assert(spec_daemon_edge(ps[n - 2], ps[n - 2 + 1]));
        let (ok, shutdown) = choose|ok: bool, shutdown: bool|
            spec_daemon_next(prev, ok, shutdown) == ps.last();
        if prev == DaemonPhase::RemoveRecord {
            assert(ps[n - 2] == DaemonPhase::RemoveRecord);
        } else {
            assert(prev == DaemonPhase::ExitSuccess);
            let pre = ps.drop_last();
            assert(pre.last() == prev);
            assert(forall|i: int| 0 <= i < pre.len() - 1 ==> spec_daemon_edge(
                pre[i],
                #[trigger] pre[i + 1],
            )) by {
                assert(forall|i: int| 0 <= i < pre.len() - 1 ==> pre[i] == ps[i]
                    && #[trigger] pre[i + 1] == ps[i + 1]);
            }
            assert(spec_daemon_run(pre));
            lemma_record_removed_before_exit(pre);
            let j = choose|j: int| 0 <= j < pre.len() && pre[j] == DaemonPhase::RemoveRecord;
            assert(ps[j] == DaemonPhase::RemoveRecord);
        }
    }
}

pub proof fn lemma_off_precedes_restore(ps: Seq<DaemonPhase>)
    requires
        spec_daemon_run(ps),
        spec_past_off(ps.last()),
    ensures
        exists|j: int| 0 <= j < ps.len() && ps[j] == DaemonPhase::CommitOff,
    decreases ps.len(),
{
    if ps.len() == 1 {
        assert(ps.last() == ps[0]);
        assert(false);
    } else {
        let n = ps.len() as int;
        let prev = ps[n - 2];
        assert(spec_daemon_edge(ps[n - 2], ps[n - 2 + 1]));
        let (ok, shutdown) = choose|ok: bool, shutdown: bool|
            spec_daemon_next(prev, ok, shutdown) == ps.last();
        if prev == DaemonPhase::CommitOff {
            assert(ps[n - 2] == DaemonPhase::CommitOff);
        } else {
            assert(spec_past_off(prev));
            let pre = ps.drop_last();
            assert(pre.last() == prev);
            assert(forall|i: int| 0 <= i < pre.len() - 1 ==> spec_daemon_edge(
                pre[i],
                #[trigger] pre[i + 1],
            )) by {
                assert(forall|i: int| 0 <= i < pre.len() - 1 ==> pre[i] == ps[i]
                    && #[trigger] pre[i + 1] == ps[i + 1]);
            }
            assert(spec_daemon_run(pre));
            lemma_off_precedes_restore(pre);
            let j = choose|j: int| 0 <= j < pre.len() && pre[j] == DaemonPhase::CommitOff;
            assert(ps[j] == DaemonPhase::CommitOff);
        }
    }
}

} // verus!
