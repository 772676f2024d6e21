use vstd::prelude::*;

use crate::poll::POLL_PAUSE_MS;

verus! {

/// How many of the verdicts say "connected".
pub open spec fn count_connected_spec(s: Seq<bool>) -> nat
    decreases s.len(),
{
    if s.len() == 0 {
        0
    } else {
        count_connected_spec(s.drop_last()) + if s.last() { 1nat } else { 0nat }
    }
}

/// Some verdict says "connected".
pub open spec fn some_connected(s: Seq<bool>) -> bool {
    exists|i: int| 0 <= i < s.len() && #[trigger] s[i]
}

/// The count never exceeds the number of verdicts.
pub proof fn count_connected_bounded(s: Seq<bool>)
    ensures
        count_connected_spec(s) <= s.len(),
    decreases s.len(),
{
    if s.len() > 0 {
        count_connected_bounded(s.drop_last());
    }
}

/// At least one monitor counts as connected exactly when some monitor
/// reports a connection.
pub proof fn count_positive_iff_some_connected(s: Seq<bool>)
    ensures
        count_connected_spec(s) >= 1 <==> some_connected(s),
    decreases s.len(),
{
    if s.len() > 0 {
        let p = s.drop_last();
        count_positive_iff_some_connected(p);
        if some_connected(p) {
            let i = choose|i: int| 0 <= i < p.len() && #[trigger] p[i];
            assert(s[i]);
        }
        if some_connected(s) {
            let i = choose|i: int| 0 <= i < s.len() && #[trigger] s[i];
            if i < p.len() {
                assert(p[i]);
            }
        }
    }
}

/// What the watcher does on one turn of its loop.
#[derive(Clone, Copy, Debug)]
pub enum WatchStep {
    /// Interrupted: stop every monitor and leave.
    Shutdown,
    /// Some monitor reports a connection: wait `ms` and look again.
    Pause { ms: u64 },
    /// No monitor reports a connection: play the alarm once through.
    SoundAlarm,
}

/// The step for a turn, from the interrupt flag and the monitors' verdicts.
pub open spec fn watch_step_spec(interrupted: bool, verdicts: Seq<bool>) -> WatchStep {
    if interrupted {
        WatchStep::Shutdown
    } else if count_connected_spec(verdicts) >= 1 {
        WatchStep::Pause { ms: POLL_PAUSE_MS }
    } else {
        WatchStep::SoundAlarm
    }
}

/// The failures that end a monitor or the watcher.
#[derive(Clone, Copy, Debug, PartialEq, Eq, Structural)]
pub enum WatchError {
    /// A monitor's background task could not be joined when it was stopped.
    CouldNotJoin,
    /// The alarm sound gave no total length, so the watcher cannot tell how
    /// long to let it play.
    UnknownAlarmLength,
}

impl WatchError {
    /// A one-line description for the log.
    pub fn message(&self) -> (r: String)
        ensures
            *self == WatchError::CouldNotJoin ==> r@ == "Could not join thread"@,
            *self == WatchError::UnknownAlarmLength ==> r@ == "Could not get duration"@,
    {
        match self {
            WatchError::CouldNotJoin => "Could not join thread".to_owned(),
            WatchError::UnknownAlarmLength => "Could not get duration".to_owned(),
        }
    }
}

/// How many of the verdicts say "connected".
pub fn count_connected(verdicts: &Vec<bool>) -> (r: usize)
    ensures
        r == count_connected_spec(verdicts@),
{
    let mut n: usize = 0;
    let mut i: usize = 0;
    while i < verdicts.len()
        invariant
            i <= verdicts.len(),
            n == count_connected_spec(verdicts@.subrange(0, i as int)),
        decreases verdicts.len() - i,
    {
        proof {
            let next = verdicts@.subrange(0, i + 1);
            assert(next.drop_last() =~= verdicts@.subrange(0, i as int));
            count_connected_bounded(verdicts@.subrange(0, i as int));
        }
        if verdicts[i] {
            n = n + 1;
        }
        i = i + 1;
    }
    assert(verdicts@.subrange(0, i as int) =~= verdicts@);
    n
}

/// Whether any monitor reports a connection.
pub fn any_connected(verdicts: &Vec<bool>) -> (r: bool)
    ensures
        r == (count_connected_spec(verdicts@) >= 1),
        r == some_connected(verdicts@),
{
    proof {
        count_positive_iff_some_connected(verdicts@);
    }
    count_connected(verdicts) >= 1
}

/// Decides the watcher's next step.
pub fn next_watch_step(interrupted: bool, verdicts: &Vec<bool>) -> (r: WatchStep)
    ensures
        r == watch_step_spec(interrupted, verdicts@),
{
    if interrupted {
        WatchStep::Shutdown
    } else if any_connected(verdicts) {
        WatchStep::Pause { ms: POLL_PAUSE_MS }
    } else {
        WatchStep::SoundAlarm
    }
}

/// How long to let the alarm play before looking again: its total length,
/// which must be known.
pub fn alarm_pause(total_ms: Option<u64>) -> (r: Result<u64, WatchError>)
    ensures
        total_ms matches Some(t) ==> r == Ok::<u64, WatchError>(t),
        total_ms is None ==> r == Err::<u64, WatchError>(WatchError::UnknownAlarmLength),
{
    match total_ms {
        Some(t) => Ok(t),
        None => Err(WatchError::UnknownAlarmLength),
    }
}

/// The result of stopping one monitor, from whether its task was joined.
pub fn join_outcome(joined: bool) -> (r: Result<(), WatchError>)
    ensures
        joined ==> r == Ok::<(), WatchError>(()),
        !joined ==> r == Err::<(), WatchError>(WatchError::CouldNotJoin),
{
    if joined {
        Ok(())
    } else {
        Err(WatchError::CouldNotJoin)
    }
}

/// The result of stopping every monitor, each stopped whatever became of
/// the others: a success only where every task was joined.
pub fn shutdown_outcome(joined: &Vec<bool>) -> (r: Result<(), WatchError>)
    ensures
        (forall|i: int| 0 <= i < joined@.len() ==> #[trigger] joined@[i]) ==> r == Ok::<(), WatchError>(()),
        !(forall|i: int| 0 <= i < joined@.len() ==> #[trigger] joined@[i]) ==> r == Err::<(), WatchError>(WatchError::CouldNotJoin),
{
    let mut i: usize = 0;
    while i < joined.len()
        invariant
            i <= joined.len(),
            forall|k: int| 0 <= k < i ==> #[trigger] joined@[k],
        decreases joined.len() - i,
    {
        if !joined[i] {
            return Err(WatchError::CouldNotJoin);
        }
        i = i + 1;
    }
    Ok(())
}

} // verus!
