//! Whole-system sleep and wake: process-table partitioning and the
//! suspended-state machine.
//!
//! Sleeping stops every user process that is not on the fixed exclusion
//! allow-list and whose pid and parent pid are both above two, then turns
//! the backlight off; waking continues every stopped process and turns the
//! backlight on.  Both are idempotent: sleeping while already suspended and
//! waking while not suspended signal no process at all.

use vstd::prelude::*;

use crate::text::str_eq;

verus! {

/// Scheduling state of a process, as read from the process table.
#[derive(Clone, Copy, Debug, PartialEq, Eq, Structural)]
pub enum ProcStatus {
    Run,
    Sleep,
    Dead,
    Stop,
    Other,
}

/// One row of the process table, as plain values.
pub struct ProcessInfo {
    pub pid: u64,
    pub parent: Option<u64>,
    pub name: String,
    pub status: ProcStatus,
}

/// Whether a process name stands on the exclusion allow-list, which is fixed
/// at build time and never changed at runtime.
pub open spec fn spec_excluded(name: Seq<char>) -> bool {
    ||| name == "sh"@
    ||| name == "emulator"@
    ||| name == "smithay-clipboa"@
    ||| name == "weston-desktop-"@
    ||| name == "tokio-runtime-w"@
    ||| name == "MainUI"@
    ||| name == "updater"@
    ||| name == "launch.sh"@
    ||| name == "tee"@
}

/// Checks the exclusion allow-list.
pub fn is_excluded(name: &str) -> (r: bool)
    ensures
        r == spec_excluded(name@),
{
    str_eq(name, "sh") || str_eq(name, "emulator") || str_eq(name, "smithay-clipboa") || str_eq(
        name,
        "weston-desktop-",
    ) || str_eq(name, "tokio-runtime-w") || str_eq(name, "MainUI") || str_eq(name, "updater")
        || str_eq(name, "launch.sh") || str_eq(name, "tee")
}

/// Whether sleeping stops this process: it is running, sleeping or dead (not
/// already stopped), it is not on the allow-list, and neither its pid nor
/// its parent pid is two or below.
pub open spec fn spec_should_stop(p: ProcessInfo) -> bool {
    &&& (p.status == ProcStatus::Run || p.status == ProcStatus::Sleep || p.status
        == ProcStatus::Dead)
    &&& !spec_excluded(p.name@)
    &&& p.pid > 2
    &&& match p.parent {
        Some(parent) => parent > 2,
        None => true,
    }
}

/// Whether waking continues this process: exactly the stopped ones.
pub open spec fn spec_should_continue(p: ProcessInfo) -> bool {
    p.status == ProcStatus::Stop
}

/// Decides for one process whether sleeping stops it.
pub fn should_stop(p: &ProcessInfo) -> (r: bool)
    ensures
        r == spec_should_stop(*p),
{
    let status_ok = match p.status {
        ProcStatus::Run => true,
        ProcStatus::Sleep => true,
        ProcStatus::Dead => true,
        _ => false,
    };
    let parent_ok = match p.parent {
        Some(parent) => parent > 2,
        None => true,
    };
    status_ok && !is_excluded(p.name.as_str()) && p.pid > 2 && parent_ok
}

/// The pids that sleeping signals to stop, in table order.
pub fn processes_to_stop(procs: &Vec<ProcessInfo>) -> (r: Vec<u64>)
    ensures
        r@ == procs@.filter(|p: ProcessInfo| spec_should_stop(p)).map_values(
            |p: ProcessInfo| p.pid,
        ),
{
    let mut r: Vec<u64> = Vec::new();
    let mut i: usize = 0;
    while i < procs.len()
        invariant
            0 <= i <= procs@.len(),
            r@ == procs@.take(i as int).filter(|p: ProcessInfo| spec_should_stop(p)).map_values(
                |p: ProcessInfo| p.pid,
            ),
        decreases procs@.len() - i,
    {
        proof {
            assert(procs@.take(i + 1).drop_last() =~= procs@.take(i as int));
            reveal_with_fuel(Seq::filter, 2);
        }
        if should_stop(&procs[i]) {
            r.push(procs[i].pid);
        }
        i = i + 1;
    }
    proof {
        assert(procs@.take(procs@.len() as int) =~= procs@);
    }
    r
}

/// The pids that waking signals to continue, in table order.
pub fn processes_to_continue(procs: &Vec<ProcessInfo>) -> (r: Vec<u64>)
    ensures
        r@ == procs@.filter(|p: ProcessInfo| spec_should_continue(p)).map_values(
            |p: ProcessInfo| p.pid,
        ),
{
    let mut r: Vec<u64> = Vec::new();
    let mut i: usize = 0;
    while i < procs.len()
        invariant
            0 <= i <= procs@.len(),
            r@ == procs@.take(i as int).filter(
                |p: ProcessInfo| spec_should_continue(p),
            ).map_values(|p: ProcessInfo| p.pid),
        decreases procs@.len() - i,
    {
        proof {
            assert(procs@.take(i + 1).drop_last() =~= procs@.take(i as int));
            reveal_with_fuel(Seq::filter, 2);
        }
        let cont = match procs[i].status {
            ProcStatus::Stop => true,
            _ => false,
        };
        if cont {
            r.push(procs[i].pid);
        }
        i = i + 1;
    }
    proof {
        assert(procs@.take(procs@.len() as int) =~= procs@);
    }
    r
}

/// The actions one sleep or wake transition asks of the caller.
pub struct SleepPlan {
    /// Signal these pids to stop (sleep) or continue (wake).
    pub signal_pids: Vec<u64>,
    /// Tell the emulator process to pause (sleep) or resume (wake) first,
    /// because a game is active.
    pub notify_emulator: bool,
    /// Switch the backlight off (sleep) or on (wake).
    pub set_backlight: bool,
}

/// The suspended-state machine of the system process.
pub struct SleepController {
    pub suspended: bool,
}

impl SleepController {
    /// The pids one sleep transition signals to stop: none when already
    /// suspended, else the stop partition of the table.
    pub open spec fn spec_sleep_signals(s: SleepController, procs: Seq<ProcessInfo>) -> Seq<u64> {
        if s.suspended {
            Seq::empty()
        } else {
            procs.filter(|p: ProcessInfo| spec_should_stop(p)).map_values(|p: ProcessInfo| p.pid)
        }
    }

    /// The pids one wake transition signals to continue: none when not
    /// suspended, else the stopped processes of the table.
    pub open spec fn spec_wake_signals(s: SleepController, procs: Seq<ProcessInfo>) -> Seq<u64> {
        if !s.suspended {
            Seq::empty()
        } else {
            procs.filter(|p: ProcessInfo| spec_should_continue(p)).map_values(
                |p: ProcessInfo| p.pid,
            )
        }
    }

    /// Awake.
    pub fn new() -> (r: SleepController)
        ensures
            !r.suspended,
    {
        SleepController { suspended: false }
    }

    /// Whether the system is suspended.
    pub fn sleeping(&self) -> (r: bool)
        ensures
            r == self.suspended,
    {
        self.suspended
    }

    /// Plans the sleep transition.  When already suspended nothing is
    /// signalled, notified or dimmed; otherwise every process of the table
    /// that the partition selects is stopped, the emulator is paused first
    /// when a game is active, and the backlight goes off.
    pub fn sleep(&mut self, procs: &Vec<ProcessInfo>, playing: bool) -> (plan: SleepPlan)
        ensures
            final(self).suspended,
            plan.signal_pids@ == SleepController::spec_sleep_signals(*old(self), procs@),
            plan.notify_emulator == (!old(self).suspended && playing),
            plan.set_backlight == !old(self).suspended,
    {
        if self.suspended {
            SleepPlan { signal_pids: Vec::new(), notify_emulator: false, set_backlight: false }
        } else {
            self.suspended = true;
            SleepPlan {
                signal_pids: processes_to_stop(procs),
                notify_emulator: playing,
                set_backlight: true,
            }
        }
    }

    /// Plans the wake transition.  When not suspended nothing is signalled,
    /// notified or lit; otherwise every stopped process of the table is
    /// continued, the emulator is resumed when a game is active, and the
    /// backlight goes on.
    pub fn wake(&mut self, procs: &Vec<ProcessInfo>, playing: bool) -> (plan: SleepPlan)
        ensures
            !final(self).suspended,
            plan.signal_pids@ == SleepController::spec_wake_signals(*old(self), procs@),
            plan.notify_emulator == (old(self).suspended && playing),
            plan.set_backlight == old(self).suspended,
    {
        if !self.suspended {
            SleepPlan { signal_pids: Vec::new(), notify_emulator: false, set_backlight: false }
        } else {
            self.suspended = false;
            SleepPlan {
                signal_pids: processes_to_continue(procs),
                notify_emulator: playing,
                set_backlight: true,
            }
        }
    }
}

/// Sleep and wake are idempotent.  After any sleep the controller is
/// suspended, so a second sleep in a row signals no process: the whole
/// process table is stopped only by the first call.  And waking while not
/// asleep performs zero continue signals.
pub proof fn lemma_sleep_wake_idempotent(
    s: SleepController,
    procs1: Seq<ProcessInfo>,
    procs2: Seq<ProcessInfo>,
)
    ensures
        SleepController::spec_sleep_signals(SleepController { suspended: true }, procs2)
            == Seq::<u64>::empty(),
        !s.suspended ==> SleepController::spec_wake_signals(s, procs1) == Seq::<u64>::empty(),
{
}

} // verus!
