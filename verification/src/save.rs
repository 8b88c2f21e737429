//! The save-state protocol: pause handshake, coalescing, retry, slot paths.
//!
//! Saving must suspend the run loop for the duration of the plugin's
//! serialize call, because the plugin interface is not reentrant.  The
//! handshake is an explicit state machine: the save worker raises a pause
//! request, the run loop acknowledges it between frames by parking, the
//! worker serializes (retrying once on failure), and the run loop is resumed
//! before any file of the save is written.  A save request that arrives
//! while another save is in flight is coalesced into an immediate success.

use vstd::prelude::*;

verus! {

/// Outcome of a save request.
#[derive(Clone, Copy, Debug, PartialEq, Eq, Structural)]
pub enum SaveOutcome {
    /// No save was in flight: a new save operation has begun.
    Started,
    /// A save was already in flight: the request succeeds with no new work.
    Coalesced,
}

/// What the save worker must do after one serialize attempt.
#[derive(Clone, Copy, Debug, PartialEq, Eq, Structural)]
pub enum SaveStep {
    /// Serialize succeeded: the run loop is resumed; write the files.
    Write,
    /// Serialize failed for the first time: call it once more.
    Retry,
    /// Serialize failed twice: the run loop is resumed; report the error.
    Abort,
}

/// The synchronization state between the run loop and the save worker.
///
/// `pause_requested` is the one-shot token handed to the run loop;
/// `paused` means the run loop has parked; `in_flight` spans a whole save
/// operation from request to completion; `failed_once` records that the
/// single permitted serialize retry has been used.
pub struct SaveManager {
    pub in_flight: bool,
    pub pause_requested: bool,
    pub paused: bool,
    pub failed_once: bool,
}

impl SaveManager {
    pub open spec fn wf(self) -> bool {
        &&& self.pause_requested ==> !self.paused
        &&& self.failed_once ==> self.in_flight
    }

    /// The state after a save request, with its outcome.
    pub open spec fn spec_request_save(s: SaveManager) -> (SaveManager, SaveOutcome) {
        if s.in_flight {
            (s, SaveOutcome::Coalesced)
        } else {
            (
                SaveManager {
                    in_flight: true,
                    pause_requested: !s.paused,
                    failed_once: false,
                    ..s
                },
                SaveOutcome::Started,
            )
        }
    }

    /// The state after the run loop polls the pause token, with whether it
    /// must park.
    pub open spec fn spec_poll_pause(s: SaveManager) -> (SaveManager, bool) {
        if s.pause_requested {
            (SaveManager { pause_requested: false, paused: true, ..s }, true)
        } else {
            (s, false)
        }
    }

    /// The state after one serialize attempt with result `ok`, with the next
    /// step for the worker.
    pub open spec fn spec_serialize_result(s: SaveManager, ok: bool) -> (SaveManager, SaveStep) {
        if ok {
            (SaveManager { paused: false, ..s }, SaveStep::Write)
        } else if !s.failed_once {
            (SaveManager { failed_once: true, ..s }, SaveStep::Retry)
        } else {
            (
                SaveManager { paused: false, in_flight: false, failed_once: false, ..s },
                SaveStep::Abort,
            )
        }
    }

    /// A fresh manager: nothing in flight, the run loop running.
    pub fn new() -> (r: SaveManager)
        ensures
            r.wf(),
            !r.in_flight,
            !r.pause_requested,
            !r.paused,
    {
        SaveManager { in_flight: false, pause_requested: false, paused: false, failed_once: false }
    }

    /// Whether the run loop is currently parked.
    pub fn main_parked(&self) -> (r: bool)
        ensures
            r == self.paused,
    {
        self.paused
    }

    /// Hands the pause token to the run loop unless it is already parked or
    /// the token is already outstanding.
    pub fn park_main(&mut self)
        requires
            old(self).wf(),
        ensures
            final(self).wf(),
            *final(self) == (SaveManager {
                pause_requested: old(self).pause_requested || !old(self).paused,
                ..*old(self)
            }),
    {
        if !self.paused {
            self.pause_requested = true;
        }
    }

    /// Resumes the run loop; doing so when it is not parked changes nothing.
    pub fn unpark_main(&mut self)
        requires
            old(self).wf(),
        ensures
            final(self).wf(),
            *final(self) == (SaveManager { paused: false, ..*old(self) }),
    {
        self.paused = false;
    }

    /// Requests a save.  If one is already in flight the request succeeds
    /// immediately and the state is left exactly as it was: no second pause
    /// request and no second serialize will happen.  Otherwise a save
    /// operation begins and, unless the run loop is already parked, the
    /// pause token is raised.
    pub fn request_save(&mut self) -> (r: SaveOutcome)
        requires
            old(self).wf(),
        ensures
            final(self).wf(),
            ({ let f = *final(self); (f, r) } == SaveManager::spec_request_save(*old(self))),
    {
        if self.in_flight {
            SaveOutcome::Coalesced
        } else {
            self.in_flight = true;
            self.failed_once = false;
            self.pause_requested = !self.paused;
            SaveOutcome::Started
        }
    }

    /// Polled by the run loop between frames: consumes an outstanding pause
    /// token and tells the loop to park.
    pub fn poll_pause(&mut self) -> (park: bool)
        requires
            old(self).wf(),
        ensures
            final(self).wf(),
            ({ let f = *final(self); (f, park) } == SaveManager::spec_poll_pause(*old(self))),
    {
        if self.pause_requested {
            self.pause_requested = false;
            self.paused = true;
            true
        } else {
            false
        }
    }

    /// Records the result of one serialize attempt.  On success the run loop
    /// is resumed before any file is written; a first failure asks for the
    /// single permitted retry while the loop stays parked; a second failure
    /// resumes the loop and abandons the save operation.
    pub fn serialize_result(&mut self, ok: bool) -> (step: SaveStep)
        requires
            old(self).wf(),
            old(self).in_flight,
            old(self).paused,
        ensures
            final(self).wf(),
            ({ let f = *final(self); (f, step) } == SaveManager::spec_serialize_result(*old(self), ok)),
            step != SaveStep::Retry ==> !final(self).paused,
            step == SaveStep::Retry ==> final(self).paused,
    {
        if ok {
            self.paused = false;
            SaveStep::Write
        } else if !self.failed_once {
            self.failed_once = true;
            SaveStep::Retry
        } else {
            self.paused = false;
            self.in_flight = false;
            self.failed_once = false;
            SaveStep::Abort
        }
    }

    /// Marks the save operation finished once its files are written; the run
    /// loop must already have been resumed.
    pub fn complete_save(&mut self)
        requires
            old(self).wf(),
            old(self).in_flight,
            !old(self).paused,
        ensures
            final(self).wf(),
            *final(self) == (SaveManager { in_flight: false, failed_once: false, ..*old(self) }),
    {
        self.in_flight = false;
        self.failed_once = false;
    }
}

/// A save request issued while another save is in flight is coalesced: it
/// reports success at once, changes no state, raises no second pause token
/// and leads to no second serialize call.  In particular, starting a save
/// and requesting again before it completes leaves exactly the state of the
/// first request.
pub proof fn lemma_save_coalescing(s: SaveManager)
    requires
        s.wf(),
        !s.in_flight,
    ensures
        ({
            let (s1, first) = SaveManager::spec_request_save(s);
            let (s2, second) = SaveManager::spec_request_save(s1);
            &&& first == SaveOutcome::Started
            &&& second == SaveOutcome::Coalesced
            &&& s2 == s1
        }),
{
}

/// One whole successful save operation parks the run loop exactly once:
/// the request raises one pause token, the loop parks on it once and no
/// second token appears, and a successful serialize hands the loop back
/// before the operation completes.
pub proof fn lemma_save_cycle_parks_once(s: SaveManager)
    requires
        s.wf(),
        !s.in_flight,
        !s.paused,
        !s.pause_requested,
    ensures
        ({
            let (s1, outcome) = SaveManager::spec_request_save(s);
            let (s2, park1) = SaveManager::spec_poll_pause(s1);
            let (s3, park2) = SaveManager::spec_poll_pause(s2);
            let (s4, step) = SaveManager::spec_serialize_result(s3, true);
            &&& outcome == SaveOutcome::Started
            &&& park1
            &&& !park2
            &&& step == SaveStep::Write
            &&& !s4.paused
            &&& s4.in_flight
        }),
{
}

/// The label naming a slot in file names: its decimal digits, or `auto` for
/// the implicit slot.
pub open spec fn spec_slot_label(slot: Option<u64>) -> Seq<char> {
    match slot {
        None => "auto"@,
        Some(n) => crate::text::spec_decimal(n as int),
    }
}

/// The slot file path: `{dir}/{game}-{label}.sav`.
pub open spec fn spec_save_path(dir: Seq<char>, game: Seq<char>, slot: Option<u64>) -> Seq<char> {
    dir + "/"@ + game + "-"@ + spec_slot_label(slot) + ".sav"@
}

/// The companion screenshot path: the slot file path followed by `.png`.
pub open spec fn spec_screenshot_path(
    dir: Seq<char>,
    game: Seq<char>,
    slot: Option<u64>,
) -> Seq<char> {
    spec_save_path(dir, game, slot) + ".png"@
}

/// Builds the slot file path `{dir}/{game}-{slot|"auto"}.sav`.
pub fn save_path(dir: &str, game: &str, slot: Option<u64>) -> (r: String)
    ensures
        r@ == spec_save_path(dir@, game@, slot),
{
    let mut r = String::from_str(dir);
    r.append("/");
    r.append(game);
    r.append("-");
    match slot {
        None => r.append("auto"),
        Some(n) => crate::text::push_decimal(n, &mut r),
    }
    r.append(".sav");
    assert(r@ =~= spec_save_path(dir@, game@, slot));
    r
}

/// Builds the screenshot path `{dir}/{game}-{slot|"auto"}.sav.png`.
pub fn screenshot_path(dir: &str, game: &str, slot: Option<u64>) -> (r: String)
    ensures
        r@ == spec_screenshot_path(dir@, game@, slot),
{
    let mut r = save_path(dir, game, slot);
    r.append(".png");
    assert(r@ =~= spec_screenshot_path(dir@, game@, slot));
    r
}

/// The slot store after a save: the serialized bytes stand at the slot path.
pub open spec fn store_after_save(
    store: Map<Seq<char>, Seq<u8>>,
    dir: Seq<char>,
    game: Seq<char>,
    slot: Option<u64>,
    data: Seq<u8>,
) -> Map<Seq<char>, Seq<u8>> {
    store.insert(spec_save_path(dir, game, slot), data)
}

/// What loading a slot reads from the store: the bytes at the slot path, or
/// nothing when no file for that slot exists.
pub open spec fn spec_load(
    store: Map<Seq<char>, Seq<u8>>,
    dir: Seq<char>,
    game: Seq<char>,
    slot: Option<u64>,
) -> Option<Seq<u8>> {
    if store.contains_key(spec_save_path(dir, game, slot)) {
        Some(store[spec_save_path(dir, game, slot)])
    } else {
        None
    }
}

/// Saving a slot and loading the same slot round-trips: with no intervening
/// write, the bytes handed to the plugin's unserialize are exactly the bytes
/// its serialize produced.
pub proof fn lemma_save_then_load_round_trip(
    store: Map<Seq<char>, Seq<u8>>,
    dir: Seq<char>,
    game: Seq<char>,
    slot: Option<u64>,
    data: Seq<u8>,
)
    ensures
        spec_load(store_after_save(store, dir, game, slot, data), dir, game, slot) == Some(data),
{
}

} // verus!
