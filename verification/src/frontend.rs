use crate::emulator::ScreenData;
use crate::text::{decimal, decimal_text, join3, lowercase, to_lowercase, trim, trimmed};
use crate::packet::{ReplayConsoleType, TimestampMillis, UnsignedInteger};
use std::collections::BTreeMap;
use std::path::PathBuf;
use vstd::prelude::*;
use vstd::std_specs::iter::IteratorSpec;
use vstd::std_specs::cmp::OrdSpec;

verus! {

#[verifier::external_type_specification]
#[verifier::external_body]
pub struct ExPathBuf(PathBuf);

/// The systems that the frontend can emulate.
#[derive(Copy, Clone, Debug, PartialEq, Eq, Structural)]
pub enum SuperShuckieEmulatorType {
    GameBoy,
    GameBoySGB2,
    GameBoyColor,
    GameBoyAdvance,
    NintendoDS,
}

/// The human-readable name of a system.
pub open spec fn emulator_type_name(t: SuperShuckieEmulatorType) -> Seq<char> {
    match t {
        SuperShuckieEmulatorType::GameBoy => "Game Boy"@,
        SuperShuckieEmulatorType::GameBoySGB2 => "Super Game Boy 2"@,
        SuperShuckieEmulatorType::GameBoyColor => "Game Boy Color"@,
        SuperShuckieEmulatorType::GameBoyAdvance => "Game Boy Advance"@,
        SuperShuckieEmulatorType::NintendoDS => "Nintendo DS"@,
    }
}

impl SuperShuckieEmulatorType {
    /// Return true if this uses a shared config with another system.
    ///
    /// Does not return true if this system owns that config.
    pub fn uses_shared_config(self) -> (r: bool)
        ensures
            r == (self == SuperShuckieEmulatorType::GameBoySGB2 || self
                == SuperShuckieEmulatorType::GameBoyColor),
    {
        match self {
            SuperShuckieEmulatorType::GameBoy => false,
            SuperShuckieEmulatorType::GameBoySGB2 => true,
            SuperShuckieEmulatorType::GameBoyColor => true,
            SuperShuckieEmulatorType::GameBoyAdvance => false,
            SuperShuckieEmulatorType::NintendoDS => false,
        }
    }

    /// Get the human-readable name.
    pub fn name(self) -> (r: &'static str)
        ensures
            r@ == emulator_type_name(self),
    {
        match self {
            SuperShuckieEmulatorType::GameBoy => "Game Boy",
            SuperShuckieEmulatorType::GameBoySGB2 => "Super Game Boy 2",
            SuperShuckieEmulatorType::GameBoyColor => "Game Boy Color",
            SuperShuckieEmulatorType::GameBoyAdvance => "Game Boy Advance",
            SuperShuckieEmulatorType::NintendoDS => "Nintendo DS",
        }
    }
}

/// Whether a replay is being recorded or played back.
#[derive(Copy, Clone, Debug, PartialEq, Eq, Structural)]
pub enum SuperShuckieReplayState {
    NoReplay,
    Recording,
    Playback,
}

/// The replay state: playback wins over recording.
pub fn replay_state(playing_back: bool, recording: bool) -> (r: SuperShuckieReplayState)
    ensures
        playing_back ==> r == SuperShuckieReplayState::Playback,
        !playing_back && recording ==> r == SuperShuckieReplayState::Recording,
        !playing_back && !recording ==> r == SuperShuckieReplayState::NoReplay,
{
    if playing_back {
        SuperShuckieReplayState::Playback
    } else if recording {
        SuperShuckieReplayState::Recording
    } else {
        SuperShuckieReplayState::NoReplay
    }
}

/// The length of the replay being played back.
#[derive(Copy, Clone, Debug)]
pub struct SuperShuckieReplayTimes {
    pub total_frames: u32,
    pub total_milliseconds: u32,
}

/// The length of the replay being played back (truncated to 32 bits), or
/// `None` if no replay plays back.
pub fn replay_playback_stats(playing_back: bool, total_frames: u64, total_milliseconds: u64) -> (r: Option<SuperShuckieReplayTimes>)
    ensures
        !playing_back ==> r is None,
        playing_back ==> (r matches Some(t) && t.total_frames == total_frames as u32 && t.total_milliseconds
            == total_milliseconds as u32),
{
    if !playing_back {
        return None;
    }
    Some(SuperShuckieReplayTimes {
        total_frames: #[verifier::truncate] (total_frames as u32),
        total_milliseconds: #[verifier::truncate] (total_milliseconds as u32),
    })
}

/// Info of the replay file being recorded.
pub struct ReplayFileInfo {
    /// Name of the replay file being made
    pub final_replay_name: String,
    /// Path of the replay file being made
    pub final_replay_path: PathBuf,
    /// Path to the temp file being recorded
    pub temp_replay_path: PathBuf,
}

/// Index of a connected controller.
pub type ConnectedControllerIndex = u32;

/// Input from the user's devices.
#[derive(Copy, Clone, Debug)]
pub enum UserInput {
    Keyboard { keycode: i32 },
    Button { controller: ConnectedControllerIndex, button: i32 },
    Axis { controller: ConnectedControllerIndex, axis: i32 },
}

/// What the frontend tells its user interface.
pub trait SuperShuckieFrontendCallbacks {
    /// Show new frames.
    fn refresh_screens(&mut self, screens: &[ScreenData]);

    /// The screens or their scale changed.
    fn change_video_mode(&mut self, screens: &[ScreenData], screen_scaling: u8);
}

/// The callbacks can be used as a trait object.
pub fn _ensure_callbacks_are_object_safe(_callbacks: Box<dyn SuperShuckieFrontendCallbacks>) {
}

/// The connected controllers, by index.
pub struct ConnectedControllers {
    controllers: BTreeMap<ConnectedControllerIndex, String>,
}

impl ConnectedControllers {
    /// The names of the connected controllers, by index.
    pub closed spec fn view(&self) -> Map<ConnectedControllerIndex, Seq<char>> {
        self.controllers@.map_values(|s: String| s@)
    }

    /// No controller connected.
    pub fn new() -> (r: ConnectedControllers)
        ensures
            r.view() == Map::<ConnectedControllerIndex, Seq<char>>::empty(),
    {
        let r = ConnectedControllers { controllers: BTreeMap::new() };
        assert(r.view() =~= Map::<ConnectedControllerIndex, Seq<char>>::empty());
        r
    }

    /// Connect a controller under the lowest free index, and return it.
    pub fn connect(&mut self, controller_name: &str) -> (r: ConnectedControllerIndex)
        requires
            exists|i: ConnectedControllerIndex| !old(self).view().contains_key(i),
        ensures
            !old(self).view().contains_key(r),
            forall|i: ConnectedControllerIndex| i < r ==> old(self).view().contains_key(i),
            final(self).view() == old(self).view().insert(r, controller_name@),
    {
        let mut i: u64 = 0;
        while i <= u32::MAX as u64
            invariant
                self.view() == old(self).view(),
                forall|j: ConnectedControllerIndex| j < i ==> old(self).view().contains_key(j),
                exists|k: ConnectedControllerIndex| !old(self).view().contains_key(k),
            decreases u32::MAX as u64 + 1 - i,
        {
            let index = i as u32;
            if !self.controllers.contains_key(&index) {
                self.controllers.insert(index, String::from_str(controller_name));
                assert(self.view() =~= old(self).view().insert(index, controller_name@));
                return index;
            }
            i = i + 1;
        }
        proof {
            let k = choose|k: ConnectedControllerIndex| !old(self).view().contains_key(k);
            assert(old(self).view().contains_key(k));
        }
        0
    }

    /// Disconnect a controller.
    pub fn disconnect(&mut self, controller: ConnectedControllerIndex)
        ensures
            final(self).view() == old(self).view().remove(controller),
    {
        self.controllers.remove(&controller);
        assert(self.view() =~= old(self).view().remove(controller));
    }

    /// The names of all connected controllers, by increasing index.
    pub fn names(&self) -> (r: Vec<String>)
        ensures
            exists|indices: Seq<ConnectedControllerIndex>|
                {
                    &&& indices.to_set() == self.view().dom()
                    &&& indices.no_duplicates()
                    &&& forall|i: int, j: int| 0 <= i < j < indices.len() ==> indices[i] < indices[j]
                    &&& r@.map_values(|s: String| s@) == indices.map_values(|k: ConnectedControllerIndex| self.view()[k])
                },
    {
        let mut names: Vec<String> = Vec::new();
        let values = self.controllers.values();
        let ghost key_seq = choose|key_seq: Seq<ConnectedControllerIndex>|
            {
                &&& vstd::std_specs::btree::increasing_seq(key_seq)
                &&& key_seq.to_set() == self.controllers@.dom()
                &&& key_seq.no_duplicates()
                &&& values.remaining() == key_seq.map(|i: int, k| &self.controllers@[k])
            };
        for name in it: values
            invariant
                it.seq() == key_seq.map(|i: int, k| &self.controllers@[k]),
                names@.len() == it.index(),
                forall|j: int| 0 <= j < it.index() ==> #[trigger] names@[j]@ == self.controllers@[key_seq[j]]@,
        {
            names.push(name.clone());
        }
        proof {
            vstd::std_specs::btree::axiom_increasing_seq_meaning(key_seq);
            assert(self.view().dom() =~= self.controllers@.dom());
            assert forall|i: int, j: int| 0 <= i < j < key_seq.len() implies key_seq[i] < key_seq[j] by {
                assert(key_seq[i].cmp_spec(&key_seq[j]) is Less);
            }
            assert forall|j: int| 0 <= j < key_seq.len() implies self.controllers@.contains_key(#[trigger] key_seq[j]) by {
                assert(key_seq.to_set().contains(key_seq[j]));
            }
            assert(names@.map_values(|s: String| s@) =~= key_seq.map_values(|k: ConnectedControllerIndex| self.view()[k]));
        }
        names
    }

    /// The name of a connected controller.
    pub fn name_of(&self, controller: ConnectedControllerIndex) -> (r: Option<&String>)
        ensures
            r matches Some(s) ==> self.view().contains_key(controller) && s@ == self.view()[controller],
            r is None ==> !self.view().contains_key(controller),
    {
        self.controllers.get(&controller)
    }
}


/// The save states that loading save states replaced, for undo and redo.
///
/// Entries before `position` can be brought back by undo; entries from
/// `position` on by redo.
pub struct SaveStateHistory {
    states: Vec<Vec<u8>>,
    position: usize,
}

/// The history after pushing `state`: redo entries are dropped, and the
/// oldest entries go so that at most `max` remain.
pub open spec fn pushed_history(states: Seq<Seq<u8>>, position: int, state: Seq<u8>, max: int) -> Seq<Seq<u8>> {
    let t = states.take(position).push(state);
    if t.len() > max { t.skip(t.len() - max) } else { t }
}

impl SaveStateHistory {
    /// The states in the history, oldest first.
    pub closed spec fn states(&self) -> Seq<Seq<u8>> {
        self.states@.map_values(|v: Vec<u8>| v@)
    }

    /// The number of states that undo can bring back.
    pub closed spec fn position(&self) -> int {
        self.position as int
    }

    /// The position never passes the end of the history.
    pub open spec fn wf(&self) -> bool {
        self.position() <= self.states().len()
    }

    /// An empty history.
    pub fn new() -> (r: SaveStateHistory)
        ensures
            r.wf(),
            r.states() == Seq::<Seq<u8>>::empty(),
            r.position() == 0,
    {
        let r = SaveStateHistory { states: Vec::new(), position: 0 };
        assert(r.states() =~= Seq::<Seq<u8>>::empty());
        r
    }

    /// Remember `state` (the state before loading a save state): redo entries
    /// are dropped, and the oldest entries go so that at most `max` remain.
    pub fn push(&mut self, state: Vec<u8>, max: usize)
        requires
            old(self).wf(),
            max >= 1,
        ensures
            final(self).wf(),
            final(self).states() == pushed_history(old(self).states(), old(self).position(), state@, max as int),
            final(self).position() == final(self).states().len(),
    {
        let ghost t = self.states().take(self.position as int).push(state@);
        self.states.truncate(self.position);
        self.states.push(state);
        assert(self.states() =~= t);
        while self.states.len() > max
            invariant
                max >= 1,
                self.states@.len() == t.len() || self.states@.len() >= max,
                t.len() >= self.states@.len(),
                self.states() == t.skip(t.len() - self.states@.len()),
            decreases self.states@.len(),
        {
            let ghost before = self.states();
            self.states.remove(0);
            assert(self.states() =~= before.skip(1));
            assert(t.skip(t.len() - self.states@.len()) =~= before.skip(1));
        }
        proof {
            if t.len() <= max as nat {
                assert(t.skip(0) =~= t);
            }
        }
        self.position = self.states.len();
    }

    /// Return `true` if there is a state to undo to.
    pub fn can_undo(&self) -> (r: bool)
        ensures
            r == (self.position() > 0),
    {
        self.position > 0
    }

    /// Return `true` if there is a state to redo to.
    pub fn can_redo(&self) -> (r: bool)
        requires
            self.wf(),
        ensures
            r == (self.position() < self.states().len()),
    {
        self.position < self.states.len()
    }

    /// Undo: return the state to load, putting `backup` (the current state)
    /// in its place.
    pub fn undo(&mut self, backup: Vec<u8>) -> (r: Vec<u8>)
        requires
            old(self).wf(),
            old(self).position() > 0,
        ensures
            final(self).wf(),
            r@ == old(self).states()[old(self).position() - 1],
            final(self).states() == old(self).states().update(old(self).position() - 1, backup@),
            final(self).position() == old(self).position() - 1,
    {
        self.position = self.position - 1;
        let ghost before = self.states();
        let state = self.states.remove(self.position);
        self.states.insert(self.position, backup);
        assert(self.states() =~= before.update(self.position as int, backup@));
        state
    }

    /// Redo: return the state to load, putting `backup` (the current state)
    /// in its place.
    pub fn redo(&mut self, backup: Vec<u8>) -> (r: Vec<u8>)
        requires
            old(self).wf(),
            old(self).position() < old(self).states().len(),
        ensures
            final(self).wf(),
            r@ == old(self).states()[old(self).position()],
            final(self).states() == old(self).states().update(old(self).position(), backup@),
            final(self).position() == old(self).position() + 1,
    {
        let ghost before = self.states();
        let state = self.states.remove(self.position);
        self.states.insert(self.position, backup);
        assert(self.states() =~= before.update(self.position as int, backup@));
        let n: usize = self.states.len();
        assert(self.position < n);
        self.position = self.position + 1;
        state
    }

    /// Forget every state.
    pub fn reset(&mut self)
        ensures
            final(self).wf(),
            final(self).states() == Seq::<Seq<u8>>::empty(),
            final(self).position() == 0,
    {
        self.states = Vec::new();
        self.position = 0;
        assert(self.states() =~= Seq::<Seq<u8>>::empty());
    }
}

/// Pushing onto the history keeps at most `max` states, drops every state
/// that could have been redone, and makes the pushed state the one the next
/// undo loads.
pub proof fn law_history_bounded(states: Seq<Seq<u8>>, position: int, state: Seq<u8>, max: int)
    requires
        0 <= position <= states.len(),
        max >= 1,
    ensures
        ({
            let h = pushed_history(states, position, state, max);
            &&& h.len() <= max
            &&& h.len() >= 1
            &&& h.last() == state
            &&& h.len() <= position + 1
        }),
{
}

/// Undo followed by redo loads back the state that was current before the
/// undo, and leaves the history where it was (with the state current at the
/// redo stored in place of the undone one).
pub proof fn law_undo_then_redo(
    states0: Seq<Seq<u8>>,
    position0: int,
    backup_at_undo: Seq<u8>,
    undone: Seq<u8>,
    states1: Seq<Seq<u8>>,
    position1: int,
    backup_at_redo: Seq<u8>,
    redone: Seq<u8>,
    states2: Seq<Seq<u8>>,
    position2: int,
)
    requires
        0 < position0 <= states0.len(),
        undone == states0[position0 - 1],
        states1 == states0.update(position0 - 1, backup_at_undo),
        position1 == position0 - 1,
        redone == states1[position1],
        states2 == states1.update(position1, backup_at_redo),
        position2 == position1 + 1,
    ensures
        redone == backup_at_undo,
        position2 == position0,
        states2 == states0.update(position0 - 1, backup_at_redo),
{
    assert(states2 =~= states0.update(position0 - 1, backup_at_redo));
}

/// How Game Boy ROMs are run.
#[derive(Copy, Clone, Debug, PartialEq, Eq, Structural)]
pub enum GameBoyMode {
    /// Always emulate a Game Boy Color.
    AlwaysGBC,
    /// Always emulate a Game Boy (or Super Game Boy 2).
    AlwaysGB,
    /// Emulate a Game Boy for ROMs that only run on one, else a Game Boy Color.
    GBInGBMode,
}

/// The system to run a Game Boy ROM on. A ROM whose byte 0x143 is 0 is for
/// the first Game Boy model only.
pub open spec fn spec_choose_for_game_boy(sgb: bool, mode: GameBoyMode, rom: Seq<u8>) -> SuperShuckieEmulatorType {
    let game_boy = if sgb { SuperShuckieEmulatorType::GameBoySGB2 } else { SuperShuckieEmulatorType::GameBoy };
    match mode {
        GameBoyMode::AlwaysGBC => SuperShuckieEmulatorType::GameBoyColor,
        GameBoyMode::AlwaysGB => game_boy,
        GameBoyMode::GBInGBMode => if rom.len() > 0x143 && rom[0x143] == 0 {
            game_boy
        } else {
            SuperShuckieEmulatorType::GameBoyColor
        },
    }
}

/// Choose the system to run a Game Boy ROM on.
pub fn choose_for_game_boy(sgb: bool, mode: GameBoyMode, rom: &[u8]) -> (r: SuperShuckieEmulatorType)
    ensures
        r == spec_choose_for_game_boy(sgb, mode, rom@),
{
    let game_boy = if sgb { SuperShuckieEmulatorType::GameBoySGB2 } else { SuperShuckieEmulatorType::GameBoy };
    match mode {
        GameBoyMode::AlwaysGBC => SuperShuckieEmulatorType::GameBoyColor,
        GameBoyMode::AlwaysGB => game_boy,
        GameBoyMode::GBInGBMode => {
            if rom.len() > 0x143 && rom[0x143] == 0 {
                game_boy
            } else {
                SuperShuckieEmulatorType::GameBoyColor
            }
        },
    }
}

/// Check that replays can be recorded or played: a ROM is loaded, and it is
/// not a Nintendo DS ROM running with JIT.
pub fn assert_replays_available(emulator_type: Option<SuperShuckieEmulatorType>, nds_jit: bool) -> (r: Result<(), String>)
    ensures
        emulator_type is None ==> (r matches Err(e) && e@ == "No ROM loaded"@),
        emulator_type == Some(SuperShuckieEmulatorType::NintendoDS) && nds_jit ==> (r matches Err(e) && e@
            == "Replays are disabled for Nintendo DS (JIT enabled)"@),
        emulator_type is Some && !(emulator_type == Some(SuperShuckieEmulatorType::NintendoDS) && nds_jit)
            ==> r is Ok,
{
    match emulator_type {
        None => Err(String::from_str("No ROM loaded")),
        Some(t) => {
            if nds_jit && t == SuperShuckieEmulatorType::NintendoDS {
                Err(String::from_str("Replays are disabled for Nintendo DS (JIT enabled)"))
            } else {
                Ok(())
            }
        },
    }
}

/// The system to play a replay on: Game Boy replays name theirs; any other
/// replay plays on the current system.
pub fn emulator_type_for_replay(console: ReplayConsoleType, current: SuperShuckieEmulatorType) -> (r: SuperShuckieEmulatorType)
    ensures
        console == ReplayConsoleType::GameBoy ==> r == SuperShuckieEmulatorType::GameBoy,
        console == ReplayConsoleType::SuperGameBoy2 ==> r == SuperShuckieEmulatorType::GameBoySGB2,
        console == ReplayConsoleType::GameBoyColor ==> r == SuperShuckieEmulatorType::GameBoyColor,
        console == ReplayConsoleType::GameBoyAdvance || console == ReplayConsoleType::NintendoDS ==> r == current,
{
    match console {
        ReplayConsoleType::GameBoy => SuperShuckieEmulatorType::GameBoy,
        ReplayConsoleType::SuperGameBoy2 => SuperShuckieEmulatorType::GameBoySGB2,
        ReplayConsoleType::GameBoyColor => SuperShuckieEmulatorType::GameBoyColor,
        _ => current,
    }
}

/// The marks of the last replay read or recorded: start and end (frames and
/// milliseconds) and the timer offset.
#[derive(Copy, Clone, Debug)]
pub struct LastReadReplayCropData {
    pub start: Option<(UnsignedInteger, TimestampMillis)>,
    pub end: Option<(UnsignedInteger, TimestampMillis)>,
    pub timer_offset: Option<TimestampMillis>,
}

/// The replay timer as shown to external tools (all in milliseconds,
/// truncated to 32 bits).
#[derive(Copy, Clone, Debug)]
pub struct ReplayTimer {
    pub time_start: Option<u32>,
    pub time_end: Option<u32>,
    pub time_offset: Option<u32>,
    pub time_current: Option<u32>,
}

/// The timer value shown while `elapsed` milliseconds have passed: the
/// elapsed time clamped between the start mark and the end mark (if there is
/// one), then the offset added (wrapping at 32 bits). No start mark, no timer.
pub open spec fn spec_time_current(elapsed: u32, start: Option<u32>, end: Option<u32>, offset: Option<u32>) -> Option<u32> {
    match start {
        None => None,
        Some(s) => {
            let at_least_start = if elapsed >= s { elapsed } else { s };
            let clamped = match end {
                Some(e) => if at_least_start <= e { at_least_start } else { e },
                None => at_least_start,
            };
            match offset {
                Some(o) => Some(clamped.wrapping_add(o)),
                None => Some(clamped),
            }
        },
    }
}

impl LastReadReplayCropData {
    /// The marks after the start of a replay is marked at `start` with the
    /// timer offset `timer_offset` (a missing record starts empty).
    pub fn marked_start(
        stats: Option<LastReadReplayCropData>,
        start: (UnsignedInteger, TimestampMillis),
        timer_offset: TimestampMillis,
    ) -> (r: LastReadReplayCropData)
        ensures
            r.start == Some(start),
            r.timer_offset == Some(timer_offset),
            r.end == (match stats { Some(s) => s.end, None => None }),
    {
        let mut s = match stats {
            Some(s) => s,
            None => LastReadReplayCropData::new(),
        };
        s.timer_offset = Some(timer_offset);
        s.start = Some(start);
        s
    }

    /// The marks after the end of a replay is marked at `end` (a missing
    /// record starts empty).
    pub fn marked_end(stats: Option<LastReadReplayCropData>, end: (UnsignedInteger, TimestampMillis)) -> (r: LastReadReplayCropData)
        ensures
            r.end == Some(end),
            r.start == (match stats { Some(s) => s.start, None => None }),
            r.timer_offset == (match stats { Some(s) => s.timer_offset, None => None }),
    {
        let mut s = match stats {
            Some(s) => s,
            None => LastReadReplayCropData::new(),
        };
        s.end = Some(end);
        s
    }

    /// No marks.
    pub fn new() -> (r: LastReadReplayCropData)
        ensures
            r.start is None && r.end is None && r.timer_offset is None,
    {
        LastReadReplayCropData { start: None, end: None, timer_offset: None }
    }

    /// The replay timer at `elapsed_milliseconds` of elapsed time.
    pub fn timer(&self, elapsed_milliseconds: u32) -> (r: ReplayTimer)
        ensures
            r.time_start == (match self.start { Some(n) => Some(n.1.0 as u32), None => None }),
            r.time_end == (match self.end { Some(n) => Some(n.1.0 as u32), None => None }),
            r.time_offset == (match self.timer_offset { Some(n) => Some(n.0 as u32), None => None }),
            r.time_current == spec_time_current(elapsed_milliseconds, r.time_start, r.time_end, r.time_offset),
    {
        let time_start = match self.start {
            Some(n) => Some(#[verifier::truncate] (n.1.0 as u32)),
            None => None,
        };
        let time_end = match self.end {
            Some(n) => Some(#[verifier::truncate] (n.1.0 as u32)),
            None => None,
        };
        let time_offset = match self.timer_offset {
            Some(n) => Some(#[verifier::truncate] (n.0 as u32)),
            None => None,
        };
        let time_current = match time_start {
            None => None,
            Some(s) => {
                let at_least_start = if elapsed_milliseconds >= s { elapsed_milliseconds } else { s };
                let clamped = match time_end {
                    Some(e) => if at_least_start <= e { at_least_start } else { e },
                    None => at_least_start,
                };
                match time_offset {
                    Some(o) => Some(clamped.wrapping_add(o)),
                    None => Some(clamped),
                }
            },
        };
        ReplayTimer { time_start, time_end, time_offset, time_current }
    }
}

/// The timer stays between its marks: before the offset is added it is
/// never below the start mark nor (once the end is marked, and the end is not
/// before the start) above the end mark; between the marks it shows the
/// elapsed time itself, and past the end mark it is held at the end mark.
pub proof fn law_timer_between_marks(elapsed: u32, s: u32, e: u32)
    ensures
        spec_time_current(elapsed, Some(s), None, None) matches Some(c) && c >= s,
        e >= s ==> (spec_time_current(elapsed, Some(s), Some(e), None) matches Some(c) && s <= c <= e),
        s <= elapsed <= e ==> spec_time_current(elapsed, Some(s), Some(e), None) == Some(elapsed),
        elapsed >= e && e >= s ==> spec_time_current(elapsed, Some(s), Some(e), None) == Some(e),
        spec_time_current(elapsed, None, Some(e), None) is None,
{
}

/// The file name of a user-named file: the name, a dot and the extension.
pub fn named_file_name(name: &str, extension: &str) -> (r: String)
    ensures
        r@ == name@ + "."@ + extension@,
{
    join3(name, ".", extension)
}

/// The file name of the `i`-th generic file: the prefix, a dash, `i` in
/// decimal, a dot and the extension.
pub fn generic_file_name(prefix: &str, i: u64, extension: &str) -> (r: String)
    ensures
        r@ == prefix@ + "-"@ + decimal(i as nat) + "."@ + extension@,
{
    let number = decimal_text(i);
    let mut s = join3(prefix, "-", number.as_str());
    s.append(".");
    s.append(extension);
    s
}

/// The error for a ROM whose (lowercased) extension is none of the known ones.
pub open spec fn unknown_rom_type_error(lowered: Seq<char>) -> Seq<char> {
    "Unknown or unsupported ROM file type ."@ + lowered
}

/// The system for a ROM by its lowercased file extension: `gb` and `gbc` go
/// to the Game Boy rules, `gba` to the Game Boy Advance, `nds` to the
/// Nintendo DS; any other extension is refused.
pub open spec fn spec_emulator_type_for_extension(lowered: Seq<char>, sgb: bool, mode: GameBoyMode, rom: Seq<u8>) -> Result<SuperShuckieEmulatorType, Seq<char>> {
    if lowered == "gb"@ || lowered == "gbc"@ {
        Ok(spec_choose_for_game_boy(sgb, mode, rom))
    } else if lowered == "gba"@ {
        Ok(SuperShuckieEmulatorType::GameBoyAdvance)
    } else if lowered == "nds"@ {
        Ok(SuperShuckieEmulatorType::NintendoDS)
    } else {
        Err(unknown_rom_type_error(lowered))
    }
}

fn same_text(a: &str, b: &str) -> (r: bool)
    ensures
        r == (a@ == b@),
{
    String::from_str(a) == String::from_str(b)
}

/// The system for a ROM, given its lowercased file extension.
pub fn emulator_type_for_extension(lowered: &str, sgb: bool, mode: GameBoyMode, rom: &[u8]) -> (r: Result<SuperShuckieEmulatorType, String>)
    ensures
        match r {
            Ok(t) => spec_emulator_type_for_extension(lowered@, sgb, mode, rom@) == Ok::<SuperShuckieEmulatorType, Seq<char>>(t),
            Err(e) => spec_emulator_type_for_extension(lowered@, sgb, mode, rom@) == Err::<SuperShuckieEmulatorType, Seq<char>>(e@),
        },
{
    if same_text(lowered, "gb") || same_text(lowered, "gbc") {
        Ok(choose_for_game_boy(sgb, mode, rom))
    } else if same_text(lowered, "gba") {
        Ok(SuperShuckieEmulatorType::GameBoyAdvance)
    } else if same_text(lowered, "nds") {
        Ok(SuperShuckieEmulatorType::NintendoDS)
    } else {
        let mut e = String::from_str("Unknown or unsupported ROM file type .");
        e.append(lowered);
        Err(e)
    }
}

/// The system for a ROM with the file extension `extension` (in any case).
pub fn rom_emulator_type(extension: &str, sgb: bool, mode: GameBoyMode, rom: &[u8]) -> (r: Result<SuperShuckieEmulatorType, String>)
    ensures
        match r {
            Ok(t) => spec_emulator_type_for_extension(lowercase(extension@), sgb, mode, rom@) == Ok::<SuperShuckieEmulatorType, Seq<char>>(t),
            Err(e) => spec_emulator_type_for_extension(lowercase(extension@), sgb, mode, rom@) == Err::<SuperShuckieEmulatorType, Seq<char>>(e@),
        },
{
    let lowered = to_lowercase(extension);
    emulator_type_for_extension(lowered.as_str(), sgb, mode, rom)
}

/// The lines for the first `count` replay recording errors.
pub open spec fn error_lines(errors: Seq<Seq<char>>, count: nat) -> Seq<char>
    decreases count,
{
    if count == 0 {
        Seq::empty()
    } else {
        error_lines(errors, (count - 1) as nat) + "- REPLAY ERROR: "@ + errors[count - 1] + "\n"@
    }
}

/// The report of replay recording errors, before trimming: a line for each
/// of the first three, a line counting the others, and, where a recording
/// was stopped, a paragraph naming its temp file.
pub open spec fn spec_replay_error_text(errors: Seq<Seq<char>>, temp_file: Option<Seq<char>>) -> Seq<char> {
    let shown = if errors.len() < 3 { errors.len() } else { 3 };
    let more = if errors.len() > 3 { (errors.len() - 3) as nat } else { 0 };
    let lines = error_lines(errors, shown);
    let with_more = if more > 0 { lines + "...and "@ + decimal(more) + " more replay error(s)\n"@ } else { lines };
    match temp_file {
        Some(t) => with_more + "\n\nYour recording was stopped. The temp file ("@ + t + ") was not deleted."@,
        None => with_more,
    }
}

/// Write the report of replay recording errors (given their texts), before
/// trimming.
pub fn replay_error_text(errors: &Vec<String>, temp_file: Option<&str>) -> (r: String)
    ensures
        r@ == spec_replay_error_text(
            errors@.map_values(|e: String| e@),
            match temp_file { Some(t) => Some(t@), None => None },
        ),
{
    let ghost texts = errors@.map_values(|e: String| e@);
    let shown: usize = if errors.len() < 3 { errors.len() } else { 3 };
    let mut s = String::new();
    let mut i: usize = 0;
    while i < shown
        invariant
            i <= shown,
            shown <= errors@.len(),
            texts == errors@.map_values(|e: String| e@),
            s@ == error_lines(texts, i as nat),
        decreases shown - i,
    {
        s.append("- REPLAY ERROR: ");
        s.append(errors[i].as_str());
        s.append("\n");
        i = i + 1;
    }
    if errors.len() > 3 {
        let more = decimal_text((errors.len() - 3) as u64);
        s.append("...and ");
        s.append(more.as_str());
        s.append(" more replay error(s)\n");
    }
    match temp_file {
        Some(t) => {
            s.append("\n\nYour recording was stopped. The temp file (");
            s.append(t);
            s.append(") was not deleted.");
        },
        None => {},
    }
    s
}

/// The report of replay recording errors, as the frontend returns it
/// (trimmed).
pub fn replay_error_report(errors: &Vec<String>, temp_file: Option<&str>) -> (r: String)
    ensures
        r@ == trimmed(spec_replay_error_text(
            errors@.map_values(|e: String| e@),
            match temp_file { Some(t) => Some(t@), None => None },
        )),
{
    let text = replay_error_text(errors, temp_file);
    trim(text.as_str())
}

/// The kinds of external commands that the frontend handles.
#[derive(Copy, Clone, Debug, PartialEq, Eq, Structural)]
pub enum ExternalCommandKind {
    Stats,
    MarkStart,
    MarkEnd,
    IncrementCounter,
    GoToFrame,
    SetPaused,
    LoadReplay,
    EnumerateReplays,
    SetPlaybackSpeed,
}

/// How the frontend handles an external command: whether it carries it out,
/// the reply when it is known beforehand (otherwise the reply is the outcome
/// of carrying it out, or its data), and whether cached stats are forgotten.
#[derive(Copy, Clone, Debug, PartialEq, Eq, Structural)]
pub struct ExternalCommandPlan {
    pub carry_out: bool,
    pub reply: Option<bool>,
    pub forget_stats: bool,
}

/// The plan for an external command, given the replay state and whether a
/// game runs.
pub open spec fn spec_plan_external_command(
    kind: ExternalCommandKind,
    state: SuperShuckieReplayState,
    game_running: bool,
) -> ExternalCommandPlan {
    match kind {
        ExternalCommandKind::Stats | ExternalCommandKind::LoadReplay | ExternalCommandKind::EnumerateReplays => {
            ExternalCommandPlan { carry_out: true, reply: None, forget_stats: false }
        },
        ExternalCommandKind::MarkStart | ExternalCommandKind::MarkEnd => {
            ExternalCommandPlan { carry_out: true, reply: None, forget_stats: true }
        },
        ExternalCommandKind::IncrementCounter => ExternalCommandPlan {
            carry_out: true,
            reply: Some(state == SuperShuckieReplayState::Recording),
            forget_stats: true,
        },
        ExternalCommandKind::SetPaused => ExternalCommandPlan { carry_out: true, reply: Some(true), forget_stats: true },
        ExternalCommandKind::GoToFrame => {
            let playing = state == SuperShuckieReplayState::Playback;
            ExternalCommandPlan { carry_out: playing, reply: Some(playing), forget_stats: false }
        },
        ExternalCommandKind::SetPlaybackSpeed => {
            ExternalCommandPlan { carry_out: game_running, reply: Some(game_running), forget_stats: false }
        },
    }
}

/// Plan the handling of an external command.
pub fn plan_external_command(kind: ExternalCommandKind, state: SuperShuckieReplayState, game_running: bool) -> (r: ExternalCommandPlan)
    ensures
        r == spec_plan_external_command(kind, state, game_running),
{
    match kind {
        ExternalCommandKind::Stats | ExternalCommandKind::LoadReplay | ExternalCommandKind::EnumerateReplays => {
            ExternalCommandPlan { carry_out: true, reply: None, forget_stats: false }
        },
        ExternalCommandKind::MarkStart | ExternalCommandKind::MarkEnd => {
            ExternalCommandPlan { carry_out: true, reply: None, forget_stats: true }
        },
        ExternalCommandKind::IncrementCounter => ExternalCommandPlan {
            carry_out: true,
            reply: Some(state == SuperShuckieReplayState::Recording),
            forget_stats: true,
        },
        ExternalCommandKind::SetPaused => ExternalCommandPlan { carry_out: true, reply: Some(true), forget_stats: true },
        ExternalCommandKind::GoToFrame => {
            let playing = state == SuperShuckieReplayState::Playback;
            ExternalCommandPlan { carry_out: playing, reply: Some(playing), forget_stats: false }
        },
        ExternalCommandKind::SetPlaybackSpeed => {
            ExternalCommandPlan { carry_out: game_running, reply: Some(game_running), forget_stats: false }
        },
    }
}

/// A replay is loaded on a new core when it belongs to another system than
/// the one running, or when it needs a BIOS of its own.
pub fn replay_needs_new_core(current: SuperShuckieEmulatorType, expected: SuperShuckieEmulatorType, bios_override: bool) -> (r: bool)
    ensures
        r == (current != expected || bios_override),
{
    current != expected || bios_override
}

/// The error for a replay recorded on another console.
pub fn incompatible_replay_message(description: &str) -> (r: String)
    ensures
        r@ == "This replay file is incompatible:\n\n"@ + description@,
{
    let mut s = String::from_str("This replay file is incompatible:\n\n");
    s.append(description);
    s
}

/// The paragraphs for the first `count` metadata mismatches.
pub open spec fn mismatch_paragraphs(issues: Seq<Seq<char>>, count: nat) -> Seq<char>
    decreases count,
{
    if count == 0 {
        Seq::empty()
    } else {
        mismatch_paragraphs(issues, (count - 1) as nat) + "\n\n"@ + issues[count - 1]
    }
}

/// The error for a replay whose metadata does not match what is loaded,
/// given the text of each mismatch.
pub fn mismatched_replay_message(issues: &Vec<String>) -> (r: String)
    ensures
        r@ == "This replay file has mismatched data which may prevent playback:"@ + mismatch_paragraphs(
            issues@.map_values(|e: String| e@),
            issues@.len(),
        ),
{
    let ghost texts = issues@.map_values(|e: String| e@);
    let mut s = String::from_str("This replay file has mismatched data which may prevent playback:");
    let mut i: usize = 0;
    while i < issues.len()
        invariant
            i <= issues@.len(),
            texts == issues@.map_values(|e: String| e@),
            s@ == "This replay file has mismatched data which may prevent playback:"@ + mismatch_paragraphs(texts, i as nat),
        decreases issues@.len() - i,
    {
        s.append("\n\n");
        s.append(issues[i].as_str());
        i = i + 1;
    }
    s
}

/// The frontend's bookkeeping of replays: the replay playing back, the one
/// that can be continued, the marks of the last replay read or recorded, and
/// the replay being recorded.
pub struct ReplaySession {
    pub current_replay: Option<String>,
    pub last_replay_and_frame: Option<(String, u32)>,
    pub last_read_replay_stats: Option<LastReadReplayCropData>,
    pub recording_replay_file: Option<ReplayFileInfo>,
}

/// The files to remove once a recording stops: the temp file always, the
/// final file too if no frame was recorded.
pub struct RecordingCleanup {
    pub temp_replay_path: PathBuf,
    pub final_replay_path: Option<PathBuf>,
}

impl ReplaySession {
    /// No replay.
    pub fn new() -> (r: ReplaySession)
        ensures
            r.current_replay is None,
            r.last_replay_and_frame is None,
            r.last_read_replay_stats is None,
            r.recording_replay_file is None,
    {
        ReplaySession {
            current_replay: None,
            last_replay_and_frame: None,
            last_read_replay_stats: None,
            recording_replay_file: None,
        }
    }

    /// Stop playing back at frame `frames`: the replay can then be continued
    /// from there, and its marks are forgotten. Returns `false`, changing
    /// nothing, if no replay plays back.
    pub fn stop_replay_playback(&mut self, frames: u32) -> (r: bool)
        ensures
            r == old(self).current_replay is Some,
            r ==> final(self).current_replay is None
                && final(self).last_replay_and_frame == Some((old(self).current_replay.unwrap(), frames))
                && final(self).last_read_replay_stats is None
                && final(self).recording_replay_file == old(self).recording_replay_file,
            !r ==> *final(self) == *old(self),
    {
        match self.current_replay.take() {
            None => false,
            Some(name) => {
                self.last_replay_and_frame = Some((name, frames));
                self.last_read_replay_stats = None;
                true
            },
        }
    }

    /// Return `true` if a replay can be continued.
    pub fn can_continue_last_replay(&self) -> (r: bool)
        ensures
            r == self.last_replay_and_frame is Some,
    {
        self.last_replay_and_frame.is_some()
    }

    /// Take the replay to continue and its frame, if any.
    pub fn take_last_replay(&mut self) -> (r: Option<(String, u32)>)
        ensures
            r == old(self).last_replay_and_frame,
            final(self).last_replay_and_frame is None,
            final(self).current_replay == old(self).current_replay,
            final(self).last_read_replay_stats == old(self).last_read_replay_stats,
            final(self).recording_replay_file == old(self).recording_replay_file,
    {
        self.last_replay_and_frame.take()
    }

    /// A replay named `name` was loaded, with the marks it holds.
    pub fn replay_loaded(&mut self, name: String, marks: LastReadReplayCropData)
        ensures
            final(self).current_replay == Some(name),
            final(self).last_replay_and_frame is None,
            final(self).last_read_replay_stats == Some(marks),
            final(self).recording_replay_file == old(self).recording_replay_file,
    {
        self.current_replay = Some(name);
        self.last_replay_and_frame = None;
        self.last_read_replay_stats = Some(marks);
    }

    /// A replay started recording into `file`: marks and the replay to
    /// continue are forgotten.
    pub fn recording_started(&mut self, file: ReplayFileInfo)
        ensures
            final(self).recording_replay_file == Some(file),
            final(self).last_replay_and_frame is None,
            final(self).last_read_replay_stats is None,
            final(self).current_replay == old(self).current_replay,
    {
        self.recording_replay_file = Some(file);
        self.last_replay_and_frame = None;
        self.last_read_replay_stats = None;
    }

    /// Stop recording after `frames` frames; returns the files to remove, or
    /// `None`, changing nothing, if no replay was being recorded.
    pub fn stop_recording_replay(&mut self, frames: u32) -> (r: Option<RecordingCleanup>)
        ensures
            old(self).recording_replay_file is None ==> r is None && *final(self) == *old(self),
            old(self).recording_replay_file matches Some(f) ==> {
                &&& r matches Some(c) && c.temp_replay_path == f.temp_replay_path
                    && c.final_replay_path == (if frames == 0 { Some(f.final_replay_path) } else { None })
                &&& final(self).recording_replay_file is None
                &&& final(self).last_read_replay_stats is None
                &&& final(self).current_replay == old(self).current_replay
                &&& final(self).last_replay_and_frame == old(self).last_replay_and_frame
            },
    {
        match self.recording_replay_file.take() {
            None => None,
            Some(file) => {
                self.last_read_replay_stats = None;
                Some(RecordingCleanup {
                    temp_replay_path: file.temp_replay_path,
                    final_replay_path: if frames == 0 { Some(file.final_replay_path) } else { None },
                })
            },
        }
    }

    /// The replay state: playback wins over recording.
    pub fn replay_state(&self, playing_back: bool) -> (r: SuperShuckieReplayState)
        ensures
            playing_back ==> r == SuperShuckieReplayState::Playback,
            !playing_back && self.recording_replay_file is Some ==> r == SuperShuckieReplayState::Recording,
            !playing_back && self.recording_replay_file is None ==> r == SuperShuckieReplayState::NoReplay,
    {
        replay_state(playing_back, self.recording_replay_file.is_some())
    }
}

/// The texts of `s` other than `x`, in order.
pub open spec fn without(s: Seq<Seq<char>>, x: Seq<char>) -> Seq<Seq<char>>
    decreases s.len(),
{
    if s.len() == 0 {
        Seq::empty()
    } else {
        let rest = without(s.drop_last(), x);
        if s.last() == x { rest } else { rest.push(s.last()) }
    }
}

/// Put the path of a loaded ROM first in the list of recent ROMs, removing
/// any other mention of it.
pub fn remember_recent_rom(recent: &mut Vec<String>, path: String)
    ensures
        final(recent)@.map_values(|s: String| s@) == seq![path@] + without(
            old(recent)@.map_values(|s: String| s@),
            path@,
        ),
{
    let ghost before = recent@.map_values(|s: String| s@);
    let mut kept: Vec<String> = Vec::new();
    kept.push(path.clone());
    let mut i: usize = 0;
    while i < recent.len()
        invariant
            i <= recent@.len(),
            before == recent@.map_values(|s: String| s@),
            kept@.map_values(|s: String| s@) == seq![path@] + without(before.take(i as int), path@),
        decreases recent@.len() - i,
    {
        let ghost t = before.take(i + 1);
        let ghost prev = kept@.map_values(|s: String| s@);
        assert(t.drop_last() =~= before.take(i as int));
        assert(t.last() == recent@[i as int]@);
        let same = recent[i] == path;
        if !same {
            let copy = recent[i].clone();
            kept.push(copy);
            assert(kept@.map_values(|s: String| s@) =~= prev.push(recent@[i as int]@));
            assert(without(t, path@) == without(before.take(i as int), path@).push(t.last()));
            assert(kept@.map_values(|s: String| s@) =~= seq![path@] + without(t, path@));
        } else {
            assert(without(t, path@) == without(before.take(i as int), path@));
        }
        i = i + 1;
    }
    assert(before.take(recent@.len() as int) =~= before);
    *recent = kept;
}

} // verus!
