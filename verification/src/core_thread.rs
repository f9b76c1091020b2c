use crate::core_state::{CoreState, CoreView, QueuedWrite};
use crate::packet::ByteVec;
use std::collections::BTreeMap;
use vstd::prelude::*;
use vstd::std_specs::cmp::OrdSpec;
use vstd::std_specs::iter::IteratorSpec;

verus! {

/// A request of a RAM tool (such as Poke-A-Byte) about the emulated RAM.
#[derive(Debug)]
pub enum RamCommand {
    /// Write the bytes once.
    Write { address: u64, data: ByteVec },
    /// Write the bytes now and again before every frame.
    Freeze { address: u64, data: ByteVec },
    /// Stop writing the bytes frozen at the address.
    Unfreeze { address: u64 },
    /// Stop writing every frozen byte.
    Reset,
}

/// The RAM writes that are repeated before every frame, by address.
pub struct FreezeTable {
    freezes: BTreeMap<u64, ByteVec>,
}

/// The core write for `data` at `address` (the address is cut to 32 bits,
/// as the core takes it).
pub open spec fn write_at(address: u64, data: Seq<u8>) -> (u32, Seq<u8>) {
    (address as u32, data)
}

impl FreezeTable {
    /// The frozen bytes, by address.
    pub closed spec fn view(&self) -> Map<u64, Seq<u8>> {
        self.freezes@.map_values(|b: ByteVec| b@)
    }

    /// Nothing frozen.
    pub fn new() -> (r: FreezeTable)
        ensures
            r.view() == Map::<u64, Seq<u8>>::empty(),
    {
        let r = FreezeTable { freezes: BTreeMap::new() };
        assert(r.view() =~= Map::<u64, Seq<u8>>::empty());
        r
    }

    /// The table after `command`.
    pub open spec fn after(table: Map<u64, Seq<u8>>, command: RamCommand) -> Map<u64, Seq<u8>> {
        match command {
            RamCommand::Write { .. } => table,
            RamCommand::Freeze { address, data } => table.insert(address, data@),
            RamCommand::Unfreeze { address } => table.remove(address),
            RamCommand::Reset => Map::empty(),
        }
    }

    /// The write that `command` asks for at once, if any.
    pub open spec fn immediate_write(command: RamCommand) -> Option<(u32, Seq<u8>)> {
        match command {
            RamCommand::Write { address, data } => Some(write_at(address, data@)),
            RamCommand::Freeze { address, data } => Some(write_at(address, data@)),
            _ => None,
        }
    }

    /// Carry out `command`, and return the write to enqueue at once, if any.
    pub fn apply(&mut self, command: RamCommand) -> (r: Option<QueuedWrite>)
        ensures
            final(self).view() == FreezeTable::after(old(self).view(), command),
            match r {
                Some(w) => FreezeTable::immediate_write(command) == Some((w.address, w.data@)),
                None => FreezeTable::immediate_write(command) is None,
            },
    {
        match command {
            RamCommand::Write { address, data } => {
                Some(QueuedWrite { address: #[verifier::truncate] (address as u32), data })
            },
            RamCommand::Freeze { address, data } => {
                let copy = data.clone();
                self.freezes.insert(address, data);
                assert(self.view() =~= old(self).view().insert(address, copy@));
                Some(QueuedWrite { address: #[verifier::truncate] (address as u32), data: copy })
            },
            RamCommand::Unfreeze { address } => {
                self.freezes.remove(&address);
                assert(self.view() =~= old(self).view().remove(address));
                None
            },
            RamCommand::Reset => {
                self.freezes.clear();
                assert(self.view() =~= Map::<u64, Seq<u8>>::empty());
                None
            },
        }
    }

    /// The writes that repeat the frozen bytes, by increasing address.
    pub fn freeze_writes(&self) -> (r: Vec<QueuedWrite>)
        ensures
            exists|addresses: Seq<u64>|
                {
                    &&& addresses.to_set() == self.view().dom()
                    &&& addresses.no_duplicates()
                    &&& forall|i: int, j: int| 0 <= i < j < addresses.len() ==> addresses[i] < addresses[j]
                    &&& r@.len() == addresses.len()
                    &&& forall|i: int| 0 <= i < r@.len() ==> (#[trigger] r@[i]).address == addresses[i] as u32
                        && r@[i].data@ == self.view()[addresses[i]]
                },
    {
        broadcast use vstd::std_specs::btree::axiom_spec_btree_map_iter;
        let mut writes: Vec<QueuedWrite> = Vec::new();
        let entries = self.freezes.iter();
        let ghost rem = entries.remaining();
        let ghost key_seq = rem.map_values(|kv: (&u64, &ByteVec)| *kv.0);
        for entry in it: entries
            invariant
                it.seq() == rem,
                writes@.len() == it.index(),
                forall|j: int| 0 <= j < it.index() ==> (#[trigger] writes@[j]).address == *rem[j].0 as u32
                    && writes@[j].data@ == (*rem[j].1)@,
        {
            let (address, data) = entry;
            writes.push(QueuedWrite { address: #[verifier::truncate] (*address as u32), data: data.clone() });
        }
        proof {
            lemma_increasing_addresses(key_seq);
            assert(key_seq.no_duplicates());
            assert forall|j: int| 0 <= j < key_seq.len() implies self.freezes@.contains_key(#[trigger] key_seq[j])
                && self.freezes@[key_seq[j]] == *rem[j].1 by {
                assert(self.freezes@.contains_key(*rem[j].0));
            }
            assert forall|k: u64| #[trigger] self.freezes@.contains_key(k) implies key_seq.contains(k) by {
                assert(rem.contains((&k, &self.freezes@[k])));
                let i = choose|i: int| 0 <= i < rem.len() && rem[i] == (&k, &self.freezes@[k]);
                assert(key_seq[i] == k);
            }
            assert(key_seq.to_set() =~= self.view().dom());
        }
        writes
    }
}

proof fn lemma_increasing_addresses(key_seq: Seq<u64>)
    requires
        vstd::std_specs::btree::increasing_seq(key_seq),
    ensures
        forall|i: int, j: int| 0 <= i < j < key_seq.len() ==> key_seq[i] < key_seq[j],
{
    vstd::std_specs::btree::axiom_increasing_seq_meaning(key_seq);
    assert forall|i: int, j: int| 0 <= i < j < key_seq.len() implies key_seq[i] < key_seq[j] by {
        assert(key_seq[i].cmp_spec(&key_seq[j]) is Less);
    }
}

/// Freezing bytes and then unfreezing the same address leaves the table as
/// it was, but without that address; a reset forgets everything.
pub proof fn law_freeze_then_unfreeze(table: Map<u64, Seq<u8>>, address: u64, data: ByteVec)
    ensures
        FreezeTable::after(
            FreezeTable::after(table, RamCommand::Freeze { address, data }),
            RamCommand::Unfreeze { address },
        ) == table.remove(address),
        FreezeTable::after(table, RamCommand::Reset) == Map::<u64, Seq<u8>>::empty(),
{
    assert(table.insert(address, data@).remove(address) =~= table.remove(address));
}

/// What to do about RAM tools once the commands are handled.
#[derive(Copy, Clone, Debug, PartialEq, Eq, Structural)]
pub struct RamRefresh {
    /// Write the frozen bytes again.
    pub apply_freezes: bool,
    /// Read the watched RAM blocks for the tool.
    pub read_ram: bool,
}

/// The RAM refresh for a pass of the core thread: nothing mid-frame while
/// running; freezes while running; reads unless frame skipping skips this
/// frame (never on the tool's first frame, nor while paused).
pub open spec fn spec_ram_refresh(mid_frame: bool, running: bool, first_frame: bool, frame_skip: Option<u32>, total_frames: u64) -> RamRefresh {
    if mid_frame && running {
        RamRefresh { apply_freezes: false, read_ram: false }
    } else {
        let skipped = match frame_skip {
            Some(s) => !first_frame && running && total_frames as int % (s as int + 1) != 0,
            None => false,
        };
        RamRefresh { apply_freezes: running, read_ram: !skipped }
    }
}

/// Decide the RAM refresh for a pass of the core thread.
pub fn ram_refresh(mid_frame: bool, running: bool, first_frame: bool, frame_skip: Option<u32>, total_frames: u64) -> (r: RamRefresh)
    ensures
        r == spec_ram_refresh(mid_frame, running, first_frame, frame_skip, total_frames),
{
    if mid_frame && running {
        return RamRefresh { apply_freezes: false, read_ram: false };
    }
    let skipped = match frame_skip {
        Some(s) => !first_frame && running && total_frames % (s as u64 + 1) != 0,
        None => false,
    };
    RamRefresh { apply_freezes: running, read_ram: !skipped }
}

/// With frame skipping of `s`, the RAM is read on one frame in `s + 1`
/// while running: on the frames whose number is a multiple of `s + 1`.
pub proof fn law_frame_skip_reads_every_nth(s: u32, total_frames: u64)
    ensures
        spec_ram_refresh(false, true, false, Some(s), total_frames).read_ram
            == (total_frames as int % (s as int + 1) == 0),
        spec_ram_refresh(false, false, false, Some(s), total_frames).read_ram,
{
}

/// What the core thread does once the commands are handled.
#[derive(Copy, Clone, Debug, PartialEq, Eq, Structural)]
pub enum ThreadStep {
    /// Run the core.
    Run,
    /// Go round again at once (running, but playback is frozen).
    Spin,
    /// Sleep this many milliseconds.
    Sleep(u64),
}

/// The step of the core thread: run while running unless playback is frozen;
/// while paused, sleep long without a replay and briefly with one, so that
/// seeking stays responsive.
pub fn thread_step(running: bool, playback_frozen: bool, replay_attached: bool) -> (r: ThreadStep)
    ensures
        running && !playback_frozen ==> r == ThreadStep::Run,
        running && playback_frozen ==> r == ThreadStep::Spin,
        !running && !replay_attached ==> r == ThreadStep::Sleep(100),
        !running && replay_attached ==> r == ThreadStep::Sleep(10),
{
    if running {
        if !playback_frozen { ThreadStep::Run } else { ThreadStep::Spin }
    } else if !replay_attached {
        ThreadStep::Sleep(100)
    } else {
        ThreadStep::Sleep(10)
    }
}

/// Whether the core thread runs the emulator, and whether playback is
/// frozen for a moment.
#[derive(Copy, Clone, Debug, PartialEq, Eq, Structural)]
pub struct ThreadRunState {
    pub running: bool,
    pub playback_frozen: bool,
}

/// The core state after its timer is unpaused at clock time `now_ms`.
pub open spec fn unpaused(core: CoreView, now_ms: u64) -> CoreView {
    match core.paused_at {
        Some(p) => CoreView {
            starting_ms: core.starting_ms.wrapping_add(now_ms.wrapping_sub(p)),
            paused_at: None,
            ..core
        },
        None => core,
    }
}

/// The core state after its timer is paused.
pub open spec fn paused(core: CoreView) -> CoreView {
    CoreView { paused_at: Some((core.total_ms + core.starting_ms) as u64), ..core }
}

impl ThreadRunState {
    /// Not running, not frozen.
    pub fn new() -> (r: ThreadRunState)
        ensures
            !r.running && !r.playback_frozen,
    {
        ThreadRunState { running: false, playback_frozen: false }
    }

    /// Start running (at clock time `now_ms`); the timer resumes if the
    /// thread was not running.
    pub fn start(&mut self, core: &mut CoreState, now_ms: u64)
        requires
            old(core).wf(),
        ensures
            final(core).wf(),
            *final(self) == (ThreadRunState { running: true, ..*old(self) }),
            final(core)@ == (if old(self).running { old(core)@ } else { unpaused(old(core)@, now_ms) }),
    {
        if !self.running {
            self.running = true;
            core.unpause_timer(now_ms);
        }
    }

    /// Stop running; the timer pauses if the thread was running.
    pub fn pause(&mut self, core: &mut CoreState)
        requires
            old(core).wf(),
            old(self).running ==> old(core)@.total_ms + old(core)@.starting_ms <= u64::MAX,
        ensures
            final(core).wf(),
            *final(self) == (ThreadRunState { running: false, ..*old(self) }),
            final(core)@ == (if old(self).running { paused(old(core)@) } else { old(core)@ }),
    {
        if self.running {
            self.running = false;
            core.pause_timer();
        }
    }

    /// After a replay starts recording or playing back: the timer stays
    /// paused unless the thread is running.
    pub fn after_replay_started(&self, core: &mut CoreState)
        requires
            old(core).wf(),
            !self.running ==> old(core)@.total_ms + old(core)@.starting_ms <= u64::MAX,
        ensures
            final(core).wf(),
            final(core)@ == (if self.running { old(core)@ } else { paused(old(core)@) }),
    {
        if !self.running {
            core.pause_timer();
        }
    }

    /// Freeze or unfreeze playback.
    pub fn set_playback_frozen(&mut self, frozen: bool)
        ensures
            *final(self) == (ThreadRunState { playback_frozen: frozen, ..*old(self) }),
    {
        self.playback_frozen = frozen;
    }
}

/// Starting twice is starting once: the second start changes nothing.
pub proof fn law_start_is_idempotent(core: CoreView, now1: u64, now2: u64)
    ensures
        ({
            let once = unpaused(core, now1);
            once.paused_at is None && unpaused(once, now2) == once
        }),
{
}

/// Time spent paused is not counted: pause the timer when it reads `m`
/// milliseconds, unpause it at clock time `u`, and a whole frame ending at
/// clock time `t` sets the timer to `t - u + m`. The clock readings that the
/// core is given never go backwards (see `MonotonicTimestampProvider`), so
/// `u` is at least the clock time of the last frame.
pub proof fn law_paused_time_not_counted(v: CoreView, u: u64, frames: u64, t: u64)
    requires
        v.total_ms + v.starting_ms <= u64::MAX,
        u >= v.total_ms + v.starting_ms,
        t >= u,
        frames != 0,
        !v.playing_back,
    ensures
        ({
            let resumed = unpaused(paused(v), u);
            &&& resumed.paused_at is None
            &&& t >= resumed.starting_ms
            &&& CoreState::timed_after_run(resumed, frames, t).total_ms == t - u + v.total_ms
        }),
{
    let p = (v.total_ms + v.starting_ms) as u64;
    assert(u.wrapping_sub(p) == u - p);
    assert(v.starting_ms.wrapping_add((u - p) as u64) == v.starting_ms + (u - p));
}

/// What happens to the core's timer: a pause, an unpause at a clock time,
/// or a whole frame that ends at a clock time.
pub enum TimerEvent {
    Pause,
    Unpause(u64),
    Frame(u64),
}

/// The core state after a timer event (see [`CoreState::pause_timer`],
/// [`CoreState::unpause_timer`] and [`CoreState::end_frame`]).
pub open spec fn timer_step(v: CoreView, e: TimerEvent) -> CoreView {
    match e {
        TimerEvent::Pause => paused(v),
        TimerEvent::Unpause(u) => unpaused(v, u),
        TimerEvent::Frame(t) => CoreState::timed_after_run(v, 1, t),
    }
}

/// The core state after a sequence of timer events.
pub open spec fn timer_run(v: CoreView, events: Seq<TimerEvent>) -> CoreView
    decreases events.len(),
{
    if events.len() == 0 {
        v
    } else {
        timer_run(timer_step(v, events[0]), events.skip(1))
    }
}

/// The milliseconds that a timer reading `total` counts after `events`,
/// when its last clock reading (a frame's end or an unpause) was `last`:
/// each frame adds the clock time since the last reading; while the timer is
/// paused nothing is counted, and counting resumes from the unpause.
pub open spec fn counted_ms(events: Seq<TimerEvent>, total: int, last: int, is_paused: bool) -> int
    decreases events.len(),
{
    if events.len() == 0 {
        total
    } else {
        let rest = events.skip(1);
        match events[0] {
            TimerEvent::Pause => counted_ms(rest, total, last, true),
            TimerEvent::Unpause(u) => if is_paused {
                counted_ms(rest, total, u as int, false)
            } else {
                counted_ms(rest, total, last, false)
            },
            TimerEvent::Frame(t) => counted_ms(rest, total + (t - last), t as int, false),
        }
    }
}

/// The events that the core sees: clock readings never go backwards, and no
/// frame runs while the timer is paused.
pub open spec fn timer_events_valid(events: Seq<TimerEvent>, last: int, is_paused: bool) -> bool
    decreases events.len(),
{
    if events.len() == 0 {
        true
    } else {
        let rest = events.skip(1);
        match events[0] {
            TimerEvent::Pause => timer_events_valid(rest, last, true),
            TimerEvent::Unpause(u) => (is_paused ==> u >= last) && timer_events_valid(
                rest,
                if is_paused { u as int } else { last },
                false,
            ),
            TimerEvent::Frame(t) => !is_paused && t >= last && timer_events_valid(rest, t as int, false),
        }
    }
}

/// Time spent paused is never counted, over any sequence of pauses,
/// unpauses and frames: the timer ends up reading what [`counted_ms`]
/// counts, where each frame adds only the clock time since the previous frame
/// or unpause.
pub proof fn law_timer_counts_only_running_time(v: CoreView, events: Seq<TimerEvent>)
    requires
        !v.playing_back,
        v.starting_ms + v.total_ms <= u64::MAX,
        v.paused_at is None || v.paused_at == Some((v.starting_ms + v.total_ms) as u64),
        timer_events_valid(events, v.starting_ms + v.total_ms, v.paused_at is Some),
    ensures
        timer_run(v, events).total_ms == counted_ms(
            events,
            v.total_ms as int,
            v.starting_ms + v.total_ms,
            v.paused_at is Some,
        ),
    decreases events.len(),
{
    if events.len() > 0 {
        let last = v.starting_ms + v.total_ms;
        let w = timer_step(v, events[0]);
        match events[0] {
            TimerEvent::Pause => {
                assert(w.starting_ms + w.total_ms == last);
            },
            TimerEvent::Unpause(u) => {
                if v.paused_at is Some {
                    let p = last as u64;
                    assert(u.wrapping_sub(p) == u - p);
                    assert(v.starting_ms.wrapping_add((u - p) as u64) == v.starting_ms + (u - p));
                    assert(w.starting_ms + w.total_ms == u);
                }
            },
            TimerEvent::Frame(t) => {
                assert(w.total_ms == t - v.starting_ms);
                assert(w.starting_ms + w.total_ms == t);
            },
        }
        law_timer_counts_only_running_time(w, events.skip(1));
    }
}

} // verus!
