use crate::counters::{changed_value, counters_of, CounterMap};
use crate::input::Input;
use crate::packet::{
    ByteVec, KeyframeMetadata, Packet, ReplayHeaderBlake3Hash, SignedInteger, Speed,
    TimestampMillis, UnsignedInteger,
};
use vstd::prelude::*;
use crate::packet::{BookmarkMetadata, ReplayConsoleType};

verus! {

/// Defines parameters for rapid fire.
#[derive(Copy, Clone, Debug, PartialEq)]
pub struct SuperShuckieRapidFire {
    /// Input state to use.
    pub input: Input,
    /// Number of frames the button(s) are held down between intervals (never 0).
    ///
    /// When rapid fire is enabled, the button is held down immediately for
    /// this many frames.
    pub hold_length: u64,
    /// Number of frames the button(s) are released between intervals (never 0).
    pub interval: u64,
    /// The current stage of the duty cycle (managed by the core).
    pub current_frame: u64,
    /// The sum of hold_length + interval (managed by the core).
    pub total_frames: u64,
}

impl SuperShuckieRapidFire {
    /// Hold length and interval are never 0.
    pub open spec fn is_valid(&self) -> bool {
        self.hold_length >= 1 && self.interval >= 1
    }

    /// The cycle is as long as the hold length and the interval together, and
    /// its stage lies within it.
    pub open spec fn cycle_wf(&self) -> bool {
        &&& self.is_valid()
        &&& self.total_frames == spec_saturating_add(self.hold_length, self.interval)
        &&& self.current_frame < self.total_frames
    }

    /// The buttons are held at this stage of the cycle.
    pub open spec fn is_held(&self) -> bool {
        self.current_frame < self.hold_length
    }

    /// Return `true` if the buttons are held at this stage of the cycle.
    pub fn held(&self) -> (r: bool)
        ensures
            r == self.is_held(),
    {
        self.current_frame < self.hold_length
    }
}

impl Default for SuperShuckieRapidFire {
    fn default() -> (r: Self)
        ensures
            r.input == Input::spec_empty(),
            r.hold_length == 1,
            r.interval == 1,
            r.current_frame == 0,
            r.total_frames == 0,
    {
        SuperShuckieRapidFire {
            input: Input::new(),
            hold_length: 1,
            interval: 1,
            current_frame: 0,
            total_frames: 0,
        }
    }
}

/// `a + b`, or `u64::MAX` if that does not fit.
pub open spec fn spec_saturating_add(a: u64, b: u64) -> u64 {
    if a + b > u64::MAX { u64::MAX } else { (a + b) as u64 }
}

/// The stage of a duty cycle of `total` frames after `k` more frames.
pub open spec fn cycle_stage_after(start: u64, total: u64, k: nat) -> int
    decreases k,
{
    if k == 0 {
        start as int
    } else {
        (cycle_stage_after(start, total, (k - 1) as nat) + 1) % (total as int)
    }
}

/// A rapid-fire cycle that starts at stage 0 holds its buttons for
/// `hold_length` frames, then releases them for `interval` frames, and repeats:
/// after `k` frames the stage is `k % (hold_length + interval)`.
pub proof fn law_rapid_fire_duty_cycle(hold_length: u64, interval: u64, k: nat)
    requires
        hold_length >= 1,
        interval >= 1,
        hold_length + interval <= u64::MAX,
    ensures
        cycle_stage_after(0, (hold_length + interval) as u64, k) == (k as int) % (hold_length + interval),
        (cycle_stage_after(0, (hold_length + interval) as u64, k) < hold_length) == ((k as int) % (
        hold_length + interval) < hold_length),
    decreases k,
{
    let t = (hold_length + interval) as int;
    if k > 0 {
        law_rapid_fire_duty_cycle(hold_length, interval, (k - 1) as nat);
        vstd::arithmetic::div_mod::lemma_add_mod_noop((k - 1) as int, 1, t);
        vstd::arithmetic::div_mod::lemma_small_mod(1, t as nat);
    }
}

/// A write to emulated memory, queued until the start of the next frame.
#[derive(Clone, Debug)]
pub struct QueuedWrite {
    pub address: u32,
    pub data: ByteVec,
}

/// The state of the replay-aware emulator core, as a value.
pub struct CoreView {
    /// Named counters; present while recording or playing back a replay.
    pub counters: Option<Map<Seq<char>, SignedInteger>>,
    /// A replay is being recorded.
    pub recording: bool,
    /// A replay is being played back.
    pub playing_back: bool,
    /// The current user-defined input.
    pub base_input: Input,
    /// The input to apply next frame.
    pub next_input: Option<Input>,
    /// Rapid fire input, if any.
    pub rapid_fire: Option<SuperShuckieRapidFire>,
    /// Queued writes.
    pub writes: Seq<QueuedWrite>,
    /// Toggled input, if any; it is always applied.
    pub toggled_input: Option<Input>,
    /// The input that was actually applied.
    pub current_input: Input,
    /// The emulator is in the middle of a frame.
    pub mid_frame: bool,
    /// Playback reached the end of the replay or an unreadable packet.
    pub replay_stalled: bool,
    /// Clock time at which the timer started.
    pub starting_ms: u64,
    /// Milliseconds elapsed on the timer.
    pub total_ms: u64,
    /// Timer value at which it was paused.
    pub paused_at: Option<u64>,
    pub game_speed: Speed,
    pub replay_playback_speed: Speed,
    pub frames_since_last_keyframe: u64,
    pub frames_per_keyframe: u64,
    pub total_frames: u64,
    pub ignore_speed_changes_in_replays: bool,
    pub auto_resync_keyframes_in_replays: bool,
}

/// What a replay packet asks of the emulator.
#[derive(Copy, Clone, Debug, PartialEq, Eq, Structural)]
pub enum ReplayEffect {
    /// Nothing to do; read the next packet.
    Continue,
    /// The frame's packets are done (or the replay stalled); stop reading.
    Stop,
    /// Write the packet's data to memory at this address, then read on.
    WriteMemory(u32),
    /// Set the packet's encoded input, then read on.
    SetInput,
    /// Run the emulator at this speed, then read on.
    ApplySpeed(Speed),
    /// Hard reset the console, then read on.
    HardReset,
    /// Load the packet's save state, then read on.
    LoadState,
}

/// What loading a save state asks of the emulator.
#[derive(Copy, Clone, Debug, PartialEq, Eq, Structural)]
pub enum LoadStatePlan {
    /// A replay is playing back; nothing is loaded.
    Ignore,
    /// Load the state and record it in the replay.
    LoadAndRecord,
    /// Load the state, finish the current frame, then load it again.
    LoadFinishFrameAndReload,
}

/// The replay-aware state of the emulator core: inputs, rapid fire, queued
/// writes, timing, speed and replay counters. The emulator core, the replay
/// player and the replay recorder are driven by the caller, following what the
/// methods return.
pub struct CoreState {
    replay_counters: Option<CounterMap>,
    recording: bool,
    playing_back: bool,
    base_input: Input,
    next_input: Option<Input>,
    rapid_fire_input: Option<SuperShuckieRapidFire>,
    writes: Vec<QueuedWrite>,
    toggled_input: Option<Input>,
    current_input: Input,
    mid_frame: bool,
    replay_stalled: bool,
    starting_milliseconds: TimestampMillis,
    total_milliseconds: TimestampMillis,
    paused_timer_at: Option<TimestampMillis>,
    game_speed: Speed,
    replay_playback_speed: Speed,
    frames_since_last_keyframe: u64,
    frames_per_keyframe: u64,
    total_frames: u64,
    ignore_speed_changes_in_replays: bool,
    auto_resync_keyframes_in_replays: bool,
}

impl View for CoreState {
    type V = CoreView;

    closed spec fn view(&self) -> CoreView {
        CoreView {
            counters: match self.replay_counters {
                Some(c) => Some(c.view()),
                None => None,
            },
            recording: self.recording,
            playing_back: self.playing_back,
            base_input: self.base_input,
            next_input: self.next_input,
            rapid_fire: self.rapid_fire_input,
            writes: self.writes@,
            toggled_input: self.toggled_input,
            current_input: self.current_input,
            mid_frame: self.mid_frame,
            replay_stalled: self.replay_stalled,
            starting_ms: self.starting_milliseconds.0,
            total_ms: self.total_milliseconds.0,
            paused_at: match self.paused_timer_at {
                Some(t) => Some(t.0),
                None => None,
            },
            game_speed: self.game_speed,
            replay_playback_speed: self.replay_playback_speed,
            frames_since_last_keyframe: self.frames_since_last_keyframe,
            frames_per_keyframe: self.frames_per_keyframe,
            total_frames: self.total_frames,
            ignore_speed_changes_in_replays: self.ignore_speed_changes_in_replays,
            auto_resync_keyframes_in_replays: self.auto_resync_keyframes_in_replays,
        }
    }
}

impl CoreState {
    /// Counters exist while recording or playing back; a replay is never
    /// recorded and played back at once; rapid fire cycles are consistent;
    /// speeds are valid.
    pub closed spec fn wf(&self) -> bool {
        &&& (self.replay_counters matches Some(c) ==> c.wf())
        &&& (self.recording || self.playing_back) ==> self.replay_counters is Some
        &&& !(self.recording && self.playing_back)
        &&& (self.rapid_fire_input matches Some(r) ==> r.cycle_wf())
        &&& self.game_speed.is_valid()
        &&& self.replay_playback_speed.is_valid()
    }

    /// The state of a freshly wrapped core whose timer starts at clock time
    /// `now_ms`.
    pub fn new(now_ms: u64) -> (r: CoreState)
        ensures
            r.wf(),
            r@ == (CoreView {
                counters: None,
                recording: false,
                playing_back: false,
                base_input: Input::spec_empty(),
                next_input: None,
                rapid_fire: None,
                writes: Seq::empty(),
                toggled_input: None,
                current_input: Input::spec_empty(),
                mid_frame: false,
                replay_stalled: false,
                starting_ms: now_ms,
                total_ms: 0,
                paused_at: None,
                game_speed: Speed { speed_over_256: 256 },
                replay_playback_speed: Speed { speed_over_256: 256 },
                frames_since_last_keyframe: 0,
                frames_per_keyframe: 0,
                total_frames: 0,
                ignore_speed_changes_in_replays: false,
                auto_resync_keyframes_in_replays: false,
            }),
    {
        CoreState {
            replay_counters: None,
            recording: false,
            playing_back: false,
            base_input: Input::new(),
            next_input: None,
            rapid_fire_input: None,
            writes: Vec::new(),
            toggled_input: None,
            current_input: Input::new(),
            mid_frame: false,
            replay_stalled: false,
            starting_milliseconds: TimestampMillis(now_ms),
            total_milliseconds: TimestampMillis(0),
            paused_timer_at: None,
            game_speed: Speed::default(),
            replay_playback_speed: Speed::default(),
            frames_since_last_keyframe: 0,
            frames_per_keyframe: 0,
            total_frames: 0,
            ignore_speed_changes_in_replays: false,
            auto_resync_keyframes_in_replays: false,
        }
    }

    /// Pause the timer, remembering the clock time it reached.
    pub fn pause_timer(&mut self)
        requires
            old(self).wf(),
            old(self)@.total_ms + old(self)@.starting_ms <= u64::MAX,
        ensures
            final(self).wf(),
            final(self)@ == (CoreView {
                paused_at: Some((old(self)@.total_ms + old(self)@.starting_ms) as u64),
                ..old(self)@
            }),
    {
        self.paused_timer_at = Some(TimestampMillis(self.total_milliseconds.0 + self.starting_milliseconds.0));
    }

    /// Return `true` if the timer is paused.
    pub fn is_timer_paused(&self) -> (r: bool)
        ensures
            r == self@.paused_at is Some,
    {
        self.paused_timer_at.is_some()
    }

    /// Unpause the timer at clock time `now_ms`: the time it spent paused is
    /// skipped. Nothing happens if the timer is not paused.
    pub fn unpause_timer(&mut self, now_ms: u64)
        requires
            old(self).wf(),
        ensures
            final(self).wf(),
            final(self)@ == (match old(self)@.paused_at {
                Some(p) => CoreView {
                    starting_ms: old(self)@.starting_ms.wrapping_add(now_ms.wrapping_sub(p)),
                    paused_at: None,
                    ..old(self)@
                },
                None => old(self)@,
            }),
    {
        match self.paused_timer_at {
            Some(paused_time) => {
                self.paused_timer_at = None;
                self.starting_milliseconds = TimestampMillis(
                    self.starting_milliseconds.0.wrapping_add(now_ms.wrapping_sub(paused_time.0)),
                );
            },
            None => {},
        }
    }

    /// Restart the timer at clock time `now_ms`, with no elapsed frames.
    pub fn restart_timer(&mut self, now_ms: u64)
        requires
            old(self).wf(),
        ensures
            final(self).wf(),
            final(self)@ == (CoreView {
                paused_at: None,
                starting_ms: now_ms,
                total_ms: 0,
                total_frames: 0,
                ..old(self)@
            }),
    {
        self.paused_timer_at = None;
        self.starting_milliseconds = TimestampMillis(now_ms);
        self.total_milliseconds = TimestampMillis(0);
        self.total_frames = 0;
    }

    /// Set the speed of the game. Returns `true` if the replay being recorded
    /// must be told.
    pub fn set_speed(&mut self, speed: Speed) -> (r: bool)
        requires
            old(self).wf(),
            speed.is_valid(),
        ensures
            final(self).wf(),
            final(self)@ == (CoreView { game_speed: speed, ..old(self)@ }),
            r == old(self)@.recording,
    {
        self.game_speed = speed;
        self.recording
    }

    /// Mark the start (or the end) of the replay being recorded: the elapsed
    /// frames and milliseconds, or `None` if no replay is being recorded.
    pub fn replay_mark(&self) -> (r: Option<(UnsignedInteger, TimestampMillis)>)
        ensures
            r == (if self@.recording {
                Some((self@.total_frames, TimestampMillis(self@.total_ms)))
            } else {
                None
            }),
    {
        if !self.recording {
            return None;
        }
        Some((self.total_frames, self.total_milliseconds))
    }

    /// The input of the next frame, combining the user-defined input, rapid
    /// fire while it is held and the toggled input.
    pub open spec fn combined_input(v: CoreView) -> Input {
        let base = match v.next_input {
            Some(i) => i,
            None => v.base_input,
        };
        let with_rapid = match v.rapid_fire {
            Some(r) => if r.is_held() { base.spec_merge(r.input) } else { base },
            None => base,
        };
        match v.toggled_input {
            Some(t) => with_rapid.spec_merge(t),
            None => with_rapid,
        }
    }

    /// The state once the input of a frame is applied: a pending input
    /// becomes the user-defined input, and the combined input is applied.
    pub open spec fn after_frame_input(v: CoreView) -> CoreView {
        CoreView {
            base_input: match v.next_input {
                Some(i) => i,
                None => v.base_input,
            },
            next_input: None,
            current_input: CoreState::combined_input(v),
            ..v
        }
    }

    /// Update the input at the start of a frame.
    ///
    /// While a replay plays back, or in the middle of a frame, nothing changes
    /// and `None` is returned. Otherwise a pending input becomes the
    /// user-defined input, and the combined input is applied and returned.
    pub fn frame_input(&mut self) -> (r: Option<Input>)
        requires
            old(self).wf(),
        ensures
            final(self).wf(),
            old(self)@.playing_back || old(self)@.mid_frame ==> r is None && final(self)@ == old(self)@,
            !(old(self)@.playing_back || old(self)@.mid_frame) ==> {
                &&& r == Some(CoreState::combined_input(old(self)@))
                &&& final(self)@ == CoreState::after_frame_input(old(self)@)
            },
    {
        if self.playing_back || self.mid_frame {
            return None;
        }
        match self.next_input.take() {
            Some(pending) => {
                self.base_input = pending;
            },
            None => {},
        }
        let mut new_input = self.base_input;
        match self.rapid_fire_input {
            Some(rapid) => {
                if rapid.held() {
                    new_input = new_input.merge(rapid.input);
                }
            },
            None => {},
        }
        match self.toggled_input {
            Some(toggled) => {
                new_input = new_input.merge(toggled);
            },
            None => {},
        }
        self.current_input = new_input;
        Some(new_input)
    }

    /// Queue a write to memory, and return the queued writes (this one last)
    /// to apply now, in order, unless a replay plays back or a frame is half
    /// done; then the write stays queued for the next frame.
    pub fn enqueue_write(&mut self, address: u32, data: ByteVec) -> (r: Vec<QueuedWrite>)
        requires
            old(self).wf(),
        ensures
            final(self).wf(),
            old(self)@.playing_back || old(self)@.mid_frame ==> r@ == Seq::<QueuedWrite>::empty()
                && final(self)@ == (CoreView {
                writes: old(self)@.writes.push(QueuedWrite { address, data }),
                ..old(self)@
            }),
            !(old(self)@.playing_back || old(self)@.mid_frame) ==> r@ == old(self)@.writes.push(
                QueuedWrite { address, data },
            ) && final(self)@ == (CoreView { writes: Seq::empty(), ..old(self)@ }),
    {
        self.writes.push(QueuedWrite { address, data });
        self.flush_writes()
    }

    /// Take the queued writes to apply now, in order.
    ///
    /// While a replay plays back, or in the middle of a frame, no write is
    /// taken and the queue stays as it is.
    pub fn flush_writes(&mut self) -> (r: Vec<QueuedWrite>)
        requires
            old(self).wf(),
        ensures
            final(self).wf(),
            old(self)@.playing_back || old(self)@.mid_frame ==> r@ == Seq::<QueuedWrite>::empty()
                && final(self)@ == old(self)@,
            !(old(self)@.playing_back || old(self)@.mid_frame) ==> r@ == old(self)@.writes
                && final(self)@ == (CoreView { writes: Seq::empty(), ..old(self)@ }),
    {
        if self.playing_back || self.mid_frame {
            return Vec::new();
        }
        let mut writes = Vec::new();
        std::mem::swap(&mut writes, &mut self.writes);
        writes
    }

    /// The state after `frames` emulated frames are accounted for (see
    /// [`CoreState::do_frame_timekeeping`]).
    pub open spec fn after_timekeeping(v: CoreView, frames: u64) -> CoreView {
        CoreView {
            frames_since_last_keyframe: (v.frames_since_last_keyframe + frames) as u64,
            total_frames: v.total_frames.wrapping_add(frames),
            mid_frame: frames == 0,
            rapid_fire: match v.rapid_fire {
                Some(rf) => Some(SuperShuckieRapidFire {
                    current_frame: ((rf.current_frame + 1) % (rf.total_frames as int)) as u64,
                    ..rf
                }),
                None => None,
            },
            ..v
        }
    }

    /// A keyframe is due: between frames, while recording, once
    /// `frames_per_keyframe` frames have passed since the last one.
    pub open spec fn keyframe_due(v: CoreView) -> bool {
        !(v.mid_frame || !v.recording || v.frames_since_last_keyframe < v.frames_per_keyframe)
    }

    /// Account for `frames` emulated frames (0 means the emulator stopped in
    /// the middle of a frame). Rapid fire advances one stage.
    ///
    /// Returns `true` if the timer must now be read (with
    /// [`CoreState::record_frame_time`]): not while playing back, and not in
    /// the middle of a frame.
    pub fn do_frame_timekeeping(&mut self, frames: u64) -> (r: bool)
        requires
            old(self).wf(),
            old(self)@.frames_since_last_keyframe + frames <= u64::MAX,
        ensures
            final(self).wf(),
            final(self)@ == CoreState::after_timekeeping(old(self)@, frames),
            r == (!old(self)@.playing_back && frames != 0),
    {
        self.frames_since_last_keyframe = self.frames_since_last_keyframe + frames;
        self.total_frames = self.total_frames.wrapping_add(frames);
        self.mid_frame = frames == 0;
        match self.rapid_fire_input {
            Some(rapid) => {
                let mut rapid = rapid;
                rapid.current_frame = rapid.current_frame.wrapping_add(1) % rapid.total_frames;
                self.rapid_fire_input = Some(rapid);
            },
            None => {},
        }
        !self.playing_back && !self.mid_frame
    }

    /// Set the elapsed milliseconds from clock time `now_ms`; the result is
    /// what the replay being recorded (if any) is told for this frame.
    pub fn record_frame_time(&mut self, now_ms: u64) -> (r: TimestampMillis)
        requires
            old(self).wf(),
            now_ms >= old(self)@.starting_ms,
        ensures
            final(self).wf(),
            r.0 == now_ms - old(self)@.starting_ms,
            final(self)@ == (CoreView { total_ms: r.0, ..old(self)@ }),
    {
        let ms = now_ms - self.starting_milliseconds.0;
        self.total_milliseconds = TimestampMillis(ms);
        TimestampMillis(ms)
    }

    /// If a keyframe is due in the replay being recorded, restart the keyframe
    /// count and return the elapsed milliseconds to stamp it with.
    ///
    /// A keyframe is due between frames, while recording, once
    /// `frames_per_keyframe` frames have passed since the last one.
    pub fn take_keyframe_due(&mut self) -> (r: Option<TimestampMillis>)
        requires
            old(self).wf(),
        ensures
            final(self).wf(),
            (old(self)@.mid_frame || !old(self)@.recording || old(self)@.frames_since_last_keyframe
                < old(self)@.frames_per_keyframe) ==> r is None && final(self)@ == old(self)@,
            !(old(self)@.mid_frame || !old(self)@.recording || old(self)@.frames_since_last_keyframe
                < old(self)@.frames_per_keyframe) ==> r == Some(TimestampMillis(old(self)@.total_ms))
                && final(self)@ == (CoreView { frames_since_last_keyframe: 0, ..old(self)@ }),
    {
        if self.mid_frame || !self.recording || self.frames_since_last_keyframe < self.frames_per_keyframe {
            return None;
        }
        self.frames_since_last_keyframe = 0;
        Some(self.total_milliseconds)
    }

    /// Enqueue an input for the next frame.
    pub fn enqueue_input(&mut self, input: Input)
        requires
            old(self).wf(),
        ensures
            final(self).wf(),
            final(self)@ == (CoreView { next_input: Some(input), ..old(self)@ }),
    {
        self.next_input = Some(input);
    }

    /// Release every button on the next frame.
    pub fn reset_input(&mut self)
        requires
            old(self).wf(),
        ensures
            final(self).wf(),
            final(self)@ == (CoreView { next_input: Some(Input::spec_empty()), ..old(self)@ }),
    {
        self.enqueue_input(Input::new());
    }

    /// Set the current toggled input; its buttons are "stuck".
    pub fn set_toggled_input(&mut self, input: Option<Input>)
        requires
            old(self).wf(),
        ensures
            final(self).wf(),
            final(self)@ == (CoreView { toggled_input: input, ..old(self)@ }),
    {
        self.toggled_input = input;
    }

    /// Set (or clear) the rapid fire input.
    ///
    /// With the same hold length and interval as the current rapid fire, the
    /// duty cycle carries on where it was. Otherwise the buttons are pressed
    /// on the very next frame.
    pub fn set_rapid_fire_input(&mut self, input: Option<SuperShuckieRapidFire>)
        requires
            old(self).wf(),
            input matches Some(i) ==> i.is_valid(),
        ensures
            final(self).wf(),
            final(self)@ == (CoreView {
                rapid_fire: match input {
                    None => None,
                    Some(i) => {
                        let total = spec_saturating_add(i.hold_length, i.interval);
                        let current = match old(self)@.rapid_fire {
                            Some(o) => if o.hold_length == i.hold_length && o.interval == i.interval {
                                o.current_frame
                            } else if old(self)@.mid_frame {
                                (total - 1) as u64
                            } else {
                                0
                            },
                            None => if old(self)@.mid_frame { (total - 1) as u64 } else { 0 },
                        };
                        Some(SuperShuckieRapidFire { current_frame: current, total_frames: total, ..i })
                    },
                },
                ..old(self)@
            }),
    {
        match input {
            None => {
                self.rapid_fire_input = None;
            },
            Some(new_input) => {
                let mut new_input = new_input;
                new_input.total_frames = new_input.hold_length.saturating_add(new_input.interval);
                let old_input = self.rapid_fire_input.take();
                let same_timing = match old_input {
                    Some(o) => o.hold_length == new_input.hold_length && o.interval == new_input.interval,
                    None => false,
                };
                if same_timing {
                    match old_input {
                        Some(o) => {
                            new_input.current_frame = o.current_frame;
                        },
                        None => {},
                    }
                } else if self.mid_frame {
                    new_input.current_frame = new_input.total_frames - 1;
                } else {
                    new_input.current_frame = 0;
                }
                self.rapid_fire_input = Some(new_input);
            },
        }
    }

    /// Return `true` if a hard reset may happen now (not while playing back).
    pub fn hard_reset_allowed(&self) -> (r: bool)
        ensures
            r == !self@.playing_back,
    {
        !self.playing_back
    }

    /// Return `true` if the emulator must keep running to finish the current
    /// frame.
    pub fn must_finish_frame(&self) -> (r: bool)
        ensures
            r == (self@.mid_frame && !self@.replay_stalled),
    {
        self.mid_frame && !self.replay_stalled
    }

    /// Decide how a save state is loaded. Ends any partial frame, except while
    /// playing back; without a recording, the frame is finished before the
    /// state is loaded again.
    pub fn load_save_state(&mut self) -> (r: LoadStatePlan)
        requires
            old(self).wf(),
        ensures
            final(self).wf(),
            old(self)@.playing_back ==> r == LoadStatePlan::Ignore && final(self)@ == old(self)@,
            !old(self)@.playing_back && old(self)@.recording ==> r == LoadStatePlan::LoadAndRecord
                && final(self)@ == (CoreView { mid_frame: false, ..old(self)@ }),
            !old(self)@.playing_back && !old(self)@.recording ==> r == LoadStatePlan::LoadFinishFrameAndReload
                && final(self)@ == (CoreView { mid_frame: true, ..old(self)@ }),
    {
        if self.playing_back {
            return LoadStatePlan::Ignore;
        }
        self.mid_frame = false;
        if self.recording {
            LoadStatePlan::LoadAndRecord
        } else {
            self.mid_frame = true;
            LoadStatePlan::LoadFinishFrameAndReload
        }
    }

    /// Add `delta` to the counter `name` of the replay being recorded.
    /// Returns `false`, changing nothing, if no replay is being recorded.
    pub fn change_replay_counter(&mut self, name: &String, delta: SignedInteger) -> (r: bool)
        requires
            old(self).wf(),
        ensures
            final(self).wf(),
            r == old(self)@.recording,
            !old(self)@.recording ==> final(self)@ == old(self)@,
            old(self)@.recording ==> final(self)@ == (CoreView {
                counters: Some(old(self)@.counters.unwrap().insert(
                    name@,
                    changed_value(old(self)@.counters.unwrap(), name@, delta),
                )),
                ..old(self)@
            }),
    {
        if !self.recording {
            return false;
        }
        self.change_counter_map(name.clone(), delta);
        true
    }

    fn change_counter_map(&mut self, name: String, delta: SignedInteger)
        requires
            old(self).wf(),
            old(self).replay_counters is Some,
        ensures
            final(self).wf(),
            final(self)@ == (CoreView {
                counters: Some(old(self)@.counters.unwrap().insert(
                    name@,
                    changed_value(old(self)@.counters.unwrap(), name@, delta),
                )),
                ..old(self)@
            }),
    {
        let mut counters = self.replay_counters.take().unwrap();
        counters.change(name, delta);
        self.replay_counters = Some(counters);
    }

    /// The replay counters, while recording or playing back.
    pub fn replay_counters(&self) -> (r: Option<&CounterMap>)
        requires
            self.wf(),
        ensures
            r matches Some(c) ==> c.wf() && self@.counters == Some(c.view()),
            r is None <==> self@.counters is None,
    {
        self.replay_counters.as_ref()
    }

    /// Record that a replay has started recording, with a keyframe every
    /// `frames_per_keyframe` frames; counters start empty.
    pub fn recording_started(&mut self, frames_per_keyframe: u64)
        requires
            old(self).wf(),
            !old(self)@.playing_back,
        ensures
            final(self).wf(),
            final(self)@ == (CoreView {
                frames_per_keyframe,
                recording: true,
                counters: Some(Map::empty()),
                ..old(self)@
            }),
    {
        self.frames_per_keyframe = frames_per_keyframe;
        self.replay_counters = Some(CounterMap::new());
        self.recording = true;
    }

    /// Stop recording. Returns `true` if a replay was being recorded (its
    /// counters are dropped).
    pub fn stop_recording(&mut self) -> (r: bool)
        requires
            old(self).wf(),
        ensures
            final(self).wf(),
            r == old(self)@.recording,
            r ==> final(self)@ == (CoreView { recording: false, counters: None, ..old(self)@ }),
            !r ==> final(self)@ == old(self)@,
    {
        if !self.recording {
            return false;
        }
        self.recording = false;
        self.replay_counters = None;
        true
    }

    /// Forget the replay being recorded without closing it; counters stay.
    pub fn force_stop_recording(&mut self)
        requires
            old(self).wf(),
        ensures
            final(self).wf(),
            final(self)@ == (CoreView { recording: false, ..old(self)@ }),
    {
        self.recording = false;
    }

    /// Record that a replay player is attached, at clock time `now_ms`:
    /// inputs are released, counters start empty and the timer restarts.
    pub fn replay_attached(&mut self, now_ms: u64)
        requires
            old(self).wf(),
            !old(self)@.recording,
        ensures
            final(self).wf(),
            final(self)@ == (CoreView {
                current_input: Input::spec_empty(),
                next_input: None,
                playing_back: true,
                counters: Some(Map::empty()),
                replay_stalled: false,
                paused_at: None,
                starting_ms: now_ms,
                total_ms: 0,
                total_frames: 0,
                ..old(self)@
            }),
    {
        self.current_input = Input::new();
        self.next_input = None;
        self.replay_counters = Some(CounterMap::new());
        self.playing_back = true;
        self.replay_stalled = false;
        self.restart_timer(now_ms);
    }

    /// Detach the replay player. Returns `false`, changing nothing, if none was
    /// attached; otherwise counters are dropped and the input is released.
    pub fn detach_replay(&mut self) -> (r: bool)
        requires
            old(self).wf(),
        ensures
            final(self).wf(),
            r == old(self)@.playing_back,
            !r ==> final(self)@ == old(self)@,
            r ==> final(self)@ == (CoreView {
                replay_stalled: false,
                playing_back: false,
                counters: None,
                next_input: Some(Input::spec_empty()),
                ..old(self)@
            }),
    {
        if !self.playing_back {
            return false;
        }
        self.replay_stalled = false;
        self.playing_back = false;
        self.replay_counters = None;
        self.reset_input();
        true
    }

    /// Return `true` if the next packets of the replay should be read now: a
    /// replay plays back, between frames, and has not stalled.
    pub fn replay_ready(&self) -> (r: bool)
        ensures
            r == (self@.playing_back && !self@.replay_stalled && !self@.mid_frame),
    {
        self.playing_back && !self.replay_stalled && !self.mid_frame
    }

    /// The speed that playback must now run at, if speed changes of replays
    /// are followed; the game speed becomes the replay's speed then.
    fn match_replay_playback_speed(&mut self) -> (r: Option<Speed>)
        requires
            old(self).wf(),
        ensures
            final(self).wf(),
            old(self)@.ignore_speed_changes_in_replays ==> r is None && final(self)@ == old(self)@,
            !old(self)@.ignore_speed_changes_in_replays ==> r == Some(old(self)@.replay_playback_speed)
                && final(self)@ == (CoreView { game_speed: old(self)@.replay_playback_speed, ..old(self)@ }),
    {
        if self.ignore_speed_changes_in_replays {
            None
        } else {
            self.game_speed = self.replay_playback_speed;
            Some(self.replay_playback_speed)
        }
    }

    /// Apply the next result of reading the replay: `Err(())` for an unreadable
    /// packet, `Ok(None)` at the end of the replay.
    pub fn apply_replay_packet(&mut self, next: Result<Option<&Packet>, ()>) -> (r: ReplayEffect)
        requires
            old(self).wf(),
            old(self)@.playing_back,
            !(next matches Ok(Some(p)) && p is CompressedBlob),
            next matches Ok(Some(p)) ==> p.speeds_valid(),
        ensures
            final(self).wf(),
            final(self)@ == CoreState::after_replay_packet(old(self)@, next),
            r == CoreState::replay_packet_effect(old(self)@, next),
    {
        match next {
            Err(_) => {
                self.replay_stalled = true;
                ReplayEffect::Stop
            },
            Ok(None) => {
                self.replay_stalled = true;
                ReplayEffect::Stop
            },
            Ok(Some(packet)) => match packet {
                Packet::NoOp => ReplayEffect::Continue,
                Packet::NextFrame { timestamp_delta } => {
                    self.total_milliseconds = TimestampMillis(
                        self.total_milliseconds.0.wrapping_add(timestamp_delta.0),
                    );
                    ReplayEffect::Stop
                },
                Packet::WriteMemory { address, data: _ } => ReplayEffect::WriteMemory(
                    #[verifier::truncate]
                    (*address as u32),
                ),
                Packet::ChangeInput { data: _ } => ReplayEffect::SetInput,
                Packet::ChangeSpeed { speed } => {
                    self.replay_playback_speed = *speed;
                    match self.match_replay_playback_speed() {
                        Some(s) => ReplayEffect::ApplySpeed(s),
                        None => ReplayEffect::Continue,
                    }
                },
                Packet::ResetConsole => ReplayEffect::HardReset,
                Packet::LoadSaveState { state: _ } => ReplayEffect::LoadState,
                Packet::Bookmark { metadata: _ } => ReplayEffect::Continue,
                Packet::Keyframe { metadata: _, state: _ } => {
                    if self.auto_resync_keyframes_in_replays {
                        ReplayEffect::LoadState
                    } else {
                        ReplayEffect::Continue
                    }
                },
                Packet::DeltaKeyframe { metadata: _, diff: _ } => ReplayEffect::Continue,
                Packet::CompressedBlob { .. } => ReplayEffect::Continue,
                Packet::IncrementCounter { name, delta } => {
                    self.change_counter_map(name.clone(), *delta);
                    ReplayEffect::Continue
                },
            },
        }
    }

    /// The state after a replay packet (see [`CoreState::apply_replay_packet`]).
    pub open spec fn after_replay_packet(v: CoreView, next: Result<Option<&Packet>, ()>) -> CoreView {
        match next {
            Err(_) => CoreView { replay_stalled: true, ..v },
            Ok(None) => CoreView { replay_stalled: true, ..v },
            Ok(Some(packet)) => match *packet {
                Packet::NextFrame { timestamp_delta } => CoreView {
                    total_ms: v.total_ms.wrapping_add(timestamp_delta.0),
                    ..v
                },
                Packet::ChangeSpeed { speed } => if v.ignore_speed_changes_in_replays {
                    CoreView { replay_playback_speed: speed, ..v }
                } else {
                    CoreView { replay_playback_speed: speed, game_speed: speed, ..v }
                },
                Packet::IncrementCounter { name, delta } => CoreView {
                    counters: Some(v.counters.unwrap().insert(
                        name@,
                        changed_value(v.counters.unwrap(), name@, delta),
                    )),
                    ..v
                },
                _ => v,
            },
        }
    }

    /// What a replay packet asks of the emulator (see
    /// [`CoreState::apply_replay_packet`]).
    pub open spec fn replay_packet_effect(v: CoreView, next: Result<Option<&Packet>, ()>) -> ReplayEffect {
        match next {
            Err(_) => ReplayEffect::Stop,
            Ok(None) => ReplayEffect::Stop,
            Ok(Some(packet)) => match *packet {
                Packet::NextFrame { .. } => ReplayEffect::Stop,
                Packet::WriteMemory { address, .. } => ReplayEffect::WriteMemory(address as u32),
                Packet::ChangeInput { .. } => ReplayEffect::SetInput,
                Packet::ChangeSpeed { speed } => if v.ignore_speed_changes_in_replays {
                    ReplayEffect::Continue
                } else {
                    ReplayEffect::ApplySpeed(speed)
                },
                Packet::ResetConsole => ReplayEffect::HardReset,
                Packet::LoadSaveState { .. } => ReplayEffect::LoadState,
                Packet::Keyframe { .. } => if v.auto_resync_keyframes_in_replays {
                    ReplayEffect::LoadState
                } else {
                    ReplayEffect::Continue
                },
                _ => ReplayEffect::Continue,
            },
        }
    }

    /// Take the state of a keyframe that playback has seeked to; returns the
    /// speed that playback must now run at, if speed changes are followed.
    pub fn apply_keyframe(&mut self, metadata: &KeyframeMetadata) -> (r: Option<Speed>)
        requires
            old(self).wf(),
            old(self)@.playing_back,
            metadata.speed.is_valid(),
        ensures
            final(self).wf(),
            final(self)@ == (CoreView {
                mid_frame: false,
                total_frames: metadata.elapsed_frames,
                total_ms: metadata.elapsed_millis.0,
                replay_stalled: false,
                frames_since_last_keyframe: 0,
                counters: Some(counters_of(metadata.counters@)),
                replay_playback_speed: metadata.speed,
                game_speed: if old(self)@.ignore_speed_changes_in_replays {
                    old(self)@.game_speed
                } else {
                    metadata.speed
                },
                ..old(self)@
            }),
            r == (if old(self)@.ignore_speed_changes_in_replays { None } else { Some(metadata.speed) }),
    {
        self.mid_frame = false;
        self.total_frames = metadata.elapsed_frames;
        self.total_milliseconds = metadata.elapsed_millis;
        self.replay_stalled = false;
        self.frames_since_last_keyframe = 0;
        self.replay_counters = Some(CounterMap::from_counters(&metadata.counters));
        self.replay_playback_speed = metadata.speed;
        self.match_replay_playback_speed()
    }

    /// Return `true` while seeking must keep running frames to reach `desired`.
    pub fn seek_should_continue(&self, desired: UnsignedInteger) -> (r: bool)
        ensures
            r == (self@.total_frames <= desired && !self@.replay_stalled),
    {
        self.total_frames <= desired && !self.replay_stalled
    }

    /// Set whether speed changes in replays are ignored. Returns the speed to
    /// apply now (that of the replay, while one plays back and changes are
    /// followed).
    pub fn set_ignore_speed_changes_in_replays(&mut self, ignored: bool) -> (r: Option<Speed>)
        requires
            old(self).wf(),
        ensures
            final(self).wf(),
            old(self)@.playing_back && !ignored ==> r == Some(old(self)@.replay_playback_speed)
                && final(self)@ == (CoreView {
                ignore_speed_changes_in_replays: ignored,
                game_speed: old(self)@.replay_playback_speed,
                ..old(self)@
            }),
            !(old(self)@.playing_back && !ignored) ==> r is None && final(self)@ == (CoreView {
                ignore_speed_changes_in_replays: ignored,
                ..old(self)@
            }),
    {
        self.ignore_speed_changes_in_replays = ignored;
        if self.playing_back {
            self.match_replay_playback_speed()
        } else {
            None
        }
    }

    /// Set whether keyframes resync the emulator during playback.
    pub fn set_auto_resync_keyframes_in_replays(&mut self, resync: bool)
        requires
            old(self).wf(),
        ensures
            final(self).wf(),
            final(self)@ == (CoreView { auto_resync_keyframes_in_replays: resync, ..old(self)@ }),
    {
        self.auto_resync_keyframes_in_replays = resync;
    }

    /// Milliseconds elapsed since the timer (re)started.
    pub fn get_recording_milliseconds(&self) -> (r: TimestampMillis)
        ensures
            r.0 == self@.total_ms,
    {
        self.total_milliseconds
    }

    /// Frames elapsed since the timer (re)started.
    pub fn total_frames(&self) -> (r: u64)
        ensures
            r == self@.total_frames,
    {
        self.total_frames
    }

    /// The speed of the game.
    pub fn game_speed(&self) -> (r: Speed)
        ensures
            r == self@.game_speed,
    {
        self.game_speed
    }

    /// The input that was applied last.
    pub fn current_input(&self) -> (r: Input)
        ensures
            r == self@.current_input,
    {
        self.current_input
    }

    /// Return `true` while a replay is recorded.
    pub fn is_recording(&self) -> (r: bool)
        ensures
            r == self@.recording,
    {
        self.recording
    }

    /// Return `true` while a replay plays back.
    pub fn is_playing_back(&self) -> (r: bool)
        ensures
            r == self@.playing_back,
    {
        self.playing_back
    }

    /// Return `true` in the middle of a frame.
    pub fn is_mid_frame(&self) -> (r: bool)
        ensures
            r == self@.mid_frame,
    {
        self.mid_frame
    }

    /// Start recording a replay at clock time `now_ms`, with a keyframe every
    /// `frames_per_keyframe` frames: a replay being recorded is stopped, one
    /// playing back is detached, and the timer restarts, so that the recording
    /// counts its milliseconds and frames from 0.
    pub fn begin_recording(&mut self, now_ms: u64, frames_per_keyframe: u64)
        requires
            old(self).wf(),
        ensures
            final(self).wf(),
            final(self)@ == (CoreView {
                recording: true,
                playing_back: false,
                counters: Some(Map::empty()),
                frames_per_keyframe,
                paused_at: None,
                starting_ms: now_ms,
                total_ms: 0,
                total_frames: 0,
                replay_stalled: if old(self)@.playing_back { false } else { old(self)@.replay_stalled },
                next_input: if old(self)@.playing_back { Some(Input::spec_empty()) } else { old(self)@.next_input },
                ..old(self)@
            }),
    {
        self.stop_recording();
        self.detach_replay();
        self.restart_timer(now_ms);
        self.recording_started(frames_per_keyframe);
    }

    /// Prepare a frame: the input to apply (see [`CoreState::frame_input`])
    /// and the queued writes to apply now (see [`CoreState::flush_writes`]).
    pub fn begin_frame(&mut self) -> (r: (Option<Input>, Vec<QueuedWrite>))
        requires
            old(self).wf(),
        ensures
            final(self).wf(),
            old(self)@.playing_back || old(self)@.mid_frame ==> r.0 is None && r.1@ == Seq::<QueuedWrite>::empty()
                && final(self)@ == old(self)@,
            !(old(self)@.playing_back || old(self)@.mid_frame) ==> {
                &&& r.0 == Some(CoreState::combined_input(old(self)@))
                &&& r.1@ == old(self)@.writes
                &&& final(self)@ == (CoreView {
                    base_input: match old(self)@.next_input {
                        Some(i) => i,
                        None => old(self)@.base_input,
                    },
                    next_input: None,
                    current_input: CoreState::combined_input(old(self)@),
                    writes: Seq::empty(),
                    ..old(self)@
                })
            },
    {
        let input = self.frame_input();
        let writes = self.flush_writes();
        (input, writes)
    }

    /// The state after a run of `frames` frames ending at clock time `now_ms`
    /// (see [`CoreState::end_frame`]) before any keyframe is taken.
    pub open spec fn timed_after_run(v: CoreView, frames: u64, now_ms: u64) -> CoreView {
        let t = CoreState::after_timekeeping(v, frames);
        if !v.playing_back && frames != 0 {
            CoreView { total_ms: (now_ms - t.starting_ms) as u64, ..t }
        } else {
            t
        }
    }

    /// Finish a run of `frames` frames (0 in the middle of a frame) that ended
    /// at clock time `now_ms`: timekeeping, then the frame's time (while not
    /// playing back, after a whole frame), then a keyframe if one is due.
    /// Returns the frame time and the keyframe time, for the replay being
    /// recorded.
    pub fn end_frame(&mut self, frames: u64, now_ms: u64) -> (r: (Option<TimestampMillis>, Option<TimestampMillis>))
        requires
            old(self).wf(),
            old(self)@.frames_since_last_keyframe + frames <= u64::MAX,
            !old(self)@.playing_back && frames != 0 ==> now_ms >= old(self)@.starting_ms,
        ensures
            final(self).wf(),
            ({
                let v = CoreState::timed_after_run(old(self)@, frames, now_ms);
                &&& r.0 == (if !old(self)@.playing_back && frames != 0 { Some(TimestampMillis(v.total_ms)) } else { None })
                &&& r.1 == (if CoreState::keyframe_due(v) { Some(TimestampMillis(v.total_ms)) } else { None })
                &&& final(self)@ == (if CoreState::keyframe_due(v) {
                    CoreView { frames_since_last_keyframe: 0, ..v }
                } else {
                    v
                })
            }),
    {
        let timed = self.do_frame_timekeeping(frames);
        let frame_time = if timed { Some(self.record_frame_time(now_ms)) } else { None };
        let keyframe = self.take_keyframe_due();
        (frame_time, keyframe)
    }
}


/// The toggled input is always applied: every button that it holds is held
/// in the input of the next frame, whatever else is held, and a touch is
/// never lost.
pub proof fn law_toggled_input_always_applied(v: CoreView, t: Input)
    requires
        v.toggled_input == Some(t),
    ensures
        ({
            let i = CoreState::combined_input(v);
            &&& t.a ==> i.a
            &&& t.b ==> i.b
            &&& t.x ==> i.x
            &&& t.y ==> i.y
            &&& t.start ==> i.start
            &&& t.select ==> i.select
            &&& t.l ==> i.l
            &&& t.r ==> i.r
            &&& t.d_up ==> i.d_up
            &&& t.d_down ==> i.d_down
            &&& t.d_left ==> i.d_left
            &&& t.d_right ==> i.d_right
            &&& t.touch is Some ==> i.touch is Some
        }),
{
}

/// The buttons and touch of `t` are all held in `i`.
pub open spec fn held_in(t: Input, i: Input) -> bool {
    &&& t.a ==> i.a
    &&& t.b ==> i.b
    &&& t.x ==> i.x
    &&& t.y ==> i.y
    &&& t.start ==> i.start
    &&& t.select ==> i.select
    &&& t.l ==> i.l
    &&& t.r ==> i.r
    &&& t.d_up ==> i.d_up
    &&& t.d_down ==> i.d_down
    &&& t.d_left ==> i.d_left
    &&& t.d_right ==> i.d_right
    &&& t.touch is Some ==> i.touch is Some
}

/// The state with `pending` enqueued as the next input, if any (see
/// [`CoreState::enqueue_input`]).
pub open spec fn with_pending(v: CoreView, pending: Option<Input>) -> CoreView {
    match pending {
        Some(i) => CoreView { next_input: Some(i), ..v },
        None => v,
    }
}

/// A whole frame without playback: `pending` is enqueued (if any), the
/// frame's input is applied (see [`CoreState::frame_input`]) and one frame is
/// accounted for (see [`CoreState::do_frame_timekeeping`]).
pub open spec fn frame_step(v: CoreView, pending: Option<Input>) -> CoreView {
    CoreState::after_timekeeping(CoreState::after_frame_input(with_pending(v, pending)), 1)
}

/// The state after the first `k` frames, enqueuing `pendings[j]` before
/// frame `j`.
pub open spec fn frames_after(v: CoreView, pendings: Seq<Option<Input>>, k: nat) -> CoreView
    decreases k,
{
    if k == 0 {
        v
    } else {
        frame_step(frames_after(v, pendings, (k - 1) as nat), pendings[k - 1])
    }
}

proof fn lemma_frames_keep_toggle(v: CoreView, pendings: Seq<Option<Input>>, t: Input, k: nat)
    requires
        v.toggled_input == Some(t),
        !v.playing_back,
        !v.mid_frame,
    ensures
        frames_after(v, pendings, k).toggled_input == Some(t),
        !frames_after(v, pendings, k).playing_back,
        !frames_after(v, pendings, k).mid_frame,
    decreases k,
{
    if k > 0 {
        lemma_frames_keep_toggle(v, pendings, t, (k - 1) as nat);
    }
}

/// The toggled input stays applied: once it is set (and while it is not set
/// again), every later frame applies all of its buttons, whatever inputs are
/// enqueued between frames.
pub proof fn law_toggled_input_held_every_frame(v: CoreView, pendings: Seq<Option<Input>>, t: Input)
    requires
        v.toggled_input == Some(t),
        !v.playing_back,
        !v.mid_frame,
    ensures
        forall|k: nat| k < pendings.len() ==> {
            let before = with_pending(#[trigger] frames_after(v, pendings, k), pendings[k as int]);
            &&& held_in(t, CoreState::combined_input(before))
            &&& frame_step(frames_after(v, pendings, k), pendings[k as int]).current_input
                == CoreState::combined_input(before)
        },
{
    assert forall|k: nat| k < pendings.len() implies {
        let before = with_pending(#[trigger] frames_after(v, pendings, k), pendings[k as int]);
        &&& held_in(t, CoreState::combined_input(before))
        &&& frame_step(frames_after(v, pendings, k), pendings[k as int]).current_input
            == CoreState::combined_input(before)
    } by {
        lemma_frames_keep_toggle(v, pendings, t, k);
        let before = with_pending(frames_after(v, pendings, k), pendings[k as int]);
        law_toggled_input_always_applied(before, t);
    }
}

/// Playing back a replay carries out what was recorded: a loaded save state
/// is loaded again, a console reset resets, a memory write writes at the
/// packet's address (cut to 32 bits), an input change sets the input, and the
/// state of the core is left as it was by each of these; bookmarks, no-ops
/// and delta keyframes do nothing; the end of the replay or an unreadable
/// packet stops playback where it is.
pub proof fn law_replay_packets_replay_the_recording(
    v: CoreView,
    state: ByteVec,
    address: UnsignedInteger,
    data: ByteVec,
    metadata: BookmarkMetadata,
    diff: Vec<UnsignedInteger>,
    keyframe: KeyframeMetadata,
)
    ensures
        CoreState::replay_packet_effect(v, Ok(Some(&Packet::LoadSaveState { state }))) == ReplayEffect::LoadState,
        CoreState::after_replay_packet(v, Ok(Some(&Packet::LoadSaveState { state }))) == v,
        CoreState::replay_packet_effect(v, Ok(Some(&Packet::ResetConsole))) == ReplayEffect::HardReset,
        CoreState::after_replay_packet(v, Ok(Some(&Packet::ResetConsole))) == v,
        CoreState::replay_packet_effect(v, Ok(Some(&Packet::WriteMemory { address, data })))
            == ReplayEffect::WriteMemory((address % 0x1_0000_0000) as u32),
        CoreState::after_replay_packet(v, Ok(Some(&Packet::WriteMemory { address, data }))) == v,
        CoreState::replay_packet_effect(v, Ok(Some(&Packet::ChangeInput { data }))) == ReplayEffect::SetInput,
        CoreState::after_replay_packet(v, Ok(Some(&Packet::ChangeInput { data }))) == v,
        CoreState::replay_packet_effect(v, Ok(Some(&Packet::NoOp))) == ReplayEffect::Continue,
        CoreState::replay_packet_effect(v, Ok(Some(&Packet::Bookmark { metadata }))) == ReplayEffect::Continue,
        CoreState::replay_packet_effect(v, Ok(Some(&Packet::DeltaKeyframe { metadata: keyframe, diff })))
            == ReplayEffect::Continue,
        v.auto_resync_keyframes_in_replays ==> CoreState::replay_packet_effect(
            v,
            Ok(Some(&Packet::Keyframe { metadata: keyframe, state })),
        ) == ReplayEffect::LoadState,
        CoreState::replay_packet_effect(v, Ok(None)) == ReplayEffect::Stop,
        CoreState::after_replay_packet(v, Ok(None)).replay_stalled,
        CoreState::replay_packet_effect(v, Err(())) == ReplayEffect::Stop,
        CoreState::after_replay_packet(v, Err(())).replay_stalled,
{
    assert((address as u32) == (address % 0x1_0000_0000) as u32) by (bit_vector);
}

/// Every emulated frame is counted, while a replay plays back as much as
/// otherwise (seeking and the playback frame counter rely on it): `frames`
/// frames add `frames` to the frame count, modulo 2^64, and nothing else
/// about playback changes.
pub proof fn law_every_frame_is_counted(v: CoreView, frames: u64)
    ensures
        CoreState::after_timekeeping(v, frames).total_frames as int == (v.total_frames + frames) % 0x1_0000_0000_0000_0000,
        CoreState::after_timekeeping(v, frames).playing_back == v.playing_back,
        CoreState::after_timekeeping(v, frames).mid_frame == (frames == 0),
        v.total_frames + frames <= u64::MAX ==> CoreState::after_timekeeping(v, frames).total_frames
            == v.total_frames + frames,
{
    let t = v.total_frames;
    assert(t.wrapping_add(frames) as int == (t + frames) % 0x1_0000_0000_0000_0000) by {
        if t + frames <= u64::MAX {
            assert((t + frames) % 0x1_0000_0000_0000_0000 == t + frames);
        } else {
            assert((t + frames) % 0x1_0000_0000_0000_0000 == t + frames - 0x1_0000_0000_0000_0000);
        }
    }
}

/// A paused timer skips the time it spent paused: pausing at timer value
/// `total`, unpausing at clock time `unpause_at` and reading the clock again at
/// `later` gives `total + (later - unpause_at)` elapsed milliseconds.
pub proof fn law_paused_time_is_skipped(start: u64, total: u64, unpause_at: u64, later: u64)
    requires
        start + total <= u64::MAX,
        unpause_at >= start + total,
        later >= unpause_at,
        start + (unpause_at - (start + total)) <= u64::MAX,
    ensures
        ({
            let paused_at = (start + total) as u64;
            let new_start = start.wrapping_add(unpause_at.wrapping_sub(paused_at));
            &&& later >= new_start
            &&& later - new_start == total + (later - unpause_at)
        }),
{
}

/// The frames to seek to when playback goes to `frame`: the keyframe search
/// starts one frame earlier (so that the frame itself is emulated and shown),
/// and the target is clamped to the last frame of a replay of
/// `total_replay_frames` frames. `None` for an empty replay.
pub fn replay_seek_plan(frame: UnsignedInteger, total_replay_frames: UnsignedInteger) -> (r: Option<(UnsignedInteger, UnsignedInteger)>)
    ensures
        total_replay_frames == 0 ==> r is None,
        total_replay_frames > 0 ==> r == Some((
            if frame == 0 { 0u64 } else { (frame - 1) as u64 },
            vstd::math::min(
                if frame == 0 { 0 } else { frame - 1 },
                total_replay_frames - 1,
            ) as u64,
        )),
{
    let before_frame = frame.saturating_sub(1);
    let last = total_replay_frames.saturating_sub(1);
    let desired = if before_frame < last { before_frame } else { last };
    if desired >= total_replay_frames {
        return None;
    }
    Some((before_frame, desired))
}

/// The replay frame that the playback thread should go to: an explicit
/// request (anything but `u32::MAX`) wins; otherwise a non-zero `delta` moves
/// from `current_frame`, saturating at the bounds of `u64`.
pub fn requested_replay_frame(frame: u32, delta: i32, current_frame: UnsignedInteger) -> (r: Option<UnsignedInteger>)
    ensures
        frame != u32::MAX ==> r == Some(frame as u64),
        frame == u32::MAX && delta == 0 ==> r is None,
        frame == u32::MAX && delta != 0 ==> r == Some(
            vstd::math::max(0, vstd::math::min(current_frame + delta, u64::MAX as int)) as u64,
        ),
{
    if frame != u32::MAX {
        Some(frame as u64)
    } else if delta != 0 {
        let moved = match current_frame.checked_add_signed(delta as i64) {
            Some(n) => n,
            None => if delta < 0 { 0 } else { u64::MAX },
        };
        Some(moved)
    } else {
        None
    }
}

/// Current elapsed time, retrieved atomically (the frame count corresponds to
/// milliseconds and vice versa).
#[derive(Copy, Clone, Debug)]
pub struct ElapsedTimeStats {
    pub milliseconds: u32,
    pub frames: u32,
    pub speed: Speed,
}

impl Default for ElapsedTimeStats {
    fn default() -> (r: Self)
        ensures
            r.milliseconds == 0,
            r.frames == 0,
            r.speed == (Speed { speed_over_256: 256 }),
    {
        ElapsedTimeStats { milliseconds: 0, frames: 0, speed: Speed::default() }
    }
}

impl ElapsedTimeStats {
    /// The elapsed time of a core, truncated to 32 bits.
    pub fn of(state: &CoreState) -> (r: ElapsedTimeStats)
        ensures
            r.milliseconds == state@.total_ms as u32,
            r.frames == state@.total_frames as u32,
            r.speed == state@.game_speed,
    {
        ElapsedTimeStats {
            milliseconds: #[verifier::truncate] (state.get_recording_milliseconds().0 as u32),
            frames: #[verifier::truncate] (state.total_frames() as u32),
            speed: state.game_speed(),
        }
    }
}

/// Describes a metadata mismatch.
#[derive(Clone, Debug)]
pub enum ReplayPlayerMetadataMismatchKind {
    ROMChecksumMismatch { replay: ReplayHeaderBlake3Hash, loaded: ReplayHeaderBlake3Hash },
    BIOSChecksumMismatch { replay: ReplayHeaderBlake3Hash, loaded: ReplayHeaderBlake3Hash },
    CoreMismatch { replay: String, loaded: String },
}

/// A metadata mismatch as a value.
pub enum MismatchView {
    ROMChecksumMismatch { replay: Seq<u8>, loaded: Seq<u8> },
    BIOSChecksumMismatch { replay: Seq<u8>, loaded: Seq<u8> },
    CoreMismatch { replay: Seq<char>, loaded: Seq<char> },
}

impl View for ReplayPlayerMetadataMismatchKind {
    type V = MismatchView;

    open spec fn view(&self) -> MismatchView {
        match *self {
            ReplayPlayerMetadataMismatchKind::ROMChecksumMismatch { replay, loaded } => MismatchView::ROMChecksumMismatch {
                replay: replay@,
                loaded: loaded@,
            },
            ReplayPlayerMetadataMismatchKind::BIOSChecksumMismatch { replay, loaded } => MismatchView::BIOSChecksumMismatch {
                replay: replay@,
                loaded: loaded@,
            },
            ReplayPlayerMetadataMismatchKind::CoreMismatch { replay, loaded } => MismatchView::CoreMismatch {
                replay: replay@,
                loaded: loaded@,
            },
        }
    }
}

/// Returned when a replay player cannot be attached.
#[derive(Clone, Debug)]
pub enum ReplayPlayerAttachError {
    /// Metadata is mismatched. It may desync.
    MismatchedMetadata { issues: Vec<ReplayPlayerMetadataMismatchKind> },
    /// The replay was recorded on another console.
    Incompatible { description: String },
}

/// The `Debug` text of a console type: the name of its variant.
pub open spec fn console_type_name(c: ReplayConsoleType) -> Seq<char> {
    match c {
        ReplayConsoleType::GameBoy => "GameBoy"@,
        ReplayConsoleType::SuperGameBoy2 => "SuperGameBoy2"@,
        ReplayConsoleType::GameBoyColor => "GameBoyColor"@,
        ReplayConsoleType::GameBoyAdvance => "GameBoyAdvance"@,
        ReplayConsoleType::NintendoDS => "NintendoDS"@,
    }
}

/// The description of a replay recorded on another console than the one
/// loaded, naming both as `Debug` writes them.
pub open spec fn console_mismatch_text(replay: ReplayConsoleType, loaded: Option<ReplayConsoleType>) -> Seq<char> {
    "Console types don't match! (replay: "@ + console_type_name(replay) + ", rom: "@ + match loaded {
        Some(c) => "Some("@ + console_type_name(c) + ")"@,
        None => "None"@,
    } + ")"@
}

fn console_type_name_str(c: ReplayConsoleType) -> (r: &'static str)
    ensures
        r@ == console_type_name(c),
{
    match c {
        ReplayConsoleType::GameBoy => "GameBoy",
        ReplayConsoleType::SuperGameBoy2 => "SuperGameBoy2",
        ReplayConsoleType::GameBoyColor => "GameBoyColor",
        ReplayConsoleType::GameBoyAdvance => "GameBoyAdvance",
        ReplayConsoleType::NintendoDS => "NintendoDS",
    }
}

/// Describe a replay recorded on another console than the one loaded.
pub fn describe_console_mismatch(replay: ReplayConsoleType, loaded: Option<ReplayConsoleType>) -> (r: String)
    ensures
        r@ == console_mismatch_text(replay, loaded),
{
    let mut s = String::from_str("Console types don't match! (replay: ");
    s.append(console_type_name_str(replay));
    s.append(", rom: ");
    match loaded {
        Some(c) => {
            s.append("Some(");
            s.append(console_type_name_str(c));
            s.append(")");
        },
        None => {
            s.append("None");
        },
    }
    s.append(")");
    s
}

/// The mismatches between a replay's metadata and the loaded ROM, BIOS and
/// core, in that order. The ROM mismatch reports the loaded BIOS checksum as
/// its loaded value.
pub open spec fn expected_mismatches(
    replay_rom: Seq<u8>,
    replay_bios: Seq<u8>,
    replay_core: Seq<char>,
    loaded_rom: Seq<u8>,
    loaded_bios: Seq<u8>,
    loaded_core: Seq<char>,
) -> Seq<MismatchView> {
    let rom: Seq<MismatchView> = if replay_rom != loaded_rom {
        seq![MismatchView::ROMChecksumMismatch { replay: replay_rom, loaded: loaded_bios }]
    } else {
        seq![]
    };
    let bios: Seq<MismatchView> = if replay_bios != loaded_bios {
        seq![MismatchView::BIOSChecksumMismatch { replay: replay_bios, loaded: loaded_bios }]
    } else {
        seq![]
    };
    let core: Seq<MismatchView> = if replay_core != loaded_core {
        seq![MismatchView::CoreMismatch { replay: replay_core, loaded: loaded_core }]
    } else {
        seq![]
    };
    rom + bios + core
}

fn same_hash(a: &ReplayHeaderBlake3Hash, b: &ReplayHeaderBlake3Hash) -> (r: bool)
    ensures
        r == (a@ == b@),
{
    let mut i: usize = 0;
    while i < 32
        invariant
            i <= 32,
            forall|j: int| 0 <= j < i ==> a@[j] == b@[j],
        decreases 32 - i,
    {
        if a[i] != b[i] {
            return false;
        }
        i = i + 1;
    }
    assert(a@ =~= b@);
    true
}

/// Check that a replay can be played back on the loaded console.
///
/// A replay of another console is incompatible. Unless `allow_mismatched`,
/// any difference in ROM checksum, BIOS checksum or core name is refused,
/// listing every difference.
pub fn check_replay_metadata(
    replay_console: ReplayConsoleType,
    replay_rom: &ReplayHeaderBlake3Hash,
    replay_bios: &ReplayHeaderBlake3Hash,
    replay_core: &String,
    loaded_console: Option<ReplayConsoleType>,
    loaded_rom: &ReplayHeaderBlake3Hash,
    loaded_bios: &ReplayHeaderBlake3Hash,
    loaded_core: &str,
    allow_mismatched: bool,
) -> (r: Result<(), ReplayPlayerAttachError>)
    ensures
        loaded_console != Some(replay_console) ==> (r matches Err(ReplayPlayerAttachError::Incompatible { description })
            && description@ == console_mismatch_text(replay_console, loaded_console)),
        loaded_console == Some(replay_console) && (allow_mismatched || expected_mismatches(
            replay_rom@, replay_bios@, replay_core@, loaded_rom@, loaded_bios@, loaded_core@,
        ).len() == 0) ==> r is Ok,
        loaded_console == Some(replay_console) && !allow_mismatched && expected_mismatches(
            replay_rom@, replay_bios@, replay_core@, loaded_rom@, loaded_bios@, loaded_core@,
        ).len() > 0 ==> (r matches Err(ReplayPlayerAttachError::MismatchedMetadata { issues })
            && issues@.map_values(|k: ReplayPlayerMetadataMismatchKind| k@) == expected_mismatches(
            replay_rom@, replay_bios@, replay_core@, loaded_rom@, loaded_bios@, loaded_core@,
        )),
{
    let same_console = match loaded_console {
        Some(c) => c == replay_console,
        None => false,
    };
    if !same_console {
        return Err(ReplayPlayerAttachError::Incompatible {
            description: describe_console_mismatch(replay_console, loaded_console),
        });
    }
    if allow_mismatched {
        return Ok(());
    }
    let mut issues: Vec<ReplayPlayerMetadataMismatchKind> = Vec::new();
    if !same_hash(replay_rom, loaded_rom) {
        issues.push(ReplayPlayerMetadataMismatchKind::ROMChecksumMismatch { replay: *replay_rom, loaded: *loaded_bios });
    }
    if !same_hash(replay_bios, loaded_bios) {
        issues.push(ReplayPlayerMetadataMismatchKind::BIOSChecksumMismatch { replay: *replay_bios, loaded: *loaded_bios });
    }
    let loaded_core_name = String::from_str(loaded_core);
    if *replay_core != loaded_core_name {
        issues.push(ReplayPlayerMetadataMismatchKind::CoreMismatch { replay: replay_core.clone(), loaded: loaded_core_name });
    }
    assert(issues@.map_values(|k: ReplayPlayerMetadataMismatchKind| k@) =~= expected_mismatches(
        replay_rom@, replay_bios@, replay_core@, loaded_rom@, loaded_bios@, loaded_core@,
    ));
    if issues.len() > 0 {
        Err(ReplayPlayerAttachError::MismatchedMetadata { issues })
    } else {
        Ok(())
    }
}

} // verus!
