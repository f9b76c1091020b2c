use supershuckie::core_state::{
    check_replay_metadata, describe_console_mismatch, replay_seek_plan, requested_replay_frame, CoreState, ElapsedTimeStats, LoadStatePlan,
    ReplayEffect, ReplayPlayerAttachError, ReplayPlayerMetadataMismatchKind, SuperShuckieRapidFire,
};
use supershuckie::input::Input;
use supershuckie::packet::{ByteVec, Counter, KeyframeMetadata, Packet, ReplayConsoleType, Speed, TimestampMillis};

fn a_pressed() -> Input {
    let mut i = Input::new();
    i.a = true;
    i
}

#[test]
fn pending_input_becomes_the_frame_input() {
    let mut core = CoreState::new(100);
    core.enqueue_input(a_pressed());
    assert_eq!(core.frame_input(), Some(a_pressed()));
    assert_eq!(core.current_input(), a_pressed());
    // Without a new input the same buttons stay held.
    assert_eq!(core.frame_input(), Some(a_pressed()));
    core.reset_input();
    assert_eq!(core.frame_input(), Some(Input::new()));
}

#[test]
fn toggled_and_rapid_fire_inputs_are_merged() {
    let mut core = CoreState::new(0);
    let mut toggled = Input::new();
    toggled.b = true;
    core.set_toggled_input(Some(toggled));
    let mut rapid = SuperShuckieRapidFire::default();
    rapid.input = a_pressed();
    rapid.hold_length = 1;
    rapid.interval = 1;
    core.set_rapid_fire_input(Some(rapid));
    let first = core.frame_input().unwrap();
    assert!(first.a && first.b);
    assert!(core.do_frame_timekeeping(1));
    // Second stage of a one-on, one-off cycle: A is released.
    let second = core.frame_input().unwrap();
    assert!(!second.a && second.b);
    assert!(core.do_frame_timekeeping(1));
    let third = core.frame_input().unwrap();
    assert!(third.a && third.b);
}

#[test]
fn rapid_fire_duty_cycle_three_on_three_off() {
    let mut core = CoreState::new(0);
    let mut rapid = SuperShuckieRapidFire::default();
    rapid.input = a_pressed();
    rapid.hold_length = 3;
    rapid.interval = 3;
    core.set_rapid_fire_input(Some(rapid));
    let mut pattern = Vec::new();
    for _ in 0..7 {
        pattern.push(core.frame_input().unwrap().a);
        core.do_frame_timekeeping(1);
    }
    assert_eq!(pattern, vec![true, true, true, false, false, false, true]);
}

#[test]
fn timer_pause_skips_paused_time() {
    let mut core = CoreState::new(1000);
    assert_eq!(core.record_frame_time(1500).0, 500);
    core.pause_timer();
    assert!(core.is_timer_paused());
    core.unpause_timer(2500);
    assert!(!core.is_timer_paused());
    // 500 ms ran before the pause; 100 more after it.
    assert_eq!(core.record_frame_time(2600).0, 600);
    core.restart_timer(5000);
    assert_eq!(core.total_frames(), 0);
    assert_eq!(core.get_recording_milliseconds().0, 0);
}

#[test]
fn marks_only_while_recording() {
    let mut core = CoreState::new(0);
    assert_eq!(core.replay_mark(), None);
    core.recording_started(60);
    core.do_frame_timekeeping(5);
    core.record_frame_time(250);
    assert_eq!(core.replay_mark(), Some((5, TimestampMillis(250))));
    assert!(core.stop_recording());
    assert!(!core.stop_recording());
    assert_eq!(core.replay_mark(), None);
}

#[test]
fn keyframes_come_every_n_frames_while_recording() {
    let mut core = CoreState::new(0);
    assert_eq!(core.take_keyframe_due(), None);
    core.recording_started(2);
    core.do_frame_timekeeping(1);
    assert_eq!(core.take_keyframe_due(), None);
    core.do_frame_timekeeping(1);
    core.record_frame_time(33);
    assert_eq!(core.take_keyframe_due(), Some(TimestampMillis(33)));
    assert_eq!(core.take_keyframe_due(), None);
}

#[test]
fn counters_change_only_while_recording() {
    let mut core = CoreState::new(0);
    let name = String::from("deaths");
    assert!(!core.change_replay_counter(&name, 1));
    assert!(core.replay_counters().is_none());
    core.recording_started(60);
    assert!(core.change_replay_counter(&name, 2));
    assert!(core.change_replay_counter(&name, 3));
    assert_eq!(core.replay_counters().unwrap().get(&name), Some(5));
}

#[test]
fn writes_are_flushed_in_order_between_frames() {
    let mut core = CoreState::new(0);
    // Between frames a write applies at once.
    let now = core.enqueue_write(2, ByteVec::from_slice(&[9]));
    assert_eq!(now.len(), 1);
    assert_eq!(now[0].address, 2);
    core.do_frame_timekeeping(0);
    assert!(core.is_mid_frame());
    // In the middle of a frame writes wait.
    assert!(core.enqueue_write(4, ByteVec::from_slice(&[1])).is_empty());
    assert!(core.enqueue_write(8, ByteVec::from_slice(&[2, 3])).is_empty());
    assert!(core.flush_writes().is_empty());
    core.do_frame_timekeeping(1);
    let writes = core.flush_writes();
    assert_eq!(writes.len(), 2);
    assert_eq!(writes[0].address, 4);
    assert_eq!(writes[1].data.as_slice(), &[2, 3]);
    assert!(core.flush_writes().is_empty());
}

#[test]
fn load_state_plans() {
    let mut core = CoreState::new(0);
    assert_eq!(core.load_save_state(), LoadStatePlan::LoadFinishFrameAndReload);
    assert!(core.must_finish_frame());
    core.do_frame_timekeeping(1);
    core.recording_started(10);
    assert_eq!(core.load_save_state(), LoadStatePlan::LoadAndRecord);
    core.stop_recording();
    core.replay_attached(0);
    assert_eq!(core.load_save_state(), LoadStatePlan::Ignore);
    assert!(!core.hard_reset_allowed());
}

#[test]
fn replay_packets_drive_playback() {
    let mut core = CoreState::new(0);
    core.replay_attached(10);
    assert!(core.is_playing_back());
    assert!(core.replay_ready());
    assert_eq!(core.apply_replay_packet(Ok(Some(&Packet::NoOp))), ReplayEffect::Continue);
    let write = Packet::WriteMemory { address: 0x1_0000_0010, data: ByteVec::new() };
    assert_eq!(core.apply_replay_packet(Ok(Some(&write))), ReplayEffect::WriteMemory(0x10));
    assert_eq!(core.apply_replay_packet(Ok(Some(&Packet::ChangeInput { data: ByteVec::new() }))), ReplayEffect::SetInput);
    let speed = Speed { speed_over_256: 512 };
    assert_eq!(core.apply_replay_packet(Ok(Some(&Packet::ChangeSpeed { speed }))), ReplayEffect::ApplySpeed(speed));
    assert_eq!(core.game_speed(), speed);
    assert_eq!(core.apply_replay_packet(Ok(Some(&Packet::ResetConsole))), ReplayEffect::HardReset);
    assert_eq!(
        core.apply_replay_packet(Ok(Some(&Packet::IncrementCounter { name: String::from("x"), delta: 4 }))),
        ReplayEffect::Continue
    );
    assert_eq!(core.replay_counters().unwrap().get(&String::from("x")), Some(4));
    let next = Packet::NextFrame { timestamp_delta: TimestampMillis(16) };
    assert_eq!(core.apply_replay_packet(Ok(Some(&next))), ReplayEffect::Stop);
    assert_eq!(core.get_recording_milliseconds().0, 16);
    assert_eq!(core.apply_replay_packet(Ok(None)), ReplayEffect::Stop);
    assert!(!core.replay_ready());
    assert!(core.detach_replay());
    assert!(!core.detach_replay());
}

#[test]
fn ignored_speed_changes_keep_the_game_speed() {
    let mut core = CoreState::new(0);
    core.replay_attached(0);
    assert_eq!(core.set_ignore_speed_changes_in_replays(true), None);
    let speed = Speed { speed_over_256: 128 };
    assert_eq!(core.apply_replay_packet(Ok(Some(&Packet::ChangeSpeed { speed }))), ReplayEffect::Continue);
    assert_eq!(core.game_speed(), Speed { speed_over_256: 256 });
    assert_eq!(core.set_ignore_speed_changes_in_replays(false), Some(speed));
    assert_eq!(core.game_speed(), speed);
}

#[test]
fn keyframes_restore_the_timer_and_counters() {
    let mut core = CoreState::new(0);
    core.replay_attached(0);
    let metadata = KeyframeMetadata {
        input: ByteVec::new(),
        speed: Speed { speed_over_256: 300 },
        elapsed_frames: 120,
        elapsed_millis: TimestampMillis(2000),
        counters: vec![Counter { name: String::from("a"), value: 7 }],
    };
    assert_eq!(core.apply_keyframe(&metadata), Some(Speed { speed_over_256: 300 }));
    assert_eq!(core.total_frames(), 120);
    assert_eq!(core.get_recording_milliseconds().0, 2000);
    assert_eq!(core.replay_counters().unwrap().get(&String::from("a")), Some(7));
    assert!(core.seek_should_continue(120));
    assert!(!core.seek_should_continue(119));
    let stats = ElapsedTimeStats::of(&core);
    assert_eq!((stats.milliseconds, stats.frames), (2000, 120));
}

#[test]
fn seek_plans() {
    assert_eq!(replay_seek_plan(10, 0), None);
    assert_eq!(replay_seek_plan(0, 5), Some((0, 0)));
    assert_eq!(replay_seek_plan(10, 100), Some((9, 9)));
    assert_eq!(replay_seek_plan(500, 100), Some((499, 99)));
}

#[test]
fn requested_frames() {
    assert_eq!(requested_replay_frame(7, 100, 50), Some(7));
    assert_eq!(requested_replay_frame(u32::MAX, 0, 50), None);
    assert_eq!(requested_replay_frame(u32::MAX, -60, 50), Some(0));
    assert_eq!(requested_replay_frame(u32::MAX, 5, 50), Some(55));
    assert_eq!(requested_replay_frame(u32::MAX, 1, u64::MAX), Some(u64::MAX));
}

#[test]
fn console_mismatch_descriptions() {
    assert_eq!(
        describe_console_mismatch(ReplayConsoleType::GameBoy, None),
        "Console types don't match! (replay: GameBoy, rom: None)"
    );
    assert_eq!(
        describe_console_mismatch(ReplayConsoleType::SuperGameBoy2, Some(ReplayConsoleType::GameBoyColor)),
        format!("Console types don't match! (replay: {:?}, rom: {:?})", ReplayConsoleType::SuperGameBoy2, Some(ReplayConsoleType::GameBoyColor))
    );
}

#[test]
fn replay_metadata_checks() {
    let a = [1u8; 32];
    let b = [2u8; 32];
    let core = String::from("mgba");
    assert!(check_replay_metadata(ReplayConsoleType::GameBoyAdvance, &a, &a, &core, Some(ReplayConsoleType::GameBoyAdvance), &a, &a, "mgba", false).is_ok());
    match check_replay_metadata(ReplayConsoleType::GameBoyAdvance, &a, &a, &core, Some(ReplayConsoleType::NintendoDS), &a, &a, "mgba", true) {
        Err(ReplayPlayerAttachError::Incompatible { description }) => {
            assert_eq!(description, "Console types don't match! (replay: GameBoyAdvance, rom: Some(NintendoDS))")
        }
        _ => panic!("expected an incompatible replay"),
    }
    match check_replay_metadata(ReplayConsoleType::GameBoyAdvance, &a, &b, &core, Some(ReplayConsoleType::GameBoyAdvance), &b, &a, "melonds", false) {
        Err(ReplayPlayerAttachError::MismatchedMetadata { issues }) => {
            assert_eq!(issues.len(), 3);
            assert!(matches!(issues[0], ReplayPlayerMetadataMismatchKind::ROMChecksumMismatch { .. }));
            assert!(matches!(issues[1], ReplayPlayerMetadataMismatchKind::BIOSChecksumMismatch { .. }));
            assert!(matches!(issues[2], ReplayPlayerMetadataMismatchKind::CoreMismatch { .. }));
        }
        _ => panic!("expected mismatches"),
    }
    assert!(check_replay_metadata(ReplayConsoleType::GameBoyAdvance, &a, &b, &core, Some(ReplayConsoleType::GameBoyAdvance), &b, &a, "melonds", true).is_ok());
}

#[test]
fn recording_starts_its_timer_at_zero() {
    let mut core = CoreState::new(0);
    core.do_frame_timekeeping(3);
    core.record_frame_time(400);
    core.replay_attached(100);
    core.begin_recording(1000, 30);
    assert!(core.is_recording() && !core.is_playing_back());
    assert_eq!(core.get_recording_milliseconds().0, 0);
    assert_eq!(core.total_frames(), 0);
    assert_eq!(core.replay_counters().unwrap().get(&String::from("x")), None);
    let (time, keyframe) = core.end_frame(1, 1016);
    assert_eq!(time, Some(TimestampMillis(16)));
    assert_eq!(keyframe, None);
}

#[test]
fn a_frame_takes_input_and_writes_then_keeps_time() {
    let mut core = CoreState::new(0);
    core.begin_recording(0, 2);
    core.enqueue_input(a_pressed());
    assert_eq!(core.enqueue_write(1, ByteVec::from_slice(&[5])).len(), 1);
    let (input, writes) = core.begin_frame();
    assert_eq!(input, Some(a_pressed()));
    assert!(writes.is_empty());
    assert_eq!(core.end_frame(1, 20), (Some(TimestampMillis(20)), None));
    let (_, writes) = core.begin_frame();
    assert!(writes.is_empty());
    // The second frame makes a keyframe due.
    assert_eq!(core.end_frame(1, 35), (Some(TimestampMillis(35)), Some(TimestampMillis(35))));
    // In the middle of a frame nothing is timed.
    assert_eq!(core.end_frame(0, 50), (None, None));
    assert_eq!(core.begin_frame().0, None);
}

#[test]
fn paused_time_is_not_counted() {
    let mut core = CoreState::new(100);
    core.end_frame(1, 300);
    assert_eq!(core.get_recording_milliseconds().0, 200);
    core.pause_timer();
    core.unpause_timer(1000);
    core.end_frame(1, 1050);
    // 200 ms before the pause, 50 after it.
    assert_eq!(core.get_recording_milliseconds().0, 250);
}

#[test]
fn writes_wait_while_playing_back() {
    let mut core = CoreState::new(0);
    core.replay_attached(0);
    assert!(core.enqueue_write(1, ByteVec::from_slice(&[5])).is_empty());
    assert!(core.begin_frame().1.is_empty());
}
