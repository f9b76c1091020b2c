use supershuckie::frontend::{
    incompatible_replay_message, mismatched_replay_message, plan_external_command, replay_needs_new_core,
    ExternalCommandKind, ExternalCommandPlan, ReplayFileInfo, ReplaySession,
    assert_replays_available, choose_for_game_boy, emulator_type_for_extension, emulator_type_for_replay,
    generic_file_name, named_file_name, replay_error_report, replay_error_text, replay_playback_stats, replay_state,
    rom_emulator_type, ConnectedControllers, GameBoyMode, LastReadReplayCropData, SaveStateHistory,
    SuperShuckieEmulatorType, SuperShuckieReplayState,
};
use std::path::PathBuf;
use supershuckie::packet::{ReplayConsoleType, TimestampMillis};

fn gb_rom(cgb_flag: u8) -> Vec<u8> {
    let mut rom = vec![0xFFu8; 0x150];
    rom[0x143] = cgb_flag;
    rom
}

#[test]
fn shared_config_and_names() {
    assert!(!SuperShuckieEmulatorType::GameBoy.uses_shared_config());
    assert!(SuperShuckieEmulatorType::GameBoySGB2.uses_shared_config());
    assert!(SuperShuckieEmulatorType::GameBoyColor.uses_shared_config());
    assert!(!SuperShuckieEmulatorType::GameBoyAdvance.uses_shared_config());
    assert!(!SuperShuckieEmulatorType::NintendoDS.uses_shared_config());
    assert_eq!(SuperShuckieEmulatorType::GameBoySGB2.name(), "Super Game Boy 2");
    assert_eq!(SuperShuckieEmulatorType::NintendoDS.name(), "Nintendo DS");
}

#[test]
fn game_boy_system_choice() {
    assert_eq!(choose_for_game_boy(false, GameBoyMode::AlwaysGBC, &gb_rom(0)), SuperShuckieEmulatorType::GameBoyColor);
    assert_eq!(choose_for_game_boy(true, GameBoyMode::AlwaysGB, &gb_rom(0x80)), SuperShuckieEmulatorType::GameBoySGB2);
    assert_eq!(choose_for_game_boy(false, GameBoyMode::GBInGBMode, &gb_rom(0)), SuperShuckieEmulatorType::GameBoy);
    assert_eq!(choose_for_game_boy(false, GameBoyMode::GBInGBMode, &gb_rom(0x80)), SuperShuckieEmulatorType::GameBoyColor);
    // Too short to hold the flag: Game Boy Color.
    assert_eq!(choose_for_game_boy(true, GameBoyMode::GBInGBMode, &[0u8; 4]), SuperShuckieEmulatorType::GameBoyColor);
}

#[test]
fn rom_types_by_extension() {
    assert_eq!(rom_emulator_type("GBA", false, GameBoyMode::AlwaysGBC, &[]), Ok(SuperShuckieEmulatorType::GameBoyAdvance));
    assert_eq!(rom_emulator_type("Nds", false, GameBoyMode::AlwaysGBC, &[]), Ok(SuperShuckieEmulatorType::NintendoDS));
    assert_eq!(rom_emulator_type("GB", true, GameBoyMode::GBInGBMode, &gb_rom(0)), Ok(SuperShuckieEmulatorType::GameBoySGB2));
    assert_eq!(rom_emulator_type("gbc", false, GameBoyMode::AlwaysGBC, &gb_rom(0)), Ok(SuperShuckieEmulatorType::GameBoyColor));
    assert_eq!(
        rom_emulator_type("ZIP", false, GameBoyMode::AlwaysGBC, &[]),
        Err(String::from("Unknown or unsupported ROM file type .zip"))
    );
    assert_eq!(
        emulator_type_for_extension("GBA", false, GameBoyMode::AlwaysGBC, &[]),
        Err(String::from("Unknown or unsupported ROM file type .GBA"))
    );
}

#[test]
fn replay_availability() {
    assert_eq!(assert_replays_available(None, false), Err(String::from("No ROM loaded")));
    assert_eq!(
        assert_replays_available(Some(SuperShuckieEmulatorType::NintendoDS), true),
        Err(String::from("Replays are disabled for Nintendo DS (JIT enabled)"))
    );
    assert_eq!(assert_replays_available(Some(SuperShuckieEmulatorType::NintendoDS), false), Ok(()));
    assert_eq!(assert_replays_available(Some(SuperShuckieEmulatorType::GameBoy), true), Ok(()));
}

#[test]
fn replay_systems() {
    let current = SuperShuckieEmulatorType::GameBoyAdvance;
    assert_eq!(emulator_type_for_replay(ReplayConsoleType::GameBoy, current), SuperShuckieEmulatorType::GameBoy);
    assert_eq!(emulator_type_for_replay(ReplayConsoleType::SuperGameBoy2, current), SuperShuckieEmulatorType::GameBoySGB2);
    assert_eq!(emulator_type_for_replay(ReplayConsoleType::GameBoyColor, current), SuperShuckieEmulatorType::GameBoyColor);
    assert_eq!(emulator_type_for_replay(ReplayConsoleType::NintendoDS, current), current);
}

#[test]
fn replay_state_and_stats() {
    assert_eq!(replay_state(true, true), SuperShuckieReplayState::Playback);
    assert_eq!(replay_state(false, true), SuperShuckieReplayState::Recording);
    assert_eq!(replay_state(false, false), SuperShuckieReplayState::NoReplay);
    assert!(replay_playback_stats(false, 1, 2).is_none());
    let t = replay_playback_stats(true, (1u64 << 32) + 5, 7).unwrap();
    assert_eq!((t.total_frames, t.total_milliseconds), (5, 7));
}

#[test]
fn save_state_undo_and_redo() {
    let mut h = SaveStateHistory::new();
    assert!(!h.can_undo());
    h.push(vec![1], 10);
    h.push(vec![2], 10);
    assert!(h.can_undo());
    assert!(!h.can_redo());
    // Undo loads the last pushed state and keeps the current one for redo.
    assert_eq!(h.undo(vec![3]), vec![2]);
    assert!(h.can_redo());
    assert_eq!(h.redo(vec![4]), vec![3]);
    assert!(!h.can_redo());
    assert_eq!(h.undo(vec![5]), vec![4]);
    assert_eq!(h.undo(vec![6]), vec![1]);
    assert!(!h.can_undo());
    h.reset();
    assert!(!h.can_undo() && !h.can_redo());
}

#[test]
fn save_state_history_is_bounded_and_drops_redo() {
    let mut h = SaveStateHistory::new();
    h.push(vec![1], 2);
    h.push(vec![2], 2);
    h.push(vec![3], 2);
    assert_eq!(h.undo(vec![9]), vec![3]);
    assert_eq!(h.undo(vec![8]), vec![2]);
    assert!(!h.can_undo());
    // Pushing drops what could be redone.
    h.push(vec![7], 2);
    assert!(!h.can_redo());
    assert_eq!(h.undo(vec![0]), vec![7]);
}

#[test]
fn controllers_take_the_lowest_free_index() {
    let mut c = ConnectedControllers::new();
    assert_eq!(c.connect("pad a"), 0);
    assert_eq!(c.connect("pad b"), 1);
    c.disconnect(0);
    assert_eq!(c.name_of(0), None);
    assert_eq!(c.connect("pad c"), 0);
    assert_eq!(c.name_of(1).map(|s| s.as_str()), Some("pad b"));
    assert_eq!(c.names(), vec![String::from("pad c"), String::from("pad b")]);
}

#[test]
fn replay_timer_is_clamped_between_the_marks() {
    let mut crop = LastReadReplayCropData::new();
    assert!(crop.timer(100).time_current.is_none());
    crop.start = Some((10, TimestampMillis(1000)));
    assert_eq!(crop.timer(1500).time_current, Some(1500));
    assert_eq!(crop.timer(500).time_current, Some(1000));
    crop.end = Some((20, TimestampMillis(1200)));
    assert_eq!(crop.timer(1500).time_current, Some(1200));
    crop.timer_offset = Some(TimestampMillis(50));
    let t = crop.timer(1100);
    assert_eq!(t.time_current, Some(1150));
    assert_eq!((t.time_start, t.time_end, t.time_offset), (Some(1000), Some(1200), Some(50)));
}

#[test]
fn file_names() {
    assert_eq!(named_file_name("boss", "replay"), "boss.replay");
    assert_eq!(generic_file_name("save", 0, "save_state"), "save-0.save_state");
    assert_eq!(generic_file_name("temp", 1234567, "replay"), "temp-1234567.replay");
    assert_eq!(generic_file_name("x", u64::MAX, "y"), "x-18446744073709551615.y");
}

#[test]
fn replay_error_reports() {
    let errors = vec![String::from("a"), String::from("b")];
    assert_eq!(replay_error_text(&errors, None), "- REPLAY ERROR: a\n- REPLAY ERROR: b\n");
    assert_eq!(replay_error_report(&errors, None), "- REPLAY ERROR: a\n- REPLAY ERROR: b");
    let many: Vec<String> = (0..5).map(|i| format!("e{i}")).collect();
    assert_eq!(
        replay_error_report(&many, Some("run-0.replay.temp")),
        "- REPLAY ERROR: e0\n- REPLAY ERROR: e1\n- REPLAY ERROR: e2\n...and 2 more replay error(s)\n\n\nYour recording was stopped. The temp file (run-0.replay.temp) was not deleted."
    );
}

#[test]
fn marks_fill_the_crop_data() {
    let started = LastReadReplayCropData::marked_start(None, (5, TimestampMillis(80)), TimestampMillis(1000));
    assert_eq!(started.start, Some((5, TimestampMillis(80))));
    assert_eq!(started.timer_offset, Some(TimestampMillis(1000)));
    assert_eq!(started.end, None);
    let ended = LastReadReplayCropData::marked_end(Some(started), (9, TimestampMillis(150)));
    assert_eq!(ended.start, Some((5, TimestampMillis(80))));
    assert_eq!(ended.end, Some((9, TimestampMillis(150))));
    let restarted = LastReadReplayCropData::marked_start(Some(ended), (10, TimestampMillis(160)), TimestampMillis(0));
    assert_eq!(restarted.end, Some((9, TimestampMillis(150))));
    let t = restarted.timer(200);
    assert_eq!(t.time_current, Some(150));
}

#[test]
fn external_command_plans() {
    let recording = SuperShuckieReplayState::Recording;
    let playback = SuperShuckieReplayState::Playback;
    assert_eq!(
        plan_external_command(ExternalCommandKind::IncrementCounter, recording, true),
        ExternalCommandPlan { carry_out: true, reply: Some(true), forget_stats: true }
    );
    assert_eq!(
        plan_external_command(ExternalCommandKind::IncrementCounter, playback, true),
        ExternalCommandPlan { carry_out: true, reply: Some(false), forget_stats: true }
    );
    assert_eq!(
        plan_external_command(ExternalCommandKind::GoToFrame, recording, true),
        ExternalCommandPlan { carry_out: false, reply: Some(false), forget_stats: false }
    );
    assert_eq!(
        plan_external_command(ExternalCommandKind::GoToFrame, playback, true),
        ExternalCommandPlan { carry_out: true, reply: Some(true), forget_stats: false }
    );
    assert_eq!(
        plan_external_command(ExternalCommandKind::SetPlaybackSpeed, playback, false),
        ExternalCommandPlan { carry_out: false, reply: Some(false), forget_stats: false }
    );
    assert_eq!(
        plan_external_command(ExternalCommandKind::MarkStart, recording, true),
        ExternalCommandPlan { carry_out: true, reply: None, forget_stats: true }
    );
    assert_eq!(
        plan_external_command(ExternalCommandKind::SetPaused, SuperShuckieReplayState::NoReplay, false),
        ExternalCommandPlan { carry_out: true, reply: Some(true), forget_stats: true }
    );
}

#[test]
fn replay_loading_messages() {
    assert!(replay_needs_new_core(SuperShuckieEmulatorType::GameBoy, SuperShuckieEmulatorType::GameBoyColor, false));
    assert!(replay_needs_new_core(SuperShuckieEmulatorType::GameBoy, SuperShuckieEmulatorType::GameBoy, true));
    assert!(!replay_needs_new_core(SuperShuckieEmulatorType::GameBoy, SuperShuckieEmulatorType::GameBoy, false));
    assert_eq!(incompatible_replay_message("x"), "This replay file is incompatible:\n\nx");
    assert_eq!(
        mismatched_replay_message(&vec![String::from("a"), String::from("b")]),
        "This replay file has mismatched data which may prevent playback:\n\na\n\nb"
    );
}

#[test]
fn replay_session_bookkeeping() {
    let mut session = ReplaySession::new();
    assert!(!session.stop_replay_playback(10));
    assert!(!session.can_continue_last_replay());
    session.replay_loaded(String::from("run"), LastReadReplayCropData::new());
    assert!(session.last_read_replay_stats.is_some());
    assert!(session.stop_replay_playback(42));
    assert!(session.current_replay.is_none());
    assert!(session.last_read_replay_stats.is_none());
    assert!(session.can_continue_last_replay());
    assert_eq!(session.take_last_replay(), Some((String::from("run"), 42)));
    assert!(!session.can_continue_last_replay());

    assert!(session.stop_recording_replay(0).is_none());
    session.recording_started(ReplayFileInfo {
        final_replay_name: String::from("run-1.replay"),
        final_replay_path: PathBuf::from("/r/run-1.replay"),
        temp_replay_path: PathBuf::from("/r/temp-1.replay"),
    });
    assert_eq!(session.replay_state(false), SuperShuckieReplayState::Recording);
    assert_eq!(session.replay_state(true), SuperShuckieReplayState::Playback);
    let cleanup = session.stop_recording_replay(0).unwrap();
    assert_eq!(cleanup.temp_replay_path, PathBuf::from("/r/temp-1.replay"));
    assert_eq!(cleanup.final_replay_path, Some(PathBuf::from("/r/run-1.replay")));
    assert_eq!(session.replay_state(false), SuperShuckieReplayState::NoReplay);
    session.recording_started(ReplayFileInfo {
        final_replay_name: String::from("b"),
        final_replay_path: PathBuf::from("b"),
        temp_replay_path: PathBuf::from("t"),
    });
    assert_eq!(session.stop_recording_replay(5).unwrap().final_replay_path, None);
}

#[test]
fn replay_timer_between_marks_shows_elapsed_time() {
    let mut crop = LastReadReplayCropData::new();
    crop.start = Some((0, TimestampMillis(500)));
    crop.end = Some((0, TimestampMillis(2000)));
    assert_eq!(crop.timer(1000).time_current, Some(1000));
    assert_eq!(crop.timer(3000).time_current, Some(2000));
    assert_eq!(crop.timer(100).time_current, Some(500));
}

#[test]
fn recent_roms_put_the_loaded_one_first() {
    let mut recent = vec![String::from("/a.gb"), String::from("/b.gba"), String::from("/a.gb"), String::from("/c.nds")];
    supershuckie::frontend::remember_recent_rom(&mut recent, String::from("/a.gb"));
    assert_eq!(recent, vec!["/a.gb", "/b.gba", "/c.nds"]);
    supershuckie::frontend::remember_recent_rom(&mut recent, String::from("/d.gb"));
    assert_eq!(recent, vec!["/d.gb", "/a.gb", "/b.gba", "/c.nds"]);
    let mut empty = Vec::new();
    supershuckie::frontend::remember_recent_rom(&mut empty, String::from("/x"));
    assert_eq!(empty, vec!["/x"]);
}
