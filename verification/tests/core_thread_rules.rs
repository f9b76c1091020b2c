use supershuckie::core_state::CoreState;
use supershuckie::core_thread::{ram_refresh, thread_step, FreezeTable, RamCommand, RamRefresh, ThreadRunState, ThreadStep};
use supershuckie::packet::{ByteVec, Speed};

#[test]
fn freezes_are_written_again_by_address() {
    let mut t = FreezeTable::new();
    let w = t.apply(RamCommand::Write { address: 0x10, data: ByteVec::from_slice(&[1]) }).unwrap();
    assert_eq!((w.address, w.data.as_slice()), (0x10, &[1u8][..]));
    assert!(t.freeze_writes().is_empty());
    let w = t.apply(RamCommand::Freeze { address: 0x1_0000_0020, data: ByteVec::from_slice(&[2, 3]) }).unwrap();
    assert_eq!(w.address, 0x20);
    t.apply(RamCommand::Freeze { address: 0x5, data: ByteVec::from_slice(&[4]) });
    let writes = t.freeze_writes();
    assert_eq!(writes.len(), 2);
    assert_eq!(writes[0].address, 0x5);
    assert_eq!(writes[0].data.as_slice(), &[4]);
    assert_eq!(writes[1].address, 0x20);
    assert!(t.apply(RamCommand::Unfreeze { address: 0x5 }).is_none());
    assert_eq!(t.freeze_writes().len(), 1);
    assert!(t.apply(RamCommand::Reset).is_none());
    assert!(t.freeze_writes().is_empty());
}

#[test]
fn ram_refresh_decisions() {
    assert_eq!(ram_refresh(true, true, false, None, 0), RamRefresh { apply_freezes: false, read_ram: false });
    assert_eq!(ram_refresh(true, false, false, None, 0), RamRefresh { apply_freezes: false, read_ram: true });
    assert_eq!(ram_refresh(false, true, false, Some(2), 3), RamRefresh { apply_freezes: true, read_ram: true });
    assert_eq!(ram_refresh(false, true, false, Some(2), 4), RamRefresh { apply_freezes: true, read_ram: false });
    assert_eq!(ram_refresh(false, true, true, Some(2), 4), RamRefresh { apply_freezes: true, read_ram: true });
    assert_eq!(ram_refresh(false, false, false, Some(2), 4), RamRefresh { apply_freezes: false, read_ram: true });
}

#[test]
fn thread_steps() {
    assert_eq!(thread_step(true, false, false), ThreadStep::Run);
    assert_eq!(thread_step(true, true, true), ThreadStep::Spin);
    assert_eq!(thread_step(false, false, false), ThreadStep::Sleep(100));
    assert_eq!(thread_step(false, false, true), ThreadStep::Sleep(10));
}

#[test]
fn start_and_pause_move_the_timer() {
    let mut core = CoreState::new(1000);
    let mut run = ThreadRunState::new();
    run.start(&mut core, 1000);
    assert!(run.running);
    core.record_frame_time(1300);
    run.pause(&mut core);
    assert!(!run.running && core.is_timer_paused());
    // Pausing again changes nothing.
    run.pause(&mut core);
    run.start(&mut core, 5000);
    assert!(!core.is_timer_paused());
    assert_eq!(core.record_frame_time(5100).0, 400);
    run.set_playback_frozen(true);
    assert!(run.playback_frozen && run.running);
    run.after_replay_started(&mut core);
    assert!(!core.is_timer_paused());
}

#[test]
fn zero_speed_becomes_the_smallest() {
    assert_eq!(Speed::from_speed_over_256(0), Speed { speed_over_256: 1 });
    assert_eq!(Speed::from_speed_over_256(384), Speed { speed_over_256: 384 });
    assert_eq!(Speed::default(), Speed { speed_over_256: 256 });
}

#[test]
fn byte_buffers_hold_their_bytes() {
    let long: Vec<u8> = (0..40).collect();
    assert_eq!(ByteVec::from_vec(long.clone()).as_slice(), long.as_slice());
    assert_eq!(ByteVec::from_slice(&[1, 2]).clone().as_slice(), &[1, 2]);
    assert!(ByteVec::new().as_slice().is_empty());
}

#[test]
fn starting_twice_is_starting_once() {
    let mut core = CoreState::new(0);
    let mut run = ThreadRunState::new();
    core.pause_timer();
    run.start(&mut core, 100);
    assert!(!core.is_timer_paused());
    run.start(&mut core, 900);
    // The second start does not move the timer: 50 ms after the first start.
    assert_eq!(core.record_frame_time(150).0, 50);
}

#[test]
fn clock_readings_never_go_backwards() {
    use_clock();
}

fn use_clock() {
    let mut p = supershuckie::clock::StdTimestampProvider::new();
    let a = supershuckie::clock::MonotonicTimestampProvider::get_timestamp_microseconds(&mut p);
    let m = supershuckie::clock::MonotonicTimestampProvider::get_timestamp_milliseconds(&mut p);
    let b = supershuckie::clock::MonotonicTimestampProvider::get_timestamp_microseconds(&mut p);
    assert!(a <= b);
    assert!(a / 1000 <= m && m <= b / 1000);
    let mut boxed = supershuckie::clock::std_timestamp_provider();
    let x = boxed.get_timestamp_microseconds();
    let y = boxed.get_timestamp_microseconds();
    assert!(x <= y);
}

#[test]
fn readings_are_elapsed_microseconds_kept_from_going_back() {
    use_readings();
}

fn use_readings() {
    assert_eq!(supershuckie::clock::next_reading(5, 9), 9);
    assert_eq!(supershuckie::clock::next_reading(9, 5), 9);
    assert_eq!(supershuckie::clock::next_reading(0, (1u128 << 64) + 3), 3);
    let mut p = supershuckie::clock::StdTimestampProvider::new();
    assert_eq!(p.record_reading(1500), 1500);
    assert_eq!(p.record_reading(1200), 1500);
    assert_eq!(p.record_reading(2000), 2000);
}
