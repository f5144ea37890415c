use snowflake_id::clock::millis_41bits;
use snowflake_id::clock::truncate_millis;
use snowflake_id::codec::machine_field;
use snowflake_id::codec::millis_field;
use snowflake_id::codec::sequence_field;
use snowflake_id::generator::Generator;
use snowflake_id::generator::Maintenance;
use snowflake_id::generator::INACTIVITY_TICKS;

#[test]
fn two_calls_same_millisecond() {
    // Machine id 5; two sequential draws inside one millisecond bucket.
    let mut g = Generator::new();
    let (id0, started) = g.next_id(5, 777);
    assert!(started);
    let (id1, started_again) = g.next_id(5, 777);
    assert!(!started_again);
    assert_eq!(id0 & 0xFFF, 0);
    assert_eq!(id1 & 0xFFF, 1);
    assert_eq!((id0 >> 12) & 0x3FF, 5);
    assert_eq!((id1 >> 12) & 0x3FF, 5);
    assert_eq!(millis_field(id0), 777);
    assert_eq!(millis_field(id1), 777);
}

#[test]
fn bucket_advance_resets_sequence() {
    // One draw, then the clock passes the bucket boundary before the next.
    let mut g = Generator::new();
    let (first, _) = g.next_id(3, 1000);
    let mut task = Maintenance::new();
    let exit = task.tick(&mut g, 1001);
    assert!(!exit);
    let (second, started) = g.next_id(3, 1001);
    assert!(!started);
    assert!(millis_field(second) > millis_field(first));
    assert_eq!(sequence_field(second), 0);
    assert!(second > first);
}

#[test]
fn draw_counts_as_activity() {
    let mut g = Generator::new();
    let _ = g.next_id(0, 50);
    let mut task = Maintenance::new();
    // The bucket does not advance and a sequence number was drawn: the
    // inactivity count stays at zero.
    assert!(!task.tick(&mut g, 50));
    assert_eq!(task.inactivity, 0);
    // After the bucket advances the counter reads 0 again, and quiet
    // ticks start accumulating.
    assert!(!task.tick(&mut g, 51));
    assert!(!task.tick(&mut g, 51));
    assert_eq!(task.inactivity, 1);
}

#[test]
fn idle_task_retires_and_cold_restart_succeeds() {
    let mut g = Generator::new();
    let (_, started) = g.next_id(9, 2000);
    assert!(started);
    let mut task = Maintenance::new();
    // Advance past the bucket once so the counter reads 0.
    assert!(!task.tick(&mut g, 2001));
    // From then on the clock stands still and nobody draws: the task
    // retires after exactly the configured number of quiet ticks.
    let mut quiet_ticks = 0u32;
    loop {
        let exit = task.tick(&mut g, 2001);
        quiet_ticks += 1;
        if exit {
            break;
        }
        assert!(quiet_ticks < INACTIVITY_TICKS);
    }
    assert_eq!(quiet_ticks, INACTIVITY_TICKS);
    assert_eq!(g.count, -1);
    // The next request cold-starts: a fresh timestamp, sequence 0, and a
    // new task is demanded.
    let (id, restarted) = g.next_id(9, 3000);
    assert!(restarted);
    assert_eq!(sequence_field(id), 0);
    assert_eq!(millis_field(id), 3000);
    assert_eq!(machine_field(id), 9);
    assert!(g.count >= 0);
}

#[test]
fn retirement_waits_for_quiet_counter() {
    let mut g = Generator::new();
    let _ = g.next_id(0, 10);
    let mut task = Maintenance::new();
    assert!(!task.tick(&mut g, 11));
    // Bring the task to the brink of retirement.
    for _ in 0..INACTIVITY_TICKS - 1 {
        assert!(!task.tick(&mut g, 11));
    }
    assert_eq!(task.inactivity, INACTIVITY_TICKS - 1);
    // A request lands just before the deciding tick: the counter is no
    // longer 0, so the tick counts it as activity instead of retiring.
    let _ = g.next_id(0, 11);
    assert!(!task.tick(&mut g, 11));
    assert_eq!(task.inactivity, 0);
    assert!(g.count >= 0);
}

#[test]
fn clock_sample_fits_timestamp_field() {
    let sample = millis_41bits();
    assert!(sample < 0x200_0000_0000);
}

#[test]
fn truncation_keeps_low_41_bits() {
    assert_eq!(truncate_millis(0xFFFF_FFFF_FFFF_FFFF), 0x1FF_FFFF_FFFF);
    assert_eq!(truncate_millis(0x200_0000_0001), 1);
    assert_eq!(truncate_millis(12345), 12345);
}
