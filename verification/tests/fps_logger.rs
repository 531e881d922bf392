use stopwatch::fps_logger::{FpsLogger, FpsReport, TICKS_PER_CENTIMILLI, TICKS_PER_SECOND};

#[test]
fn a_tick_is_a_microsecond() {
    assert_eq!(TICKS_PER_SECOND, 1_000_000);
    assert_eq!(TICKS_PER_CENTIMILLI * 100_000, TICKS_PER_SECOND);
}

#[test]
fn new_logger_has_seen_no_frame() {
    let logger = FpsLogger::new(TICKS_PER_SECOND, 5_000);
    assert_eq!(logger.last_fps(), 0);
    assert_eq!(logger.frames(), 0);
    assert_eq!(logger.total_frames(), 0);
    assert_eq!(logger.next_log_time(), TICKS_PER_SECOND);
}

#[test]
fn sixty_frames_in_one_second_report_sixty() {
    let mut logger = FpsLogger::new(TICKS_PER_SECOND, 0);
    let mut reports: Vec<FpsReport> = Vec::new();
    for frame in 1..=60u64 {
        let now = if frame == 60 { TICKS_PER_SECOND } else { frame * TICKS_PER_SECOND / 60 };
        if let Some(report) = logger.update(now) {
            assert_eq!(frame, 60);
            reports.push(report);
        }
    }
    assert_eq!(reports.len(), 1);
    assert_eq!(reports[0].fps, 60);
    assert_eq!(reports[0].average_fps, 60);
    assert_eq!(reports[0].frame_time, 1_667);
    assert_eq!(reports[0].message(), "FPS: 60; ms/frame: 16.67; average FPS: 60");
    assert_eq!(logger.last_fps(), 60);
    assert_eq!(logger.frames(), 0);
    assert_eq!(logger.total_frames(), 60);
    assert_eq!(logger.next_log_time(), 2 * TICKS_PER_SECOND);
}

#[test]
fn no_report_before_the_interval_has_passed() {
    let mut logger = FpsLogger::new(TICKS_PER_SECOND, 0);
    for frame in 1..=59u64 {
        let now = frame * TICKS_PER_SECOND / 60;
        assert!(now < TICKS_PER_SECOND);
        assert_eq!(logger.update(now), None);
    }
    assert_eq!(logger.last_fps(), 0);
    assert_eq!(logger.frames(), 59);
    assert_eq!(logger.total_frames(), 59);
    assert_eq!(logger.next_log_time(), TICKS_PER_SECOND);
}

#[test]
fn late_frame_gives_one_report_and_one_interval() {
    let mut logger = FpsLogger::new(TICKS_PER_SECOND, 0);
    assert_eq!(logger.update(900_000), None);
    let report = logger.update(1_200_000).unwrap();
    assert_eq!(report.fps, 1);
    assert_eq!(report.average_fps, 1);
    assert_eq!(report.frame_time, 60_000);
    assert_eq!(logger.next_log_time(), 2 * TICKS_PER_SECOND);
    assert_eq!(logger.last_fps(), 1);
    assert_eq!(logger.update(1_200_000), None);
    assert_eq!(logger.update(1_999_999), None);
    assert!(logger.update(2_000_000).is_some());
    assert_eq!(logger.next_log_time(), 3 * TICKS_PER_SECOND);
}

#[test]
fn clock_origin_does_not_matter() {
    let mut logger = FpsLogger::new(500_000, 7_000_000);
    assert_eq!(logger.update(7_250_000), None);
    let report = logger.update(7_500_000).unwrap();
    assert_eq!(report.fps, 4);
    assert_eq!(report.average_fps, 4);
    assert_eq!(report.frame_time, 25_000);
}

#[test]
fn second_report_counts_from_the_first() {
    let mut logger = FpsLogger::new(TICKS_PER_SECOND, 0);
    for frame in 1..=10u64 {
        logger.update(frame * 100_000);
    }
    assert_eq!(logger.last_fps(), 10);
    let mut last = None;
    for frame in 1..=30u64 {
        let report = logger.update(TICKS_PER_SECOND + frame * 33_334);
        if frame < 30 {
            assert_eq!(report, None);
        }
        last = report;
    }
    let report = last.unwrap();
    assert_eq!(report.fps, 29);
    assert_eq!(report.average_fps, 19);
    assert_eq!(report.frame_time, 3_333);
    assert_eq!(report.message(), "FPS: 29; ms/frame: 33.33; average FPS: 19");
    assert_eq!(logger.last_fps(), 29);
    assert_eq!(logger.total_frames(), 40);
    assert_eq!(logger.next_log_time(), 3 * TICKS_PER_SECOND);
}

#[test]
fn overdue_reports_follow_one_per_frame() {
    let mut logger = FpsLogger::new(TICKS_PER_SECOND, 0);
    assert!(logger.update(5_000_000).is_some());
    assert_eq!(logger.next_log_time(), 2 * TICKS_PER_SECOND);
    let report = logger.update(5_020_000).unwrap();
    assert_eq!(report.fps, 50);
    assert_eq!(report.frame_time, 2_000);
    assert_eq!(report.average_fps, 0);
    assert_eq!(logger.next_log_time(), 3 * TICKS_PER_SECOND);
}

#[test]
fn no_report_while_the_clock_stands_still() {
    let mut logger = FpsLogger::new(TICKS_PER_SECOND, 0);
    assert!(logger.update(5_000_000).is_some());
    assert_eq!(logger.update(5_000_000), None);
    assert_eq!(logger.update(5_000_000), None);
    assert_eq!(logger.frames(), 2);
    assert_eq!(logger.last_fps(), 0);
    let report = logger.update(5_000_001).unwrap();
    assert_eq!(report.fps, 3_000_000);
    assert_eq!(logger.frames(), 0);
}

#[test]
fn no_report_when_the_clock_runs_backwards() {
    let mut logger = FpsLogger::new(TICKS_PER_SECOND, 10_000_000);
    assert!(logger.update(13_000_000).is_some());
    assert_eq!(logger.update(12_500_000), None);
    assert_eq!(logger.update(0), None);
    assert_eq!(logger.frames(), 2);
    assert_eq!(logger.total_frames(), 3);
}

#[test]
fn zero_interval_reports_whenever_time_has_passed() {
    let mut logger = FpsLogger::new(0, 100);
    assert_eq!(logger.update(100), None);
    let report = logger.update(101).unwrap();
    assert_eq!(report.fps, 2_000_000);
    assert_eq!(report.frame_time, 0);
    assert_eq!(logger.update(101), None);
    assert!(logger.update(102).is_some());
    assert_eq!(logger.next_log_time(), 0);
}

#[test]
fn last_fps_keeps_the_low_32_bits() {
    let mut logger = FpsLogger::new(0, 0);
    for _ in 0..2_147 {
        logger.update(0);
    }
    let report = logger.update(1).unwrap();
    assert_eq!(report.fps, 2_148_000_000);
    assert_eq!(logger.last_fps(), -2_146_967_296);
}

#[test]
fn next_log_time_stops_at_the_largest_value() {
    let mut logger = FpsLogger::new(u64::MAX - 1, 0);
    assert_eq!(logger.update(u64::MAX - 1), None);
    let mut logger = FpsLogger::new(1 << 62, 0);
    assert!(logger.update(1 << 62).is_some());
    assert_eq!(logger.next_log_time(), 1 << 63);
    assert!(logger.update(u64::MAX).is_none());
    let mut logger = FpsLogger::new(i64::MAX as u64, 0);
    assert!(logger.update(i64::MAX as u64).is_some());
    assert_eq!(logger.next_log_time(), u64::MAX - 1);
    let mut logger = FpsLogger::new(0, 0);
    assert!(logger.update(1).is_some());
    assert_eq!(logger.next_log_time(), 0);
}

#[test]
fn message_follows_the_template() {
    let report = FpsReport { fps: 0, frame_time: 5, average_fps: 7 };
    assert_eq!(report.message(), "FPS: 0; ms/frame: 0.05; average FPS: 7");
    let report = FpsReport { fps: 144, frame_time: 694, average_fps: 120 };
    assert_eq!(report.message(), "FPS: 144; ms/frame: 6.94; average FPS: 120");
    let report = FpsReport { fps: 1, frame_time: 100_000, average_fps: 1 };
    assert_eq!(report.message(), "FPS: 1; ms/frame: 1000.00; average FPS: 1");
    let report = FpsReport { fps: -3, frame_time: 1_230, average_fps: i64::MIN };
    assert_eq!(
        report.message(),
        "FPS: -3; ms/frame: 12.30; average FPS: -9223372036854775808"
    );
    let report = FpsReport { fps: i64::MAX, frame_time: u64::MAX, average_fps: 10 };
    assert_eq!(
        report.message(),
        "FPS: 9223372036854775807; ms/frame: 184467440737095516.15; average FPS: 10"
    );
}

#[test]
fn frame_time_rounds_to_the_nearest_hundredth() {
    let mut logger = FpsLogger::new(0, 0);
    assert_eq!(logger.update(14).unwrap().frame_time, 1);
    let mut logger = FpsLogger::new(0, 0);
    assert_eq!(logger.update(15).unwrap().frame_time, 2);
    let mut logger = FpsLogger::new(0, 0);
    assert_eq!(logger.update(4).unwrap().frame_time, 0);
    let mut logger = FpsLogger::new(0, 0);
    assert_eq!(logger.update(5).unwrap().frame_time, 1);
    let mut logger = FpsLogger::new(0, 0);
    logger.update(0);
    logger.update(0);
    assert_eq!(logger.update(100).unwrap().frame_time, 3);
}
