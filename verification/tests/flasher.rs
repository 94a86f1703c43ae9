use pervie::flasher::{
    preflight, pipeline_result, sync_outcome, DeviceWriteError, FlashError, FlashProgress,
    IoFailure, ProgressTracker, StopReason, WriteBuffer, WriterOutcome, CHANNEL_BOUND,
    INAPPROPRIATE_IOCTL, WRITE_BUFFER_SIZE,
};
use std::sync::mpsc::{sync_channel, TrySendError};

fn pattern(len: usize, salt: u8) -> Vec<u8> {
    (0..len).map(|i| (i % 251) as u8 ^ salt).collect()
}

fn run_stream(chunks: &[Vec<u8>]) -> Vec<Vec<u8>> {
    let mut buffer = WriteBuffer::new();
    let mut writes = Vec::new();
    for chunk in chunks {
        for block in buffer.push_chunk(chunk) {
            writes.push(block);
        }
    }
    if let Some(last) = buffer.finish() {
        writes.push(last);
    }
    writes
}

#[test]
fn write_buffer_holds_back_less_than_a_block() {
    let mut buffer = WriteBuffer::new();
    assert!(buffer.push_chunk(&pattern(10, 0)).is_empty());
    assert!(buffer.push_chunk(&pattern(WRITE_BUFFER_SIZE - 11, 1)).is_empty());
    let blocks = buffer.push_chunk(&pattern(1, 2));
    assert_eq!(blocks.len(), 1);
    assert_eq!(blocks[0].len(), WRITE_BUFFER_SIZE);
    assert_eq!(buffer.finish(), None);
}

#[test]
fn write_buffer_splits_a_large_chunk_into_aligned_blocks() {
    let mut buffer = WriteBuffer::new();
    let chunk = pattern(3 * WRITE_BUFFER_SIZE + 5, 7);
    let blocks = buffer.push_chunk(&chunk);
    assert_eq!(blocks.len(), 3);
    for (i, block) in blocks.iter().enumerate() {
        assert_eq!(block[..], chunk[i * WRITE_BUFFER_SIZE..(i + 1) * WRITE_BUFFER_SIZE]);
    }
    assert_eq!(buffer.finish(), Some(chunk[3 * WRITE_BUFFER_SIZE..].to_vec()));
}

#[test]
fn write_buffer_final_block_is_what_is_left() {
    let mut buffer = WriteBuffer::new();
    assert!(buffer.push_chunk(&[1, 2, 3]).is_empty());
    assert!(buffer.push_chunk(&[]).is_empty());
    assert!(buffer.push_chunk(&[4]).is_empty());
    assert_eq!(buffer.finish(), Some(vec![1, 2, 3, 4]));
    assert_eq!(WriteBuffer::new().finish(), None);
}

#[test]
fn device_writes_are_the_stream_whatever_the_chunking() {
    let sizes: [&[usize]; 6] = [
        &[],
        &[0, 0, 0],
        &[1, WRITE_BUFFER_SIZE - 1, 1],
        &[WRITE_BUFFER_SIZE, WRITE_BUFFER_SIZE],
        &[16384, 700000, 2 * WRITE_BUFFER_SIZE + 3, 5, 0, 333333, WRITE_BUFFER_SIZE - 1],
        &[5 * WRITE_BUFFER_SIZE + 12345],
    ];
    for (case, lens) in sizes.iter().enumerate() {
        let chunks: Vec<Vec<u8>> =
            lens.iter().enumerate().map(|(i, len)| pattern(*len, (case * 16 + i) as u8)).collect();
        let writes = run_stream(&chunks);
        assert_eq!(writes.concat(), chunks.concat());
        for (i, write) in writes.iter().enumerate() {
            assert!(!write.is_empty());
            if i + 1 < writes.len() {
                assert_eq!(write.len(), WRITE_BUFFER_SIZE);
            } else {
                assert!(write.len() <= WRITE_BUFFER_SIZE);
            }
        }
    }
}

#[test]
fn hand_off_queue_admits_four_chunks() {
    assert_eq!(CHANNEL_BOUND, 4);
    let (sender, _receiver) = sync_channel::<Vec<u8>>(CHANNEL_BOUND);
    for i in 0..4u8 {
        assert!(sender.try_send(vec![i]).is_ok());
    }
    assert!(matches!(sender.try_send(vec![4]), Err(TrySendError::Full(_))));
}

#[test]
fn preflight_not_found_fails_before_anything_is_opened() {
    let outcome = preflight(404, "404 Not Found", Some("1024"));
    assert_eq!(outcome, Err(FlashError::BadStatus("404 Not Found".to_string())));
    assert_eq!(outcome.unwrap_err().message(), "Failed to access URL: 404 Not Found");
}

#[test]
fn preflight_accepts_only_statuses_of_success() {
    assert_eq!(preflight(200, "200 OK", Some("10")), Ok(10));
    assert_eq!(preflight(206, "206 Partial Content", Some("10")), Ok(10));
    assert_eq!(preflight(299, "299", Some("10")), Ok(10));
    assert!(matches!(preflight(199, "199", Some("10")), Err(FlashError::BadStatus(_))));
    assert!(matches!(preflight(300, "300", Some("10")), Err(FlashError::BadStatus(_))));
    assert!(matches!(preflight(301, "301", Some("10")), Err(FlashError::BadStatus(_))));
    assert!(matches!(preflight(500, "500", None), Err(FlashError::BadStatus(_))));
}

#[test]
fn preflight_needs_a_content_length() {
    assert_eq!(preflight(200, "200 OK", None), Err(FlashError::MissingLength));
    assert_eq!(preflight(200, "200 OK", Some("")), Err(FlashError::MissingLength));
    assert_eq!(preflight(200, "200 OK", Some("12a")), Err(FlashError::MissingLength));
    assert_eq!(preflight(200, "200 OK", Some("-1")), Err(FlashError::MissingLength));
    assert_eq!(preflight(200, "200 OK", Some(" 12")), Err(FlashError::MissingLength));
    assert_eq!(
        preflight(200, "200 OK", Some("18446744073709551616")),
        Err(FlashError::MissingLength)
    );
    assert_eq!(preflight(200, "200 OK", Some("18446744073709551615")), Ok(u64::MAX));
    assert_eq!(preflight(200, "200 OK", Some("0")), Ok(0));
    assert_eq!(preflight(200, "200 OK", Some("+7")), Ok(7));
    assert_eq!(
        FlashError::MissingLength.message(),
        "Could not retrieve content length from URL"
    );
}

#[test]
fn sync_tolerates_the_ioctl_error_of_raw_devices() {
    let failure = IoFailure {
        raw_os_error: Some(INAPPROPRIATE_IOCTL),
        detail: "Inappropriate ioctl for device (os error 25)".to_string(),
    };
    assert_eq!(INAPPROPRIATE_IOCTL, 25);
    assert_eq!(sync_outcome(true, Err(failure.clone())), Ok(()));
    assert_eq!(
        sync_outcome(false, Err(failure.clone())),
        Err(DeviceWriteError::Sync(failure.detail.clone()))
    );
    assert_eq!(sync_outcome(true, Ok(())), Ok(()));
    assert_eq!(sync_outcome(false, Ok(())), Ok(()));
}

#[test]
fn sync_reports_every_other_error() {
    let failure = IoFailure { raw_os_error: Some(5), detail: "Input/output error".to_string() };
    assert_eq!(
        sync_outcome(true, Err(failure)),
        Err(DeviceWriteError::Sync("Input/output error".to_string()))
    );
    let unknown = IoFailure { raw_os_error: None, detail: "broken".to_string() };
    assert_eq!(
        sync_outcome(true, Err(unknown)),
        Err(DeviceWriteError::Sync("broken".to_string()))
    );
}

#[test]
fn closed_hand_off_surfaces_the_device_error() {
    let cause = DeviceWriteError::AlignedBlock("No space left on device".to_string());
    let outcome =
        pipeline_result(StopReason::HandOffClosed, WriterOutcome::Finished(Err(cause.clone())));
    assert_eq!(outcome, Err(FlashError::WriterFailed(cause)));
    assert_eq!(
        outcome.unwrap_err().message(),
        "Writer thread failed: Failed to write to device (aligned block): No space left on device"
    );
}

#[test]
fn stream_end_passes_the_writer_result_on() {
    assert_eq!(pipeline_result(StopReason::StreamEnded, WriterOutcome::Finished(Ok(()))), Ok(()));
    assert_eq!(pipeline_result(StopReason::HandOffClosed, WriterOutcome::Finished(Ok(()))), Ok(()));
    let cause = DeviceWriteError::FinalBlock("gone".to_string());
    let outcome =
        pipeline_result(StopReason::StreamEnded, WriterOutcome::Finished(Err(cause.clone())));
    assert_eq!(outcome, Err(FlashError::Device(cause)));
    assert_eq!(
        outcome.unwrap_err().message(),
        "Failed to write to device (final block): gone"
    );
}

#[test]
fn writer_panic_becomes_an_error_value() {
    for reason in [StopReason::StreamEnded, StopReason::HandOffClosed] {
        let outcome = pipeline_result(reason, WriterOutcome::Panicked("Any { .. }".to_string()));
        assert_eq!(outcome, Err(FlashError::WriterPanicked("Any { .. }".to_string())));
        assert_eq!(outcome.unwrap_err().message(), "Writer thread panicked: Any { .. }");
    }
}

#[test]
fn broken_download_is_the_result_once_the_writer_is_joined() {
    let failure = || FlashError::Download("connection reset".to_string());
    let writers = [
        WriterOutcome::Finished(Ok(())),
        WriterOutcome::Finished(Err(DeviceWriteError::Sync("EIO".to_string()))),
        WriterOutcome::Panicked("Any { .. }".to_string()),
    ];
    for writer in writers {
        assert_eq!(pipeline_result(StopReason::DownloadFailed(failure()), writer), Err(failure()));
    }
    assert_eq!(
        pipeline_result(
            StopReason::DownloadFailed(FlashError::Request("dns".to_string())),
            WriterOutcome::Finished(Ok(()))
        ),
        Err(FlashError::Request("dns".to_string()))
    );
    assert_eq!(failure().message(), "Error downloading chunk: connection reset");
}

#[test]
fn reports_carry_the_running_total_and_the_total_size() {
    let mut tracker = ProgressTracker::new(4242);
    let mut sent: u64 = 0;
    let mut seen = 0;
    for step in 1..200u64 {
        let len = step * 7 % 31;
        sent += len;
        if let Some(report) = tracker.record(len, step * 40_000) {
            assert_eq!(report.bytes_written, sent);
            assert_eq!(report.total_bytes, 4242);
            assert_eq!(report, FlashProgress::new(sent, 4242, step * 40_000));
            seen += 1;
        }
    }
    assert!(seen > 10);
}

#[test]
fn flash_error_messages() {
    assert_eq!(FlashError::Request("timed out".to_string()).message(), "timed out");
    assert_eq!(
        FlashError::OpenDevice {
            path: "/dev/sdb".to_string(),
            detail: "Permission denied".to_string()
        }
        .message(),
        "Failed to open device /dev/sdb: Permission denied"
    );
    assert_eq!(
        FlashError::Download("reset".to_string()).message(),
        "Error downloading chunk: reset"
    );
    assert_eq!(
        FlashError::Device(DeviceWriteError::Sync("EIO".to_string())).message(),
        "Failed to sync device: EIO"
    );
}

#[test]
fn progress_values() {
    let progress = FlashProgress::new(500_000_000, 1_000_000_000, 2_000_000);
    assert_eq!(progress.bytes_written, 500_000_000);
    assert_eq!(progress.total_bytes, 1_000_000_000);
    assert_eq!(progress.speed_bytes_per_sec, 250_000_000);
    assert_eq!(progress.percent_hundredths, 5000);
    let third = FlashProgress::new(1, 3, 1);
    assert_eq!(third.percent_hundredths, 3333);
    assert_eq!(third.speed_bytes_per_sec, 1_000_000);
}

#[test]
fn progress_of_a_complete_transfer_is_one_hundred_percent() {
    for total in [1u64, 3, 1024, 999_999_937, u64::MAX] {
        assert_eq!(FlashProgress::new(total, total, 12345).percent_hundredths, 10000);
    }
}

#[test]
fn progress_without_time_or_total() {
    let progress = FlashProgress::new(10, 0, 0);
    assert_eq!(progress.speed_bytes_per_sec, u64::MAX);
    assert_eq!(progress.percent_hundredths, u64::MAX);
    let nothing = FlashProgress::new(0, 0, 0);
    assert_eq!(nothing.speed_bytes_per_sec, 0);
    assert_eq!(nothing.percent_hundredths, 0);
    assert_eq!(FlashProgress::new(u64::MAX, 1, 1).speed_bytes_per_sec, u64::MAX);
    assert_eq!(FlashProgress::new(u64::MAX, 1, 1).percent_hundredths, u64::MAX);
}

#[test]
fn progress_is_reported_after_more_than_a_hundred_milliseconds() {
    let mut tracker = ProgressTracker::new(1000);
    assert_eq!(tracker.record(100, 50_000), None);
    assert_eq!(tracker.record(100, 100_000), None);
    assert_eq!(tracker.record(100, 100_999), None);
    let report = tracker.record(100, 101_000).unwrap();
    assert_eq!(report.bytes_written, 400);
    assert_eq!(report.total_bytes, 1000);
    assert_eq!(report.percent_hundredths, 4000);
    assert_eq!(tracker.last_report_micros, 101_000);
    assert_eq!(tracker.record(100, 201_999), None);
    assert_eq!(tracker.record(100, 202_000).unwrap().bytes_written, 600);
    assert_eq!(tracker.bytes_processed, 600);
}

#[test]
fn progress_reports_never_run_backwards() {
    let mut tracker = ProgressTracker::new(10_000_000);
    let mut now: u64 = 0;
    let mut last: u64 = 0;
    let mut seed: u64 = 88172645463325252;
    let mut reports = 0;
    for _ in 0..2000 {
        seed ^= seed << 13;
        seed ^= seed >> 7;
        seed ^= seed << 17;
        now += seed % 60_000;
        if let Some(report) = tracker.record(seed % 5000, now) {
            assert!(report.bytes_written >= last);
            assert_eq!(report.bytes_written, tracker.bytes_processed);
            last = report.bytes_written;
            reports += 1;
        }
    }
    assert!(reports > 0);
}

#[test]
fn progress_with_a_clock_that_steps_back_is_not_due() {
    let mut tracker = ProgressTracker::new(10);
    assert!(tracker.record(1, 500_000).is_some());
    assert_eq!(tracker.record(1, 100), None);
    assert_eq!(tracker.bytes_processed, 2);
}
