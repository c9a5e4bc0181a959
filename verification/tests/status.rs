use proxy_session::command::GetStatusResponse;
use proxy_session::error::{Error, ErrorKind};
use proxy_session::probe::{next_probe_id, probe_latency};
use proxy_session::status::{Status, Traffic, LATENCY_UNKNOWN};

#[test]
fn status_new_is_at_rest() {
    let s = Status::new();
    assert!(!s.is_running);
    assert_eq!(s.latency, 0);
    assert_eq!(s.upload, Traffic { size: 0, count: 0 });
    assert_eq!(s.download, Traffic { size: 0, count: 0 });
}

#[test]
fn status_start_clears_and_marks_running() {
    let mut s = Status::new();
    s.record_upload(10, 1);
    s.record_download(20, 2);
    s.record_latency(33);
    s.start();
    assert_eq!(
        s,
        Status {
            is_running: true,
            latency: 0,
            upload: Traffic { size: 0, count: 0 },
            download: Traffic { size: 0, count: 0 }
        }
    );
}

#[test]
fn status_stop_clears_and_marks_not_running() {
    let mut s = Status::new();
    s.start();
    s.record_upload(10, 1);
    s.record_latency(33);
    s.stop();
    assert_eq!(s, Status::new());
    s.stop();
    assert_eq!(s, Status::new());
}

#[test]
fn status_halt_keeps_the_counters() {
    let mut s = Status::new();
    s.start();
    s.record_upload(10, 1);
    s.record_latency(33);
    s.halt();
    assert!(!s.is_running);
    assert_eq!(s.latency, 33);
    assert_eq!(s.upload, Traffic { size: 10, count: 1 });
}

#[test]
fn status_poll_reports_and_drains() {
    let mut s = Status::new();
    s.start();
    s.record_upload(1000, 3);
    s.record_upload(500, 1);
    s.record_download(70, 2);
    s.record_latency(42);
    assert_eq!(
        s.poll(),
        GetStatusResponse {
            run: true,
            latency: 42,
            upload_size: 1500,
            upload_count: 4,
            download_size: 70,
            download_count: 2
        }
    );
    assert_eq!(
        s.poll(),
        GetStatusResponse {
            run: true,
            latency: 42,
            upload_size: 0,
            upload_count: 0,
            download_size: 0,
            download_count: 0
        }
    );
    s.record_download(5, 1);
    let third = s.poll();
    assert_eq!(third.download_size, 5);
    assert_eq!(third.download_count, 1);
    assert_eq!(third.upload_size, 0);
}

#[test]
fn traffic_counters_hold_at_the_largest_count() {
    let mut t = Traffic::new();
    t.add(usize::MAX - 1, 1);
    t.add(5, usize::MAX);
    assert_eq!(t, Traffic { size: usize::MAX, count: usize::MAX });
    assert_eq!(t.drain(), Traffic { size: usize::MAX, count: usize::MAX });
    assert_eq!(t, Traffic { size: 0, count: 0 });
}

#[test]
fn traffic_counters_only_grow_between_drains() {
    let mut t = Traffic::new();
    let mut last = t;
    for (size, count) in [(0usize, 0usize), (1, 1), (1500, 1), (0, 7), (usize::MAX, 2)] {
        t.add(size, count);
        assert!(t.size >= last.size && t.count >= last.count);
        last = t;
    }
}

#[test]
fn probe_ids_count_up_and_start_again() {
    assert_eq!(next_probe_id(0), 1);
    assert_eq!(next_probe_id(41), 42);
    assert_eq!(next_probe_id(u16::MAX - 1), u16::MAX);
    assert_eq!(next_probe_id(u16::MAX), 0);
}

#[test]
fn probe_latency_of_measurements() {
    assert_eq!(probe_latency(Some(0)), 0);
    assert_eq!(probe_latency(Some(37)), 37);
    assert_eq!(probe_latency(Some(2999)), 2999);
    assert_eq!(probe_latency(None), LATENCY_UNKNOWN);
    assert_eq!(probe_latency(None), isize::MAX);
    assert_eq!(probe_latency(Some(isize::MAX as u128 - 1)), isize::MAX - 1);
    assert_eq!(probe_latency(Some(isize::MAX as u128)), LATENCY_UNKNOWN);
    assert_eq!(probe_latency(Some(u128::MAX)), LATENCY_UNKNOWN);
}

#[test]
fn error_new_keeps_the_message() {
    let e = Error::new("boom".to_string());
    assert_eq!(e.kind(), ErrorKind::Other);
    assert_eq!(e.message(), "boom");
    assert_eq!(e.to_string(), "boom");
}

#[test]
fn error_with_kind_and_describe() {
    let e = Error::with_kind(ErrorKind::Tunnel, "no route".to_string());
    assert_eq!(e.kind(), ErrorKind::Tunnel);
    assert_eq!(e.to_string(), "no route");
    let e = Error::describe(ErrorKind::NotFound, "entity not found");
    assert_eq!(e.kind(), ErrorKind::NotFound);
    assert_eq!(e.message(), "entity not found");
    let copy = e.clone();
    assert_eq!(copy.kind(), ErrorKind::NotFound);
    assert_eq!(copy.message(), "entity not found");
}
