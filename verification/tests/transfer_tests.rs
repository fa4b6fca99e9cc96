use replaylist::model::{MatchMethod, MatchResult, Track, TransferError};
use replaylist::transfer::{begin_transfer, create_result, ReportBuilder, TrackOutcome};

fn track(n: &str) -> Track {
    Track {
        title: String::from(n),
        artist: String::from("Artist"),
        isrc: None,
    }
}

fn matched(n: &str, dest: &str) -> TrackOutcome {
    TrackOutcome {
        result: MatchResult {
            source_track: track(n),
            destination_id: Some(String::from(dest)),
            method: MatchMethod::Isrc,
        },
        appended: true,
    }
}

fn unmatched(n: &str) -> TrackOutcome {
    TrackOutcome {
        result: MatchResult {
            source_track: track(n),
            destination_id: None,
            method: MatchMethod::Unmatched,
        },
        appended: false,
    }
}

#[test]
fn failures_never_abort_and_are_counted_exactly() {
    // Five tracks, the second and fourth fail resolution: the report
    // still closes, counts exactly two unmatched, and maps the rest.
    let mut b = ReportBuilder::new(String::from("dest-pl"), 5);
    b.record(0, matched("t0", "d0"));
    b.record(1, unmatched("t1"));
    b.record(2, matched("t2", "d2"));
    b.record(3, unmatched("t3"));
    b.record(4, matched("t4", "d4"));
    assert!(b.is_complete());
    let report = b.finish();
    assert_eq!(report.destination_playlist_id, "dest-pl");
    assert_eq!(report.unmatched_count, 2);
    assert_eq!(report.matched.len(), 3);
    assert_eq!(report.matched[0].source_track.title, "t0");
    assert_eq!(report.matched[1].source_track.title, "t2");
    assert_eq!(report.matched[2].source_track.title, "t4");
    assert_eq!(report.matched[0].destination_id.as_deref(), Some("d0"));
}

#[test]
fn append_failure_counts_as_unmatched() {
    let mut b = ReportBuilder::new(String::from("dest-pl"), 2);
    b.record(0, matched("t0", "d0"));
    let mut lost = matched("t1", "d1");
    lost.appended = false;
    b.record(1, lost);
    let report = b.finish();
    assert_eq!(report.unmatched_count, 1);
    assert_eq!(report.matched.len(), 1);
    assert_eq!(report.matched[0].source_track.title, "t0");
}

#[test]
fn completion_order_cannot_disturb_source_order() {
    // Later tracks resolve before earlier ones; the report still lists
    // matches in source order.
    let mut b = ReportBuilder::new(String::from("dest-pl"), 3);
    b.record(2, matched("t2", "d2"));
    b.record(0, matched("t0", "d0"));
    b.record(1, matched("t1", "d1"));
    let report = b.finish();
    assert_eq!(report.unmatched_count, 0);
    assert_eq!(report.matched.len(), 3);
    assert_eq!(report.matched[0].source_track.title, "t0");
    assert_eq!(report.matched[1].source_track.title, "t1");
    assert_eq!(report.matched[2].source_track.title, "t2");
}

#[test]
fn incomplete_transfer_is_not_finishable() {
    let mut b = ReportBuilder::new(String::from("dest-pl"), 2);
    b.record(0, matched("t0", "d0"));
    assert!(!b.is_complete());
    assert_eq!(b.total(), 2);
}

#[test]
fn creation_failure_is_fatal_and_plans_no_appends() {
    // A simulated 403: the transfer surfaces one fatal error; no
    // bookkeeping exists, so no track can be resolved or appended.
    let outcome = create_result(403, None, String::from("forbidden"));
    let failed = outcome.expect_err("a 403 creates nothing");
    match begin_transfer(Err(failed), 50) {
        Ok(_) => panic!("creation failure is fatal"),
        Err(TransferError::CreateFailed(body)) => {
            assert_eq!(body, "forbidden");
        }
        Err(_) => panic!("the failure names the create step"),
    }
}

#[test]
fn creation_failure_message_carries_the_body() {
    let e = TransferError::CreateFailed(String::from("forbidden"));
    assert_eq!(e.message(), "create playlist failed: forbidden");
}

#[test]
fn successful_creation_opens_empty_bookkeeping() {
    let outcome = create_result(201, Some(String::from("dest-pl")), String::from("{}"));
    let id = outcome.expect("a success status with an id creates");
    let b = begin_transfer(Ok(id), 3).expect("creation succeeded");
    assert_eq!(b.total(), 3);
    assert!(!b.is_complete());
    assert_eq!(b.destination_playlist_id, "dest-pl");
}

#[test]
fn success_status_without_id_still_fails_creation() {
    let outcome = create_result(200, None, String::from("{\"odd\": true}"));
    assert_eq!(outcome.expect_err("no id was extracted"), "{\"odd\": true}");
}
