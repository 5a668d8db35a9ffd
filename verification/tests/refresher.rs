use statusbar::block::ColorTier;
use statusbar::metric::{make_cgm_block, Entry};
use statusbar::refresher::{
    api_secret_header, judge_fetch, FetchOutcome, MetricCell, REFRESH_SECONDS,
};

fn entry(date: i64, sgv: &str) -> Entry {
    Entry { date, sgv: sgv.to_string(), direction: "Flat".to_string() }
}

#[test]
fn new_cell_holds_nothing() {
    let cell = MetricCell::new();
    assert_eq!(cell.latest(), None);
    assert_eq!(make_cgm_block(&cell.latest(), 123).full_text, "metric unknown");
}

#[test]
fn reading_is_published() {
    let mut cell = MetricCell::new();
    cell.publish(FetchOutcome::Reading(entry(1_000, "110")));
    assert_eq!(cell.latest(), Some(entry(1_000, "110")));
}

#[test]
fn newer_reading_replaces_older() {
    let mut cell = MetricCell::new();
    cell.publish(FetchOutcome::Reading(entry(1_000, "110")));
    cell.publish(FetchOutcome::Reading(entry(2_000, "95")));
    assert_eq!(cell.latest(), Some(entry(2_000, "95")));
}

#[test]
fn failure_leaves_empty_cell_empty() {
    let mut cell = MetricCell::new();
    cell.publish(FetchOutcome::TransportError);
    cell.publish(FetchOutcome::ErrorStatus);
    cell.publish(FetchOutcome::MalformedBody);
    assert_eq!(cell.latest(), None);
}

#[test]
fn two_failed_cycles_leave_the_reading() {
    let failures = [
        || FetchOutcome::TransportError,
        || FetchOutcome::ErrorStatus,
        || FetchOutcome::MalformedBody,
    ];
    for first in failures {
        for second in failures {
            let mut cell = MetricCell::new();
            cell.publish(FetchOutcome::Reading(entry(600_000, "110")));
            let before = cell.latest();
            cell.publish(first());
            cell.publish(second());
            assert_eq!(cell.latest(), before);
            for now in [600_000u64, 900_000, 1_200_000, 1_260_000] {
                let shown = make_cgm_block(&cell.latest(), now);
                assert_eq!(shown, make_cgm_block(&before, now));
            }
        }
    }
}

#[test]
fn reading_kept_through_failures_grows_stale() {
    let mut cell = MetricCell::new();
    cell.publish(FetchOutcome::Reading(entry(0, "110")));
    let mut now = 0u64;
    let mut texts = Vec::new();
    for _ in 0..12 {
        cell.publish(FetchOutcome::TransportError);
        now += REFRESH_SECONDS * 1000;
        let block = make_cgm_block(&cell.latest(), now);
        texts.push(block.full_text.clone());
        let minutes = now / 60_000;
        assert_eq!(block.full_text, format!("110→ ({}m)", minutes));
        let expected = if minutes > 10 { ColorTier::Bad } else { ColorTier::Good };
        assert_eq!(block.color, Some(expected));
    }
    assert_eq!(texts[0], "110→ (1m)");
    assert_eq!(texts[11], "110→ (12m)");
}

#[test]
fn every_cycle_waits_a_minute() {
    assert_eq!(REFRESH_SECONDS, 60);
    let mut cell = MetricCell::new();
    assert_eq!(cell.publish(FetchOutcome::TransportError), 60);
    assert_eq!(cell.publish(FetchOutcome::ErrorStatus), 60);
    assert_eq!(cell.publish(FetchOutcome::MalformedBody), 60);
    assert_eq!(cell.publish(FetchOutcome::Reading(entry(1, "1"))), 60);
}

#[test]
fn request_that_did_not_complete_is_transport_error() {
    assert_eq!(judge_fetch(None, None), FetchOutcome::TransportError);
    assert_eq!(judge_fetch(None, Some(entry(1, "110"))), FetchOutcome::TransportError);
}

#[test]
fn answer_without_success_is_error_status() {
    for status in [0u32, 100, 199, 300, 301, 401, 404, 500, 503, u32::MAX] {
        assert_eq!(judge_fetch(Some(status), None), FetchOutcome::ErrorStatus);
        assert_eq!(judge_fetch(Some(status), Some(entry(1, "110"))), FetchOutcome::ErrorStatus);
    }
}

#[test]
fn body_that_is_no_reading_is_malformed() {
    for status in [200u32, 204, 299] {
        assert_eq!(judge_fetch(Some(status), None), FetchOutcome::MalformedBody);
    }
}

#[test]
fn understood_body_of_success_is_a_reading() {
    for status in [200u32, 201, 299] {
        assert_eq!(
            judge_fetch(Some(status), Some(entry(7, "95"))),
            FetchOutcome::Reading(entry(7, "95"))
        );
    }
}

#[test]
fn only_a_reading_changes_the_cell() {
    let mut cell = MetricCell::new();
    cell.publish(judge_fetch(Some(200), Some(entry(1, "110"))));
    cell.publish(judge_fetch(Some(500), Some(entry(2, "300"))));
    cell.publish(judge_fetch(None, Some(entry(3, "300"))));
    cell.publish(judge_fetch(Some(200), None));
    assert_eq!(cell.latest(), Some(entry(1, "110")));
}

#[test]
fn secret_header_has_name_and_secret() {
    assert_eq!(api_secret_header("abc"), "API-Secret: abc");
    assert_eq!(api_secret_header(""), "API-Secret: ");
}
