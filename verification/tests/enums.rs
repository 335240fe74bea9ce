use experiment::db::{JobApplicationStatus, JobApplicationTimeline};

fn all_statuses() -> Vec<JobApplicationStatus> {
    vec![
        JobApplicationStatus::Accepted,
        JobApplicationStatus::Applied,
        JobApplicationStatus::Cancelled,
        JobApplicationStatus::Closed,
        JobApplicationStatus::Declined,
        JobApplicationStatus::Interviewing,
        JobApplicationStatus::Offered,
        JobApplicationStatus::Rejected,
        JobApplicationStatus::Watching,
        JobApplicationStatus::Withdrawn,
    ]
}

#[test]
fn status_round_trip_all_variants() {
    for v in all_statuses() {
        let token = v.to_string();
        assert_eq!(JobApplicationStatus::from_str(token), v);
    }
}

#[test]
fn timeline_round_trip_all_variants() {
    for v in [JobApplicationTimeline::Note, JobApplicationTimeline::Status] {
        let token = v.to_string();
        assert_eq!(JobApplicationTimeline::from_str(token), v);
    }
}

#[test]
fn status_tokens_exact() {
    let expected = [
        "accepted",
        "applied",
        "cancelled",
        "closed",
        "declined",
        "interviewing",
        "offered",
        "rejected",
        "watching",
        "withdrawn",
    ];
    for (v, want) in all_statuses().into_iter().zip(expected) {
        assert_eq!(v.to_string(), want);
    }
    assert_eq!(JobApplicationTimeline::Note.to_string(), "note");
    assert_eq!(JobApplicationTimeline::Status.to_string(), "status");
}

#[test]
fn status_display_exact() {
    assert_eq!(JobApplicationStatus::Accepted.pretty(), "Accepted");
    assert_eq!(JobApplicationStatus::Withdrawn.pretty(), "Withdrawn");
    let expected = [
        "Accepted",
        "Applied",
        "Cancelled",
        "Closed",
        "Declined",
        "Interviewing",
        "Offered",
        "Rejected",
        "Watching",
        "Withdrawn",
    ];
    for (v, want) in all_statuses().into_iter().zip(expected) {
        assert_eq!(v.pretty(), want);
    }
}

#[test]
fn status_display_never_equals_token() {
    for v in all_statuses() {
        assert_ne!(v.pretty(), v.to_string());
    }
}

#[test]
fn status_parse_empty_defaults_to_applied() {
    assert_eq!(
        JobApplicationStatus::from_str(String::new()),
        JobApplicationStatus::Applied
    );
}

#[test]
fn status_parse_bogus_defaults_to_applied() {
    assert_eq!(
        JobApplicationStatus::from_str("bogus".to_string()),
        JobApplicationStatus::Applied
    );
}

#[test]
fn status_parse_case_mismatch_defaults_to_applied() {
    assert_eq!(
        JobApplicationStatus::from_str("APPLIED".to_string()),
        JobApplicationStatus::Applied
    );
    assert_eq!(
        JobApplicationStatus::from_str("Accepted".to_string()),
        JobApplicationStatus::Applied
    );
}

#[test]
fn timeline_parse_unrecognized_defaults_to_note() {
    assert_eq!(
        JobApplicationTimeline::from_str(String::new()),
        JobApplicationTimeline::Note
    );
    assert_eq!(
        JobApplicationTimeline::from_str("bogus".to_string()),
        JobApplicationTimeline::Note
    );
    assert_eq!(
        JobApplicationTimeline::from_str("STATUS".to_string()),
        JobApplicationTimeline::Note
    );
}

#[test]
fn strict_parse_reports_unrecognized_tokens() {
    assert_eq!(
        JobApplicationStatus::try_from_token("watching"),
        Some(JobApplicationStatus::Watching)
    );
    assert_eq!(JobApplicationStatus::try_from_token(""), None);
    assert_eq!(JobApplicationStatus::try_from_token("APPLIED"), None);
    assert_eq!(JobApplicationStatus::try_from_token("Accepted"), None);
    assert_eq!(
        JobApplicationTimeline::try_from_token("status"),
        Some(JobApplicationTimeline::Status)
    );
    assert_eq!(JobApplicationTimeline::try_from_token("note "), None);
}
