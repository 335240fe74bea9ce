use experiment::db::{
    JobApplicationNotes, JobApplicationStatus, JobApplicationStatusHistory, JobApplicationTimeline,
};
use experiment::timeline::{insert_ordered, merge_timeline, TimelineEntry};

fn history_row(id: i32, status: JobApplicationStatus, created_at: &str) -> JobApplicationStatusHistory {
    JobApplicationStatusHistory {
        id,
        job_application_id: 1,
        status,
        created_at: created_at.to_string(),
    }
}

fn note_row(id: i32, text: &str, created_at: &str) -> JobApplicationNotes {
    JobApplicationNotes {
        id,
        job_application_id: 1,
        note: text.to_string(),
        created_at: created_at.to_string(),
    }
}

#[test]
fn merge_of_empty_logs_is_empty() {
    let feed = merge_timeline(Vec::new(), Vec::new());
    assert!(feed.is_empty());
}

#[test]
fn history_alone_comes_out_ascending_by_created_at() {
    let history = vec![
        history_row(3, JobApplicationStatus::Offered, "2024-03-20 12:00:00"),
        history_row(1, JobApplicationStatus::Applied, "2024-03-01 09:00:00"),
        history_row(2, JobApplicationStatus::Interviewing, "2024-03-10 14:00:00"),
    ];
    let feed = merge_timeline(Vec::new(), history);
    assert_eq!(feed.len(), 3);
    let ids: Vec<i32> = feed
        .iter()
        .map(|e| match e {
            TimelineEntry::Status(h) => h.id,
            TimelineEntry::Note(n) => n.id,
        })
        .collect();
    assert_eq!(ids, vec![1, 2, 3]);
    for pair in feed.windows(2) {
        assert!(pair[0].created_at() <= pair[1].created_at());
    }
}

#[test]
fn merged_feed_interleaves_and_tags_both_logs() {
    let notes = vec![
        note_row(100, "Sent a follow-up", "2024-03-05 08:00:00"),
        note_row(101, "Offer arrived in writing", "2024-03-21 16:00:00"),
    ];
    let history = vec![
        history_row(1, JobApplicationStatus::Applied, "2024-03-01 09:00:00"),
        history_row(2, JobApplicationStatus::Interviewing, "2024-03-10 14:00:00"),
        history_row(3, JobApplicationStatus::Offered, "2024-03-20 12:00:00"),
    ];
    let feed = merge_timeline(notes, history);
    assert_eq!(feed.len(), 5);
    let kinds: Vec<JobApplicationTimeline> = feed.iter().map(|e| e.kind()).collect();
    assert_eq!(
        kinds,
        vec![
            JobApplicationTimeline::Status,
            JobApplicationTimeline::Note,
            JobApplicationTimeline::Status,
            JobApplicationTimeline::Status,
            JobApplicationTimeline::Note,
        ]
    );
    let stamps: Vec<&str> = feed.iter().map(|e| e.created_at()).collect();
    assert_eq!(
        stamps,
        vec![
            "2024-03-01 09:00:00",
            "2024-03-05 08:00:00",
            "2024-03-10 14:00:00",
            "2024-03-20 12:00:00",
            "2024-03-21 16:00:00",
        ]
    );
}

#[test]
fn entries_with_equal_timestamps_are_all_kept() {
    let stamp = "2024-03-10 14:00:00";
    let notes = vec![note_row(200, "Same moment", stamp)];
    let history = vec![history_row(5, JobApplicationStatus::Watching, stamp)];
    let feed = merge_timeline(notes, history);
    assert_eq!(feed.len(), 2);
    for entry in &feed {
        assert_eq!(entry.created_at(), stamp);
    }
}

#[test]
fn entry_getters_expose_kind_and_timestamp() {
    let entry = TimelineEntry::Note(note_row(1, "hello", "2024-01-01 00:00:00"));
    assert_eq!(entry.kind(), JobApplicationTimeline::Note);
    assert_eq!(entry.kind().to_string(), "note");
    assert_eq!(entry.created_at(), "2024-01-01 00:00:00");
    let entry = TimelineEntry::Status(history_row(2, JobApplicationStatus::Closed, "2024-02-02 00:00:00"));
    assert_eq!(entry.kind(), JobApplicationTimeline::Status);
    assert_eq!(entry.kind().to_string(), "status");
    assert_eq!(entry.created_at(), "2024-02-02 00:00:00");
}

#[test]
fn insert_ordered_places_each_entry_chronologically() {
    let mut feed: Vec<TimelineEntry> = Vec::new();
    insert_ordered(&mut feed, TimelineEntry::Note(note_row(2, "b", "2024-02-01 00:00:00")));
    insert_ordered(
        &mut feed,
        TimelineEntry::Status(history_row(3, JobApplicationStatus::Closed, "2024-03-01 00:00:00")),
    );
    insert_ordered(&mut feed, TimelineEntry::Note(note_row(1, "a", "2024-01-01 00:00:00")));
    let stamps: Vec<&str> = feed.iter().map(|e| e.created_at()).collect();
    assert_eq!(
        stamps,
        vec![
            "2024-01-01 00:00:00",
            "2024-02-01 00:00:00",
            "2024-03-01 00:00:00",
        ]
    );
}
