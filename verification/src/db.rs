//! Domain records and vocabularies: users, sessions, job applications, the
//! two append-only logs attached to an application, and the closed enums for
//! application status and timeline-entry kind.
//!
//! Each enum has a canonical lowercase wire token used for persistence.
//! Parsing an unrecognized token deliberately falls back to a default variant
//! (`Applied`, `Note`); `try_from_token` is the strict form that reports the
//! failure instead, so a caller can choose between the two policies.
//! Timestamps are text whose lexicographic order is the chronological order.

use vstd::prelude::*;
use crate::text::{lex_le, str_eq, str_lex_le};

verus! {

/// A registered account.
#[derive(Debug)]
pub struct User {
    pub id: i32,
    pub email: String,
    /// Stored form of the credential; meant to hold a hash, never checked here.
    pub password: String,
    pub created_at: String,
    pub updated_at: String,
}

/// A signed-in browser session belonging to one user.
#[derive(Debug)]
pub struct Sessions {
    pub id: i32,
    pub user_id: i32,
    pub token: String,
    pub user_agent: String,
    pub created_at: String,
    pub updated_at: String,
    pub expires_at: String,
}

impl Sessions {
    /// A session never expires before it was created.
    pub open spec fn well_formed(self) -> bool {
        lex_le(self.created_at@, self.expires_at@)
    }

    /// Whether the record satisfies [`Self::well_formed`].
    pub fn is_well_formed(&self) -> (r: bool)
        ensures
            r == self.well_formed(),
    {
        str_lex_le(self.created_at.as_str(), self.expires_at.as_str())
    }
}

/// One tracked job application, owned by one user.
#[derive(Debug)]
pub struct JobApplications {
    pub id: i32,
    pub company: String,
    pub title: String,
    pub url: String,
    pub status: JobApplicationStatus,
    pub applied_at: String,
    pub created_at: String,
    pub updated_at: String,
    pub user_id: i32,
}

/// One row of the append-only status log of a job application. The rows,
/// ordered by `created_at`, are the audit trail of status transitions.
#[derive(Debug)]
pub struct JobApplicationStatusHistory {
    pub id: i32,
    pub job_application_id: i32,
    pub status: JobApplicationStatus,
    pub created_at: String,
}

impl JobApplicationStatusHistory {
    /// Whether this row comes no later than `other` in the audit trail,
    /// that is, its `created_at` precedes (or equals) the other's.
    pub fn created_no_later(&self, other: &Self) -> (r: bool)
        ensures
            r == lex_le(self.created_at@, other.created_at@),
    {
        str_lex_le(self.created_at.as_str(), other.created_at.as_str())
    }
}

/// One row of the append-only note log of a job application.
#[derive(Debug)]
pub struct JobApplicationNotes {
    pub id: i32,
    pub job_application_id: i32,
    pub note: String,
    pub created_at: String,
}

/// Which append-only log a combined timeline entry came from.
#[derive(Clone, Copy, Debug, PartialEq, Eq, Structural)]
pub enum JobApplicationTimeline {
    Note,
    Status,
}

impl JobApplicationTimeline {
    /// The canonical lowercase wire token of the variant.
    pub open spec fn token(self) -> Seq<char> {
        match self {
            JobApplicationTimeline::Note => "note"@,
            JobApplicationTimeline::Status => "status"@,
        }
    }

    /// The variant a wire token names, if it names one.
    pub open spec fn variant_of_token(s: Seq<char>) -> Option<JobApplicationTimeline> {
        if s == "note"@ {
            Some(JobApplicationTimeline::Note)
        } else if s == "status"@ {
            Some(JobApplicationTimeline::Status)
        } else {
            None
        }
    }

    /// What parsing returns: the named variant, or `Note` as the silent
    /// fallback on any unrecognized token.
    pub open spec fn of_token(s: Seq<char>) -> JobApplicationTimeline {
        match JobApplicationTimeline::variant_of_token(s) {
            Some(v) => v,
            None => JobApplicationTimeline::Note,
        }
    }

    /// Strict parsing: `Some` exactly on the two wire tokens, `None` on
    /// everything else.
    pub fn try_from_token(s: &str) -> (r: Option<JobApplicationTimeline>)
        ensures
            r == JobApplicationTimeline::variant_of_token(s@),
    {
        if str_eq(s, "note") {
            Some(JobApplicationTimeline::Note)
        } else if str_eq(s, "status") {
            Some(JobApplicationTimeline::Status)
        } else {
            None
        }
    }

    /// Forgiving parsing: any unrecognized token silently falls back to
    /// `Note`.
    pub fn from_str(s: String) -> (r: Self)
        ensures
            r == JobApplicationTimeline::of_token(s@),
    {
        match JobApplicationTimeline::try_from_token(s.as_str()) {
            Some(v) => v,
            None => JobApplicationTimeline::Note,
        }
    }

    /// The wire token of the variant, for persistence.
    pub fn to_string(&self) -> (r: String)
        ensures
            r@ == self.token(),
    {
        match self {
            JobApplicationTimeline::Note => "note".to_owned(),
            JobApplicationTimeline::Status => "status".to_owned(),
        }
    }
}

/// Serializing any timeline kind and parsing the token back yields the same
/// variant.
pub proof fn lemma_timeline_round_trip(v: JobApplicationTimeline)
    ensures
        JobApplicationTimeline::variant_of_token(v.token()) == Some(v),
        JobApplicationTimeline::of_token(v.token()) == v,
{
    broadcast use vstd::string::group_string_axioms;

    reveal_strlit("note");
    reveal_strlit("status");
    assert("note"@.len() == 4);
    assert("status"@.len() == 6);
    match v {
        JobApplicationTimeline::Note => {
            assert(JobApplicationTimeline::of_token("note"@) == v);
        },
        JobApplicationTimeline::Status => {
            assert("status"@ != "note"@);
            assert(JobApplicationTimeline::of_token("status"@) == v);
        },
    }
}

/// Where a job application stands. The closed vocabulary of the tracker.
#[derive(Clone, Copy, Debug, PartialEq, Eq, Structural)]
pub enum JobApplicationStatus {
    Accepted,
    Applied,
    Cancelled,
    Closed,
    Declined,
    Interviewing,
    Offered,
    Rejected,
    Watching,
    Withdrawn,
}

impl JobApplicationStatus {
    /// The canonical lowercase wire token of the variant.
    pub open spec fn token(self) -> Seq<char> {
        match self {
            JobApplicationStatus::Accepted => "accepted"@,
            JobApplicationStatus::Applied => "applied"@,
            JobApplicationStatus::Cancelled => "cancelled"@,
            JobApplicationStatus::Closed => "closed"@,
            JobApplicationStatus::Declined => "declined"@,
            JobApplicationStatus::Interviewing => "interviewing"@,
            JobApplicationStatus::Offered => "offered"@,
            JobApplicationStatus::Rejected => "rejected"@,
            JobApplicationStatus::Watching => "watching"@,
            JobApplicationStatus::Withdrawn => "withdrawn"@,
        }
    }

    /// The capitalized display form of the variant, for presentation only;
    /// it is never a persistence key.
    pub open spec fn display_name(self) -> Seq<char> {
        match self {
            JobApplicationStatus::Accepted => "Accepted"@,
            JobApplicationStatus::Applied => "Applied"@,
            JobApplicationStatus::Cancelled => "Cancelled"@,
            JobApplicationStatus::Closed => "Closed"@,
            JobApplicationStatus::Declined => "Declined"@,
            JobApplicationStatus::Interviewing => "Interviewing"@,
            JobApplicationStatus::Offered => "Offered"@,
            JobApplicationStatus::Rejected => "Rejected"@,
            JobApplicationStatus::Watching => "Watching"@,
            JobApplicationStatus::Withdrawn => "Withdrawn"@,
        }
    }

    /// The variant a wire token names, if it names one.
    pub open spec fn variant_of_token(s: Seq<char>) -> Option<JobApplicationStatus> {
        if s == "accepted"@ {
            Some(JobApplicationStatus::Accepted)
        } else if s == "applied"@ {
            Some(JobApplicationStatus::Applied)
        } else if s == "cancelled"@ {
            Some(JobApplicationStatus::Cancelled)
        } else if s == "closed"@ {
            Some(JobApplicationStatus::Closed)
        } else if s == "declined"@ {
            Some(JobApplicationStatus::Declined)
        } else if s == "interviewing"@ {
            Some(JobApplicationStatus::Interviewing)
        } else if s == "offered"@ {
            Some(JobApplicationStatus::Offered)
        } else if s == "rejected"@ {
            Some(JobApplicationStatus::Rejected)
        } else if s == "watching"@ {
            Some(JobApplicationStatus::Watching)
        } else if s == "withdrawn"@ {
            Some(JobApplicationStatus::Withdrawn)
        } else {
            None
        }
    }

    /// What parsing returns: the named variant, or `Applied` as the silent
    /// fallback on any unrecognized token.
    pub open spec fn of_token(s: Seq<char>) -> JobApplicationStatus {
        match JobApplicationStatus::variant_of_token(s) {
            Some(v) => v,
            None => JobApplicationStatus::Applied,
        }
    }

    /// Strict parsing: `Some` exactly on the ten wire tokens, `None` on
    /// everything else.
    pub fn try_from_token(s: &str) -> (r: Option<JobApplicationStatus>)
        ensures
            r == JobApplicationStatus::variant_of_token(s@),
    {
        if str_eq(s, "accepted") {
            Some(JobApplicationStatus::Accepted)
        } else if str_eq(s, "applied") {
            Some(JobApplicationStatus::Applied)
        } else if str_eq(s, "cancelled") {
            Some(JobApplicationStatus::Cancelled)
        } else if str_eq(s, "closed") {
            Some(JobApplicationStatus::Closed)
        } else if str_eq(s, "declined") {
            Some(JobApplicationStatus::Declined)
        } else if str_eq(s, "interviewing") {
            Some(JobApplicationStatus::Interviewing)
        } else if str_eq(s, "offered") {
            Some(JobApplicationStatus::Offered)
        } else if str_eq(s, "rejected") {
            Some(JobApplicationStatus::Rejected)
        } else if str_eq(s, "watching") {
            Some(JobApplicationStatus::Watching)
        } else if str_eq(s, "withdrawn") {
            Some(JobApplicationStatus::Withdrawn)
        } else {
            None
        }
    }

    /// Forgiving parsing: any unrecognized token silently falls back to
    /// `Applied`.
    pub fn from_str(s: String) -> (r: Self)
        ensures
            r == JobApplicationStatus::of_token(s@),
    {
        match JobApplicationStatus::try_from_token(s.as_str()) {
            Some(v) => v,
            None => JobApplicationStatus::Applied,
        }
    }

    /// The wire token of the variant, for persistence.
    pub fn to_string(&self) -> (r: String)
        ensures
            r@ == self.token(),
    {
        match self {
            JobApplicationStatus::Accepted => "accepted".to_owned(),
            JobApplicationStatus::Applied => "applied".to_owned(),
            JobApplicationStatus::Cancelled => "cancelled".to_owned(),
            JobApplicationStatus::Closed => "closed".to_owned(),
            JobApplicationStatus::Declined => "declined".to_owned(),
            JobApplicationStatus::Interviewing => "interviewing".to_owned(),
            JobApplicationStatus::Offered => "offered".to_owned(),
            JobApplicationStatus::Rejected => "rejected".to_owned(),
            JobApplicationStatus::Watching => "watching".to_owned(),
            JobApplicationStatus::Withdrawn => "withdrawn".to_owned(),
        }
    }

    /// The display form of the variant, for presentation.
    pub fn pretty(&self) -> (r: String)
        ensures
            r@ == self.display_name(),
    {
        match self {
            JobApplicationStatus::Accepted => "Accepted".to_owned(),
            JobApplicationStatus::Applied => "Applied".to_owned(),
            JobApplicationStatus::Cancelled => "Cancelled".to_owned(),
            JobApplicationStatus::Closed => "Closed".to_owned(),
            JobApplicationStatus::Declined => "Declined".to_owned(),
            JobApplicationStatus::Interviewing => "Interviewing".to_owned(),
            JobApplicationStatus::Offered => "Offered".to_owned(),
            JobApplicationStatus::Rejected => "Rejected".to_owned(),
            JobApplicationStatus::Watching => "Watching".to_owned(),
            JobApplicationStatus::Withdrawn => "Withdrawn".to_owned(),
        }
    }
}

/// Serializing any status and parsing the token back yields the same variant.
pub proof fn lemma_status_round_trip(v: JobApplicationStatus)
    ensures
        JobApplicationStatus::variant_of_token(v.token()) == Some(v),
        JobApplicationStatus::of_token(v.token()) == v,
{
    broadcast use vstd::string::group_string_axioms;

    reveal_strlit("accepted");
    reveal_strlit("applied");
    reveal_strlit("cancelled");
    reveal_strlit("closed");
    reveal_strlit("declined");
    reveal_strlit("interviewing");
    reveal_strlit("offered");
    reveal_strlit("rejected");
    reveal_strlit("watching");
    reveal_strlit("withdrawn");
    assert("accepted"@.len() == 8);
    assert("applied"@.len() == 7);
    assert("cancelled"@.len() == 9);
    assert("closed"@.len() == 6);
    assert("declined"@.len() == 8);
    assert("interviewing"@.len() == 12);
    assert("offered"@.len() == 7);
    assert("rejected"@.len() == 8);
    assert("watching"@.len() == 8);
    assert("withdrawn"@.len() == 9);
    assert("accepted"@[0] == 'a');
    assert("applied"@[0] == 'a');
    assert("cancelled"@[0] == 'c');
    assert("declined"@[0] == 'd');
    assert("offered"@[0] == 'o');
    assert("rejected"@[0] == 'r');
    assert("watching"@[0] == 'w');
    assert("withdrawn"@[0] == 'w');
    assert("declined"@ != "accepted"@);
    assert("offered"@ != "applied"@);
    assert("rejected"@ != "accepted"@);
    assert("rejected"@ != "declined"@);
    assert("watching"@ != "accepted"@);
    assert("watching"@ != "declined"@);
    assert("watching"@ != "rejected"@);
    assert("withdrawn"@ != "cancelled"@);
}

/// The display form of a status is never its wire token: the two always
/// differ in the casing of the first character.
pub proof fn lemma_status_display_differs(v: JobApplicationStatus)
    ensures
        v.display_name() != v.token(),
{
    broadcast use vstd::string::group_string_axioms;

    reveal_strlit("accepted");
    reveal_strlit("applied");
    reveal_strlit("cancelled");
    reveal_strlit("closed");
    reveal_strlit("declined");
    reveal_strlit("interviewing");
    reveal_strlit("offered");
    reveal_strlit("rejected");
    reveal_strlit("watching");
    reveal_strlit("withdrawn");
    reveal_strlit("Accepted");
    reveal_strlit("Applied");
    reveal_strlit("Cancelled");
    reveal_strlit("Closed");
    reveal_strlit("Declined");
    reveal_strlit("Interviewing");
    reveal_strlit("Offered");
    reveal_strlit("Rejected");
    reveal_strlit("Watching");
    reveal_strlit("Withdrawn");
    match v {
        JobApplicationStatus::Accepted => {
            assert("Accepted"@[0] == 'A' && "accepted"@[0] == 'a');
        },
        JobApplicationStatus::Applied => {
            assert("Applied"@[0] == 'A' && "applied"@[0] == 'a');
        },
        JobApplicationStatus::Cancelled => {
            assert("Cancelled"@[0] == 'C' && "cancelled"@[0] == 'c');
        },
        JobApplicationStatus::Closed => {
            assert("Closed"@[0] == 'C' && "closed"@[0] == 'c');
        },
        JobApplicationStatus::Declined => {
            assert("Declined"@[0] == 'D' && "declined"@[0] == 'd');
        },
        JobApplicationStatus::Interviewing => {
            assert("Interviewing"@[0] == 'I' && "interviewing"@[0] == 'i');
        },
        JobApplicationStatus::Offered => {
            assert("Offered"@[0] == 'O' && "offered"@[0] == 'o');
        },
        JobApplicationStatus::Rejected => {
            assert("Rejected"@[0] == 'R' && "rejected"@[0] == 'r');
        },
        JobApplicationStatus::Watching => {
            assert("Watching"@[0] == 'W' && "watching"@[0] == 'w');
        },
        JobApplicationStatus::Withdrawn => {
            assert("Withdrawn"@[0] == 'W' && "withdrawn"@[0] == 'w');
        },
    }
}

} // verus!
