//! Remote issue model: issues of GitHub or Linear, their statuses, the
//! query that lists them and the reference that links a ticket to one.
use vstd::prelude::*;

use crate::text::{concat, decimal_string, owned};
use crate::types::{TicketStatus, clone_opt_string, clone_strings, opt_text};

verus! {

broadcast use vstd::string::group_string_axioms;

/// Status of a remote issue.
#[derive(Debug)]
pub enum RemoteStatus {
    Open,
    Closed,
    /// A provider-specific workflow state, by name.
    Custom(String),
}

/// The name under which a remote status is shown.
pub open spec fn remote_status_text(s: RemoteStatus) -> Seq<char> {
    match s {
        RemoteStatus::Open => "open"@,
        RemoteStatus::Closed => "closed"@,
        RemoteStatus::Custom(name) => name@,
    }
}

/// Two remote statuses are the same (custom names compared by characters).
pub open spec fn same_remote_status(a: RemoteStatus, b: RemoteStatus) -> bool {
    match (a, b) {
        (RemoteStatus::Open, RemoteStatus::Open) => true,
        (RemoteStatus::Closed, RemoteStatus::Closed) => true,
        (RemoteStatus::Custom(x), RemoteStatus::Custom(y)) => x@ == y@,
        _ => false,
    }
}

/// The ticket status a remote status corresponds to: a closed issue is a
/// complete ticket, any other issue a new one.
pub open spec fn ticket_status_of(s: RemoteStatus) -> TicketStatus {
    match s {
        RemoteStatus::Closed => TicketStatus::Complete,
        _ => TicketStatus::New,
    }
}

impl Clone for RemoteStatus {
    fn clone(&self) -> (r: Self)
        ensures
            same_remote_status(r, *self),
    {
        match self {
            RemoteStatus::Open => RemoteStatus::Open,
            RemoteStatus::Closed => RemoteStatus::Closed,
            RemoteStatus::Custom(name) => RemoteStatus::Custom(name.clone()),
        }
    }
}

impl RemoteStatus {
    /// The name under which this status is shown.
    pub fn to_string(&self) -> (r: String)
        ensures
            r@ == remote_status_text(*self),
    {
        match self {
            RemoteStatus::Open => owned("open"),
            RemoteStatus::Closed => owned("closed"),
            RemoteStatus::Custom(name) => name.clone(),
        }
    }

    /// The ticket status this remote status corresponds to.
    pub fn to_ticket_status(&self) -> (r: TicketStatus)
        ensures
            r == ticket_status_of(*self),
    {
        match self {
            RemoteStatus::Closed => TicketStatus::Complete,
            _ => TicketStatus::New,
        }
    }
}

/// A remote issue-tracking platform.
#[derive(Debug, Clone, Copy, PartialEq, Eq, Structural)]
pub enum Platform {
    GitHub,
    Linear,
}

/// The name of a platform.
pub open spec fn platform_name(p: Platform) -> Seq<char> {
    match p {
        Platform::GitHub => "github"@,
        Platform::Linear => "linear"@,
    }
}

impl Platform {
    /// The name of this platform.
    pub fn to_string(&self) -> (r: String)
        ensures
            r@ == platform_name(*self),
    {
        match self {
            Platform::GitHub => owned("github"),
            Platform::Linear => owned("linear"),
        }
    }
}

/// An issue of a remote platform.
#[derive(Debug)]
pub struct RemoteIssue {
    pub id: String,
    pub title: String,
    pub body: String,
    pub status: RemoteStatus,
    pub priority: Option<u8>,
    pub assignee: Option<String>,
    pub updated_at: String,
    pub url: String,
    pub labels: Vec<String>,
    pub team: Option<String>,
    pub project: Option<String>,
    pub milestone: Option<String>,
    pub due_date: Option<String>,
    pub created_at: String,
    pub creator: Option<String>,
}

/// Two issues hold the same data (strings compared by their characters).
pub open spec fn same_issue(a: RemoteIssue, b: RemoteIssue) -> bool {
    &&& a.id@ == b.id@
    &&& a.title@ == b.title@
    &&& a.body@ == b.body@
    &&& same_remote_status(a.status, b.status)
    &&& a.priority == b.priority
    &&& opt_text(a.assignee) == opt_text(b.assignee)
    &&& a.updated_at@ == b.updated_at@
    &&& a.url@ == b.url@
    &&& a.labels.deep_view() == b.labels.deep_view()
    &&& opt_text(a.team) == opt_text(b.team)
    &&& opt_text(a.project) == opt_text(b.project)
    &&& opt_text(a.milestone) == opt_text(b.milestone)
    &&& opt_text(a.due_date) == opt_text(b.due_date)
    &&& a.created_at@ == b.created_at@
    &&& opt_text(a.creator) == opt_text(b.creator)
}

impl Clone for RemoteIssue {
    fn clone(&self) -> (r: Self)
        ensures
            same_issue(r, *self),
    {
        RemoteIssue {
            id: self.id.clone(),
            title: self.title.clone(),
            body: self.body.clone(),
            status: self.status.clone(),
            priority: self.priority,
            assignee: clone_opt_string(&self.assignee),
            updated_at: self.updated_at.clone(),
            url: self.url.clone(),
            labels: clone_strings(&self.labels),
            team: clone_opt_string(&self.team),
            project: clone_opt_string(&self.project),
            milestone: clone_opt_string(&self.milestone),
            due_date: clone_opt_string(&self.due_date),
            created_at: self.created_at.clone(),
            creator: clone_opt_string(&self.creator),
        }
    }
}

/// Default page size of a remote query.
pub const DEFAULT_QUERY_LIMIT: u32 = 100;

/// What a listing of remote issues asks for.
#[derive(Debug)]
pub struct RemoteQuery {
    pub status: Option<RemoteStatus>,
    pub assignee: Option<String>,
    pub labels: Option<Vec<String>>,
    /// Page size.
    pub limit: u32,
    /// Text to search for; without it issues are browsed.
    pub search_text: Option<String>,
}

/// Two queries ask for the same thing.
pub open spec fn same_query(a: RemoteQuery, b: RemoteQuery) -> bool {
    &&& a.status is Some <==> b.status is Some
    &&& a.status is Some ==> same_remote_status(a.status->0, b.status->0)
    &&& opt_text(a.assignee) == opt_text(b.assignee)
    &&& a.labels is Some <==> b.labels is Some
    &&& a.labels is Some ==> a.labels->0.deep_view() == b.labels->0.deep_view()
    &&& a.limit == b.limit
    &&& opt_text(a.search_text) == opt_text(b.search_text)
}

impl Clone for RemoteQuery {
    fn clone(&self) -> (r: Self)
        ensures
            same_query(r, *self),
    {
        RemoteQuery {
            status: match &self.status {
                Some(s) => Some(s.clone()),
                None => None,
            },
            assignee: clone_opt_string(&self.assignee),
            labels: match &self.labels {
                Some(l) => Some(clone_strings(l)),
                None => None,
            },
            limit: self.limit,
            search_text: clone_opt_string(&self.search_text),
        }
    }
}

impl RemoteQuery {
    /// A query with no filters and the default page size.
    pub fn new() -> (r: RemoteQuery)
        ensures
            r.status is None,
            r.assignee is None,
            r.labels is None,
            r.limit == DEFAULT_QUERY_LIMIT,
            r.search_text is None,
    {
        RemoteQuery {
            status: None,
            assignee: None,
            labels: None,
            limit: DEFAULT_QUERY_LIMIT,
            search_text: None,
        }
    }

    /// Whether the query filters by status, assignee or labels.
    pub fn has_filters(&self) -> (r: bool)
        ensures
            r == (self.status is Some || self.assignee is Some || self.labels is Some),
    {
        self.status.is_some() || self.assignee.is_some() || self.labels.is_some()
    }
}

/// A reference from a ticket to the remote issue it is linked to.
#[derive(Debug)]
pub enum RemoteRef {
    GitHub { owner: String, repo: String, issue_number: u64 },
    Linear { org: String, issue_id: String },
}

/// The text of a remote reference: `github:<owner>/<repo>/<number>` or
/// `linear:<org>/<issue id>`.
pub open spec fn remote_ref_text(r: RemoteRef) -> Seq<char> {
    match r {
        RemoteRef::GitHub { owner, repo, issue_number } => "github:"@ + owner@ + "/"@ + repo@
            + "/"@ + crate::text::decimal(issue_number as nat),
        RemoteRef::Linear { org, issue_id } => "linear:"@ + org@ + "/"@ + issue_id@,
    }
}

impl RemoteRef {
    /// The text of this reference.
    pub fn to_string(&self) -> (r: String)
        ensures
            r@ == remote_ref_text(*self),
    {
        match self {
            RemoteRef::GitHub { owner, repo, issue_number } => {
                let a = concat("github:", owner.as_str());
                let b = concat(a.as_str(), "/");
                let c = concat(b.as_str(), repo.as_str());
                let d = concat(c.as_str(), "/");
                let n = decimal_string(*issue_number);
                concat(d.as_str(), n.as_str())
            },
            RemoteRef::Linear { org, issue_id } => {
                let a = concat("linear:", org.as_str());
                let b = concat(a.as_str(), "/");
                concat(b.as_str(), issue_id.as_str())
            },
        }
    }
}

} // verus!
