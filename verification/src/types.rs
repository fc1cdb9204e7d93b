//! Ticket data model: statuses, types, priorities, fields and metadata.
use vstd::prelude::*;

use crate::error::JanusError;
use crate::hooks::{HookContext, hook_context_of};
use crate::text::{concat, owned, str_eq, to_lowercase, lowercase};

verus! {

/// The directory that holds the tickets: the `JANUS_ROOT` setting when
/// it is given, else `.janus`.
pub fn janus_root_from(setting: Option<String>) -> (r: String)
    ensures
        r@ == match setting {
            Some(s) => s@,
            None => ".janus"@,
        },
{
    match setting {
        Some(s) => s,
        None => owned(".janus"),
    }
}

broadcast use vstd::string::group_string_axioms;

/// Directory (relative to the working directory) that holds Janus data.
pub const TICKETS_DIR: &'static str = ".janus";

/// Directory that holds ticket files.
pub const TICKETS_ITEMS_DIR: &'static str = ".janus/items";

/// Directory that holds plan files.
pub const PLANS_DIR: &'static str = ".janus/plans";

/// The path `root` joined with the relative component `child`, as
/// `Path::join` forms it: a separator is inserted unless `root` is empty or
/// already ends with one.
pub open spec fn path_join(root: Seq<char>, child: Seq<char>) -> Seq<char> {
    if root.len() == 0 || root.last() == '/' {
        root + child
    } else {
        root + seq!['/'] + child
    }
}

fn join_path(root: &str, child: &str) -> (r: String)
    ensures
        r@ == path_join(root@, child@),
{
    let n = root.unicode_len();
    if n == 0 || root.get_char(n - 1) == '/' {
        concat(root, child)
    } else {
        proof {
            reveal_strlit("/");
        }
        let a = concat(root, "/");
        concat(a.as_str(), child)
    }
}

/// The tickets directory under the Janus root `root` (`<root>/items`).
pub fn tickets_items_dir(root: &str) -> (r: String)
    ensures
        r@ == path_join(root@, "items"@),
{
    join_path(root, "items")
}

/// The plans directory under the Janus root `root` (`<root>/plans`).
pub fn plans_dir(root: &str) -> (r: String)
    ensures
        r@ == path_join(root@, "plans"@),
{
    join_path(root, "plans")
}

// ---------------------------------------------------------------------------
// Ticket status
// ---------------------------------------------------------------------------

/// Lifecycle state of a ticket.
#[derive(Debug, Clone, Copy, PartialEq, Eq, Hash, Default, Structural)]
pub enum TicketStatus {
    #[default]
    New,
    Next,
    InProgress,
    Complete,
    Cancelled,
}

/// The canonical name of a status.
pub open spec fn status_name(s: TicketStatus) -> Seq<char> {
    match s {
        TicketStatus::New => "new"@,
        TicketStatus::Next => "next"@,
        TicketStatus::InProgress => "in_progress"@,
        TicketStatus::Complete => "complete"@,
        TicketStatus::Cancelled => "cancelled"@,
    }
}

/// The status whose canonical name is `s`, if any.
pub open spec fn status_named(s: Seq<char>) -> Option<TicketStatus> {
    if s == "new"@ {
        Some(TicketStatus::New)
    } else if s == "next"@ {
        Some(TicketStatus::Next)
    } else if s == "in_progress"@ {
        Some(TicketStatus::InProgress)
    } else if s == "complete"@ {
        Some(TicketStatus::Complete)
    } else if s == "cancelled"@ {
        Some(TicketStatus::Cancelled)
    } else {
        None
    }
}

/// Statuses in which no further work is expected.
pub open spec fn status_is_terminal(s: TicketStatus) -> bool {
    s == TicketStatus::Complete || s == TicketStatus::Cancelled
}

/// Statuses in which work has not started yet.
pub open spec fn status_is_not_started(s: TicketStatus) -> bool {
    s == TicketStatus::New || s == TicketStatus::Next
}

impl TicketStatus {
    /// Whether this status is terminal (complete or cancelled).
    pub fn is_terminal(self) -> (r: bool)
        ensures
            r == status_is_terminal(self),
    {
        matches!(self, TicketStatus::Complete | TicketStatus::Cancelled)
    }

    /// Whether work has not started yet (new or next).
    pub fn is_not_started(self) -> (r: bool)
        ensures
            r == status_is_not_started(self),
    {
        matches!(self, TicketStatus::New | TicketStatus::Next)
    }

    /// The canonical name of this status.
    pub fn as_str(&self) -> (r: &'static str)
        ensures
            r@ == status_name(*self),
    {
        match self {
            TicketStatus::New => "new",
            TicketStatus::Next => "next",
            TicketStatus::InProgress => "in_progress",
            TicketStatus::Complete => "complete",
            TicketStatus::Cancelled => "cancelled",
        }
    }

    /// The canonical name of this status, owned.
    pub fn to_string(&self) -> (r: String)
        ensures
            r@ == status_name(*self),
    {
        owned(self.as_str())
    }

    /// The status whose canonical name is exactly `name`.
    pub fn from_name(name: &str) -> (r: Option<TicketStatus>)
        ensures
            r == status_named(name@),
    {
        if str_eq(name, "new") {
            Some(TicketStatus::New)
        } else if str_eq(name, "next") {
            Some(TicketStatus::Next)
        } else if str_eq(name, "in_progress") {
            Some(TicketStatus::InProgress)
        } else if str_eq(name, "complete") {
            Some(TicketStatus::Complete)
        } else if str_eq(name, "cancelled") {
            Some(TicketStatus::Cancelled)
        } else {
            None
        }
    }

    /// Parses a status, ignoring case: the lowercased text must be a
    /// canonical name; otherwise the error carries the original text.
    pub fn parse_str(s: &str) -> (r: Result<TicketStatus, JanusError>)
        ensures
            match status_named(lowercase(s@)) {
                Some(st) => r == Ok::<TicketStatus, JanusError>(st),
                None => r matches Err(JanusError::InvalidStatus(t)) && t@ == s@,
            },
    {
        let lower = to_lowercase(s);
        match TicketStatus::from_name(lower.as_str()) {
            Some(st) => Ok(st),
            None => Err(JanusError::InvalidStatus(owned(s))),
        }
    }
}

impl std::str::FromStr for TicketStatus {
    type Err = JanusError;

    fn from_str(s: &str) -> (r: Result<Self, Self::Err>)
        ensures
            match status_named(lowercase(s@)) {
                Some(st) => r == Ok::<TicketStatus, JanusError>(st),
                None => r matches Err(JanusError::InvalidStatus(t)) && t@ == s@,
            },
    {
        TicketStatus::parse_str(s)
    }
}

/// Canonical status names, in declaration order.
pub const VALID_STATUSES: [&'static str; 5] = ["new", "next", "in_progress", "complete", "cancelled"];

/// Each status is named back by its canonical name.
pub proof fn lemma_status_name_roundtrip(s: TicketStatus)
    ensures
        status_named(status_name(s)) == Some(s),
{
    reveal_strlit("new");
    reveal_strlit("next");
    reveal_strlit("in_progress");
    reveal_strlit("complete");
    reveal_strlit("cancelled");
    assert("new"@.len() == 3 && "new"@[0] == 'n');
    assert("next"@.len() == 4 && "next"@[0] == 'n');
    assert("in_progress"@.len() == 11 && "in_progress"@[0] == 'i');
    assert("complete"@.len() == 8 && "complete"@[0] == 'c');
    assert("cancelled"@.len() == 9 && "cancelled"@[0] == 'c');
}

// ---------------------------------------------------------------------------
// Ticket type
// ---------------------------------------------------------------------------

/// Kind of work a ticket describes.
#[derive(Debug, Clone, Copy, PartialEq, Eq, Default, Structural)]
pub enum TicketType {
    Bug,
    Feature,
    #[default]
    Task,
    Epic,
    Chore,
}

/// The canonical name of a ticket type.
pub open spec fn ticket_type_name(t: TicketType) -> Seq<char> {
    match t {
        TicketType::Bug => "bug"@,
        TicketType::Feature => "feature"@,
        TicketType::Task => "task"@,
        TicketType::Epic => "epic"@,
        TicketType::Chore => "chore"@,
    }
}

/// The ticket type whose canonical name is `s`, if any.
pub open spec fn ticket_type_named(s: Seq<char>) -> Option<TicketType> {
    if s == "bug"@ {
        Some(TicketType::Bug)
    } else if s == "feature"@ {
        Some(TicketType::Feature)
    } else if s == "task"@ {
        Some(TicketType::Task)
    } else if s == "epic"@ {
        Some(TicketType::Epic)
    } else if s == "chore"@ {
        Some(TicketType::Chore)
    } else {
        None
    }
}

impl TicketType {
    /// The canonical name of this type.
    pub fn as_str(&self) -> (r: &'static str)
        ensures
            r@ == ticket_type_name(*self),
    {
        match self {
            TicketType::Bug => "bug",
            TicketType::Feature => "feature",
            TicketType::Task => "task",
            TicketType::Epic => "epic",
            TicketType::Chore => "chore",
        }
    }

    /// The canonical name of this type, owned.
    pub fn to_string(&self) -> (r: String)
        ensures
            r@ == ticket_type_name(*self),
    {
        owned(self.as_str())
    }

    /// The type whose canonical name is exactly `name`.
    pub fn from_name(name: &str) -> (r: Option<TicketType>)
        ensures
            r == ticket_type_named(name@),
    {
        if str_eq(name, "bug") {
            Some(TicketType::Bug)
        } else if str_eq(name, "feature") {
            Some(TicketType::Feature)
        } else if str_eq(name, "task") {
            Some(TicketType::Task)
        } else if str_eq(name, "epic") {
            Some(TicketType::Epic)
        } else if str_eq(name, "chore") {
            Some(TicketType::Chore)
        } else {
            None
        }
    }

    /// Parses a ticket type, ignoring case.
    pub fn parse_str(s: &str) -> (r: Result<TicketType, JanusError>)
        ensures
            match ticket_type_named(lowercase(s@)) {
                Some(t) => r == Ok::<TicketType, JanusError>(t),
                None => r matches Err(JanusError::InvalidTicketType(t)) && t@ == s@,
            },
    {
        let lower = to_lowercase(s);
        match TicketType::from_name(lower.as_str()) {
            Some(t) => Ok(t),
            None => Err(JanusError::InvalidTicketType(owned(s))),
        }
    }
}

impl std::str::FromStr for TicketType {
    type Err = JanusError;

    fn from_str(s: &str) -> (r: Result<Self, Self::Err>)
        ensures
            match ticket_type_named(lowercase(s@)) {
                Some(t) => r == Ok::<TicketType, JanusError>(t),
                None => r matches Err(JanusError::InvalidTicketType(t)) && t@ == s@,
            },
    {
        TicketType::parse_str(s)
    }
}

/// Canonical ticket-type names, in declaration order.
pub const VALID_TYPES: [&'static str; 5] = ["bug", "feature", "task", "epic", "chore"];

/// Each ticket type is named back by its canonical name.
pub proof fn lemma_type_name_roundtrip(t: TicketType)
    ensures
        ticket_type_named(ticket_type_name(t)) == Some(t),
{
    reveal_strlit("bug");
    reveal_strlit("feature");
    reveal_strlit("task");
    reveal_strlit("epic");
    reveal_strlit("chore");
    assert("bug"@.len() == 3 && "bug"@[0] == 'b');
    assert("feature"@.len() == 7 && "feature"@[0] == 'f');
    assert("task"@.len() == 4 && "task"@[0] == 't');
    assert("epic"@.len() == 4 && "epic"@[0] == 'e');
    assert("chore"@.len() == 5 && "chore"@[0] == 'c');
}

// ---------------------------------------------------------------------------
// Entity type
// ---------------------------------------------------------------------------

/// Kind of tracked item.
#[derive(Debug, Clone, Copy, PartialEq, Eq, Hash, Structural)]
pub enum EntityType {
    Ticket,
    Plan,
}

/// The canonical name of an entity type.
pub open spec fn entity_name(e: EntityType) -> Seq<char> {
    match e {
        EntityType::Ticket => "ticket"@,
        EntityType::Plan => "plan"@,
    }
}

/// The entity type whose canonical name is `s`, if any.
pub open spec fn entity_named(s: Seq<char>) -> Option<EntityType> {
    if s == "ticket"@ {
        Some(EntityType::Ticket)
    } else if s == "plan"@ {
        Some(EntityType::Plan)
    } else {
        None
    }
}

impl EntityType {
    /// The canonical name of this entity type.
    pub fn as_str(&self) -> (r: &'static str)
        ensures
            r@ == entity_name(*self),
    {
        match self {
            EntityType::Ticket => "ticket",
            EntityType::Plan => "plan",
        }
    }

    /// Parses an entity type, ignoring case.
    pub fn parse_str(s: &str) -> (r: Result<EntityType, JanusError>)
        ensures
            match entity_named(lowercase(s@)) {
                Some(e) => r == Ok::<EntityType, JanusError>(e),
                None => r matches Err(JanusError::InvalidEntityType(t)) && t@ == s@,
            },
    {
        let lower = to_lowercase(s);
        if str_eq(lower.as_str(), "ticket") {
            Ok(EntityType::Ticket)
        } else if str_eq(lower.as_str(), "plan") {
            Ok(EntityType::Plan)
        } else {
            Err(JanusError::InvalidEntityType(owned(s)))
        }
    }
}

impl std::str::FromStr for EntityType {
    type Err = JanusError;

    fn from_str(s: &str) -> (r: Result<Self, Self::Err>)
        ensures
            match entity_named(lowercase(s@)) {
                Some(e) => r == Ok::<EntityType, JanusError>(e),
                None => r matches Err(JanusError::InvalidEntityType(t)) && t@ == s@,
            },
    {
        EntityType::parse_str(s)
    }
}

// ---------------------------------------------------------------------------
// Ticket priority
// ---------------------------------------------------------------------------

/// Ticket priority, P0 (highest) to P4 (lowest).
#[derive(Debug, Clone, Copy, PartialEq, Eq, Default, Structural)]
pub enum TicketPriority {
    P0,
    P1,
    #[default]
    P2,
    P3,
    P4,
}

/// The number of a priority.
pub open spec fn priority_num_of(p: TicketPriority) -> u8 {
    match p {
        TicketPriority::P0 => 0,
        TicketPriority::P1 => 1,
        TicketPriority::P2 => 2,
        TicketPriority::P3 => 3,
        TicketPriority::P4 => 4,
    }
}

/// The canonical name of a priority (its number).
pub open spec fn priority_name(p: TicketPriority) -> Seq<char> {
    match p {
        TicketPriority::P0 => "0"@,
        TicketPriority::P1 => "1"@,
        TicketPriority::P2 => "2"@,
        TicketPriority::P3 => "3"@,
        TicketPriority::P4 => "4"@,
    }
}

/// The priority whose canonical name is `s`, if any.
pub open spec fn priority_named(s: Seq<char>) -> Option<TicketPriority> {
    if s == "0"@ {
        Some(TicketPriority::P0)
    } else if s == "1"@ {
        Some(TicketPriority::P1)
    } else if s == "2"@ {
        Some(TicketPriority::P2)
    } else if s == "3"@ {
        Some(TicketPriority::P3)
    } else if s == "4"@ {
        Some(TicketPriority::P4)
    } else {
        None
    }
}

impl TicketPriority {
    /// The priority as a number from 0 to 4.
    pub fn as_num(&self) -> (r: u8)
        ensures
            r == priority_num_of(*self),
            r <= 4,
    {
        match self {
            TicketPriority::P0 => 0,
            TicketPriority::P1 => 1,
            TicketPriority::P2 => 2,
            TicketPriority::P3 => 3,
            TicketPriority::P4 => 4,
        }
    }

    /// The canonical name of this priority.
    pub fn as_str(&self) -> (r: &'static str)
        ensures
            r@ == priority_name(*self),
    {
        match self {
            TicketPriority::P0 => "0",
            TicketPriority::P1 => "1",
            TicketPriority::P2 => "2",
            TicketPriority::P3 => "3",
            TicketPriority::P4 => "4",
        }
    }

    /// The canonical name of this priority, owned.
    pub fn to_string(&self) -> (r: String)
        ensures
            r@ == priority_name(*self),
    {
        owned(self.as_str())
    }

    /// Parses a priority, ignoring case.
    pub fn parse_str(s: &str) -> (r: Result<TicketPriority, JanusError>)
        ensures
            match priority_named(lowercase(s@)) {
                Some(p) => r == Ok::<TicketPriority, JanusError>(p),
                None => r matches Err(JanusError::InvalidPriority(t)) && t@ == s@,
            },
    {
        let lower = to_lowercase(s);
        let l = lower.as_str();
        if str_eq(l, "0") {
            Ok(TicketPriority::P0)
        } else if str_eq(l, "1") {
            Ok(TicketPriority::P1)
        } else if str_eq(l, "2") {
            Ok(TicketPriority::P2)
        } else if str_eq(l, "3") {
            Ok(TicketPriority::P3)
        } else if str_eq(l, "4") {
            Ok(TicketPriority::P4)
        } else {
            Err(JanusError::InvalidPriority(owned(s)))
        }
    }
}

impl std::str::FromStr for TicketPriority {
    type Err = JanusError;

    fn from_str(s: &str) -> (r: Result<Self, Self::Err>)
        ensures
            match priority_named(lowercase(s@)) {
                Some(p) => r == Ok::<TicketPriority, JanusError>(p),
                None => r matches Err(JanusError::InvalidPriority(t)) && t@ == s@,
            },
    {
        TicketPriority::parse_str(s)
    }
}

/// Canonical priority names.
pub const VALID_PRIORITIES: [&'static str; 5] = ["0", "1", "2", "3", "4"];

/// Each priority is named back by its canonical name.
pub proof fn lemma_priority_name_roundtrip(p: TicketPriority)
    ensures
        priority_named(priority_name(p)) == Some(p),
{
    reveal_strlit("0");
    reveal_strlit("1");
    reveal_strlit("2");
    reveal_strlit("3");
    reveal_strlit("4");
    assert("0"@.len() == 1 && "0"@[0] == '0');
    assert("1"@.len() == 1 && "1"@[0] == '1');
    assert("2"@.len() == 1 && "2"@[0] == '2');
    assert("3"@.len() == 1 && "3"@[0] == '3');
    assert("4"@.len() == 1 && "4"@[0] == '4');
}

// ---------------------------------------------------------------------------
// Ticket fields
// ---------------------------------------------------------------------------

/// A frontmatter field of a ticket.
#[derive(Debug, Clone, Copy, PartialEq, Eq, Structural)]
pub enum TicketField {
    Id,
    Uuid,
    Status,
    Deps,
    Links,
    Created,
    Type,
    Priority,
    ExternalRef,
    Remote,
    Parent,
    SpawnedFrom,
    SpawnContext,
    Depth,
    Triaged,
}

/// The frontmatter key of a field.
pub open spec fn field_name(f: TicketField) -> Seq<char> {
    match f {
        TicketField::Id => "id"@,
        TicketField::Uuid => "uuid"@,
        TicketField::Status => "status"@,
        TicketField::Deps => "deps"@,
        TicketField::Links => "links"@,
        TicketField::Created => "created"@,
        TicketField::Type => "type"@,
        TicketField::Priority => "priority"@,
        TicketField::ExternalRef => "external-ref"@,
        TicketField::Remote => "remote"@,
        TicketField::Parent => "parent"@,
        TicketField::SpawnedFrom => "spawned-from"@,
        TicketField::SpawnContext => "spawn-context"@,
        TicketField::Depth => "depth"@,
        TicketField::Triaged => "triaged"@,
    }
}

/// The field whose key is exactly `s`, if any.
pub open spec fn field_named(s: Seq<char>) -> Option<TicketField> {
    if s == "id"@ {
        Some(TicketField::Id)
    } else if s == "uuid"@ {
        Some(TicketField::Uuid)
    } else if s == "status"@ {
        Some(TicketField::Status)
    } else if s == "deps"@ {
        Some(TicketField::Deps)
    } else if s == "links"@ {
        Some(TicketField::Links)
    } else if s == "created"@ {
        Some(TicketField::Created)
    } else if s == "type"@ {
        Some(TicketField::Type)
    } else if s == "priority"@ {
        Some(TicketField::Priority)
    } else if s == "external-ref"@ {
        Some(TicketField::ExternalRef)
    } else if s == "remote"@ {
        Some(TicketField::Remote)
    } else if s == "parent"@ {
        Some(TicketField::Parent)
    } else if s == "spawned-from"@ {
        Some(TicketField::SpawnedFrom)
    } else if s == "spawn-context"@ {
        Some(TicketField::SpawnContext)
    } else if s == "depth"@ {
        Some(TicketField::Depth)
    } else if s == "triaged"@ {
        Some(TicketField::Triaged)
    } else {
        None
    }
}

/// Fields that can never be changed once a ticket exists.
pub open spec fn field_is_immutable(f: TicketField) -> bool {
    f == TicketField::Id || f == TicketField::Uuid
}

/// Every field, in declaration order.
pub open spec fn all_fields() -> Seq<TicketField> {
    seq![
        TicketField::Id,
        TicketField::Uuid,
        TicketField::Status,
        TicketField::Deps,
        TicketField::Links,
        TicketField::Created,
        TicketField::Type,
        TicketField::Priority,
        TicketField::ExternalRef,
        TicketField::Remote,
        TicketField::Parent,
        TicketField::SpawnedFrom,
        TicketField::SpawnContext,
        TicketField::Depth,
        TicketField::Triaged,
    ]
}

impl TicketField {
    /// Whether the field is immutable (`id` and `uuid`).
    pub fn is_immutable(&self) -> (r: bool)
        ensures
            r == field_is_immutable(*self),
    {
        matches!(self, TicketField::Id | TicketField::Uuid)
    }

    /// The field's frontmatter key.
    pub fn as_str(&self) -> (r: &'static str)
        ensures
            r@ == field_name(*self),
    {
        match self {
            TicketField::Id => "id",
            TicketField::Uuid => "uuid",
            TicketField::Status => "status",
            TicketField::Deps => "deps",
            TicketField::Links => "links",
            TicketField::Created => "created",
            TicketField::Type => "type",
            TicketField::Priority => "priority",
            TicketField::ExternalRef => "external-ref",
            TicketField::Remote => "remote",
            TicketField::Parent => "parent",
            TicketField::SpawnedFrom => "spawned-from",
            TicketField::SpawnContext => "spawn-context",
            TicketField::Depth => "depth",
            TicketField::Triaged => "triaged",
        }
    }

    /// The field's frontmatter key, owned.
    pub fn to_string(&self) -> (r: String)
        ensures
            r@ == field_name(*self),
    {
        owned(self.as_str())
    }

    /// Every field, in declaration order.
    pub fn all() -> (r: Vec<TicketField>)
        ensures
            r@ == all_fields(),
    {
        let r = vec![
            TicketField::Id,
            TicketField::Uuid,
            TicketField::Status,
            TicketField::Deps,
            TicketField::Links,
            TicketField::Created,
            TicketField::Type,
            TicketField::Priority,
            TicketField::ExternalRef,
            TicketField::Remote,
            TicketField::Parent,
            TicketField::SpawnedFrom,
            TicketField::SpawnContext,
            TicketField::Depth,
            TicketField::Triaged,
        ];
        assert(r@ =~= all_fields());
        r
    }

    /// The field whose key is exactly `name` (keys are case-sensitive).
    pub fn from_name(name: &str) -> (r: Option<TicketField>)
        ensures
            r == field_named(name@),
    {
        if str_eq(name, "id") {
            Some(TicketField::Id)
        } else if str_eq(name, "uuid") {
            Some(TicketField::Uuid)
        } else if str_eq(name, "status") {
            Some(TicketField::Status)
        } else if str_eq(name, "deps") {
            Some(TicketField::Deps)
        } else if str_eq(name, "links") {
            Some(TicketField::Links)
        } else if str_eq(name, "created") {
            Some(TicketField::Created)
        } else if str_eq(name, "type") {
            Some(TicketField::Type)
        } else if str_eq(name, "priority") {
            Some(TicketField::Priority)
        } else if str_eq(name, "external-ref") {
            Some(TicketField::ExternalRef)
        } else if str_eq(name, "remote") {
            Some(TicketField::Remote)
        } else if str_eq(name, "parent") {
            Some(TicketField::Parent)
        } else if str_eq(name, "spawned-from") {
            Some(TicketField::SpawnedFrom)
        } else if str_eq(name, "spawn-context") {
            Some(TicketField::SpawnContext)
        } else if str_eq(name, "depth") {
            Some(TicketField::Depth)
        } else if str_eq(name, "triaged") {
            Some(TicketField::Triaged)
        } else {
            None
        }
    }

    /// The keys of all fields, in declaration order.
    pub fn all_names() -> (r: Vec<String>)
        ensures
            r@.len() == all_fields().len(),
            forall|i: int| 0 <= i < r@.len() ==> #[trigger] r@[i]@ == field_name(all_fields()[i]),
    {
        let fields = TicketField::all();
        let mut names: Vec<String> = Vec::new();
        let mut i: usize = 0;
        while i < fields.len()
            invariant
                fields@ == all_fields(),
                i <= fields@.len(),
                names@.len() == i,
                forall|j: int| 0 <= j < i ==> #[trigger] names@[j]@ == field_name(all_fields()[j]),
            decreases fields@.len() - i,
        {
            names.push(fields[i].to_string());
            i = i + 1;
        }
        names
    }

    /// Parses a field key; an unknown key yields `InvalidField` listing all keys.
    pub fn parse_str(s: &str) -> (r: Result<TicketField, JanusError>)
        ensures
            match field_named(s@) {
                Some(f) => r == Ok::<TicketField, JanusError>(f),
                None => r matches Err(JanusError::InvalidField { field, valid_fields }) && field@
                    == s@ && valid_fields@.len() == all_fields().len() && (forall|i: int|
                    0 <= i < valid_fields@.len() ==> #[trigger] valid_fields@[i]@ == field_name(
                        all_fields()[i],
                    )),
            },
    {
        match TicketField::from_name(s) {
            Some(f) => Ok(f),
            None => Err(JanusError::InvalidField { field: owned(s), valid_fields: TicketField::all_names() }),
        }
    }
}

impl std::str::FromStr for TicketField {
    type Err = JanusError;

    fn from_str(s: &str) -> (r: Result<Self, Self::Err>)
        ensures
            match field_named(s@) {
                Some(f) => r == Ok::<TicketField, JanusError>(f),
                None => r matches Err(JanusError::InvalidField { field, valid_fields }) && field@
                    == s@ && valid_fields@.len() == all_fields().len() && (forall|i: int|
                    0 <= i < valid_fields@.len() ==> #[trigger] valid_fields@[i]@ == field_name(
                        all_fields()[i],
                    )),
            },
    {
        TicketField::parse_str(s)
    }
}

/// Every frontmatter key.
pub const VALID_TICKET_FIELDS: [&'static str; 15] = [
    "id",
    "uuid",
    "status",
    "deps",
    "links",
    "created",
    "type",
    "priority",
    "external-ref",
    "remote",
    "parent",
    "spawned-from",
    "spawn-context",
    "depth",
    "triaged",
];

/// Keys of the immutable fields.
pub const IMMUTABLE_TICKET_FIELDS: [&'static str; 2] = ["id", "uuid"];

/// Each field is named back by its key.
pub proof fn lemma_field_name_roundtrip(f: TicketField)
    ensures
        field_named(field_name(f)) == Some(f),
{
    reveal_strlit("id");
    reveal_strlit("uuid");
    reveal_strlit("status");
    reveal_strlit("deps");
    reveal_strlit("links");
    reveal_strlit("created");
    reveal_strlit("type");
    reveal_strlit("priority");
    reveal_strlit("external-ref");
    reveal_strlit("remote");
    reveal_strlit("parent");
    reveal_strlit("spawned-from");
    reveal_strlit("spawn-context");
    reveal_strlit("depth");
    reveal_strlit("triaged");
    assert("id"@.len() == 2 && "id"@[0] == 'i');
    assert("uuid"@.len() == 4 && "uuid"@[0] == 'u');
    assert("status"@.len() == 6 && "status"@[0] == 's');
    assert("deps"@.len() == 4 && "deps"@[0] == 'd');
    assert("links"@.len() == 5 && "links"@[0] == 'l');
    assert("created"@.len() == 7 && "created"@[0] == 'c');
    assert("type"@.len() == 4 && "type"@[0] == 't');
    assert("priority"@.len() == 8 && "priority"@[0] == 'p');
    assert("external-ref"@.len() == 12 && "external-ref"@[0] == 'e');
    assert("remote"@.len() == 6 && "remote"@[0] == 'r');
    assert("parent"@.len() == 6 && "parent"@[0] == 'p');
    assert("spawned-from"@.len() == 12 && "spawned-from"@[0] == 's');
    assert("spawn-context"@.len() == 13 && "spawn-context"@[0] == 's');
    assert("depth"@.len() == 5 && "depth"@[0] == 'd');
    assert("triaged"@.len() == 7 && "triaged"@[0] == 't');
}

/// The message for an attempt to `operation` an immutable field named `name`.
pub open spec fn immutable_field_message(operation: Seq<char>, name: Seq<char>) -> Seq<char> {
    "cannot "@ + operation + " immutable field '"@ + name + "'"@
}

/// Checks that `field` names a ticket field that may be changed by `operation`.
pub fn validate_field_name(field: &str, operation: &str) -> (r: Result<(), JanusError>)
    ensures
        match field_named(field@) {
            None => r matches Err(JanusError::InvalidField { field: f, valid_fields }) && f@
                == field@ && valid_fields@.len() == all_fields().len() && (forall|i: int|
                0 <= i < valid_fields@.len() ==> #[trigger] valid_fields@[i]@ == field_name(
                    all_fields()[i],
                )),
            Some(f) => if field_is_immutable(f) {
                r matches Err(JanusError::Other(m)) && m@ == immutable_field_message(
                    operation@,
                    field_name(f),
                )
            } else {
                r is Ok
            },
        },
{
    let parsed = match TicketField::parse_str(field) {
        Ok(f) => f,
        Err(e) => {
            return Err(e);
        },
    };
    if parsed.is_immutable() {
        let a = concat("cannot ", operation);
        let b = concat(a.as_str(), " immutable field '");
        let c = concat(b.as_str(), parsed.as_str());
        let d = concat(c.as_str(), "'");
        return Err(JanusError::Other(d));
    }
    Ok(())
}

// ---------------------------------------------------------------------------
// Ticket metadata
// ---------------------------------------------------------------------------

/// Frontmatter and derived data of one ticket.
#[derive(Debug, Default)]
pub struct TicketMetadata {
    pub id: Option<String>,
    pub uuid: Option<String>,
    pub title: Option<String>,
    pub status: Option<TicketStatus>,
    pub deps: Vec<String>,
    pub links: Vec<String>,
    pub created: Option<String>,
    pub ticket_type: Option<TicketType>,
    pub priority: Option<TicketPriority>,
    pub external_ref: Option<String>,
    /// Remote issue reference (e.g. "github:owner/repo/123" or "linear:org/PROJ-123").
    pub remote: Option<String>,
    pub parent: Option<String>,
    /// Id of the ticket this one was spawned from.
    pub spawned_from: Option<String>,
    /// Why this ticket was spawned from its parent.
    pub spawn_context: Option<String>,
    /// Decomposition depth (0 for a root ticket).
    pub depth: Option<u32>,
    /// Whether the ticket has been triaged.
    pub triaged: Option<bool>,
    /// Path of the ticket's file.
    pub file_path: Option<String>,
    /// Completion summary taken from the ticket body.
    pub completion_summary: Option<String>,
    /// Ticket body.
    pub body: Option<String>,
}

/// The characters of an optional string.
pub open spec fn opt_text(o: Option<String>) -> Option<Seq<char>> {
    match o {
        Some(s) => Some(s@),
        None => None,
    }
}

/// Two tickets hold the same data (strings compared by their characters).
pub open spec fn same_ticket(a: TicketMetadata, b: TicketMetadata) -> bool {
    &&& opt_text(a.id) == opt_text(b.id)
    &&& opt_text(a.uuid) == opt_text(b.uuid)
    &&& opt_text(a.title) == opt_text(b.title)
    &&& a.status == b.status
    &&& a.deps.deep_view() == b.deps.deep_view()
    &&& a.links.deep_view() == b.links.deep_view()
    &&& opt_text(a.created) == opt_text(b.created)
    &&& a.ticket_type == b.ticket_type
    &&& a.priority == b.priority
    &&& opt_text(a.external_ref) == opt_text(b.external_ref)
    &&& opt_text(a.remote) == opt_text(b.remote)
    &&& opt_text(a.parent) == opt_text(b.parent)
    &&& opt_text(a.spawned_from) == opt_text(b.spawned_from)
    &&& opt_text(a.spawn_context) == opt_text(b.spawn_context)
    &&& a.depth == b.depth
    &&& a.triaged == b.triaged
    &&& opt_text(a.file_path) == opt_text(b.file_path)
    &&& opt_text(a.completion_summary) == opt_text(b.completion_summary)
    &&& opt_text(a.body) == opt_text(b.body)
}

/// A copy of an optional string.
pub fn clone_opt_string(o: &Option<String>) -> (r: Option<String>)
    ensures
        opt_text(r) == opt_text(*o),
{
    match o {
        Some(s) => Some(s.clone()),
        None => None,
    }
}

/// A copy of a list of strings.
pub fn clone_strings(v: &Vec<String>) -> (r: Vec<String>)
    ensures
        r.deep_view() == v.deep_view(),
{
    let mut r: Vec<String> = Vec::new();
    let mut i: usize = 0;
    while i < v.len()
        invariant
            i <= v@.len(),
            r@.len() == i,
            forall|j: int| 0 <= j < i ==> #[trigger] r@[j]@ == v@[j]@,
        decreases v@.len() - i,
    {
        r.push(v[i].clone());
        i = i + 1;
    }
    assert(r.deep_view() =~= v.deep_view());
    r
}

impl Clone for TicketMetadata {
    fn clone(&self) -> (r: Self)
        ensures
            same_ticket(r, *self),
    {
        TicketMetadata {
            id: clone_opt_string(&self.id),
            uuid: clone_opt_string(&self.uuid),
            title: clone_opt_string(&self.title),
            status: self.status,
            deps: clone_strings(&self.deps),
            links: clone_strings(&self.links),
            created: clone_opt_string(&self.created),
            ticket_type: self.ticket_type,
            priority: self.priority,
            external_ref: clone_opt_string(&self.external_ref),
            remote: clone_opt_string(&self.remote),
            parent: clone_opt_string(&self.parent),
            spawned_from: clone_opt_string(&self.spawned_from),
            spawn_context: clone_opt_string(&self.spawn_context),
            depth: self.depth,
            triaged: self.triaged,
            file_path: clone_opt_string(&self.file_path),
            completion_summary: clone_opt_string(&self.completion_summary),
            body: clone_opt_string(&self.body),
        }
    }
}

/// A ticket's priority number, 2 when none is set.
pub open spec fn ticket_priority_num(t: TicketMetadata) -> u8 {
    match t.priority {
        Some(p) => priority_num_of(p),
        None => 2,
    }
}

/// A ticket's effective decomposition depth.
pub open spec fn ticket_depth(t: TicketMetadata) -> u32 {
    match t.depth {
        Some(d) => d,
        None => if t.spawned_from is None {
            0
        } else {
            1
        },
    }
}

impl TicketMetadata {
    /// The priority as a number for sorting (2 when none is set).
    pub fn priority_num(&self) -> (r: u8)
        ensures
            r == ticket_priority_num(*self),
            r <= 4,
    {
        match self.priority {
            Some(p) => p.as_num(),
            None => 2,
        }
    }

    /// The explicit depth, or 0 for a root ticket and 1 for a spawned one.
    pub fn compute_depth(&self) -> (r: u32)
        ensures
            r == ticket_depth(*self),
    {
        match self.depth {
            Some(d) => d,
            None => if self.spawned_from.is_none() {
                0
            } else {
                1
            },
        }
    }

    /// The ticket's id.
    pub fn id(&self) -> (r: Option<&str>)
        ensures
            r is Some <==> self.id is Some,
            r is Some ==> r->0@ == self.id->0@,
    {
        match &self.id {
            Some(s) => Some(s.as_str()),
            None => None,
        }
    }

    /// The ticket's UUID.
    pub fn uuid(&self) -> (r: Option<&str>)
        ensures
            r is Some <==> self.uuid is Some,
            r is Some ==> r->0@ == self.uuid->0@,
    {
        match &self.uuid {
            Some(s) => Some(s.as_str()),
            None => None,
        }
    }

    /// The ticket's title.
    pub fn title(&self) -> (r: Option<&str>)
        ensures
            r is Some <==> self.title is Some,
            r is Some ==> r->0@ == self.title->0@,
    {
        match &self.title {
            Some(s) => Some(s.as_str()),
            None => None,
        }
    }

    /// The path of the ticket's file.
    pub fn file_path(&self) -> (r: Option<&String>)
        ensures
            r is Some <==> self.file_path is Some,
            r is Some ==> *r->0 == self.file_path->0,
    {
        self.file_path.as_ref()
    }

    /// The kind of item: always a ticket.
    pub fn item_type(&self) -> (r: EntityType)
        ensures
            r == EntityType::Ticket,
    {
        EntityType::Ticket
    }

    /// The hook context of this ticket: its item type, id and file path.
    pub fn hook_context(&self) -> (r: HookContext)
        ensures
            hook_context_of(r, EntityType::Ticket, self.id, self.file_path),
    {
        let mut ctx = HookContext::new().with_item_type(self.item_type());
        if let Some(id) = self.id() {
            ctx = ctx.with_item_id(id);
        }
        if let Some(fp) = self.file_path() {
            ctx = ctx.with_file_path(fp.as_str());
        }
        ctx
    }
}

/// A ticket together with the ids of its open blockers.
#[derive(Debug)]
pub struct TicketWithBlockers {
    pub metadata: TicketMetadata,
    pub open_blockers: Vec<String>,
}

} // verus!
