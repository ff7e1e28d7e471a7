//! Shared identifiers and status enums used across cron jobs, monitors and
//! loops.

use vstd::prelude::*;

verus! {

/// Unique identifier for a scheduling task. Opaque newtype so the
/// representation (currently a v4 UUID string) can change without breaking
/// callers.
#[derive(Debug, PartialEq, Eq, Hash)]
pub struct TaskId(String);

impl Clone for TaskId {
    fn clone(&self) -> (r: TaskId)
        ensures
            r == *self,
    {
        TaskId(self.0.clone())
    }
}

impl View for TaskId {
    type V = Seq<char>;

    closed spec fn view(&self) -> Seq<char> {
        self.0@
    }
}

/// A lowercase hexadecimal digit.
pub open spec fn lower_hex(c: char) -> bool {
    ('0' <= c && c <= '9') || ('a' <= c && c <= 'f')
}

/// `s` is the hyphenated lowercase text of a version-4 UUID: 36
/// characters, hyphens at 8, 13, 18 and 23, lowercase hexadecimal digits
/// elsewhere, the version digit `4` at 14 and a variant digit `8`, `9`, `a`
/// or `b` at 19.
pub open spec fn uuid_v4_text(s: Seq<char>) -> bool {
    &&& s.len() == 36
    &&& forall|i: int|
        0 <= i < 36 ==> if i == 8 || i == 13 || i == 18 || i == 23 {
            s[i] == '-'
        } else {
            lower_hex(#[trigger] s[i])
        }
    &&& s[14] == '4'
    &&& (s[19] == '8' || s[19] == '9' || s[19] == 'a' || s[19] == 'b')
}

/// `uuid::Uuid::new_v4()` rendered with `to_string()`: a fresh random UUID
/// in the hyphenated lowercase form `Display` writes, with the version and
/// variant bits `new_v4` sets. Which UUID comes back is chance; only its
/// shape is stated.
#[verifier::external_body]
fn fresh_uuid_v4() -> (r: String)
    ensures
        uuid_v4_text(r@),
{
    uuid::Uuid::new_v4().to_string()
}

impl TaskId {
    /// A fresh identifier (a random v4 UUID string).
    pub fn new() -> (r: TaskId)
        ensures
            uuid_v4_text(r@),
    {
        let s = fresh_uuid_v4();
        let r = TaskId(s);
        proof {
            assert(r@ == s@);
        }
        r
    }

    /// The identifier wrapping the given text.
    pub fn from_string(value: String) -> (r: TaskId)
        ensures
            r@ == value@,
    {
        TaskId(value)
    }

    pub fn as_str(&self) -> (r: &str)
        ensures
            r@ == self@,
    {
        self.0.as_str()
    }

    /// Whether two identifiers are the same text.
    pub fn same_as(&self, other: &TaskId) -> (r: bool)
        ensures
            r == (self@ == other@),
    {
        self.0 == other.0
    }

    /// A copy of this identifier.
    pub fn duplicate(&self) -> (r: TaskId)
        ensures
            r@ == self@,
    {
        TaskId(self.0.clone())
    }
}

impl From<String> for TaskId {
    fn from(value: String) -> (r: TaskId) {
        TaskId(value)
    }
}

impl vstd::std_specs::convert::FromSpecImpl<String> for TaskId {
    open spec fn obeys_from_spec() -> bool {
        true
    }

    open spec fn from_spec(v: String) -> TaskId {
        TaskId::from_string_spec(v)
    }
}

impl TaskId {
    pub closed spec fn from_string_spec(v: String) -> TaskId {
        TaskId(v)
    }

    pub broadcast proof fn lemma_from_string_view(v: String)
        ensures
            (#[trigger] TaskId::from_string_spec(v))@ == v@,
    {
    }
}

impl Default for TaskId {
    fn default() -> (r: TaskId)
        ensures
            uuid_v4_text(r@),
    {
        TaskId::new()
    }
}

/// Discriminator for the three task families.
#[derive(Debug, Clone, Copy, PartialEq, Eq, Hash, Structural)]
pub enum TaskKind {
    Cron,
    Monitor,
    Loop,
}

/// Lifecycle status for any scheduling task.
///
/// `Interrupted` is reserved for the resume path: tasks that were `Running`
/// when the host exited get marked `Interrupted` on session reload so the
/// user can decide whether to restart them.
#[derive(Debug, Clone, Copy, PartialEq, Eq, Hash, Structural)]
pub enum TaskStatus {
    Pending,
    Running,
    Completed,
    Failed,
    Killed,
    Interrupted,
}

/// The statuses after which a task never runs again.
pub open spec fn terminal(s: TaskStatus) -> bool {
    s is Completed || s is Failed || s is Killed || s is Interrupted
}

/// The variant's name, as `{:?}` prints it.
pub open spec fn status_name(s: TaskStatus) -> Seq<char> {
    match s {
        TaskStatus::Pending => "Pending"@,
        TaskStatus::Running => "Running"@,
        TaskStatus::Completed => "Completed"@,
        TaskStatus::Failed => "Failed"@,
        TaskStatus::Killed => "Killed"@,
        TaskStatus::Interrupted => "Interrupted"@,
    }
}

impl TaskStatus {
    pub fn is_terminal(&self) -> (r: bool)
        ensures
            r == terminal(*self),
    {
        match self {
            TaskStatus::Completed | TaskStatus::Failed | TaskStatus::Killed
            | TaskStatus::Interrupted => true,
            _ => false,
        }
    }

    /// The variant's name (`format!("{:?}", status)`).
    pub fn name(&self) -> (r: &'static str)
        ensures
            r@ == status_name(*self),
    {
        match self {
            TaskStatus::Pending => "Pending",
            TaskStatus::Running => "Running",
            TaskStatus::Completed => "Completed",
            TaskStatus::Failed => "Failed",
            TaskStatus::Killed => "Killed",
            TaskStatus::Interrupted => "Interrupted",
        }
    }
}

} // verus!
