use vstd::prelude::*;

verus! {

/// The outcome reported on a span.
///
/// A span starts out `Unset`; at most one `Error` may land on it, and `Ok`
/// is final.  The full rule is [`status_transition`].
#[derive(Debug, Clone)]
pub enum Status {
    /// Nothing has been reported yet.
    Unset,
    /// The unit of work failed; the message describes how.
    Error(String),
    /// The unit of work completed successfully.
    Okay,
}

/// The monotonic status rule, along the order `Unset < Error < Ok`:
/// setting `Unset` is always ignored, `Error` lands only while the current
/// status is `Unset` (so the first error and its message are kept), and
/// `Ok` is terminal.
pub open spec fn status_transition(current: Status, next: Status) -> Status {
    match next {
        Status::Unset => current,
        Status::Error(_) => if current is Unset {
            next
        } else {
            current
        },
        Status::Okay => Status::Okay,
    }
}

impl Status {
    /// Whether nothing has been reported yet.
    pub fn is_unset(&self) -> (r: bool)
        ensures
            r == (self is Unset),
    {
        match self {
            Status::Unset => true,
            _ => false,
        }
    }

    /// Whether the status is `Ok`.
    pub fn is_ok(&self) -> (r: bool)
        ensures
            r == (self is Okay),
    {
        match self {
            Status::Okay => true,
            _ => false,
        }
    }

    /// The error message, when the status is `Error`.
    pub fn error_message(&self) -> (r: Option<&String>)
        ensures
            match r {
                Some(m) => self == Status::Error(*m),
                None => !(self is Error),
            },
    {
        match self {
            Status::Error(m) => Some(m),
            _ => None,
        }
    }
}

/// Applies the monotonic status rule once: the status a span holds after
/// `next` is reported while it holds `current`.
pub fn apply_status(current: Status, next: Status) -> (r: Status)
    ensures
        r == status_transition(current, next),
{
    let current_is_unset: bool = match &current {
        Status::Unset => true,
        _ => false,
    };
    match &next {
        Status::Unset => current,
        Status::Error(_) => if current_is_unset {
            next
        } else {
            current
        },
        Status::Okay => Status::Okay,
    }
}

/// Status updates are monotonic along `Unset < Error < Ok`: `Ok` is
/// terminal, `Unset` never overwrites anything, the first `Error` wins
/// (later errors are ignored together with their messages), and an `Error`
/// lands exactly when the current status is `Unset`.
pub proof fn lemma_status_monotonic()
    ensures
        forall|next: Status| status_transition(Status::Okay, next) == Status::Okay,
        forall|current: Status| status_transition(current, Status::Unset) == current,
        forall|m1: String, m2: String|
            status_transition(Status::Error(m1), Status::Error(m2)) == Status::Error(m1),
        forall|m: String| status_transition(Status::Unset, Status::Error(m)) == Status::Error(m),
        forall|current: Status, m: String|
            !(current is Unset) ==> status_transition(current, Status::Error(m)) == current,
{
}

} // verus!
