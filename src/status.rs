//! What the `status` command shows of a session.
use crate::session::{name_view, Session, State};
use vstd::prelude::*;

verus! {

/// Options of the `status` command.
pub struct StatusOpts {
    /// Show the raw session record.
    pub raw: bool,
}

/// Somebody named in a status line, as seen by the user asking.
pub enum Who {
    /// The user asking.
    You,
    /// Somebody else.
    Named(String),
    /// Nobody in particular.
    Anyone,
}

/// `who` names `n` as seen by `me`.
pub open spec fn who_fits(who: Who, n: Option<String>, me: Seq<char>) -> bool {
    match n {
        None => who == Who::Anyone,
        Some(s) => if s@ == me {
            who == Who::You
        } else {
            who matches Who::Named(t) && t@ == s@
        },
    }
}

/// Names `n` as seen by `me`.
pub fn who_of(n: &Option<String>, me: &str) -> (r: Who)
    ensures
        who_fits(r, *n, me@),
{
    match n {
        None => Who::Anyone,
        Some(s) => {
            let m = me.to_owned();
            if *s == m {
                Who::You
            } else {
                Who::Named(s.clone())
            }
        },
    }
}

/// The name to point at on the roster: the driver, or who is to drive next.
pub open spec fn pointed(state: State) -> Option<String> {
    match state {
        State::Working { driver } => Some(driver),
        State::WaitingForNext { next } => next,
        _ => None,
    }
}

/// The name to point at on the roster, if any.
pub fn current_driver(session: &Session) -> (r: Option<String>)
    ensures
        r == pointed(session.state),
{
    match &session.state {
        State::Working { driver } => Some(driver.clone()),
        State::WaitingForNext { next } => match next {
            Some(n) => Some(n.clone()),
            None => None,
        },
        _ => None,
    }
}

/// For each name on the roster, in order, whether it is the one pointed at.
pub fn roster_marks(session: &Session) -> (r: Vec<bool>)
    ensures
        r@.len() == session.drivers@.len(),
        forall|i: int|
            0 <= i < r@.len() ==> r@[i] == (name_view(pointed(session.state)) == Some(
                session.drivers@[i],
            )),
{
    let current = current_driver(session);
    let names = session.drivers.all();
    let mut marks: Vec<bool> = Vec::new();
    let mut i: usize = 0;
    while i < names.len()
        invariant
            i <= names@.len(),
            names@.map_values(|s: String| s@) == session.drivers@,
            current == pointed(session.state),
            marks@.len() == i,
            forall|j: int|
                0 <= j < i ==> marks@[j] == (name_view(current) == Some(session.drivers@[j])),
        decreases names.len() - i,
    {
        assert(names@[i as int]@ == session.drivers@[i as int]);
        let m = match &current {
            Some(c) => *c == names[i],
            None => false,
        };
        marks.push(m);
        i = i + 1;
    }
    marks
}

} // verus!
