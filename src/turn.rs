//! The `next` command: the driver hands over, after committing and pushing what
//! changed, and possibly after a lunch or a break.
//!
//! The command is a machine that the caller drives. Each step answers with an
//! [`Action`]; the caller performs it and reports back an [`Event`]. Nothing is
//! saved until every version-control step has succeeded.
use crate::roster::{lemma_next_repeats, next_driver, with_user};
use crate::schedule::{
    break_decision, clock_minutes, clock_ok, is_break_time, is_lunch_time, lunch_decision, ParseError,
    SECS_PER_DAY,
};
use crate::session::{name_view, Session, State};
use vstd::prelude::*;

verus! {

/// What the caller is told when `next` has nothing to do.
pub enum Notice {
    /// No session is running.
    NoSession,
    /// Somebody else is driving.
    CurrentDriver { driver: String },
    /// The caller is the one to start driving.
    YourTurn,
    /// `name` should start driving once the break is over.
    ShouldStart { name: String },
    /// Anyone may start driving once the break is over.
    RunStart,
    /// Waiting for `name` to start driving.
    WaitingFor { name: String },
    /// Waiting for anyone to start driving.
    WaitingForAnyone,
}

/// The kind of pause offered before the next turn.
pub enum BreakKind {
    Lunch,
    Break,
}

/// A pause to take before the next turn.
pub struct Pause {
    pub kind: BreakKind,
    pub minutes: i64,
}

/// Why `next` failed.
pub enum NextError {
    /// A version-control step failed.
    Git,
    /// A lunch time in the settings is malformed.
    Parse(ParseError),
}

/// What the caller reports after performing an action.
pub enum Event {
    /// The working tree is clean (`true`) or holds changes (`false`).
    TreeClean(bool),
    /// The last version-control command succeeded (`true`) or failed.
    GitDone(bool),
    /// The user accepted (`true`) or declined the pause offered.
    Answer(bool),
}

/// What the caller is to do next.
pub enum Action {
    /// Tell the user; `next` is over and changed nothing.
    Notice(Notice),
    /// Find out whether the working tree is clean.
    CheckTree,
    /// Run this version-control command.
    RunGit(Vec<String>),
    /// Ask whether to take a pause of this kind.
    Confirm(BreakKind),
    /// Save `session`; then, if `pause` is set, run its timer. `next` drives after.
    Save { session: Session, next: Option<String>, pause: Option<Pause> },
    /// Stop with this error; nothing was saved.
    Fail(NextError),
    /// `next` is over.
    Finished,
}

/// The caller may hand over: `me` is driving.
pub open spec fn may_hand_over(session: Session, me: Seq<char>) -> bool {
    session.state matches State::Working { driver } && driver@ == me
}

/// The notice owed in `state` to `me`, if any.
pub open spec fn notice_fits(r: Option<Notice>, state: State, me: Seq<char>) -> bool {
    match state {
        State::Stopped => r == Some(Notice::NoSession),
        State::Working { driver } => if driver@ == me {
            r is None
        } else {
            r matches Some(Notice::CurrentDriver { driver: d }) && d@ == driver@
        },
        State::Break { next } => match next {
            Some(n) => if n@ == me {
                r == Some(Notice::YourTurn)
            } else {
                r matches Some(Notice::ShouldStart { name }) && name@ == n@
            },
            None => r == Some(Notice::RunStart),
        },
        State::WaitingForNext { next } => match next {
            Some(n) => if n@ == me {
                r == Some(Notice::YourTurn)
            } else {
                r matches Some(Notice::WaitingFor { name }) && name@ == n@
            },
            None => r == Some(Notice::WaitingForAnyone),
        },
    }
}

/// Says why `next` has nothing to do for `me`, or `None` when `me` is driving.
pub fn turn_notice(session: &Session, me: &str) -> (r: Option<Notice>)
    ensures
        r is None <==> may_hand_over(*session, me@),
        notice_fits(r, session.state, me@),
{
    let me = me.to_owned();
    match &session.state {
        State::Stopped => Some(Notice::NoSession),
        State::Working { driver } => {
            if *driver == me {
                None
            } else {
                Some(Notice::CurrentDriver { driver: driver.clone() })
            }
        },
        State::Break { next } => match next {
            Some(n) => {
                if *n == me {
                    Some(Notice::YourTurn)
                } else {
                    Some(Notice::ShouldStart { name: n.clone() })
                }
            },
            None => Some(Notice::RunStart),
        },
        State::WaitingForNext { next } => match next {
            Some(n) => {
                if *n == me {
                    Some(Notice::YourTurn)
                } else {
                    Some(Notice::WaitingFor { name: n.clone() })
                }
            },
            None => Some(Notice::WaitingForAnyone),
        },
    }
}

/// The version-control commands that publish the work: stage everything, commit
/// with `message`, push `branch` to `remote`.
pub open spec fn git_steps(message: Seq<char>, remote: Seq<char>, branch: Seq<char>) -> Seq<Seq<Seq<char>>> {
    seq![
        seq!["add"@, "--all"@],
        seq!["commit"@, "--message"@, message, "--no-verify"@],
        seq!["push"@, "--no-verify"@, remote, branch],
    ]
}

/// The words of a command, as characters.
pub open spec fn words(v: Vec<String>) -> Seq<Seq<char>> {
    v@.map_values(|s: String| s@)
}

/// The `k`-th command of [`git_steps`].
pub fn git_command(k: usize, message: &String, remote: &String, branch: &String) -> (r: Vec<String>)
    requires
        k < 3,
    ensures
        words(r) == git_steps(message@, remote@, branch@)[k as int],
{
    let mut v: Vec<String> = Vec::new();
    if k == 0 {
        v.push("add".to_owned());
        v.push("--all".to_owned());
    } else if k == 1 {
        v.push("commit".to_owned());
        v.push("--message".to_owned());
        v.push(message.clone());
        v.push("--no-verify".to_owned());
    } else {
        v.push("push".to_owned());
        v.push("--no-verify".to_owned());
        v.push(remote.clone());
        v.push(branch.clone());
    }
    assert(words(v) =~= git_steps(message@, remote@, branch@)[k as int]);
    v
}

/// A hand-over in progress: the session, who hands over, where to push, and the
/// time (seconds since the Unix epoch, and seconds since local midnight).
pub struct Turn {
    pub session: Session,
    pub me: String,
    pub remote: String,
    pub now: i64,
    pub clock: u32,
}

impl Turn {
    /// `me` is the driver of a running session.
    pub open spec fn wf(&self) -> bool {
        &&& self.session.wf()
        &&& may_hand_over(self.session, self.me@)
        &&& self.clock < SECS_PER_DAY
    }
}

/// Where a `next` command stands.
pub enum NextRun {
    /// Waiting to hear whether the working tree is clean.
    AwaitTree(Turn),
    /// The version-control command of this index in [`git_steps`] is running.
    Git(Turn, usize),
    /// Lunch of this many minutes was offered.
    AskLunch(Turn, i64),
    /// A break of this many minutes was offered.
    AskBreak(Turn, i64),
    /// Over.
    Done,
}

impl NextRun {
    pub open spec fn wf(&self) -> bool {
        match self {
            NextRun::AwaitTree(t) => t.wf(),
            NextRun::Git(t, k) => t.wf() && *k < 3,
            NextRun::AskLunch(t, _) => t.wf(),
            NextRun::AskBreak(t, _) => t.wf(),
            NextRun::Done => true,
        }
    }

    /// Starts `next` for `me`. Unless `me` is driving, it ends at once with a notice
    /// and nothing else; otherwise it asks whether the working tree is clean.
    pub fn begin(session: Session, me: String, remote: String, now: i64, clock: u32) -> (r: (
        NextRun,
        Action,
    ))
        requires
            session.wf(),
            clock < SECS_PER_DAY,
        ensures
            r.0.wf(),
            !may_hand_over(session, me@) ==> r.0 is Done && (r.1 matches Action::Notice(n)
                && notice_fits(Some(n), session.state, me@)),
            may_hand_over(session, me@) ==> r.1 is CheckTree && r.0 == NextRun::AwaitTree(
                Turn { session, me, remote, now, clock },
            ),
    {
        match turn_notice(&session, me.as_str()) {
            Some(n) => (NextRun::Done, Action::Notice(n)),
            None => (NextRun::AwaitTree(Turn { session, me, remote, now, clock }), Action::CheckTree),
        }
    }

    /// Takes the next step on `event`. A failed version-control command ends the
    /// run with an error and nothing saved; a clean tree skips committing and
    /// pushing; a session is saved only once publishing is over.
    pub fn step(self, event: Event) -> (r: (NextRun, Action))
        requires
            self.wf(),
        ensures
            r.0.wf(),
            self is Done ==> r.0 is Done && r.1 is Finished,
            self is Git && event == Event::GitDone(false) ==> r.0 is Done && r.1 == Action::Fail(
                NextError::Git,
            ),
            self is AwaitTree && event == Event::TreeClean(false) ==> r.0 == NextRun::Git(
                self->AwaitTree_0,
                0,
            ) && words(r.1->RunGit_0) == git_steps(
                self->AwaitTree_0.session.settings->Some_0.commit_message@,
                self->AwaitTree_0.remote@,
                self->AwaitTree_0.session.branches.branch@,
            )[0],
            self is Git && self->Git_1 < 2 && event == Event::GitDone(true) ==> r.0 == NextRun::Git(
                self->Git_0,
                (self->Git_1 + 1) as usize,
            ) && words(r.1->RunGit_0) == git_steps(
                self->Git_0.session.settings->Some_0.commit_message@,
                self->Git_0.remote@,
                self->Git_0.session.branches.branch@,
            )[self->Git_1 + 1],
            r.1 is RunGit ==> (self is AwaitTree && event == Event::TreeClean(false)) || (self is Git
                && self->Git_1 < 2 && event == Event::GitDone(true)),
            r.1 is Save ==> (self is AwaitTree && event == Event::TreeClean(true)) || (self is Git
                && self->Git_1 == 2 && event == Event::GitDone(true)) || self is AskLunch
                || self is AskBreak,
            self is AskBreak && event == Event::Answer(true) ==> handed_over(
                r.1,
                self->AskBreak_0,
                Some((Pause { kind: BreakKind::Break, minutes: self->AskBreak_1 })),
            ),
            self is AskLunch && event == Event::Answer(true) ==> handed_over(
                r.1,
                self->AskLunch_0,
                Some((Pause { kind: BreakKind::Lunch, minutes: self->AskLunch_1 })),
            ),
            self is AskBreak && event == Event::Answer(false) ==> handed_over(r.1, self->AskBreak_0, None),
            self is AskLunch && event == Event::Answer(false) ==> break_offered(self->AskLunch_0, r),
            self is AwaitTree && event == Event::TreeClean(true) ==> lunch_offered(self->AwaitTree_0, r),
            self is Git && self->Git_1 == 2 && event == Event::GitDone(true) ==> lunch_offered(
                self->Git_0,
                r,
            ),
    {
        match (self, event) {
            (NextRun::AwaitTree(t), Event::TreeClean(true)) => offer_lunch(t),
            (NextRun::AwaitTree(t), Event::TreeClean(false)) => {
                let c = publish_command(&t, 0);
                (NextRun::Git(t, 0), Action::RunGit(c))
            },
            (NextRun::Git(t, k), Event::GitDone(true)) => {
                if k < 2 {
                    let c = publish_command(&t, k + 1);
                    (NextRun::Git(t, k + 1), Action::RunGit(c))
                } else {
                    offer_lunch(t)
                }
            },
            (NextRun::Git(_, _), Event::GitDone(false)) => (NextRun::Done, Action::Fail(NextError::Git)),
            (NextRun::AskLunch(t, m), Event::Answer(true)) => (
                NextRun::Done,
                hand_over(t, Some(Pause { kind: BreakKind::Lunch, minutes: m })),
            ),
            (NextRun::AskLunch(t, _), Event::Answer(false)) => offer_break(t),
            (NextRun::AskBreak(t, m), Event::Answer(true)) => (
                NextRun::Done,
                hand_over(t, Some(Pause { kind: BreakKind::Break, minutes: m })),
            ),
            (NextRun::AskBreak(t, _), Event::Answer(false)) => (NextRun::Done, hand_over(t, None)),
            (_, _) => (NextRun::Done, Action::Finished),
        }
    }
}

fn publish_command(t: &Turn, k: usize) -> (r: Vec<String>)
    requires
        t.wf(),
        k < 3,
    ensures
        words(r) == git_steps(
            t.session.settings->Some_0.commit_message@,
            t.remote@,
            t.session.branches.branch@,
        )[k as int],
{
    match &t.session.settings {
        Some(s) => git_command(k, &s.commit_message, &t.remote, &t.session.branches.branch),
        None => {
            assert(false);
            Vec::new()
        },
    }
}

/// What follows once a break is due or not: the break is offered when due,
/// else the turn is handed over at once.
pub open spec fn break_offered(t: Turn, r: (NextRun, Action)) -> bool {
    let s = t.session.settings->Some_0;
    if break_decision(
        t.now as int,
        t.session.last_break as int,
        s.break_interval as int,
        s.break_duration as int,
        s.work_duration as int,
    ) is Some {
        r.0 == NextRun::AskBreak(t, s.break_duration) && r.1 == Action::Confirm(BreakKind::Break)
    } else {
        r.0 is Done && handed_over(r.1, t, None)
    }
}

/// What follows once publishing is over: a malformed lunch time fails the run;
/// lunch is offered when it is time for it; else a break is considered.
pub open spec fn lunch_offered(t: Turn, r: (NextRun, Action)) -> bool {
    let s = t.session.settings->Some_0;
    if !clock_ok(s.lunch_start@) || !clock_ok(s.lunch_end@) {
        r.0 is Done && r.1 matches Action::Fail(NextError::Parse(_))
    } else if lunch_decision(
        t.clock as int,
        s.work_duration as int,
        clock_minutes(s.lunch_start@),
        clock_minutes(s.lunch_end@),
    ) is Some {
        &&& r.1 == Action::Confirm(BreakKind::Lunch)
        &&& r.0 is AskLunch
        &&& r.0->AskLunch_0 == t
        &&& r.0->AskLunch_1 as int == lunch_decision(
            t.clock as int,
            s.work_duration as int,
            clock_minutes(s.lunch_start@),
            clock_minutes(s.lunch_end@),
        )->Some_0
    } else {
        break_offered(t, r)
    }
}

/// Offers lunch when it is time for it; else goes on to a break.
fn offer_lunch(t: Turn) -> (r: (NextRun, Action))
    requires
        t.wf(),
    ensures
        r.0.wf(),
        lunch_offered(t, r),
{
    let lunch = match &t.session.settings {
        Some(s) => is_lunch_time(t.clock, s.work_duration, s.lunch_start.clone(), s.lunch_end.clone()),
        None => {
            assert(false);
            Ok(None)
        },
    };
    match lunch {
        Err(e) => (NextRun::Done, Action::Fail(NextError::Parse(e))),
        Ok(Some(m)) => (NextRun::AskLunch(t, m), Action::Confirm(BreakKind::Lunch)),
        Ok(None) => offer_break(t),
    }
}

/// Offers a break when one is due; else hands over at once.
fn offer_break(t: Turn) -> (r: (NextRun, Action))
    requires
        t.wf(),
    ensures
        r.0.wf(),
        break_offered(t, r),
{
    let due = match &t.session.settings {
        Some(s) => is_break_time(t.now, t.session.last_break, s.break_interval, s.break_duration, s.work_duration),
        None => {
            assert(false);
            None
        },
    };
    match due {
        Some(m) => (NextRun::AskBreak(t, m), Action::Confirm(BreakKind::Break)),
        None => (NextRun::Done, hand_over(t, None)),
    }
}

/// The session once `t.me` has handed over, with `pause` taken first or none.
pub open spec fn handed_over(r: Action, t: Turn, pause: Option<Pause>) -> bool {
    r matches Action::Save { session, next, pause: p } && {
        &&& p == pause
        &&& session.wf()
        &&& session.drivers@ == with_user(t.session.drivers@, t.me@)
        &&& name_view(next) == next_driver(t.session.drivers@, t.me@)
        &&& (pause is None ==> session.state == State::WaitingForNext { next })
        &&& (pause is Some ==> session.state == State::Break { next })
        &&& session.last_break == if pause matches Some(p) && p.kind == BreakKind::Break {
            t.now
        } else {
            t.session.last_break
        }
        &&& session.branches == t.session.branches
        &&& session.settings == t.session.settings
    }
}

fn copy_name(n: &Option<String>) -> (r: Option<String>)
    ensures
        r == *n,
{
    match n {
        Some(s) => Some(s.clone()),
        None => None,
    }
}

/// Hands the turn over: the next driver follows `t.me` on the roster; the session
/// waits for them, or is on a pause when one is taken. Only a break, not lunch,
/// counts as the last break.
pub fn hand_over(t: Turn, pause: Option<Pause>) -> (r: Action)
    requires
        t.wf(),
    ensures
        handed_over(r, t, pause),
{
    let Turn { session, me, remote: _, now, clock: _ } = t;
    let mut drivers = session.drivers;
    let next = drivers.next(me.as_str());
    let last_break = match &pause {
        Some(p) => match p.kind {
            BreakKind::Break => now,
            BreakKind::Lunch => session.last_break,
        },
        None => session.last_break,
    };
    let state = match &pause {
        Some(_) => State::Break { next: copy_name(&next) },
        None => State::WaitingForNext { next: copy_name(&next) },
    };
    let s = Session { state, drivers, branches: session.branches, last_break, settings: session.settings };
    Action::Save { session: s, next, pause }
}

/// Handing over twice in a row from the same driver, with no pause taken, waits
/// both times for the same next driver: the roster only rotates relative to who
/// hands over.
pub proof fn lemma_hand_over_twice(t1: Turn, a1: Action, t2: Turn, a2: Action)
    requires
        t1.wf(),
        handed_over(a1, t1, None),
        t2.me@ == t1.me@,
        t2.session.drivers@ == a1->Save_session.drivers@,
        handed_over(a2, t2, None),
    ensures
        a1->Save_session.state == (State::WaitingForNext { next: a1->Save_next }),
        a2->Save_session.state == (State::WaitingForNext { next: a2->Save_next }),
        name_view(a1->Save_next) == name_view(a2->Save_next),
{
    lemma_next_repeats(t1.session.drivers@, t1.me@);
}

} // verus!
