//! The persisted record of a mob session.
use crate::roster::{with_user, Drivers};
use vstd::prelude::*;

verus! {

/// Where the session stands.
pub enum State {
    /// No session is running.
    Stopped,
    /// `driver` has the keyboard.
    Working { driver: String },
    /// A break is running; `next` drives once it is over (`None`: anyone).
    Break { next: Option<String> },
    /// Waiting for `next` (`None`: anyone) to start driving.
    WaitingForNext { next: Option<String> },
}

/// The branch worked on and the branch it came from.
pub struct Branches {
    pub branch: String,
    pub base_branch: String,
}

/// The scheduling settings a session was started with. Durations are minutes;
/// lunch times are written `HH:MM`.
pub struct Settings {
    pub work_duration: i64,
    pub break_interval: i64,
    pub break_duration: i64,
    pub lunch_start: String,
    pub lunch_end: String,
    pub commit_message: String,
}

/// One mob session: its state, roster, branches, last break (seconds since the
/// Unix epoch) and, while it runs, its settings.
pub struct Session {
    pub state: State,
    pub drivers: Drivers,
    pub branches: Branches,
    pub last_break: i64,
    pub settings: Option<Settings>,
}

/// A name that may be missing, as characters.
pub open spec fn name_view(n: Option<String>) -> Option<Seq<char>> {
    match n {
        Some(s) => Some(s@),
        None => None,
    }
}

impl Session {
    /// Settings are present exactly while the session runs, and the roster holds
    /// each name once.
    pub open spec fn wf(&self) -> bool {
        &&& self.drivers.wf()
        &&& (self.settings is None <==> self.state is Stopped)
    }

    /// A stopped session with an empty roster, as found where none was saved.
    pub fn stopped(branches: Branches, last_break: i64) -> (r: Session)
        ensures
            r.wf(),
            r.state is Stopped,
            r.drivers@ == Seq::<Seq<char>>::empty(),
            r.branches == branches,
            r.last_break == last_break,
            r.settings is None,
    {
        Session { state: State::Stopped, drivers: Drivers::new(), branches, last_break, settings: None }
    }

    /// Starts or resumes a turn for `me`: `me` drives and is on the roster, and the
    /// session runs with `settings` on `branches`. A session started afresh counts
    /// its last break from `now`.
    pub fn start(self, me: &str, settings: Settings, branches: Branches, now: i64) -> (r: Session)
        requires
            self.wf(),
        ensures
            r.wf(),
            r.state matches State::Working { driver } && driver@ == me@,
            r.drivers@ == with_user(self.drivers@, me@),
            r.branches == branches,
            r.settings == Some(settings),
            r.last_break == if self.state is Stopped {
                now
            } else {
                self.last_break
            },
    {
        let mut drivers = self.drivers;
        drivers.add(me);
        let last_break = match self.state {
            State::Stopped => now,
            _ => self.last_break,
        };
        Session {
            state: State::Working { driver: me.to_owned() },
            drivers,
            branches,
            last_break,
            settings: Some(settings),
        }
    }

    /// Ends the session: it is stopped, with an empty roster and no settings.
    pub fn stop(self) -> (r: Session)
        ensures
            r.wf(),
            r.state is Stopped,
            r.drivers@ == Seq::<Seq<char>>::empty(),
            r.branches == self.branches,
            r.last_break == self.last_break,
    {
        Session::stopped(self.branches, self.last_break)
    }
}

} // verus!
