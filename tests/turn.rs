use mobr::session::{Branches, Session, Settings, State};
use mobr::status::{current_driver, roster_marks, who_of, Who};
use mobr::turn::{git_command, hand_over, turn_notice, Action, BreakKind, Event, NextError, NextRun, Notice, Pause, Turn};

fn branches() -> Branches {
    Branches { branch: "mob/main".to_string(), base_branch: "main".to_string() }
}

fn settings(lunch_start: &str) -> Settings {
    Settings {
        work_duration: 10,
        break_interval: 55,
        break_duration: 5,
        lunch_start: lunch_start.to_string(),
        lunch_end: "13:00".to_string(),
        commit_message: "mob next".to_string(),
    }
}

/// ann then bob have driven; bob drives now, the last break was at `last`.
fn working(last: i64, lunch_start: &str) -> Session {
    let s = Session::stopped(branches(), 0);
    let s = s.start("ann", settings(lunch_start), branches(), last);
    s.start("bob", settings(lunch_start), branches(), last)
}

const TEN: u32 = 10 * 3600;

fn words(a: &Action) -> Vec<String> {
    match a {
        Action::RunGit(c) => c.clone(),
        _ => panic!("expected a command"),
    }
}

#[test]
fn next_by_other_user_is_a_notice() {
    let (run, action) = NextRun::begin(working(0, "12:00"), "ann".into(), "origin".into(), 60, TEN);
    match action {
        Action::Notice(Notice::CurrentDriver { driver }) => assert_eq!(driver, "bob"),
        _ => panic!("expected a notice"),
    }
    assert!(matches!(run, NextRun::Done));
    let (run, action) = run.step(Event::TreeClean(false));
    assert!(matches!(run, NextRun::Done));
    assert!(matches!(action, Action::Finished));
}

#[test]
fn next_without_session_is_a_notice() {
    let s = Session::stopped(branches(), 0);
    assert!(matches!(turn_notice(&s, "ann"), Some(Notice::NoSession)));
}

#[test]
fn notices_while_waiting() {
    let s = working(0, "12:00");
    assert!(turn_notice(&s, "bob").is_none());
    let waiting = Session { state: State::WaitingForNext { next: Some("ann".into()) }, ..s };
    assert!(matches!(turn_notice(&waiting, "ann"), Some(Notice::YourTurn)));
    match turn_notice(&waiting, "bob") {
        Some(Notice::WaitingFor { name }) => assert_eq!(name, "ann"),
        _ => panic!("expected waiting for ann"),
    }
    let open = Session { state: State::Break { next: None }, ..waiting };
    assert!(matches!(turn_notice(&open, "bob"), Some(Notice::RunStart)));
}

#[test]
fn clean_tree_skips_git_and_waits_for_next() {
    let (run, action) = NextRun::begin(working(0, "12:00"), "bob".into(), "origin".into(), 60, TEN);
    assert!(matches!(action, Action::CheckTree));
    let (run, action) = run.step(Event::TreeClean(true));
    assert!(matches!(run, NextRun::Done));
    match action {
        Action::Save { session, next, pause } => {
            assert_eq!(next, Some("ann".to_string()));
            assert!(pause.is_none());
            assert!(matches!(session.state, State::WaitingForNext { next: Some(ref n) } if n == "ann"));
            assert_eq!(session.last_break, 0);
        }
        _ => panic!("expected a save"),
    }
}

#[test]
fn dirty_tree_commits_then_pushes() {
    let (run, _) = NextRun::begin(working(0, "12:00"), "bob".into(), "origin".into(), 60, TEN);
    let (run, a) = run.step(Event::TreeClean(false));
    assert_eq!(words(&a), vec!["add", "--all"]);
    let (run, a) = run.step(Event::GitDone(true));
    assert_eq!(words(&a), vec!["commit", "--message", "mob next", "--no-verify"]);
    let (run, a) = run.step(Event::GitDone(true));
    assert_eq!(words(&a), vec!["push", "--no-verify", "origin", "mob/main"]);
    let (_, a) = run.step(Event::GitDone(true));
    assert!(matches!(a, Action::Save { .. }));
}

#[test]
fn failed_push_saves_nothing() {
    let (run, _) = NextRun::begin(working(0, "12:00"), "bob".into(), "origin".into(), 60, TEN);
    let (run, _) = run.step(Event::TreeClean(false));
    let (run, _) = run.step(Event::GitDone(true));
    let (run, _) = run.step(Event::GitDone(true));
    let (run, a) = run.step(Event::GitDone(false));
    assert!(matches!(a, Action::Fail(NextError::Git)));
    assert!(matches!(run, NextRun::Done));
}

#[test]
fn lunch_is_offered_then_taken() {
    // 11:58 with lunch at 12:00 and 10 minute turns
    let (run, _) = NextRun::begin(working(0, "12:00"), "bob".into(), "origin".into(), 60, 11 * 3600 + 58 * 60);
    let (run, a) = run.step(Event::TreeClean(true));
    assert!(matches!(a, Action::Confirm(BreakKind::Lunch)));
    let (_, a) = run.step(Event::Answer(true));
    match a {
        Action::Save { session, pause: Some(Pause { kind: BreakKind::Lunch, minutes }), .. } => {
            assert_eq!(minutes, 60);
            assert!(matches!(session.state, State::Break { next: Some(ref n) } if n == "ann"));
            assert_eq!(session.last_break, 0);
        }
        _ => panic!("expected lunch"),
    }
}

#[test]
fn declined_lunch_offers_break() {
    let now = 3 * 3600;
    let (run, _) = NextRun::begin(working(0, "12:00"), "bob".into(), "origin".into(), now, 11 * 3600 + 58 * 60);
    let (run, _) = run.step(Event::TreeClean(true));
    let (run, a) = run.step(Event::Answer(false));
    assert!(matches!(a, Action::Confirm(BreakKind::Break)));
    let (_, a) = run.step(Event::Answer(true));
    match a {
        Action::Save { session, pause: Some(Pause { kind: BreakKind::Break, minutes }), .. } => {
            assert_eq!(minutes, 5);
            assert_eq!(session.last_break, now);
        }
        _ => panic!("expected a break"),
    }
}

#[test]
fn declined_break_waits_for_next() {
    let (run, _) = NextRun::begin(working(0, "12:00"), "bob".into(), "origin".into(), 3 * 3600, TEN);
    let (run, a) = run.step(Event::TreeClean(true));
    assert!(matches!(a, Action::Confirm(BreakKind::Break)));
    let (_, a) = run.step(Event::Answer(false));
    assert!(matches!(a, Action::Save { pause: None, .. }));
}

#[test]
fn malformed_lunch_setting_fails_next() {
    let (run, _) = NextRun::begin(working(0, "25:99"), "bob".into(), "origin".into(), 60, TEN);
    let (_, a) = run.step(Event::TreeClean(true));
    match a {
        Action::Fail(NextError::Parse(e)) => assert_eq!(e.value, "25:99"),
        _ => panic!("expected a parse error"),
    }
}

#[test]
fn hand_over_twice_names_same_driver() {
    let t = |s: Session| Turn { session: s, me: "bob".into(), remote: "origin".into(), now: 60, clock: TEN };
    let first = match hand_over(t(working(0, "12:00")), None) {
        Action::Save { session, next, .. } => (session, next),
        _ => panic!("expected a save"),
    };
    let again = Session { state: State::Working { driver: "bob".into() }, ..first.0 };
    match hand_over(t(again), None) {
        Action::Save { session, next, .. } => {
            assert_eq!(next, first.1);
            assert!(matches!(session.state, State::WaitingForNext { next: Some(ref n) } if n == "ann"));
        }
        _ => panic!("expected a save"),
    }
}

#[test]
fn git_command_lists() {
    let m = "msg".to_string();
    let r = "up".to_string();
    let b = "feature".to_string();
    assert_eq!(git_command(0, &m, &r, &b), vec!["add", "--all"]);
    assert_eq!(git_command(2, &m, &r, &b), vec!["push", "--no-verify", "up", "feature"]);
}

#[test]
fn status_points_at_driver() {
    let s = working(0, "12:00");
    assert_eq!(current_driver(&s), Some("bob".to_string()));
    assert_eq!(roster_marks(&s), vec![false, true]);
    assert!(matches!(who_of(&Some("bob".into()), "bob"), Who::You));
    assert!(matches!(who_of(&None, "bob"), Who::Anyone));
    match who_of(&Some("ann".into()), "bob") {
        Who::Named(n) => assert_eq!(n, "ann"),
        _ => panic!("expected a name"),
    }
}

#[test]
fn start_and_stop_session() {
    let s = Session::stopped(branches(), 0);
    let s = s.start("ann", settings("12:00"), branches(), 500);
    assert!(matches!(s.state, State::Working { ref driver } if driver == "ann"));
    assert_eq!(s.last_break, 500);
    let s = s.start("bob", settings("12:00"), branches(), 900);
    assert_eq!(s.last_break, 500);
    assert_eq!(s.drivers.all(), vec!["ann", "bob"]);
    let s = s.stop();
    assert!(matches!(s.state, State::Stopped));
    assert!(s.settings.is_none());
    assert!(s.drivers.all().is_empty());
}
