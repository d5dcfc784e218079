use secinit::router::Action;
use secinit::router::SignalRouter;

#[test]
fn child_termination_routes_to_the_reaper() {
    let r = SignalRouter::new();
    assert_eq!(r.dispatch(libc::SIGCHLD), Some(Action::Reap));
}

#[test]
fn watchdog_alarm_routes_to_the_reaper() {
    let r = SignalRouter::new();
    assert_eq!(r.dispatch(libc::SIGALRM), Some(Action::Reap));
}

#[test]
fn table_holds_the_two_bindings_with_distinct_numbers() {
    let r = SignalRouter::new();
    assert_eq!(r.table.len(), 2);
    assert_eq!(r.table[0].sig, libc::SIGCHLD);
    assert_eq!(r.table[1].sig, libc::SIGALRM);
    assert_ne!(r.table[0].sig, r.table[1].sig);
}

#[test]
fn unmapped_number_finds_no_handler() {
    let r = SignalRouter::new();
    assert_eq!(r.dispatch(libc::SIGTERM), None);
    assert_eq!(r.dispatch(libc::SIGHUP), None);
    assert_eq!(r.dispatch(0), None);
    assert_eq!(r.dispatch(-1), None);
}
