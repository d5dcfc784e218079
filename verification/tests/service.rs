use secinit::service::BusyError;
use secinit::service::Service;
use secinit::service::ServiceKind;

fn daemon_with(cmds: Vec<Vec<String>>) -> Service {
    Service::new("net".to_string(), cmds, ServiceKind::Daemon)
}

fn three_commands() -> Vec<Vec<String>> {
    vec![
        vec!["dhcpcd".to_string()],
        vec!["sshd".to_string(), "-D".to_string()],
        vec!["crond".to_string(), "-f".to_string()],
    ]
}

#[test]
fn fresh_unit_is_idle() {
    let u = daemon_with(three_commands());
    assert_eq!(u.name, "net");
    assert_eq!(u.cmds.len(), 3);
    assert_eq!(u.kind, ServiceKind::Daemon);
    assert!(u.rproc.is_empty());
    assert!(!u.running);
    assert!(!u.busy);
}

#[test]
fn load_with_partial_spawns_marks_running() {
    // Three commands, one of which failed to start: the unit still ends up
    // running, with no more processes than commands.
    let mut u = daemon_with(three_commands());
    assert!(u.load().is_ok());
    u.load_done(vec![100, 101]);
    assert_eq!(u.rproc, vec![100, 101]);
    assert!(u.rproc.len() <= u.cmds.len());
    assert!(u.running);
    assert!(!u.busy);
}

#[test]
fn load_with_no_spawns_still_marks_running() {
    let mut u = daemon_with(three_commands());
    assert!(u.load().is_ok());
    u.load_done(vec![]);
    assert!(u.rproc.is_empty());
    assert!(u.running);
}

#[test]
fn load_on_empty_command_list() {
    let mut u = daemon_with(vec![]);
    assert!(u.load().is_ok());
    u.load_done(vec![]);
    assert!(u.rproc.is_empty());
    assert!(u.running);
}

#[test]
fn second_mutator_observes_busy_error() {
    // While a load is in progress, a second load and a Daemon unload are
    // both refused, and the running set survives the pair intact.
    let mut u = daemon_with(three_commands());
    assert!(u.load().is_ok());
    assert_eq!(u.load(), Err(BusyError));
    assert_eq!(u.unload(), Err(BusyError));
    assert!(u.rproc.is_empty());
    assert!(!u.running);
    u.load_done(vec![7, 8, 9]);
    assert_eq!(u.rproc, vec![7, 8, 9]);
    assert!(u.running);
    assert!(!u.busy);
}

#[test]
fn unload_blocking_is_noop_whatever_the_state() {
    let mut u = Service::new(
        "fsck".to_string(),
        vec![vec!["fsck".to_string(), "-a".to_string()]],
        ServiceKind::Blocking,
    );
    assert_eq!(u.unload(), Ok(vec![]));
    assert!(u.load().is_ok());
    // Even while busy, a Blocking unload succeeds and changes nothing.
    assert_eq!(u.unload(), Ok(vec![]));
    assert!(u.busy);
    u.load_done(vec![42]);
    assert_eq!(u.unload(), Ok(vec![]));
    assert_eq!(u.rproc, vec![42]);
    assert!(u.running);
}

#[test]
fn unload_daemon_hands_out_every_process() {
    let mut u = daemon_with(three_commands());
    assert!(u.load().is_ok());
    u.load_done(vec![1, 2, 3]);
    let kill = u.unload().unwrap();
    assert_eq!(kill, vec![1, 2, 3]);
    assert!(u.rproc.is_empty());
    assert!(!u.running);
}

#[test]
fn unload_daemon_with_nothing_running() {
    let mut u = daemon_with(three_commands());
    assert_eq!(u.unload(), Ok(vec![]));
    assert!(!u.running);
}

#[test]
fn enable_now_begins_a_load() {
    let mut u = daemon_with(three_commands());
    assert!(u.enable(true).is_ok());
    assert!(u.busy);
    assert_eq!(u.enable(true), Err(BusyError));
    u.load_done(vec![11]);
    assert_eq!(u.rproc, vec![11]);
}

#[test]
fn enable_later_changes_nothing() {
    let mut u = daemon_with(three_commands());
    assert!(u.enable(false).is_ok());
    assert!(!u.busy);
    assert!(!u.running);
    assert!(u.rproc.is_empty());
}

#[test]
fn disable_now_is_an_unload() {
    let mut u = daemon_with(three_commands());
    assert!(u.load().is_ok());
    u.load_done(vec![21, 22]);
    assert_eq!(u.disable(true), Ok(vec![21, 22]));
    assert!(u.rproc.is_empty());
    assert!(!u.running);
}

#[test]
fn disable_later_changes_nothing() {
    let mut u = daemon_with(three_commands());
    assert!(u.load().is_ok());
    u.load_done(vec![31]);
    assert_eq!(u.disable(false), Ok(vec![]));
    assert_eq!(u.rproc, vec![31]);
    assert!(u.running);
}

#[test]
fn reload_appends_to_the_running_set() {
    let mut u = daemon_with(three_commands());
    assert!(u.load().is_ok());
    u.load_done(vec![1]);
    assert!(u.load().is_ok());
    u.load_done(vec![2]);
    assert_eq!(u.rproc, vec![1, 2]);
}
