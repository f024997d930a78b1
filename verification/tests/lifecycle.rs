use consul::agent::{CheckKind, RegisterAgentCheck, TTLStatus};
use consul::errors::Error;
use consul::lifecycle::{Check, CheckDescriptor, CheckState, Maintenance, ACCEPTED, REFUSED};
use consul::request::{write_reply, Response, NOT_FOUND};
use std::time::Duration;

fn not_found() -> Result<(), Error> {
    Err(Error::ServerError { status: 404, body: Vec::new() })
}

fn read(answer: Response) -> Result<(), Error> {
    assert!(answer.index.is_none());
    assert!(answer.body.is_empty());
    write_reply(answer, Duration::from_millis(1)).map(|_| ())
}

fn ttl(id: &str, status: Option<&str>) -> RegisterAgentCheck {
    RegisterAgentCheck {
        ID: id.to_string(),
        Name: "heartbeat".to_string(),
        Notes: "reports by itself".to_string(),
        TTL: Some("30s".to_string()),
        Status: status.map(|s| s.to_string()),
        ServiceID: Some("web-1".to_string()),
        ..Default::default()
    }
}

fn http(id: &str) -> RegisterAgentCheck {
    RegisterAgentCheck {
        ID: id.to_string(),
        HTTP: Some("http://localhost/health".to_string()),
        Status: Some("passing".to_string()),
        ..Default::default()
    }
}

#[test]
fn the_refusals_have_their_statuses() {
    assert_eq!(ACCEPTED, 200);
    assert_eq!(NOT_FOUND, 404);
    assert_eq!(REFUSED, 500);
}

#[test]
fn a_descriptor_takes_what_the_registration_says() {
    let descriptor = ttl("hb", Some("warning")).descriptor().unwrap();
    assert_eq!(descriptor.id, "hb");
    assert_eq!(descriptor.name, "heartbeat");
    assert_eq!(descriptor.notes, "reports by itself");
    assert_eq!(descriptor.service_id, "web-1");
    assert_eq!(descriptor.kind, CheckKind::Ttl);
    assert_eq!(descriptor.initial, Some(TTLStatus::WARN));
    let descriptor = RegisterAgentCheck {
        TCP: Some("db:5432".to_string()),
        Status: Some("fine".to_string()),
        ..Default::default()
    }
    .descriptor()
    .unwrap();
    assert_eq!(descriptor.id, "");
    assert_eq!(descriptor.service_id, "");
    assert_eq!(descriptor.kind, CheckKind::Tcp);
    assert_eq!(descriptor.initial, None);
}

#[test]
fn a_new_check_is_unregistered_and_not_listed() {
    let check = Check::new();
    assert_eq!(check.state(), CheckState::Unregistered);
    assert!(check.report().is_none());
}

#[test]
fn a_ttl_check_starts_critical() {
    let mut check = Check::new();
    assert_eq!(read(check.register(ttl("hb", None).descriptor().unwrap())), Ok(()));
    assert_eq!(check.state(), CheckState::Critical);
    let entry = check.report().unwrap();
    assert_eq!(entry.CheckID, "hb");
    assert_eq!(entry.Name, "heartbeat");
    assert_eq!(entry.Status, "critical");
    assert_eq!(entry.Notes, "reports by itself");
    assert_eq!(entry.Output, "");
    assert_eq!(entry.ServiceID, "web-1");
    assert_eq!(entry.status(), Some(TTLStatus::FAIL));
}

#[test]
fn a_ttl_check_starts_with_the_status_asked_for() {
    for (word, state) in [
        ("passing", CheckState::Passing),
        ("warning", CheckState::Warning),
        ("critical", CheckState::Critical),
        ("healthy", CheckState::Critical),
    ] {
        let mut check = Check::new();
        check.register(ttl("hb", Some(word)).descriptor().unwrap());
        assert_eq!(check.state(), state);
    }
}

#[test]
fn a_probed_check_has_no_status_until_the_first_probe() {
    let mut check = Check::new();
    check.register(http("web").descriptor().unwrap());
    assert_eq!(check.state(), CheckState::Registered);
    let entry = check.report().unwrap();
    assert_eq!(entry.CheckID, "web");
    assert_eq!(entry.Status, "");
    assert_eq!(entry.status(), None);
    check.probe(TTLStatus::PASS, "HTTP GET http://localhost/health: 200 OK");
    assert_eq!(check.state(), CheckState::Passing);
    let entry = check.report().unwrap();
    assert_eq!(entry.Status, "passing");
    assert_eq!(entry.Output, "HTTP GET http://localhost/health: 200 OK");
    check.probe(TTLStatus::FAIL, "connection refused");
    assert_eq!(check.state(), CheckState::Critical);
    assert_eq!(check.report().unwrap().Output, "connection refused");
}

#[test]
fn every_kind_of_check_is_listed_once_registered() {
    let kinds = [
        CheckKind::Script,
        CheckKind::Docker,
        CheckKind::Grpc,
        CheckKind::H2Ping,
        CheckKind::Http,
        CheckKind::Tcp,
        CheckKind::Udp,
        CheckKind::OsService,
        CheckKind::Ttl,
        CheckKind::Alias,
    ];
    for kind in kinds {
        let mut check = Check::new();
        check.register(CheckDescriptor {
            id: "any".to_string(),
            name: String::new(),
            notes: String::new(),
            service_id: String::new(),
            kind,
            initial: None,
        });
        assert_eq!(check.report().unwrap().CheckID, "any");
        let expected =
            if kind == CheckKind::Ttl { CheckState::Critical } else { CheckState::Registered };
        assert_eq!(check.state(), expected);
    }
}

#[test]
fn a_report_of_critical_with_boom_is_listed() {
    let mut check = Check::new();
    check.register(ttl("hb", Some("passing")).descriptor().unwrap());
    assert_eq!(read(check.update_ttl(TTLStatus::FAIL, Some("boom"))), Ok(()));
    assert_eq!(check.state(), CheckState::Critical);
    let entry = check.report().unwrap();
    assert_eq!(entry.CheckID, "hb");
    assert_eq!(entry.status(), Some(TTLStatus::FAIL));
    assert!(entry.Output.contains("boom"));
    assert_eq!(entry.Output, "boom");
}

#[test]
fn a_report_of_passing_or_warning_is_listed_the_same_way() {
    let mut check = Check::new();
    check.register(ttl("hb", None).descriptor().unwrap());
    assert_eq!(read(check.update_ttl(TTLStatus::PASS, Some("all good"))), Ok(()));
    assert_eq!(check.state(), CheckState::Passing);
    assert_eq!(check.report().unwrap().Status, "passing");
    assert_eq!(check.report().unwrap().Output, "all good");
    assert_eq!(read(check.update_ttl(TTLStatus::WARN, None)), Ok(()));
    assert_eq!(check.state(), CheckState::Warning);
    assert_eq!(check.report().unwrap().Status, "warning");
    assert_eq!(check.report().unwrap().Output, "");
}

#[test]
fn a_report_on_a_probed_check_is_refused_and_changes_nothing() {
    let mut check = Check::new();
    check.register(http("web").descriptor().unwrap());
    check.probe(TTLStatus::WARN, "slow");
    assert_eq!(
        read(check.update_ttl(TTLStatus::PASS, Some("fine"))),
        Err(Error::ServerError { status: 500, body: Vec::new() })
    );
    assert_eq!(check.state(), CheckState::Warning);
    assert_eq!(check.report().unwrap().Output, "slow");
}

#[test]
fn a_probe_does_not_touch_a_ttl_check_or_an_absent_one() {
    let mut check = Check::new();
    check.probe(TTLStatus::PASS, "x");
    assert_eq!(check.state(), CheckState::Unregistered);
    check.register(ttl("hb", None).descriptor().unwrap());
    check.probe(TTLStatus::PASS, "x");
    assert_eq!(check.state(), CheckState::Critical);
    assert_eq!(check.report().unwrap().Output, "");
    read(check.deregister()).unwrap();
    check.probe(TTLStatus::PASS, "x");
    assert_eq!(check.state(), CheckState::Deregistered);
}

#[test]
fn deregistering_a_check_that_does_not_exist_is_not_found() {
    let mut check = Check::new();
    assert_eq!(read(check.deregister()), not_found());
    assert_eq!(check.state(), CheckState::Unregistered);
    assert_eq!(read(check.update_ttl(TTLStatus::PASS, Some("late"))), not_found());
    assert_eq!(check.state(), CheckState::Unregistered);
    assert!(check.report().is_none());
}

#[test]
fn a_check_that_was_removed_is_gone() {
    let mut check = Check::new();
    check.register(ttl("hb", None).descriptor().unwrap());
    assert_eq!(read(check.deregister()), Ok(()));
    assert_eq!(check.state(), CheckState::Deregistered);
    assert!(check.report().is_none());
    assert_eq!(read(check.deregister()), not_found());
    assert_eq!(read(check.update_ttl(TTLStatus::FAIL, Some("boom"))), not_found());
    assert_eq!(check.state(), CheckState::Deregistered);
}

#[test]
fn a_check_can_be_registered_again() {
    let mut check = Check::new();
    check.register(ttl("hb", None).descriptor().unwrap());
    read(check.update_ttl(TTLStatus::PASS, Some("up"))).unwrap();
    check.register(http("hb").descriptor().unwrap());
    assert_eq!(check.state(), CheckState::Registered);
    assert_eq!(check.report().unwrap().Output, "");
    read(check.deregister()).unwrap();
    check.register(ttl("hb", Some("warning")).descriptor().unwrap());
    assert_eq!(check.state(), CheckState::Warning);
}

#[test]
fn maintenance_starts_off() {
    let mode = Maintenance::new();
    assert_eq!(mode.status(), None);
    assert_eq!(mode.reason(), None);
}

#[test]
fn enabling_maintenance_twice_is_enabling_it_once() {
    let mut mode = Maintenance::new();
    assert_eq!(read(mode.set(true, Some("disk swap"))), Ok(()));
    assert_eq!(mode.status(), Some(TTLStatus::FAIL));
    assert_eq!(mode.reason(), Some(&"disk swap".to_string()));
    assert_eq!(read(mode.set(true, Some("disk swap"))), Ok(()));
    assert_eq!(mode.status(), Some(TTLStatus::FAIL));
    assert_eq!(mode.reason(), Some(&"disk swap".to_string()));
    mode.set(true, Some("another reason"));
    assert_eq!(mode.reason(), Some(&"disk swap".to_string()));
    mode.set(true, None);
    assert_eq!(mode.reason(), Some(&"disk swap".to_string()));
}

#[test]
fn disabling_maintenance_that_is_off_does_nothing() {
    let mut mode = Maintenance::new();
    assert_eq!(read(mode.set(false, Some("never on"))), Ok(()));
    assert_eq!(mode.status(), None);
    assert_eq!(mode.reason(), None);
    mode.set(true, None);
    assert_eq!(mode.status(), Some(TTLStatus::FAIL));
    assert_eq!(mode.reason(), Some(&String::new()));
    mode.set(false, None);
    assert_eq!(mode.status(), None);
    mode.set(false, None);
    assert_eq!(mode.status(), None);
    mode.set(true, Some("again"));
    assert_eq!(mode.reason(), Some(&"again".to_string()));
}
