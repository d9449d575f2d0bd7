use install_core::error::{Error, ErrorKind};
use install_core::health_check::{
    ActionImplementation, HealthCheck, HealthCheckResult, HealthCheckResultVariant, Timestamp,
};

fn noon() -> Timestamp {
    Timestamp { secs: 1_700_000_000, nanos: 250 }
}

fn check() -> HealthCheck {
    HealthCheck(ActionImplementation {
        image: "main".to_string(),
        entrypoint: "check-web.sh".to_string(),
        args: vec!["--quiet".to_string()],
    })
}

#[test]
fn success_is_reported_as_success() {
    let found = check().check(Ok(Ok(())), noon()).unwrap();
    assert!(matches!(found.result, HealthCheckResultVariant::Success));
    assert_eq!(found.result.to_text(), "Succeeded");
}

#[test]
fn exit_code_59_is_reported_as_disabled() {
    let found = check().check(Ok(Err((59, "switched off".to_string()))), noon()).unwrap();
    assert!(matches!(found.result, HealthCheckResultVariant::Disabled));
    assert_eq!(found.result.to_text(), "Disabled");
}

#[test]
fn other_exit_codes_are_failures_with_the_message() {
    let found = check().check(Ok(Err((1, "port closed".to_string()))), noon()).unwrap();
    match &found.result {
        HealthCheckResultVariant::Failure { error } => assert_eq!(error, "port closed"),
        other => panic!("unexpected result {:?}", other),
    }
    assert_eq!(found.result.to_text(), "Failed (port closed)");
    let found = check().check(Ok(Err((58, String::new()))), noon()).unwrap();
    assert_eq!(found.result.to_text(), "Failed ()");
    let found = check().check(Ok(Err((-59, "x".to_string()))), noon()).unwrap();
    assert_eq!(found.result.to_text(), "Failed (x)");
}

#[test]
fn an_action_that_could_not_run_hands_its_error_on() {
    let e = Error { kind: ErrorKind::ContainerRuntime, message: "no runtime".to_string() };
    let found = check().check(Err(e), noon());
    match found {
        Err(e) => {
            assert_eq!(e.kind, ErrorKind::ContainerRuntime);
            assert_eq!(e.message, "no runtime");
        }
        Ok(_) => panic!("expected the error"),
    }
}

#[test]
fn the_time_of_a_check_is_the_current_time() {
    let found = check().check(Ok(Ok(())), noon()).unwrap();
    // 2020-01-01 in seconds since 1970: any check made today is later.
    assert!(found.time.secs > 1_577_836_800);
    assert!(found.time.nanos < 2_000_000_000);
}

#[test]
fn a_result_at_a_given_time_keeps_the_time() {
    let time = Timestamp { secs: 1_700_000_000, nanos: 5 };
    let found = HealthCheckResult::at(time, Err((59, String::new())));
    assert_eq!(found.time, time);
    assert!(matches!(found.result, HealthCheckResultVariant::Disabled));
    let copy = found.clone();
    assert_eq!(copy.time, time);
    assert!(matches!(copy.result, HealthCheckResultVariant::Disabled));
}

#[test]
fn the_check_gives_its_action() {
    let c = check();
    assert_eq!(c.action().image, "main");
    assert_eq!(c.action().entrypoint, "check-web.sh");
    assert_eq!(c.action().args, vec!["--quiet".to_string()]);
}
