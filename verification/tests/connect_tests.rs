use lakeapi2sql::connect::connect_step;
use lakeapi2sql::connect::ConnectOutcome;
use lakeapi2sql::connect::ConnectPhase;
use lakeapi2sql::error::LakeApi2SqlError;

#[test]
fn a_clean_handshake_establishes_the_session() {
    match connect_step(ConnectPhase::FirstAttempt, ConnectOutcome::Connected) {
        ConnectPhase::Established => {}
        _ => panic!("expected the session to stand"),
    }
}

#[test]
fn one_redirect_is_followed_and_the_retry_succeeds() {
    let after_redirect = connect_step(
        ConnectPhase::FirstAttempt,
        ConnectOutcome::Routed { host: "other.example".to_string(), port: 1444 },
    );
    match &after_redirect {
        ConnectPhase::Retrying { host, port } => {
            assert_eq!(host, "other.example");
            assert_eq!(*port, 1444);
        }
        _ => panic!("expected a retry against the redirect target"),
    }
    match connect_step(after_redirect, ConnectOutcome::Connected) {
        ConnectPhase::Established => {}
        _ => panic!("expected the retry to establish the session"),
    }
}

#[test]
fn a_second_redirect_is_a_fatal_error() {
    let after_redirect = connect_step(
        ConnectPhase::FirstAttempt,
        ConnectOutcome::Routed { host: "other.example".to_string(), port: 1444 },
    );
    match connect_step(
        after_redirect,
        ConnectOutcome::Routed { host: "third.example".to_string(), port: 1445 },
    ) {
        ConnectPhase::Aborted(LakeApi2SqlError::TiberiusError(m)) => {
            assert_eq!(m, "the server redirected a second time");
        }
        _ => panic!("expected the second redirect to abort"),
    }
}

#[test]
fn a_failed_handshake_aborts_with_its_message() {
    match connect_step(
        ConnectPhase::FirstAttempt,
        ConnectOutcome::Failed("login failed for user".to_string()),
    ) {
        ConnectPhase::Aborted(LakeApi2SqlError::TiberiusError(m)) => {
            assert_eq!(m, "login failed for user");
        }
        _ => panic!("expected the failure to abort"),
    }
}
