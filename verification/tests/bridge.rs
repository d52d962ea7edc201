//! The authentication bridge, driven end to end against stub backends.

use waylock::attempt::{Session, SessionState, UiAction, authenticate, ui_reaction};
use waylock::auth::{AuthError, ConversationMessage, Credentials};
use waylock::backend::{BackendScript, StackRequest, StepRun, run_step, run_transaction};

/// A stub backend that accepts exactly one username/password pair and
/// rejects everything else as an authentication error.
fn stub_exact(expected_user: &str, expected_pass: &str, user: &str, pass: &str) -> BackendScript {
    let verdict = if user == expected_user && pass == expected_pass {
        Ok(())
    } else {
        Err(AuthError::AuthenticationError)
    };
    BackendScript {
        setup: Ok(()),
        primary: StepRun { requests: Vec::new(), verdict },
        account: StepRun { requests: Vec::new(), verdict: Ok(()) },
    }
}

#[test]
fn accepted_pair_yields_exactly_one_ok() {
    let mut attempt = authenticate("alice".to_string(), "correct".to_string());
    let script = stub_exact("alice", "correct", "alice", "correct");
    attempt.run_scripted(&script);
    let stream = attempt.drain();
    assert_eq!(stream.len(), 1);
    assert_eq!(stream[0], ConversationMessage::LoginResult(Ok(())));
    assert!(attempt.settled());
}

#[test]
fn rejected_pair_yields_exactly_one_error_and_no_ok() {
    let mut attempt = authenticate("alice".to_string(), "wrong".to_string());
    let script = stub_exact("alice", "correct", "alice", "wrong");
    attempt.run_scripted(&script);
    let stream = attempt.drain();
    let results: Vec<&ConversationMessage> = stream
        .iter()
        .filter(|m| matches!(m, ConversationMessage::LoginResult(_)))
        .collect();
    assert_eq!(results.len(), 1);
    assert_eq!(
        *results[0],
        ConversationMessage::LoginResult(Err(AuthError::AuthenticationError))
    );
    assert!(!stream
        .iter()
        .any(|m| matches!(m, ConversationMessage::LoginResult(Ok(())))));
}

#[test]
fn empty_password_is_an_authentication_error_not_a_crash() {
    // A backend that requires non-empty secrets rejects the empty password;
    // the attempt still runs to a verdict.
    let mut attempt = authenticate("alice".to_string(), String::new());
    let script = stub_exact("alice", "correct", "alice", "");
    attempt.run_scripted(&script);
    let stream = attempt.drain();
    assert_eq!(stream.len(), 1);
    assert_eq!(
        stream[0],
        ConversationMessage::LoginResult(Err(AuthError::AuthenticationError))
    );
}

#[test]
fn account_check_failure_after_primary_success_is_never_ok() {
    let mut attempt = authenticate("alice".to_string(), "correct".to_string());
    let script = BackendScript {
        setup: Ok(()),
        primary: StepRun { requests: Vec::new(), verdict: Ok(()) },
        account: StepRun { requests: Vec::new(), verdict: Err(AuthError::AccountExpired) },
    };
    attempt.run_scripted(&script);
    let stream = attempt.drain();
    assert_eq!(stream.len(), 1);
    assert_eq!(
        stream[0],
        ConversationMessage::LoginResult(Err(AuthError::AccountExpired))
    );
}

#[test]
fn account_check_does_not_run_after_primary_failure() {
    // The account step would report "account expired", but the primary step
    // already failed: its verdict wins and its diagnostics never appear.
    let mut attempt = authenticate("alice".to_string(), "wrong".to_string());
    let script = BackendScript {
        setup: Ok(()),
        primary: StepRun {
            requests: Vec::new(),
            verdict: Err(AuthError::AuthenticationError),
        },
        account: StepRun {
            requests: vec![StackRequest::InfoMsg("checking account".to_string())],
            verdict: Err(AuthError::AccountExpired),
        },
    };
    attempt.run_scripted(&script);
    let stream = attempt.drain();
    assert_eq!(stream.len(), 1);
    assert_eq!(
        stream[0],
        ConversationMessage::LoginResult(Err(AuthError::AuthenticationError))
    );
}

#[test]
fn setup_failure_is_reported_as_a_verdict() {
    // A stack that cannot even build the transaction still answers the
    // interface: the failure arrives as the one verdict message.
    let mut attempt = authenticate("alice".to_string(), "correct".to_string());
    let script = BackendScript {
        setup: Err(AuthError::SystemError),
        primary: StepRun { requests: Vec::new(), verdict: Ok(()) },
        account: StepRun { requests: Vec::new(), verdict: Ok(()) },
    };
    attempt.run_scripted(&script);
    let stream = attempt.drain();
    assert_eq!(stream.len(), 1);
    assert_eq!(
        stream[0],
        ConversationMessage::LoginResult(Err(AuthError::SystemError))
    );
}

#[test]
fn info_messages_arrive_in_order_before_the_result() {
    let mut attempt = authenticate("alice".to_string(), "correct".to_string());
    let script = BackendScript {
        setup: Ok(()),
        primary: StepRun {
            requests: vec![
                StackRequest::InfoMsg("a".to_string()),
                StackRequest::InfoMsg("b".to_string()),
            ],
            verdict: Ok(()),
        },
        account: StepRun { requests: Vec::new(), verdict: Ok(()) },
    };
    attempt.run_scripted(&script);
    assert_eq!(
        attempt.poll(),
        Some(ConversationMessage::InfoMessage("a".to_string()))
    );
    assert_eq!(
        attempt.poll(),
        Some(ConversationMessage::InfoMessage("b".to_string()))
    );
    assert_eq!(attempt.poll(), Some(ConversationMessage::LoginResult(Ok(()))));
    assert_eq!(attempt.poll(), None);
}

#[test]
fn error_messages_are_forwarded_with_their_text() {
    let mut attempt = authenticate("alice".to_string(), "wrong".to_string());
    let script = BackendScript {
        setup: Ok(()),
        primary: StepRun {
            requests: vec![StackRequest::ErrorMsg("try again later".to_string())],
            verdict: Err(AuthError::AccountLocked),
        },
        account: StepRun { requests: Vec::new(), verdict: Ok(()) },
    };
    attempt.run_scripted(&script);
    assert_eq!(
        attempt.poll(),
        Some(ConversationMessage::ErrorMessage("try again later".to_string()))
    );
    assert_eq!(
        attempt.poll(),
        Some(ConversationMessage::LoginResult(Err(AuthError::AccountLocked)))
    );
}

#[test]
fn tight_polling_loop_stays_responsive_while_the_backend_dawdles() {
    // The worker has not delivered anything yet: every poll of the tight
    // loop returns "no message yet" at once instead of blocking.
    let mut attempt = authenticate("alice".to_string(), "correct".to_string());
    for _ in 0..10_000 {
        assert_eq!(attempt.poll(), None);
    }
    // The slow backend finally speaks, mid-loop.
    attempt.deliver_info("slow backend".to_string());
    assert_eq!(
        attempt.poll(),
        Some(ConversationMessage::InfoMessage("slow backend".to_string()))
    );
    for _ in 0..10_000 {
        assert_eq!(attempt.poll(), None);
    }
    attempt.deliver_result(Ok(()));
    assert_eq!(attempt.poll(), Some(ConversationMessage::LoginResult(Ok(()))));
    assert!(attempt.settled());
}

#[test]
fn sequential_attempts_have_independent_streams() {
    let mut session = Session::new();
    assert_eq!(session.state(), SessionState::Idle);

    // First attempt: rejected, with a diagnostic line.
    session.authenticate("alice".to_string(), "wrong".to_string());
    assert_eq!(session.state(), SessionState::Pending);
    assert!(session.busy());
    let script1 = BackendScript {
        setup: Ok(()),
        primary: StepRun {
            requests: vec![StackRequest::InfoMsg("first".to_string())],
            verdict: Err(AuthError::AuthenticationError),
        },
        account: StepRun { requests: Vec::new(), verdict: Ok(()) },
    };
    session.run_scripted(&script1);
    assert_eq!(
        session.poll(),
        Some(ConversationMessage::InfoMessage("first".to_string()))
    );
    assert_eq!(
        session.poll(),
        Some(ConversationMessage::LoginResult(Err(
            AuthError::AuthenticationError
        )))
    );
    assert_eq!(session.state(), SessionState::Failed);
    session.acknowledge_failure();
    assert_eq!(session.state(), SessionState::Idle);

    // Second attempt: accepted. Nothing of the first stream leaks into it.
    session.authenticate("alice".to_string(), "correct".to_string());
    let script2 = BackendScript {
        setup: Ok(()),
        primary: StepRun {
            requests: vec![StackRequest::InfoMsg("second".to_string())],
            verdict: Ok(()),
        },
        account: StepRun { requests: Vec::new(), verdict: Ok(()) },
    };
    session.run_scripted(&script2);
    assert_eq!(
        session.poll(),
        Some(ConversationMessage::InfoMessage("second".to_string()))
    );
    assert_eq!(session.poll(), Some(ConversationMessage::LoginResult(Ok(()))));
    assert_eq!(session.state(), SessionState::Succeeded);
    assert_eq!(session.poll(), None);
}

#[test]
fn prompts_are_answered_with_the_credentials_verbatim() {
    let creds = Credentials::new("alice".to_string(), "s3cret".to_string());
    let plain = StackRequest::Prompt("login:".to_string());
    let masked = StackRequest::MaskedPrompt("Password:".to_string());
    let info = StackRequest::InfoMsg("hello".to_string());
    assert_eq!(plain.answer(&creds), Some("alice".to_string()));
    assert_eq!(masked.answer(&creds), Some("s3cret".to_string()));
    assert_eq!(info.answer(&creds), None);
}

#[test]
fn run_step_collects_answers_and_forwards_text() {
    let creds = Credentials::new("alice".to_string(), "pw".to_string());
    let step = StepRun {
        requests: vec![
            StackRequest::Prompt("login:".to_string()),
            StackRequest::InfoMsg("working".to_string()),
            StackRequest::MaskedPrompt("Password:".to_string()),
        ],
        verdict: Ok(()),
    };
    let mut stream = Vec::new();
    let mut answers = Vec::new();
    let verdict = run_step(&creds, &step, &mut stream, &mut answers);
    assert_eq!(verdict, Ok(()));
    assert_eq!(answers, vec!["alice".to_string(), "pw".to_string()]);
    assert_eq!(
        stream,
        vec![ConversationMessage::InfoMessage("working".to_string())]
    );
}

#[test]
fn run_transaction_emits_both_steps_diagnostics_on_success() {
    let creds = Credentials::new("alice".to_string(), "pw".to_string());
    let script = BackendScript {
        setup: Ok(()),
        primary: StepRun {
            requests: vec![StackRequest::InfoMsg("step one".to_string())],
            verdict: Ok(()),
        },
        account: StepRun {
            requests: vec![StackRequest::InfoMsg("step two".to_string())],
            verdict: Ok(()),
        },
    };
    let stream = run_transaction(&creds, &script);
    assert_eq!(
        stream,
        vec![
            ConversationMessage::InfoMessage("step one".to_string()),
            ConversationMessage::InfoMessage("step two".to_string()),
            ConversationMessage::LoginResult(Ok(())),
        ]
    );
}

#[test]
fn ui_reacts_to_each_message_kind() {
    assert_eq!(
        ui_reaction(&ConversationMessage::LoginResult(Ok(()))),
        UiAction::Unlock
    );
    assert_eq!(
        ui_reaction(&ConversationMessage::LoginResult(Err(AuthError::Abort))),
        UiAction::ShowError(AuthError::Abort)
    );
    assert_eq!(
        ui_reaction(&ConversationMessage::InfoMessage("x".to_string())),
        UiAction::AppendFeed("info: x".to_string())
    );
    assert_eq!(
        ui_reaction(&ConversationMessage::ErrorMessage("y".to_string())),
        UiAction::AppendFeed("error: y".to_string())
    );
}

#[test]
fn every_failure_class_reaches_the_interface() {
    let cases = [
        AuthError::AuthenticationError,
        AuthError::CredentialExpired,
        AuthError::AccountExpired,
        AuthError::AccountLocked,
        AuthError::Abort,
        AuthError::SystemError,
    ];
    for kind in cases {
        let mut attempt = authenticate("alice".to_string(), "pw".to_string());
        let script = BackendScript {
            setup: Ok(()),
            primary: StepRun { requests: Vec::new(), verdict: Err(kind) },
            account: StepRun { requests: Vec::new(), verdict: Ok(()) },
        };
        attempt.run_scripted(&script);
        assert_eq!(
            attempt.poll(),
            Some(ConversationMessage::LoginResult(Err(kind)))
        );
        assert!(attempt.settled());
    }
}

#[test]
fn failure_descriptions_are_distinct_and_stable() {
    assert_eq!(
        AuthError::AuthenticationError.describe(),
        "authentication failed"
    );
    assert_eq!(AuthError::CredentialExpired.describe(), "credentials expired");
    assert_eq!(AuthError::AccountExpired.describe(), "account expired");
    assert_eq!(AuthError::AccountLocked.describe(), "account locked");
    assert_eq!(AuthError::Abort.describe(), "authentication aborted");
    assert_eq!(
        AuthError::SystemError.describe(),
        "authentication system error"
    );
}
