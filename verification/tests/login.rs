use sonetto_core::error::AppError;
use sonetto_core::login::check_token;
use sonetto_core::login::complete_login;
use sonetto_core::login::extract_user_id;
use sonetto_core::login::login_red_dot_batch;
use sonetto_core::login::new_periods;
use sonetto_core::text::str_equal;
use sonetto_core::login::LoginAction;
use sonetto_core::login::LoginEvent;
use sonetto_core::login::LoginFlow;
use sonetto_core::login::LoginOutcome;
use sonetto_core::login::LoginRejection;
use sonetto_core::login::LoginStage;
use sonetto_core::login::StoredCredentials;
use sonetto_core::registry::SessionRegistry;
use sonetto_core::session::ConnectionContext;

fn stored(token: &str, expires: Option<i64>) -> StoredCredentials {
    StoredCredentials { token: token.to_string(), token_expires_at: expires }
}

fn started() -> LoginFlow {
    let mut flow = LoginFlow::new();
    assert_eq!(
        flow.step(LoginEvent::Request { account_id: "200_69420" }),
        LoginAction::FetchUser { user_id: 69420 }
    );
    flow
}

#[test]
fn user_id_is_the_second_field() {
    assert_eq!(extract_user_id("200_69420"), Ok(69420));
    assert_eq!(extract_user_id("200_1337_9"), Ok(1337));
    assert_eq!(extract_user_id("_5"), Ok(5));
    assert_eq!(extract_user_id("200_-3"), Ok(-3));
    assert_eq!(extract_user_id("200_9223372036854775807"), Ok(i64::MAX));
    assert_eq!(extract_user_id("200_-9223372036854775808"), Ok(i64::MIN));
    for bad in ["", "200", "200_", "200_x", "200__5", "200_9223372036854775808", "200_ 5"] {
        assert_eq!(extract_user_id(bad), Err(AppError::InvalidRequest));
    }
}

#[test]
fn token_check_compares_and_looks_at_the_expiry() {
    assert_eq!(check_token(&stored("abc", None), "abc", 10), Ok(()));
    assert_eq!(check_token(&stored("abc", Some(10)), "abc", 10), Ok(()));
    assert_eq!(check_token(&stored("abc", Some(10)), "abc", 11), Err(LoginRejection::TokenExpired));
    assert_eq!(check_token(&stored("abc", Some(10)), "abd", 5), Err(LoginRejection::InvalidToken));
    assert_eq!(check_token(&stored("abc", Some(10)), "abd", 11), Err(LoginRejection::InvalidToken));
    assert_eq!(check_token(&stored("abc", None), "ab", 0), Err(LoginRejection::InvalidToken));
    assert!(str_equal("", ""));
    assert!(str_equal("héllo", "héllo"));
    assert!(!str_equal("hello", "hellp"));
}

#[test]
fn successful_login_walks_every_step() {
    let mut flow = started();
    let credentials = stored("tok", Some(1000));
    let mut actions = Vec::new();
    actions.push(flow.step(LoginEvent::User { stored: Some(&credentials), presented: "tok", now: 999 }));
    for _ in 0..6 {
        actions.push(flow.step(LoginEvent::Completed));
    }
    actions.push(flow.step(LoginEvent::DailyLogin { new_day: true, new_week: true }));
    for _ in 0..2 {
        actions.push(flow.step(LoginEvent::Completed));
    }
    assert_eq!(
        actions,
        vec![
            LoginAction::PushRedDots { user_id: 69420, batch: 0 },
            LoginAction::PushRedDots { user_id: 69420, batch: 1 },
            LoginAction::PushRedDots { user_id: 69420, batch: 2 },
            LoginAction::PushCritters { user_id: 69420 },
            LoginAction::LoadPlayerState { user_id: 69420 },
            LoginAction::SendSuccess { user_id: 69420 },
            LoginAction::ProcessDailyLogin { user_id: 69420 },
            LoginAction::ResetDailyCounters { user_id: 69420 },
            LoginAction::ResetWeeklyCounters { user_id: 69420 },
            LoginAction::Register { user_id: 69420 },
        ]
    );
    assert_eq!(flow.step(LoginEvent::Completed), LoginAction::Finish { outcome: LoginOutcome::Success });
    assert_eq!(flow.stage(), LoginStage::Finished(LoginOutcome::Success));
}

#[test]
fn resets_follow_what_is_due() {
    for (new_day, new_week, expected) in [
        (false, false, vec![LoginAction::Register { user_id: 69420 }]),
        (
            true,
            false,
            vec![LoginAction::ResetDailyCounters { user_id: 69420 }, LoginAction::Register { user_id: 69420 }],
        ),
        (
            false,
            true,
            vec![LoginAction::ResetWeeklyCounters { user_id: 69420 }, LoginAction::Register { user_id: 69420 }],
        ),
    ] {
        let mut flow = started();
        let credentials = stored("tok", None);
        flow.step(LoginEvent::User { stored: Some(&credentials), presented: "tok", now: 0 });
        for _ in 0..6 {
            flow.step(LoginEvent::Completed);
        }
        let mut actions = vec![flow.step(LoginEvent::DailyLogin { new_day, new_week })];
        while actions.len() < expected.len() {
            actions.push(flow.step(LoginEvent::Completed));
        }
        assert_eq!(actions, expected);
    }
}

fn rejected_with(event: LoginEvent<'_>, rejection: LoginRejection) {
    let mut flow = started();
    assert_eq!(flow.step(event), LoginAction::SendError { rejection });
    assert_eq!(flow.stage(), LoginStage::Rejecting(rejection));
    let end = LoginAction::Finish { outcome: LoginOutcome::Rejected(rejection) };
    assert_eq!(flow.step(LoginEvent::Completed), end);
    for _ in 0..20 {
        assert_eq!(flow.step(LoginEvent::Completed), end);
    }
    assert_eq!(flow.step(LoginEvent::DailyLogin { new_day: true, new_week: true }), end);
}

#[test]
fn wrong_token_is_rejected_and_never_registers() {
    let credentials = stored("tok", None);
    rejected_with(
        LoginEvent::User { stored: Some(&credentials), presented: "other", now: 0 },
        LoginRejection::InvalidToken,
    );
    assert_eq!(
        LoginRejection::InvalidToken.into_error(String::new()),
        AppError::Custom("Invalid token".to_string())
    );
}

#[test]
fn expired_token_is_rejected_and_never_registers() {
    let credentials = stored("tok", Some(1000));
    rejected_with(
        LoginEvent::User { stored: Some(&credentials), presented: "tok", now: 1001 },
        LoginRejection::TokenExpired,
    );
    assert_eq!(
        LoginRejection::TokenExpired.into_error(String::new()),
        AppError::Custom("Token expired".to_string())
    );
}

#[test]
fn unknown_user_and_storage_failure_are_rejected() {
    rejected_with(LoginEvent::User { stored: None, presented: "tok", now: 0 }, LoginRejection::UserNotFound);
    rejected_with(LoginEvent::Failed, LoginRejection::DatabaseError);
    assert_eq!(
        LoginRejection::UserNotFound.into_error(String::new()),
        AppError::Custom("User not found".to_string())
    );
    assert_eq!(
        LoginRejection::DatabaseError.into_error("disk full".to_string()),
        AppError::Database("disk full".to_string())
    );
    assert_eq!(LoginRejection::InvalidAccount.into_error(String::new()), AppError::InvalidRequest);
}

#[test]
fn bad_account_name_is_rejected_before_any_lookup() {
    let mut flow = LoginFlow::new();
    assert_eq!(
        flow.step(LoginEvent::Request { account_id: "nobody" }),
        LoginAction::SendError { rejection: LoginRejection::InvalidAccount }
    );
    assert_eq!(
        flow.step(LoginEvent::Completed),
        LoginAction::Finish { outcome: LoginOutcome::Rejected(LoginRejection::InvalidAccount) }
    );
}

#[test]
fn failed_work_aborts_the_login() {
    let mut flow = started();
    let credentials = stored("tok", None);
    flow.step(LoginEvent::User { stored: Some(&credentials), presented: "tok", now: 0 });
    flow.step(LoginEvent::Completed);
    let end = LoginAction::Finish { outcome: LoginOutcome::Aborted };
    assert_eq!(flow.step(LoginEvent::Failed), end);
    assert_eq!(flow.step(LoginEvent::Completed), end);
    let mut fresh = LoginFlow::new();
    assert_eq!(fresh.step(LoginEvent::Completed), end);
}

#[test]
fn rejection_texts_are_what_the_client_is_told() {
    assert_eq!(LoginRejection::InvalidAccount.reply_text(), "Invalid account format");
    assert_eq!(LoginRejection::UserNotFound.reply_text(), "User not found");
    assert_eq!(LoginRejection::DatabaseError.reply_text(), "Database error");
    assert_eq!(LoginRejection::InvalidToken.reply_text(), "Invalid token");
    assert_eq!(LoginRejection::TokenExpired.reply_text(), "Token expired");
}

#[test]
fn login_pushes_three_red_dot_batches() {
    assert_eq!(login_red_dot_batch(0), vec![2218, 2220, 2221]);
    assert_eq!(login_red_dot_batch(1), vec![2240]);
    assert_eq!(login_red_dot_batch(2), vec![2230]);
    assert_eq!(login_red_dot_batch(3), Vec::<i32>::new());
}

#[test]
fn periods_begin_when_their_number_changes() {
    assert_eq!(new_periods(None, (1, 1, 1)), (true, true, true));
    assert_eq!(new_periods(Some((1, 1, 1)), (1, 1, 1)), (false, false, false));
    assert_eq!(new_periods(Some((1, 1, 1)), (2, 1, 1)), (true, false, false));
    assert_eq!(new_periods(Some((7, 1, 1)), (8, 2, 1)), (true, true, false));
    assert_eq!(new_periods(Some((31, 5, 1)), (32, 5, 2)), (true, false, true));
}

#[test]
fn login_is_completed_whole_or_not_at_all() {
    let mut registry: SessionRegistry<&str> = SessionRegistry::new();
    let mut session = ConnectionContext::new();
    assert!(session.check_and_mark_state_pushes());
    assert_eq!(complete_login(&mut session, &mut registry, "first", 7), Ok(None));
    assert_eq!(session.player_id(), Some(7));
    assert_eq!(registry.lookup(7), Some(&"first"));
    assert!(session.check_and_mark_state_pushes());

    let mut other = ConnectionContext::new();
    assert_eq!(complete_login(&mut other, &mut registry, "second", 7), Ok(Some("first")));
    assert_eq!(registry.lookup(7), Some(&"second"));

    assert_eq!(
        complete_login(&mut session, &mut registry, "third", 8),
        Err(AppError::Custom("Connection is bound to another player".to_string()))
    );
    assert_eq!(session.player_id(), Some(7));
    assert_eq!(registry.lookup(8), None);
    assert_eq!(registry.lookup(7), Some(&"second"));
    assert_eq!(registry.len(), 1);
    session.mark_evicted();
    assert_eq!(session.close(), None);
    assert_eq!(other.close(), Some(7));
}
