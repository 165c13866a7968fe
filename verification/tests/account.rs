use sonetto_core::account::build_login_response;
use sonetto_core::account::calculate_expires_in;
use sonetto_core::account::create_auth_error_response;
use sonetto_core::account::format_timestamp;
use sonetto_core::account::generate_session_id;
use sonetto_core::account::generate_token;
use sonetto_core::account::get_user_by_id;
use sonetto_core::account::get_user_with_token_validation;
use sonetto_core::account::hex_encode;
use sonetto_core::account::mask_email;
use sonetto_core::account::millis_to_seconds;
use sonetto_core::account::renew_tokens;
use sonetto_core::account::timestamp_or_default;
use sonetto_core::account::token_from_bytes;
use sonetto_core::account::AccountError;
use sonetto_core::account::AccountType;
use sonetto_core::account::UserData;
use sonetto_core::account::UserRow;

fn row() -> UserRow {
    UserRow {
        username: "Yon".to_string(),
        email: "steve@gmail.com".to_string(),
        first_join: 1,
        real_name_status: 0,
        age: Some(21),
        is_adult: 7,
        account_tags: None,
        need_activate: 0,
        cipher_mark: -1,
        token: "tok".to_string(),
        refresh_token: "ref".to_string(),
        token_expires_at: Some(5000),
        created_at: None,
        last_login_at: Some(12),
    }
}

fn user() -> UserData {
    get_user_by_id(1337, Some(row())).unwrap()
}

#[test]
fn mask_email_keeps_three_characters() {
    assert_eq!(mask_email("steve@gmail.com"), "ste****@gmail.com");
    assert_eq!(mask_email("ab@x.org"), "ab****@x.org");
    assert_eq!(mask_email("@x.org"), "****@x.org");
    assert_eq!(mask_email("abc@"), "abc****@");
    assert_eq!(mask_email("a@b@c"), "a****@b@c");
    assert_eq!(mask_email("no-at-sign"), "no-at-sign");
    assert_eq!(mask_email(""), "");
    assert_eq!(mask_email("日本語のメール@example.jp"), "日本語****@example.jp");
}

#[test]
fn expires_in_counts_whole_seconds() {
    assert_eq!(calculate_expires_in(None, 123), 604800);
    assert_eq!(calculate_expires_in(Some(10_000), 4_000), 6);
    assert_eq!(calculate_expires_in(Some(10_000), 4_001), 5);
    assert_eq!(calculate_expires_in(Some(10_000), 10_000), 0);
    assert_eq!(calculate_expires_in(Some(10_000), 20_000), 0);
    assert_eq!(calculate_expires_in(Some(i64::MAX), i64::MIN), 18_446_744_073_709_551);
    assert_eq!(calculate_expires_in(Some(i64::MIN), i64::MAX), 0);
}

#[test]
fn auth_error_gives_nothing_away() {
    let rsp = create_auth_error_response();
    assert_eq!(rsp.code, 401);
    assert_eq!(rsp.msg, "Invalid credentials or token");
    assert_eq!(rsp.data.token, "");
    assert_eq!(rsp.data.expires_in, 0);
    assert_eq!(rsp.data.refresh_token, "");
    assert_eq!(rsp.data.user_id, 0);
    assert_eq!(rsp.data.account_type, AccountType::Email);
    assert_eq!(rsp.data.registration_account_type, 0);
    assert_eq!(rsp.data.account, "");
    assert!(!rsp.data.real_name_info.need_real_name);
    assert!(!rsp.data.real_name_info.real_name_status);
    assert_eq!(rsp.data.real_name_info.age, 0);
    assert!(!rsp.data.real_name_info.adult);
    assert!(!rsp.data.need_activate && !rsp.data.cipher_mark && !rsp.data.first_join);
    assert_eq!(rsp.data.account_tags, "");
}

#[test]
fn login_response_carries_the_account() {
    let rsp = build_login_response(&user(), "new".to_string(), "fresh".to_string(), 2000);
    assert_eq!(rsp.code, 200);
    assert_eq!(rsp.msg, "success");
    assert_eq!(rsp.data.token, "new");
    assert_eq!(rsp.data.refresh_token, "fresh");
    assert_eq!(rsp.data.expires_in, 3);
    assert_eq!(rsp.data.user_id, 1337);
    assert_eq!(rsp.data.registration_account_type, 1);
    assert_eq!(rsp.data.account, "ste****@gmail.com");
    assert!(rsp.data.real_name_info.need_real_name);
    assert!(!rsp.data.real_name_info.real_name_status);
    assert_eq!(rsp.data.real_name_info.age, 21);
    assert!(rsp.data.real_name_info.adult);
    assert!(!rsp.data.need_activate);
    assert!(rsp.data.cipher_mark);
    assert!(rsp.data.first_join);
    assert_eq!(rsp.data.account_tags, "");
}

#[test]
fn login_response_cuts_numbers_to_their_width() {
    let mut odd = user();
    odd.user_id = -1;
    odd.age = 300;
    let rsp = build_login_response(&odd, String::new(), String::new(), 0);
    assert_eq!(rsp.data.user_id, u64::MAX);
    assert_eq!(rsp.data.real_name_info.age, 44);
}

#[test]
fn user_is_read_from_its_row() {
    let user = user();
    assert_eq!(user.user_id, 1337);
    assert_eq!(user.username, "Yon");
    assert_eq!(user.email, "steve@gmail.com");
    assert!(user.first_join && !user.real_name_status && user.is_adult);
    assert!(!user.need_activate && user.cipher_mark);
    assert_eq!(user.age, 21);
    assert_eq!(user.account_tags, "");
    assert_eq!(user.token, "tok");
    assert_eq!(user.refresh_token, "ref");
    assert_eq!(user.token_expires_at, Some(5000));
    assert_eq!(user.created_at, None);
    assert_eq!(user.last_login_at, Some(12));
    let mut young = row();
    young.age = None;
    young.account_tags = Some("vip".to_string());
    let user = get_user_by_id(1, Some(young)).unwrap();
    assert_eq!(user.age, 18);
    assert_eq!(user.account_tags, "vip");
}

#[test]
fn user_lookup_checks_row_and_token() {
    assert_eq!(get_user_by_id(1, None).err(), Some(AccountError::UserNotFound));
    assert_eq!(get_user_with_token_validation(1, None, "tok").err(), Some(AccountError::UserNotFound));
    assert_eq!(
        get_user_with_token_validation(1, Some(row()), "other").err(),
        Some(AccountError::InvalidToken)
    );
    assert_eq!(get_user_with_token_validation(1, Some(row()), "tok").unwrap().user_id, 1);
    assert_eq!(AccountError::UserNotFound.message(), "User not found");
    assert_eq!(AccountError::InvalidToken.message(), "Invalid token");
}

#[test]
fn hex_is_lower_case_two_digits_a_byte() {
    assert_eq!(hex_encode(&[]), "");
    assert_eq!(hex_encode(&[0x00, 0x0f, 0xa0, 0xff, 0x7b]), "000fa0ff7b");
    assert_eq!(token_from_bytes(&[0xde, 0xad]), "dead200");
    let all: Vec<u8> = (0..=255).collect();
    let expected: String = all.iter().map(|b| format!("{:02x}", b)).collect();
    assert_eq!(hex_encode(&all), expected);
}

#[test]
fn tokens_have_their_shape() {
    let token = generate_token();
    assert_eq!(token.len(), 35);
    assert!(token.ends_with("200"));
    assert!(token[..32].chars().all(|c| c.is_ascii_digit() || ('a'..='f').contains(&c)));
    let id = generate_session_id();
    assert_eq!(id.len(), 32);
    assert!(id.chars().all(|c| c.is_ascii_digit() || ('a'..='f').contains(&c)));
    assert_ne!(generate_token(), generate_token());
}

#[test]
fn renewed_tokens_last_seven_days() {
    let tokens = renew_tokens(1_000);
    assert_eq!(tokens.expires_at, 1_000 + 7 * 24 * 60 * 60 * 1000);
    assert_eq!(tokens.token.len(), 35);
    assert_eq!(tokens.refresh_token.len(), 35);
    assert_ne!(tokens.token, tokens.refresh_token);
    assert_eq!(renew_tokens(i64::MAX - 5).expires_at, i64::MAX);
}

#[test]
fn timestamps_are_written_in_utc() {
    assert_eq!(format_timestamp(Some(0)), "1970-01-01 00:00:00");
    assert_eq!(format_timestamp(Some(1_744_486_800_999)), "2025-04-12 19:40:00");
    assert_eq!(format_timestamp(Some(947_638_923_004)), "2000-01-12 01:02:03");
    assert_eq!(format_timestamp(Some(-1)), "1970-01-01 00:00:00");
    assert_eq!(format_timestamp(Some(-1000)), "1969-12-31 23:59:59");
    assert_eq!(format_timestamp(Some(-1999)), "1969-12-31 23:59:59");
}

#[test]
fn missing_or_impossible_times_get_the_default() {
    assert_eq!(format_timestamp(None), "2025-04-12 19:40:00");
    assert_eq!(format_timestamp(Some(i64::MAX)), "2025-04-12 19:40:00");
    assert_eq!(format_timestamp(Some(i64::MIN)), "2025-04-12 19:40:00");
    assert_eq!(timestamp_or_default(None), "2025-04-12 19:40:00");
    assert_eq!(timestamp_or_default(Some("x".to_string())), "x");
}

#[test]
fn milliseconds_round_toward_zero() {
    assert_eq!(millis_to_seconds(0), 0);
    assert_eq!(millis_to_seconds(999), 0);
    assert_eq!(millis_to_seconds(1000), 1);
    assert_eq!(millis_to_seconds(-999), 0);
    assert_eq!(millis_to_seconds(-1000), -1);
    assert_eq!(millis_to_seconds(-1001), -1);
    assert_eq!(millis_to_seconds(i64::MIN), i64::MIN / 1000);
    assert_eq!(millis_to_seconds(i64::MAX), i64::MAX / 1000);
}
