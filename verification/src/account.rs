//! Account data of the login service, and what it answers.

use crate::text::chars_of;
use vstd::prelude::*;
use vstd::string::*;

verus! {

/// Seconds a token is good for when the account stores no expiry: one week.
pub const DEFAULT_EXPIRES_IN: i64 = 604800;

/// Result code of a refused login.
pub const CODE_UNAUTHORIZED: i32 = 401;

/// Result code of a successful login.
pub const CODE_OK: i32 = 200;

/// An account as the storage layer reports it.
#[derive(Debug, Clone)]
pub struct UserData {
    pub user_id: i64,
    pub username: String,
    pub email: String,
    pub first_join: bool,
    pub real_name_status: bool,
    pub age: i32,
    pub is_adult: bool,
    pub account_tags: String,
    pub need_activate: bool,
    pub cipher_mark: bool,
    pub token: String,
    pub refresh_token: String,
    pub token_expires_at: Option<i64>,
    pub created_at: Option<i64>,
    pub last_login_at: Option<i64>,
}

/// How an account signs in.
#[derive(Debug, Clone, Copy, PartialEq, Eq, Structural)]
pub enum AccountType {
    Email,
}

/// What the service knows of the person behind an account.
#[derive(Debug, Clone)]
pub struct RealNameInfo {
    pub need_real_name: bool,
    pub real_name_status: bool,
    pub age: u8,
    pub adult: bool,
}

/// The account part of a login answer.
#[derive(Debug, Clone)]
pub struct AccountLoginRspData {
    pub token: String,
    pub expires_in: i64,
    pub refresh_token: String,
    pub user_id: u64,
    pub account_type: AccountType,
    pub registration_account_type: i32,
    pub account: String,
    pub real_name_info: RealNameInfo,
    pub need_activate: bool,
    pub cipher_mark: bool,
    pub first_join: bool,
    pub account_tags: String,
}

/// A login answer.
#[derive(Debug, Clone)]
pub struct AccountLoginRsp {
    pub code: i32,
    pub msg: String,
    pub data: AccountLoginRspData,
}

/// The position of the first `@`, or the length where there is none.
pub open spec fn at_position(email: Seq<char>) -> int
    decreases email.len(),
{
    if email.len() == 0 {
        0
    } else if email[0] == '@' {
        0
    } else {
        1 + at_position(email.drop_first())
    }
}

/// The address as it is shown: up to three characters of the local part,
/// four stars, then the `@` and the domain. Text without `@` is shown as it is.
pub open spec fn masked_email(email: Seq<char>) -> Seq<char> {
    let at = at_position(email);
    if at >= email.len() {
        email
    } else {
        email.subrange(0, if at < 3 {
            at
        } else {
            3
        }) + seq!['*', '*', '*', '*'] + email.subrange(at, email.len() as int)
    }
}

/// The position found is that of an `@`, and no `@` stands before it.
pub proof fn lemma_at_position(email: Seq<char>)
    ensures
        0 <= at_position(email) <= email.len(),
        at_position(email) < email.len() ==> email[at_position(email)] == '@',
        forall|k: int| 0 <= k < at_position(email) ==> email[k] != '@',
    decreases email.len(),
{
    if email.len() > 0 && email[0] != '@' {
        let rest = email.drop_first();
        lemma_at_position(rest);
        assert forall|k: int| 0 <= k < at_position(email) implies email[k] != '@' by {
            if k > 0 {
                assert(rest[k - 1] == email[k]);
            }
        }
    }
}

proof fn lemma_at_position_is(email: Seq<char>, at: int)
    requires
        0 <= at <= email.len(),
        forall|k: int| 0 <= k < at ==> email[k] != '@',
        at < email.len() ==> email[at] == '@',
    ensures
        at_position(email) == at,
    decreases email.len(),
{
    if email.len() > 0 && email[0] != '@' {
        let rest = email.drop_first();
        assert forall|k: int| 0 <= k < at - 1 implies rest[k] != '@' by {
            assert(rest[k] == email[k + 1]);
        }
        lemma_at_position_is(rest, at - 1);
    }
}

/// Masks an address for display: `steve@gmail.com` becomes `ste****@gmail.com`.
pub fn mask_email(email: &str) -> (shown: String)
    ensures
        shown@ == masked_email(email@),
{
    let chars = chars_of(email);
    let n = chars.len();
    let mut at: usize = 0;
    while at < n && chars[at] != '@'
        invariant
            n == chars@.len(),
            at <= n,
            forall|k: int| 0 <= k < at ==> chars@[k] != '@',
        decreases n - at,
    {
        at = at + 1;
    }
    proof {
        lemma_at_position_is(email@, at as int);
    }
    if at >= n {
        return String::from_str(email);
    }
    let keep: usize = if at < 3 {
        at
    } else {
        3
    };
    let mut shown = String::from_str(email.substring_char(0, keep));
    proof {
        reveal_strlit("****");
    }
    shown.append("****");
    shown.append(email.substring_char(at, n));
    proof {
        assert("****"@ =~= seq!['*', '*', '*', '*']);
        assert(shown@ =~= masked_email(email@));
    }
    shown
}

/// Seconds until the token expires, seen from `now`; both times are in
/// milliseconds. An expired token has 0 seconds left; without a stored expiry
/// the answer is one week.
pub open spec fn expires_in(token_expires_at: Option<i64>, now: i64) -> int {
    match token_expires_at {
        Some(at) => if at > now {
            (at - now) / 1000
        } else {
            0
        },
        None => 604800,
    }
}

/// Seconds until the token expires, seen from `now` (milliseconds).
pub fn calculate_expires_in(token_expires_at: Option<i64>, now: i64) -> (seconds: i64)
    ensures
        seconds == expires_in(token_expires_at, now),
        seconds >= 0,
{
    match token_expires_at {
        Some(at) => {
            if at > now {
                let left: i128 = at as i128 - now as i128;
                (left / 1000) as i64
            } else {
                0
            }
        },
        None => DEFAULT_EXPIRES_IN,
    }
}

/// Whether the answer is the refusal of a login: code 401, the refusal text,
/// and an account part that gives nothing away.
pub open spec fn is_auth_error(rsp: AccountLoginRsp) -> bool {
    &&& rsp.code == 401
    &&& rsp.msg@ == "Invalid credentials or token"@
    &&& rsp.data.token@.len() == 0
    &&& rsp.data.expires_in == 0
    &&& rsp.data.refresh_token@.len() == 0
    &&& rsp.data.user_id == 0
    &&& rsp.data.account_type == AccountType::Email
    &&& rsp.data.registration_account_type == 0
    &&& rsp.data.account@.len() == 0
    &&& !rsp.data.real_name_info.need_real_name
    &&& !rsp.data.real_name_info.real_name_status
    &&& rsp.data.real_name_info.age == 0
    &&& !rsp.data.real_name_info.adult
    &&& !rsp.data.need_activate
    &&& !rsp.data.cipher_mark
    &&& !rsp.data.first_join
    &&& rsp.data.account_tags@.len() == 0
}

/// The answer to a login that was refused.
pub fn create_auth_error_response() -> (rsp: AccountLoginRsp)
    ensures
        is_auth_error(rsp),
{
    AccountLoginRsp {
        code: CODE_UNAUTHORIZED,
        msg: String::from_str("Invalid credentials or token"),
        data: AccountLoginRspData {
            token: String::new(),
            expires_in: 0,
            refresh_token: String::new(),
            user_id: 0,
            account_type: AccountType::Email,
            registration_account_type: 0,
            account: String::new(),
            real_name_info: RealNameInfo {
                need_real_name: false,
                real_name_status: false,
                age: 0,
                adult: false,
            },
            need_activate: false,
            cipher_mark: false,
            first_join: false,
            account_tags: String::new(),
        },
    }
}

/// Whether the answer is the successful login of `user` with the new tokens,
/// seen from `now` (milliseconds).
pub open spec fn is_login_response(
    rsp: AccountLoginRsp,
    user: UserData,
    new_token: Seq<char>,
    new_refresh_token: Seq<char>,
    now: i64,
) -> bool {
    &&& rsp.code == 200
    &&& rsp.msg@ == "success"@
    &&& rsp.data.token@ == new_token
    &&& rsp.data.expires_in == expires_in(user.token_expires_at, now)
    &&& rsp.data.refresh_token@ == new_refresh_token
    &&& rsp.data.user_id == user.user_id as u64
    &&& rsp.data.account_type == AccountType::Email
    &&& rsp.data.registration_account_type == 1
    &&& rsp.data.account@ == masked_email(user.email@)
    &&& rsp.data.real_name_info.need_real_name == !user.real_name_status
    &&& rsp.data.real_name_info.real_name_status == user.real_name_status
    &&& rsp.data.real_name_info.age == user.age as u8
    &&& rsp.data.real_name_info.adult == user.is_adult
    &&& rsp.data.need_activate == user.need_activate
    &&& rsp.data.cipher_mark == user.cipher_mark
    &&& rsp.data.first_join == user.first_join
    &&& rsp.data.account_tags@ == user.account_tags@
}

/// The answer to a successful login, seen from `now` (milliseconds).
pub fn build_login_response(
    user: &UserData,
    new_token: String,
    new_refresh_token: String,
    now: i64,
) -> (rsp: AccountLoginRsp)
    ensures
        is_login_response(rsp, *user, new_token@, new_refresh_token@, now),
{
    let expires_in = calculate_expires_in(user.token_expires_at, now);
    AccountLoginRsp {
        code: CODE_OK,
        msg: String::from_str("success"),
        data: AccountLoginRspData {
            token: new_token,
            expires_in,
            refresh_token: new_refresh_token,
            user_id: #[verifier::truncate]
            (user.user_id as u64),
            account_type: AccountType::Email,
            registration_account_type: 1,
            account: mask_email(user.email.as_str()),
            real_name_info: RealNameInfo {
                need_real_name: !user.real_name_status,
                real_name_status: user.real_name_status,
                age: #[verifier::truncate]
                (user.age as u8),
                adult: user.is_adult,
            },
            need_activate: user.need_activate,
            cipher_mark: user.cipher_mark,
            first_join: user.first_join,
            account_tags: user.account_tags.clone(),
        },
    }
}

/// The sixteen digits of lower-case hexadecimal text.
pub open spec fn hex_digits() -> Seq<char> {
    "0123456789abcdef"@
}

/// The bytes in lower-case hexadecimal, two digits each.
pub open spec fn hex_text(bytes: Seq<u8>) -> Seq<char>
    decreases bytes.len(),
{
    if bytes.len() == 0 {
        Seq::<char>::empty()
    } else {
        hex_text(bytes.drop_last()) + seq![
            hex_digits()[bytes.last() as int / 16],
            hex_digits()[bytes.last() as int % 16],
        ]
    }
}

/// The token made of the given random bytes: their hexadecimal text, then `200`.
pub open spec fn token_text(bytes: Seq<u8>) -> Seq<char> {
    hex_text(bytes) + "200"@
}

/// Hexadecimal text has two characters for each byte.
pub proof fn lemma_hex_text_len(bytes: Seq<u8>)
    ensures
        hex_text(bytes).len() == 2 * bytes.len(),
    decreases bytes.len(),
{
    if bytes.len() > 0 {
        lemma_hex_text_len(bytes.drop_last());
    }
}

/// Writes bytes in lower-case hexadecimal.
pub fn hex_encode(bytes: &[u8]) -> (text: String)
    ensures
        text@ == hex_text(bytes@),
{
    let digits = "0123456789abcdef";
    proof {
        reveal_strlit("0123456789abcdef");
        assert(digits.is_ascii());
    }
    let mut text = String::new();
    let n = bytes.len();
    let mut i: usize = 0;
    proof {
        assert(bytes@.subrange(0, 0) =~= Seq::<u8>::empty());
    }
    while i < n
        invariant
            n == bytes@.len(),
            i <= n,
            digits@ == hex_digits(),
            digits@.len() == 16,
            digits.is_ascii(),
            text@ == hex_text(bytes@.subrange(0, i as int)),
        decreases n - i,
    {
        let byte = bytes[i];
        let high: usize = (byte / 16) as usize;
        let low: usize = (byte % 16) as usize;
        let ghost before = text@;
        text.append(digits.substring_ascii(high, high + 1));
        text.append(digits.substring_ascii(low, low + 1));
        proof {
            let longer = bytes@.subrange(0, i + 1);
            assert(longer.drop_last() =~= bytes@.subrange(0, i as int));
            assert(longer.last() == byte);
            assert(text@ =~= before + seq![hex_digits()[high as int], hex_digits()[low as int]]);
        }
        i = i + 1;
    }
    proof {
        assert(bytes@.subrange(0, n as int) =~= bytes@);
    }
    text
}

/// Makes the token of the given random bytes.
pub fn token_from_bytes(bytes: &[u8]) -> (token: String)
    ensures
        token@ == token_text(bytes@),
{
    let mut token = hex_encode(bytes);
    token.append("200");
    token
}

/// `rand::Rng::fill` on the thread's generator (`rand::thread_rng`) writes
/// random bytes over the whole array. The bytes are chance, so nothing is
/// promised of them.
#[verifier::external_body]
fn random_bytes() -> (bytes: [u8; 16]) {
    let mut bytes = [0u8; 16];
    rand::Rng::fill(&mut rand::thread_rng(), &mut bytes);
    bytes
}

/// A new random token: 32 hexadecimal digits, then `200`.
pub fn generate_token() -> (token: String)
    ensures
        exists|bytes: Seq<u8>| bytes.len() == 16 && token@ == token_text(bytes),
        token@.len() == 35,
{
    let bytes = random_bytes();
    let token = token_from_bytes(bytes.as_slice());
    proof {
        lemma_hex_text_len(bytes@);
        reveal_strlit("200");
    }
    token
}

/// A new random session identifier: 32 hexadecimal digits.
pub fn generate_session_id() -> (id: String)
    ensures
        exists|bytes: Seq<u8>| bytes.len() == 16 && id@ == hex_text(bytes),
        id@.len() == 32,
{
    let bytes = random_bytes();
    let id = hex_encode(bytes.as_slice());
    proof {
        lemma_hex_text_len(bytes@);
    }
    id
}

/// What `chrono` writes for the UTC time `secs` seconds after 1970-01-01
/// 00:00:00, in the form `2025-04-12 19:40:00`; none where `chrono` has no
/// date for it.
pub uninterp spec fn utc_timestamp_text(secs: i64) -> Option<Seq<char>>;

/// `chrono::DateTime::from_timestamp(secs, 0)`, written with
/// `DateTime::format` as `%Y-%m-%d %H:%M:%S`. The result is the named text for
/// `secs`, which depends on `secs` alone: the time zone is UTC.
#[verifier::external_body]
fn format_utc_seconds(secs: i64) -> (text: Option<String>)
    ensures
        text matches Some(t) ==> utc_timestamp_text(secs) == Some(t@),
        text is None ==> utc_timestamp_text(secs) is None,
{
    match chrono::DateTime::from_timestamp(secs, 0) {
        Some(time) => Some(time.format("%Y-%m-%d %H:%M:%S").to_string()),
        None => None,
    }
}

/// Text shown where a time is missing or has no date.
pub open spec fn default_timestamp_text() -> Seq<char> {
    "2025-04-12 19:40:00"@
}

/// The whole seconds of a time in milliseconds, rounded toward zero.
pub open spec fn whole_seconds(ms: i64) -> i64 {
    if ms >= 0 {
        (ms / 1000) as i64
    } else {
        (-((-ms) / 1000)) as i64
    }
}

/// The whole seconds of a time in milliseconds, rounded toward zero.
pub fn millis_to_seconds(ms: i64) -> (secs: i64)
    ensures
        secs == whole_seconds(ms),
{
    if ms >= 0 {
        ms / 1000
    } else {
        let wide: i128 = 0 - ms as i128;
        (0 - wide / 1000) as i64
    }
}

/// The written time, or the default text where there is none.
pub fn timestamp_or_default(written: Option<String>) -> (text: String)
    ensures
        text@ == match written {
            Some(t) => t@,
            None => default_timestamp_text(),
        },
{
    match written {
        Some(t) => t,
        None => String::from_str("2025-04-12 19:40:00"),
    }
}

/// Writes a time in milliseconds as `YYYY-MM-DD HH:MM:SS` in UTC. A missing
/// time, or one without a date, is written as the default text.
pub fn format_timestamp(timestamp: Option<i64>) -> (text: String)
    ensures
        text@ == match timestamp {
            Some(ms) => match utc_timestamp_text(whole_seconds(ms)) {
                Some(t) => t,
                None => default_timestamp_text(),
            },
            None => default_timestamp_text(),
        },
{
    match timestamp {
        Some(ms) => timestamp_or_default(format_utc_seconds(millis_to_seconds(ms))),
        None => timestamp_or_default(None),
    }
}

/// Milliseconds a new token is good for: seven days.
pub const TOKEN_LIFETIME_MS: i64 = 604_800_000;

/// Age of an account that stores none.
pub const DEFAULT_AGE: i64 = 18;

/// One row of the user table, as storage returns it. Flags are stored as
/// numbers: 0 is false, anything else true.
#[derive(Debug, Clone)]
pub struct UserRow {
    pub username: String,
    pub email: String,
    pub first_join: i64,
    pub real_name_status: i64,
    pub age: Option<i64>,
    pub is_adult: i64,
    pub account_tags: Option<String>,
    pub need_activate: i64,
    pub cipher_mark: i64,
    pub token: String,
    pub refresh_token: String,
    pub token_expires_at: Option<i64>,
    pub created_at: Option<i64>,
    pub last_login_at: Option<i64>,
}

/// Why an account could not be loaded.
#[derive(Debug, Clone, Copy, PartialEq, Eq, Structural)]
pub enum AccountError {
    /// Storage has no user with the identifier.
    UserNotFound,
    /// The presented token is not the stored one.
    InvalidToken,
}

impl AccountError {
    /// What the log says of the error.
    pub fn message(self) -> (text: &'static str)
        ensures
            text@ == match self {
                AccountError::UserNotFound => "User not found"@,
                AccountError::InvalidToken => "Invalid token"@,
            },
    {
        match self {
            AccountError::UserNotFound => "User not found",
            AccountError::InvalidToken => "Invalid token",
        }
    }
}

/// Whether `user` is the account that the row stands for.
pub open spec fn is_user_of_row(user: UserData, user_id: i64, row: UserRow) -> bool {
    &&& user.user_id == user_id
    &&& user.username@ == row.username@
    &&& user.email@ == row.email@
    &&& user.first_join == (row.first_join != 0)
    &&& user.real_name_status == (row.real_name_status != 0)
    &&& user.age == match row.age {
        Some(age) => age as i32,
        None => 18i32,
    }
    &&& user.is_adult == (row.is_adult != 0)
    &&& user.account_tags@ == match row.account_tags {
        Some(tags) => tags@,
        None => Seq::<char>::empty(),
    }
    &&& user.need_activate == (row.need_activate != 0)
    &&& user.cipher_mark == (row.cipher_mark != 0)
    &&& user.token@ == row.token@
    &&& user.refresh_token@ == row.refresh_token@
    &&& user.token_expires_at == row.token_expires_at
    &&& user.created_at == row.created_at
    &&& user.last_login_at == row.last_login_at
}

/// Reads an account from its row.
pub fn user_from_row(user_id: i64, row: UserRow) -> (user: UserData)
    ensures
        is_user_of_row(user, user_id, row),
{
    UserData {
        user_id,
        username: row.username,
        email: row.email,
        first_join: row.first_join != 0,
        real_name_status: row.real_name_status != 0,
        age: match row.age {
            Some(age) => #[verifier::truncate]
            (age as i32),
            None => 18,
        },
        is_adult: row.is_adult != 0,
        account_tags: match row.account_tags {
            Some(tags) => tags,
            None => String::new(),
        },
        need_activate: row.need_activate != 0,
        cipher_mark: row.cipher_mark != 0,
        token: row.token,
        refresh_token: row.refresh_token,
        token_expires_at: row.token_expires_at,
        created_at: row.created_at,
        last_login_at: row.last_login_at,
    }
}

/// Loads the account of a user from what storage found, for the holder of
/// `token`. There is no account without a row, and none for a token that is
/// not the stored one.
pub fn get_user_with_token_validation(user_id: i64, row: Option<UserRow>, token: &str) -> (r:
    Result<UserData, AccountError>)
    ensures
        match row {
            None => r == Err::<UserData, AccountError>(AccountError::UserNotFound),
            Some(found) => if found.token@ != token@ {
                r == Err::<UserData, AccountError>(AccountError::InvalidToken)
            } else {
                r matches Ok(user) && is_user_of_row(user, user_id, found)
            },
        },
{
    match row {
        None => Err(AccountError::UserNotFound),
        Some(found) => {
            if !crate::text::str_equal(found.token.as_str(), token) {
                Err(AccountError::InvalidToken)
            } else {
                Ok(user_from_row(user_id, found))
            }
        },
    }
}

/// Loads the account of a user from what storage found.
pub fn get_user_by_id(user_id: i64, row: Option<UserRow>) -> (r: Result<UserData, AccountError>)
    ensures
        match row {
            None => r == Err::<UserData, AccountError>(AccountError::UserNotFound),
            Some(found) => r matches Ok(user) && is_user_of_row(user, user_id, found),
        },
{
    match row {
        None => Err(AccountError::UserNotFound),
        Some(found) => Ok(user_from_row(user_id, found)),
    }
}

/// A pair of new tokens and the time at which they expire.
#[derive(Debug, Clone)]
pub struct TokenInfo {
    pub token: String,
    pub refresh_token: String,
    pub expires_at: i64,
}

/// The time at which a token made at `now` expires, in milliseconds: seven
/// days later, and the latest time there is where that is out of range.
pub open spec fn token_expiry(now: i64) -> i64 {
    if now + 604_800_000 > i64::MAX {
        i64::MAX
    } else {
        (now + 604_800_000) as i64
    }
}

/// Makes a new pair of random tokens, good for seven days from `now`.
pub fn renew_tokens(now: i64) -> (tokens: TokenInfo)
    ensures
        tokens.expires_at == token_expiry(now),
        exists|bytes: Seq<u8>| bytes.len() == 16 && tokens.token@ == token_text(bytes),
        exists|bytes: Seq<u8>| bytes.len() == 16 && tokens.refresh_token@ == token_text(bytes),
{
    let token = generate_token();
    let refresh_token = generate_token();
    let expires_at = if now > i64::MAX - TOKEN_LIFETIME_MS {
        i64::MAX
    } else {
        now + TOKEN_LIFETIME_MS
    };
    TokenInfo { token, refresh_token, expires_at }
}

} // verus!
