//! The decisions of a login.
//!
//! A login alternates storage and transport work with decisions. The work is
//! done by the connection task; the decisions are taken here. The task hands
//! each outcome to `LoginFlow::step` as an event and performs the action it
//! gets back, until the action is `Finish`.

use crate::error::AppError;
use crate::registry::SessionRegistry;
use crate::session::already_bound_text;
use crate::session::ConnectionContext;
use crate::session::SessionModel;
use crate::text::chars_of;
use crate::text::fields_view;
use crate::text::i64_value;
use crate::text::parse_i64;
use crate::text::split;
use crate::text::split_chars;
use crate::text::str_equal;
use vstd::prelude::*;
use vstd::string::*;

verus! {

/// Result code of the reply to a login that succeeded.
pub const LOGIN_OK_CODE: i16 = 0;

/// Result code of the reply to a login that was refused.
pub const LOGIN_FAILED_CODE: i16 = 1;

/// Why a login was refused.
#[derive(Clone, Copy, Debug, PartialEq, Eq, Structural)]
pub enum LoginRejection {
    /// The account name does not hold a user number.
    InvalidAccount,
    /// Storage knows no such user.
    UserNotFound,
    /// Storage failed while the user was looked up.
    DatabaseError,
    /// The presented token is not the stored one.
    InvalidToken,
    /// The stored token has expired.
    TokenExpired,
}

/// How a login ended.
#[derive(Clone, Copy, Debug, PartialEq, Eq, Structural)]
pub enum LoginOutcome {
    /// The player is logged in.
    Success,
    /// The login was refused and the client was told why.
    Rejected(LoginRejection),
    /// A piece of work failed; its error ends the command.
    Aborted,
}

/// Where a login stands: the work whose outcome is awaited.
#[derive(Clone, Copy, Debug, PartialEq, Eq, Structural)]
pub enum LoginStage {
    AwaitingRequest,
    FetchingUser,
    Rejecting(LoginRejection),
    PushingRedDots(u8),
    PushingCritters,
    LoadingState,
    Replying,
    ProcessingDailyLogin,
    ResettingDaily { weekly_due: bool },
    ResettingWeekly,
    Registering,
    Finished(LoginOutcome),
}

/// What the connection task must do next.
#[derive(Clone, Copy, Debug, PartialEq, Eq, Structural)]
pub enum LoginAction {
    /// Ask storage for the user's token and its expiry.
    FetchUser { user_id: i64 },
    /// Send the error reply for the rejection, with `LOGIN_FAILED_CODE`.
    SendError { rejection: LoginRejection },
    /// Push the red dots of batch `batch` (see `login_red_dot_batch`).
    PushRedDots { user_id: i64, batch: u8 },
    /// Push the player's critters.
    PushCritters { user_id: i64 },
    /// Load the player's state. It is held back until the session is bound.
    LoadPlayerState { user_id: i64 },
    /// Send the login reply, with `LOGIN_OK_CODE`.
    SendSuccess { user_id: i64 },
    /// Record the login of today and learn which counters are due.
    ProcessDailyLogin { user_id: i64 },
    ResetDailyCounters { user_id: i64 },
    ResetWeeklyCounters { user_id: i64 },
    /// Bind the session to the player and enter it in the directory of live
    /// sessions (see `complete_login`). This is the last piece of work: until
    /// it is done the session belongs to nobody.
    Register { user_id: i64 },
    /// The login is over.
    Finish { outcome: LoginOutcome },
}

/// What storage holds to check a login against.
#[derive(Clone, Debug)]
pub struct StoredCredentials {
    pub token: String,
    pub token_expires_at: Option<i64>,
}

/// Mathematical value of stored credentials.
pub struct CredentialsModel {
    pub token: Seq<char>,
    pub token_expires_at: Option<i64>,
}

impl View for StoredCredentials {
    type V = CredentialsModel;

    open spec fn view(&self) -> CredentialsModel {
        CredentialsModel { token: self.token@, token_expires_at: self.token_expires_at }
    }
}

/// The outcome of a piece of work, as the connection task reports it.
#[derive(Debug)]
pub enum LoginEvent<'a> {
    /// The login request was read.
    Request { account_id: &'a str },
    /// Storage answered the lookup; `now` is the server time in milliseconds.
    User { stored: Option<&'a StoredCredentials>, presented: &'a str, now: i64 },
    /// The daily login was recorded.
    DailyLogin { new_day: bool, new_week: bool },
    /// The work was done and has nothing to report.
    Completed,
    /// The work failed.
    Failed,
}

/// Mathematical value of an event.
pub enum EventModel {
    Request { account_id: Seq<char> },
    User { stored: Option<CredentialsModel>, presented: Seq<char>, now: i64 },
    DailyLogin { new_day: bool, new_week: bool },
    Completed,
    Failed,
}

impl<'a> View for LoginEvent<'a> {
    type V = EventModel;

    open spec fn view(&self) -> EventModel {
        match *self {
            LoginEvent::Request { account_id } => EventModel::Request { account_id: account_id@ },
            LoginEvent::User { stored, presented, now } => EventModel::User {
                stored: match stored {
                    Some(c) => Some(c@),
                    None => None,
                },
                presented: presented@,
                now,
            },
            LoginEvent::DailyLogin { new_day, new_week } => EventModel::DailyLogin {
                new_day,
                new_week,
            },
            LoginEvent::Completed => EventModel::Completed,
            LoginEvent::Failed => EventModel::Failed,
        }
    }
}

impl LoginRejection {
    /// The text the client is told.
    pub open spec fn text(self) -> Seq<char> {
        match self {
            LoginRejection::InvalidAccount => "Invalid account format"@,
            LoginRejection::UserNotFound => "User not found"@,
            LoginRejection::DatabaseError => "Database error"@,
            LoginRejection::InvalidToken => "Invalid token"@,
            LoginRejection::TokenExpired => "Token expired"@,
        }
    }

    /// The text the client is told.
    pub fn reply_text(self) -> (text: &'static str)
        ensures
            text@ == self.text(),
    {
        match self {
            LoginRejection::InvalidAccount => "Invalid account format",
            LoginRejection::UserNotFound => "User not found",
            LoginRejection::DatabaseError => "Database error",
            LoginRejection::InvalidToken => "Invalid token",
            LoginRejection::TokenExpired => "Token expired",
        }
    }

    /// The error that ends the command. `detail` is the storage layer's
    /// message and is used for `DatabaseError` alone.
    pub fn into_error(self, detail: String) -> (error: AppError)
        ensures
            self == LoginRejection::InvalidAccount ==> error == AppError::InvalidRequest,
            self == LoginRejection::DatabaseError ==> error.is_database(detail@),
            self != LoginRejection::InvalidAccount && self != LoginRejection::DatabaseError
                ==> error.is_custom(self.text()),
    {
        match self {
            LoginRejection::InvalidAccount => AppError::InvalidRequest,
            LoginRejection::DatabaseError => AppError::Database(detail),
            _ => AppError::Custom(String::from_str(self.reply_text())),
        }
    }
}

/// The user number in an account name: the second `_`-separated field, read
/// as a 64-bit decimal number. `200_69420` names user 69420.
pub open spec fn user_id_of(account_id: Seq<char>) -> Option<i64> {
    let fields = split(account_id, '_');
    if fields.len() >= 2 {
        i64_value(fields[1])
    } else {
        None
    }
}

/// Reads the user number from an account name such as `200_69420`.
pub fn extract_user_id(account_id: &str) -> (r: Result<i64, AppError>)
    ensures
        r == match user_id_of(account_id@) {
            Some(id) => Ok::<i64, AppError>(id),
            None => Err::<i64, AppError>(AppError::InvalidRequest),
        },
{
    let chars = chars_of(account_id);
    let fields = split_chars(&chars, '_');
    if fields.len() < 2 {
        return Err(AppError::InvalidRequest);
    }
    proof {
        assert(fields_view(fields@)[1] == fields@[1]@);
    }
    match parse_i64(&fields[1]) {
        Some(id) => Ok(id),
        None => Err(AppError::InvalidRequest),
    }
}

/// What a presented token is worth against the stored credentials at `now`:
/// it must equal the stored token, and `now` must not be past the expiry
/// where one is stored.
pub open spec fn token_verdict(stored: CredentialsModel, presented: Seq<char>, now: i64) -> Option<
    LoginRejection,
> {
    if stored.token != presented {
        Some(LoginRejection::InvalidToken)
    } else if stored.token_expires_at matches Some(at) && now > at {
        Some(LoginRejection::TokenExpired)
    } else {
        None
    }
}

/// Checks a presented token against the stored credentials at `now`.
pub fn check_token(stored: &StoredCredentials, presented: &str, now: i64) -> (r: Result<
    (),
    LoginRejection,
>)
    ensures
        r == match token_verdict(stored@, presented@, now) {
            Some(rejection) => Err::<(), LoginRejection>(rejection),
            None => Ok::<(), LoginRejection>(()),
        },
{
    if !str_equal(stored.token.as_str(), presented) {
        return Err(LoginRejection::InvalidToken);
    }
    match stored.token_expires_at {
        Some(at) => {
            if now > at {
                Err(LoginRejection::TokenExpired)
            } else {
                Ok(())
            }
        },
        None => Ok(()),
    }
}

/// The features whose red dots batch `batch` pushes.
pub open spec fn red_dot_batch(batch: u8) -> Seq<i32> {
    if batch == 0 {
        seq![2218, 2220, 2221]
    } else if batch == 1 {
        seq![2240]
    } else if batch == 2 {
        seq![2230]
    } else {
        Seq::<i32>::empty()
    }
}

/// The features whose red dots batch `batch` of a login pushes.
pub fn login_red_dot_batch(batch: u8) -> (define_ids: Vec<i32>)
    ensures
        define_ids@ == red_dot_batch(batch),
{
    let mut define_ids: Vec<i32> = Vec::new();
    if batch == 0 {
        define_ids.push(2218);
        define_ids.push(2220);
        define_ids.push(2221);
    } else if batch == 1 {
        define_ids.push(2240);
    } else if batch == 2 {
        define_ids.push(2230);
    }
    assert(define_ids@ =~= red_dot_batch(batch));
    define_ids
}

/// Which periods began between two logins: a new day, a new week, a new
/// month. `last` holds the numbers of the day, the week and the month of the
/// login before, `now` those of this login. A first login begins all three.
pub open spec fn periods_begun(last: Option<(i64, i64, i64)>, now: (i64, i64, i64)) -> (
    bool,
    bool,
    bool,
) {
    match last {
        Some(before) => (before.0 != now.0, before.1 != now.1, before.2 != now.2),
        None => (true, true, true),
    }
}

/// Decides which periods began since the login before, so that the counters
/// of those periods are reset.
pub fn new_periods(last: Option<(i64, i64, i64)>, now: (i64, i64, i64)) -> (begun: (
    bool,
    bool,
    bool,
))
    ensures
        begun == periods_begun(last, now),
{
    match last {
        Some(before) => (before.0 != now.0, before.1 != now.1, before.2 != now.2),
        None => (true, true, true),
    }
}

/// The stage and the action after an action failed or an event came that the
/// stage does not await.
pub open spec fn abort() -> (LoginStage, LoginAction) {
    (
        LoginStage::Finished(LoginOutcome::Aborted),
        LoginAction::Finish { outcome: LoginOutcome::Aborted },
    )
}

/// The stage and the action that refuse a login.
pub open spec fn reject(rejection: LoginRejection) -> (LoginStage, LoginAction) {
    (LoginStage::Rejecting(rejection), LoginAction::SendError { rejection })
}

/// The stage and the action that end a login.
pub open spec fn finish(outcome: LoginOutcome) -> (LoginStage, LoginAction) {
    (LoginStage::Finished(outcome), LoginAction::Finish { outcome })
}

/// The step of a login: from the stage, the user and an event to the next
/// stage, the user and the action.
///
/// A login walks through: request, lookup, token check, three red-dot
/// batches, critters, player state, reply, daily login, the resets that are
/// due, registration. A refusal is told to the client and ends the login; a
/// failed piece of work ends it at once.
pub open spec fn transition(stage: LoginStage, user_id: i64, event: EventModel) -> (
    LoginStage,
    i64,
    LoginAction,
) {
    let (next, action) = match stage {
        LoginStage::AwaitingRequest => match event {
            EventModel::Request { account_id } => match user_id_of(account_id) {
                Some(id) => (LoginStage::FetchingUser, LoginAction::FetchUser { user_id: id }),
                None => reject(LoginRejection::InvalidAccount),
            },
            _ => abort(),
        },
        LoginStage::FetchingUser => match event {
            EventModel::User { stored, presented, now } => match stored {
                None => reject(LoginRejection::UserNotFound),
                Some(credentials) => match token_verdict(credentials, presented, now) {
                    Some(rejection) => reject(rejection),
                    None => (
                        LoginStage::PushingRedDots(0),
                        LoginAction::PushRedDots { user_id, batch: 0 },
                    ),
                },
            },
            EventModel::Failed => reject(LoginRejection::DatabaseError),
            _ => abort(),
        },
        LoginStage::Rejecting(rejection) => match event {
            EventModel::Completed => finish(LoginOutcome::Rejected(rejection)),
            _ => abort(),
        },
        LoginStage::PushingRedDots(batch) => match event {
            EventModel::Completed => if batch < 2 {
                (
                    LoginStage::PushingRedDots((batch + 1) as u8),
                    LoginAction::PushRedDots { user_id, batch: (batch + 1) as u8 },
                )
            } else {
                (LoginStage::PushingCritters, LoginAction::PushCritters { user_id })
            },
            _ => abort(),
        },
        LoginStage::PushingCritters => match event {
            EventModel::Completed => (
                LoginStage::LoadingState,
                LoginAction::LoadPlayerState { user_id },
            ),
            _ => abort(),
        },
        LoginStage::LoadingState => match event {
            EventModel::Completed => (LoginStage::Replying, LoginAction::SendSuccess { user_id }),
            _ => abort(),
        },
        LoginStage::Replying => match event {
            EventModel::Completed => (
                LoginStage::ProcessingDailyLogin,
                LoginAction::ProcessDailyLogin { user_id },
            ),
            _ => abort(),
        },
        LoginStage::ProcessingDailyLogin => match event {
            EventModel::DailyLogin { new_day, new_week } => if new_day {
                (
                    LoginStage::ResettingDaily { weekly_due: new_week },
                    LoginAction::ResetDailyCounters { user_id },
                )
            } else if new_week {
                (LoginStage::ResettingWeekly, LoginAction::ResetWeeklyCounters { user_id })
            } else {
                (LoginStage::Registering, LoginAction::Register { user_id })
            },
            _ => abort(),
        },
        LoginStage::ResettingDaily { weekly_due } => match event {
            EventModel::Completed => if weekly_due {
                (LoginStage::ResettingWeekly, LoginAction::ResetWeeklyCounters { user_id })
            } else {
                (LoginStage::Registering, LoginAction::Register { user_id })
            },
            _ => abort(),
        },
        LoginStage::ResettingWeekly => match event {
            EventModel::Completed => (LoginStage::Registering, LoginAction::Register { user_id }),
            _ => abort(),
        },
        LoginStage::Registering => match event {
            EventModel::Completed => finish(LoginOutcome::Success),
            _ => abort(),
        },
        LoginStage::Finished(outcome) => finish(outcome),
    };
    (
        next,
        match action {
            LoginAction::FetchUser { user_id: id } => id,
            _ => user_id,
        },
        action,
    )
}

/// One login in progress.
#[derive(Clone, Copy, Debug)]
pub struct LoginFlow {
    stage: LoginStage,
    user_id: i64,
}

impl LoginFlow {
    /// Where the login stands.
    pub closed spec fn stage_view(&self) -> LoginStage {
        self.stage
    }

    /// The user the login is for; meaningful once the request was read.
    pub closed spec fn user_view(&self) -> i64 {
        self.user_id
    }

    /// A login that awaits its request.
    pub fn new() -> (flow: Self)
        ensures
            flow.stage_view() == LoginStage::AwaitingRequest,
            flow.user_view() == 0,
    {
        LoginFlow { stage: LoginStage::AwaitingRequest, user_id: 0 }
    }

    /// Where the login stands.
    pub fn stage(&self) -> (stage: LoginStage)
        ensures
            stage == self.stage_view(),
    {
        self.stage
    }

    /// Takes the outcome of the last action and says what to do next.
    pub fn step(&mut self, event: LoginEvent<'_>) -> (action: LoginAction)
        ensures
            (final(self).stage_view(), final(self).user_view(), action) == transition(
                old(self).stage_view(),
                old(self).user_view(),
                event@,
            ),
    {
        let user_id = self.user_id;
        let (next, action) = match self.stage {
            LoginStage::AwaitingRequest => match event {
                LoginEvent::Request { account_id } => match extract_user_id(account_id) {
                    Ok(id) => (LoginStage::FetchingUser, LoginAction::FetchUser { user_id: id }),
                    Err(_) => rejected(LoginRejection::InvalidAccount),
                },
                _ => aborted(),
            },
            LoginStage::FetchingUser => match event {
                LoginEvent::User { stored, presented, now } => match stored {
                    None => rejected(LoginRejection::UserNotFound),
                    Some(credentials) => match check_token(credentials, presented, now) {
                        Err(rejection) => rejected(rejection),
                        Ok(_) => (
                            LoginStage::PushingRedDots(0),
                            LoginAction::PushRedDots { user_id, batch: 0 },
                        ),
                    },
                },
                LoginEvent::Failed => rejected(LoginRejection::DatabaseError),
                _ => aborted(),
            },
            LoginStage::Rejecting(rejection) => match event {
                LoginEvent::Completed => finished(LoginOutcome::Rejected(rejection)),
                _ => aborted(),
            },
            LoginStage::PushingRedDots(batch) => match event {
                LoginEvent::Completed => if batch < 2 {
                    (
                        LoginStage::PushingRedDots(batch + 1),
                        LoginAction::PushRedDots { user_id, batch: batch + 1 },
                    )
                } else {
                    (LoginStage::PushingCritters, LoginAction::PushCritters { user_id })
                },
                _ => aborted(),
            },
            LoginStage::PushingCritters => match event {
                LoginEvent::Completed => (
                    LoginStage::LoadingState,
                    LoginAction::LoadPlayerState { user_id },
                ),
                _ => aborted(),
            },
            LoginStage::LoadingState => match event {
                LoginEvent::Completed => (
                    LoginStage::Replying,
                    LoginAction::SendSuccess { user_id },
                ),
                _ => aborted(),
            },
            LoginStage::Replying => match event {
                LoginEvent::Completed => (
                    LoginStage::ProcessingDailyLogin,
                    LoginAction::ProcessDailyLogin { user_id },
                ),
                _ => aborted(),
            },
            LoginStage::ProcessingDailyLogin => match event {
                LoginEvent::DailyLogin { new_day, new_week } => if new_day {
                    (
                        LoginStage::ResettingDaily { weekly_due: new_week },
                        LoginAction::ResetDailyCounters { user_id },
                    )
                } else if new_week {
                    (LoginStage::ResettingWeekly, LoginAction::ResetWeeklyCounters { user_id })
                } else {
                    (LoginStage::Registering, LoginAction::Register { user_id })
                },
                _ => aborted(),
            },
            LoginStage::ResettingDaily { weekly_due } => match event {
                LoginEvent::Completed => if weekly_due {
                    (LoginStage::ResettingWeekly, LoginAction::ResetWeeklyCounters { user_id })
                } else {
                    (LoginStage::Registering, LoginAction::Register { user_id })
                },
                _ => aborted(),
            },
            LoginStage::ResettingWeekly => match event {
                LoginEvent::Completed => (
                    LoginStage::Registering,
                    LoginAction::Register { user_id },
                ),
                _ => aborted(),
            },
            LoginStage::Registering => match event {
                LoginEvent::Completed => finished(LoginOutcome::Success),
                _ => aborted(),
            },
            LoginStage::Finished(outcome) => finished(outcome),
        };
        self.stage = next;
        match action {
            LoginAction::FetchUser { user_id: id } => {
                self.user_id = id;
            },
            _ => {},
        }
        action
    }
}

/// Whether the action makes the player known to the server: it loads the
/// player's state, or binds the session and enters it in the directory.
pub open spec fn binds(action: LoginAction) -> bool {
    action is LoadPlayerState || action is Register
}

/// Whether the stage is past the token check of a login that goes on.
pub open spec fn admitted(stage: LoginStage) -> bool {
    !(stage is AwaitingRequest || stage is FetchingUser || stage is Rejecting
        || stage is Finished)
}

/// The actions a login takes from a stage on, one for each event.
pub open spec fn actions_of(stage: LoginStage, user_id: i64, events: Seq<EventModel>) -> Seq<
    LoginAction,
>
    decreases events.len(),
{
    if events.len() == 0 {
        Seq::<LoginAction>::empty()
    } else {
        let (next, user, action) = transition(stage, user_id, events[0]);
        seq![action] + actions_of(next, user, events.drop_first())
    }
}

/// A token that is not the stored one, or a stored expiry that `now` is past,
/// is refused: the client is sent the error, and the login then ends as
/// rejected.
pub proof fn lemma_bad_token_is_rejected(
    user_id: i64,
    stored: CredentialsModel,
    presented: Seq<char>,
    now: i64,
)
    requires
        stored.token != presented || (stored.token_expires_at matches Some(at) && now > at),
    ensures
        ({
            let event = EventModel::User { stored: Some(stored), presented, now };
            let (next, user, action) = transition(LoginStage::FetchingUser, user_id, event);
            &&& token_verdict(stored, presented, now) matches Some(rejection)
            &&& (rejection == LoginRejection::InvalidToken || rejection
                == LoginRejection::TokenExpired)
            &&& (rejection == LoginRejection::InvalidToken <==> stored.token != presented)
            &&& next == LoginStage::Rejecting(rejection)
            &&& action == (LoginAction::SendError { rejection })
            &&& transition(next, user, EventModel::Completed).2 == (LoginAction::Finish {
                outcome: LoginOutcome::Rejected(rejection),
            })
        }),
{
}

/// A login is admitted at one place only: at the lookup's answer, when the
/// user exists and the presented token passes the check. An action that binds
/// is taken only by an admitted login.
pub proof fn lemma_admission(stage: LoginStage, user_id: i64, event: EventModel)
    ensures
        ({
            let (next, user, action) = transition(stage, user_id, event);
            &&& admitted(next) && !admitted(stage) ==> stage is FetchingUser && (
            event matches EventModel::User { stored: Some(credentials), presented, now }
                && token_verdict(credentials, presented, now) is None)
            &&& binds(action) ==> admitted(stage) && admitted(next)
        }),
{
}

/// Once a login is refused or over, whatever is reported to it, it takes no
/// action that binds.
pub proof fn lemma_refused_never_binds(stage: LoginStage, user_id: i64, events: Seq<EventModel>)
    requires
        stage is Rejecting || stage is Finished,
    ensures
        forall|k: int|
            0 <= k < actions_of(stage, user_id, events).len() ==> !binds(
                #[trigger] actions_of(stage, user_id, events)[k],
            ),
    decreases events.len(),
{
    if events.len() > 0 {
        let (next, user, action) = transition(stage, user_id, events[0]);
        lemma_refused_never_binds(next, user, events.drop_first());
        let rest = actions_of(next, user, events.drop_first());
        assert forall|k: int| 0 <= k < actions_of(stage, user_id, events).len() implies !binds(
            #[trigger] actions_of(stage, user_id, events)[k],
        ) by {
            if k > 0 {
                assert(actions_of(stage, user_id, events)[k] == rest[k - 1]);
            }
        }
    }
}

/// A login whose token check fails never binds: whatever is reported after
/// the lookup's answer, the session is not bound to the player and not
/// entered in the directory.
pub proof fn lemma_bad_token_never_binds(
    user_id: i64,
    stored: CredentialsModel,
    presented: Seq<char>,
    now: i64,
    later: Seq<EventModel>,
)
    requires
        stored.token != presented || (stored.token_expires_at matches Some(at) && now > at),
    ensures
        ({
            let event = EventModel::User { stored: Some(stored), presented, now };
            let actions = actions_of(LoginStage::FetchingUser, user_id, seq![event] + later);
            forall|k: int| 0 <= k < actions.len() ==> !binds(#[trigger] actions[k])
        }),
{
    let event = EventModel::User { stored: Some(stored), presented, now };
    let events = seq![event] + later;
    let (next, user, action) = transition(LoginStage::FetchingUser, user_id, event);
    assert(events[0] == event);
    assert(events.drop_first() =~= later);
    lemma_refused_never_binds(next, user, later);
    let actions = actions_of(LoginStage::FetchingUser, user_id, events);
    let rest = actions_of(next, user, later);
    assert forall|k: int| 0 <= k < actions.len() implies !binds(#[trigger] actions[k]) by {
        if k > 0 {
            assert(actions[k] == rest[k - 1]);
        }
    }
}

/// Every login ends the way its last stage says: a login that is over
/// repeats its outcome, and only the outcome of success follows registration.
pub proof fn lemma_success_follows_registration(stage: LoginStage, user_id: i64, event: EventModel)
    ensures
        ({
            let (next, user, action) = transition(stage, user_id, event);
            &&& action == (LoginAction::Finish { outcome: LoginOutcome::Success }) ==> (stage
                == LoginStage::Registering && event is Completed) || stage == LoginStage::Finished(
                LoginOutcome::Success,
            )
            &&& action is Finish <==> next is Finished
            &&& stage matches LoginStage::Finished(outcome) ==> next == stage && action == (
            LoginAction::Finish { outcome })
        }),
{
}

/// Binds the session to the player and enters it in the directory, as the
/// last step of a login.
///
/// Both happen or neither: a session that belongs to another player is left
/// as it is, and so is the directory. On success the session that the player
/// had before is returned; it is no longer reached through the directory.
pub fn complete_login<S>(
    session: &mut ConnectionContext,
    registry: &mut SessionRegistry<S>,
    handle: S,
    user_id: i64,
) -> (r: Result<Option<S>, AppError>)
    ensures
        old(session)@.accepts(user_id) ==> (r matches Ok(evicted) && evicted == old(
            registry,
        ).target(user_id)) && final(session)@ == old(session)@.bound_to(
            user_id,
        ).after_registration() && final(registry)@ == old(registry)@.insert(user_id, handle),
        !old(session)@.accepts(user_id) ==> (r matches Err(e) && e.is_custom(
            already_bound_text(),
        )) && final(session)@ == old(session)@ && final(registry)@ == old(registry)@,
{
    match session.bind_identity(user_id) {
        Ok(_) => {
            session.mark_registered();
            Ok(registry.register(user_id, handle))
        },
        Err(e) => Err(e),
    }
}

/// After a login is completed the directory leads to the new session, and
/// the session is bound, entered, and in a new push epoch.
pub proof fn lemma_completed_login<S>(
    session: SessionModel,
    sessions: Map<i64, S>,
    handle: S,
    user_id: i64,
)
    ensures
        sessions.insert(user_id, handle)[user_id] == handle,
        session.bound_to(user_id).after_registration().player_id == Some(user_id),
        session.bound_to(user_id).after_registration().registry_key() == Some(user_id),
        session.bound_to(user_id).after_registration().check_answer(),
{
}

fn aborted() -> (r: (LoginStage, LoginAction))
    ensures
        r == abort(),
{
    (
        LoginStage::Finished(LoginOutcome::Aborted),
        LoginAction::Finish { outcome: LoginOutcome::Aborted },
    )
}

fn rejected(rejection: LoginRejection) -> (r: (LoginStage, LoginAction))
    ensures
        r == reject(rejection),
{
    (LoginStage::Rejecting(rejection), LoginAction::SendError { rejection })
}

fn finished(outcome: LoginOutcome) -> (r: (LoginStage, LoginAction))
    ensures
        r == finish(outcome),
{
    (LoginStage::Finished(outcome), LoginAction::Finish { outcome })
}

} // verus!
