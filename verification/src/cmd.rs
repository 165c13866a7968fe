//! What the command handlers decide.
//!
//! A handler reads its request, asks storage, and answers. The checks it makes
//! on the way and the notifications it owes are decided here.

use crate::error::AppError;
use crate::session::ConnectionContext;
use vstd::prelude::*;
use vstd::string::*;

verus! {

/// The activity whose end is announced when the summon token is asked for.
pub const SUMMON_TOKEN_ENDED_ACTIVITY: i32 = 12716;

/// The feature whose red dots are pushed when the summon token is asked for.
pub const SUMMON_TOKEN_RED_DOT: i32 = 1908;

/// A field of a request that must be there.
pub fn require_field<T>(field: Option<T>) -> (r: Result<T, AppError>)
    ensures
        r == match field {
            Some(value) => Ok::<T, AppError>(value),
            None => Err::<T, AppError>(AppError::InvalidRequest),
        },
{
    match field {
        Some(value) => Ok(value),
        None => Err(AppError::InvalidRequest),
    }
}

/// A record that storage must have; `missing` is what the error says where
/// it has not.
pub fn require_found<T>(found: Option<T>, missing: &str) -> (r: Result<T, AppError>)
    ensures
        found matches Some(value) ==> r == Ok::<T, AppError>(value),
        found is None ==> (r matches Err(e) && e.is_custom(missing@)),
{
    match found {
        Some(value) => Ok(value),
        None => Err(AppError::Custom(String::from_str(missing))),
    }
}

/// The choice of the boosted hero of an enhanced pool, checked.
#[derive(Debug, Clone, Copy, PartialEq, Eq, Structural)]
pub struct EnhancedPoolChoice {
    pub player_id: i64,
    pub pool_id: i32,
    pub hero_id: i32,
}

/// Checks a choice of the boosted hero of an enhanced pool: the request must
/// name the pool and the hero, and the session must be logged in. The first
/// of these that fails decides the error.
pub fn on_choose_enhanced_pool_hero(
    session: &ConnectionContext,
    pool_id: Option<i32>,
    hero_id: Option<i32>,
) -> (r: Result<EnhancedPoolChoice, AppError>)
    ensures
        r == if pool_id is None || hero_id is None {
            Err::<EnhancedPoolChoice, AppError>(AppError::InvalidRequest)
        } else if session@.player_id is None {
            Err::<EnhancedPoolChoice, AppError>(AppError::NotLoggedIn)
        } else {
            Ok::<EnhancedPoolChoice, AppError>(
                EnhancedPoolChoice {
                    player_id: session@.player_id->Some_0,
                    pool_id: pool_id->Some_0,
                    hero_id: hero_id->Some_0,
                },
            )
        },
{
    let pool_id = match require_field(pool_id) {
        Ok(id) => id,
        Err(e) => {
            return Err(e);
        },
    };
    let hero_id = match require_field(hero_id) {
        Ok(id) => id,
        Err(e) => {
            return Err(e);
        },
    };
    match session.require_player() {
        Ok(player_id) => Ok(EnhancedPoolChoice { player_id, pool_id, hero_id }),
        Err(e) => Err(e),
    }
}

/// One notification of the account summary.
#[derive(Debug, Clone, Copy, PartialEq, Eq, Structural)]
pub enum StatePush {
    /// The first currency notification.
    CurrencyFirst,
    /// The item notification.
    Item,
    /// The second currency notification.
    CurrencySecond,
    /// The material notification.
    Material,
}

impl StatePush {
    /// The file of the static data that holds the notification.
    pub open spec fn file_name(self) -> Seq<char> {
        match self {
            StatePush::CurrencyFirst => "currency/currency_push_1.json"@,
            StatePush::Item => "item/item_push_1.json"@,
            StatePush::CurrencySecond => "currency/currency_push_2.json"@,
            StatePush::Material => "material/material_push_1.json"@,
        }
    }

    /// The file of the static data that holds the notification.
    pub fn file(self) -> (name: &'static str)
        ensures
            name@ == self.file_name(),
    {
        match self {
            StatePush::CurrencyFirst => "currency/currency_push_1.json",
            StatePush::Item => "item/item_push_1.json",
            StatePush::CurrencySecond => "currency/currency_push_2.json",
            StatePush::Material => "material/material_push_1.json",
        }
    }
}

/// The notifications of the account summary, in the order they are sent.
pub open spec fn all_state_pushes() -> Seq<StatePush> {
    seq![StatePush::CurrencyFirst, StatePush::Item, StatePush::CurrencySecond, StatePush::Material]
}

/// The notifications that a handler owes before it answers: the account
/// summary where it was not pushed in this epoch, and nothing where it was.
/// The summary counts as pushed from now on.
pub fn state_pushes_due(session: &mut ConnectionContext) -> (due: Vec<StatePush>)
    ensures
        final(session)@ == old(session)@.after_check(),
        due@ == if old(session)@.check_answer() {
            all_state_pushes()
        } else {
            Seq::<StatePush>::empty()
        },
{
    let mut due: Vec<StatePush> = Vec::new();
    if session.check_and_mark_state_pushes() {
        due.push(StatePush::CurrencyFirst);
        due.push(StatePush::Item);
        due.push(StatePush::CurrencySecond);
        due.push(StatePush::Material);
        assert(due@ =~= all_state_pushes());
    }
    due
}

} // verus!
