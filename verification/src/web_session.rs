//! Sessions as the web framework keeps them.
//!
//! `actix_session::Session` is a handle on the keys and values that travel
//! with a browser. This module reads the one key the site uses into a
//! [`SessionBinding`] when a request comes in, and writes back what the
//! request did to it. What the framework's own methods do is not proved here
//! but taken from their source; everything built on them is proved from
//! that.
//!
//! A `Session` is a shared handle: the framework hands out as many as it is
//! asked for, and all of them show and change the same keys and values. What
//! is stated here of a session holds while the handle given to [`load`] and
//! [`store`] is the only one in use, from the first call to the last. A
//! handler that takes one session from the framework and passes it on is in
//! that position; one that asks for a second handle and writes through it
//! between the calls is not.

use crate::errors::HandlerError;
use crate::session::{SessionBinding, StoredId, GH_USER_ID};
use vstd::prelude::*;

verus! {

/// `actix_session::Session`, taken as it is: of its inside only what
/// [`session_state`] and [`session_purged`] name is spoken of.
#[verifier::external_type_specification]
#[verifier::external_body]
pub struct ExSession(actix_session::Session);

/// `actix_web::Error`, taken as it is: it is passed on or dropped, never
/// looked into.
#[verifier::external_type_specification]
#[verifier::external_body]
pub struct ExError(actix_web::Error);

/// What a framework session holds: its keys, each with the JSON text that is
/// stored under it.
pub uninterp spec fn session_state(session: actix_session::Session) -> Map<Seq<char>, Seq<char>>;

/// Whether a framework session has been purged. A purged session holds on to
/// nothing that is written to it afterwards.
pub uninterp spec fn session_purged(session: actix_session::Session) -> bool;

/// The integer that `serde_json::from_str::<i64>` reads from a text, and
/// nothing where it reports an error.
pub uninterp spec fn json_i64(text: Seq<char>) -> Option<i64>;

/// Calls `actix_session::Session::get::<i64>`. A key that the session does
/// not hold reads as `Ok(None)`. For a key that it holds, the text stored
/// under it is handed to `serde_json::from_str`: the integer it denotes is
/// returned, and an error where it denotes none.
#[verifier::external_body]
fn session_get(session: &actix_session::Session, key: &str) -> (read: Result<
    Option<i64>,
    actix_web::Error,
>)
    ensures
        match read {
            Ok(None) => !session_state(*session).contains_key(key@),
            Ok(Some(value)) => session_state(*session).contains_key(key@) && json_i64(
                session_state(*session)[key@],
            ) == Some(value),
            Err(_) => session_state(*session).contains_key(key@) && json_i64(
                session_state(*session)[key@],
            ).is_none(),
        },
{
    session.get::<i64>(key)
}

/// Calls `actix_session::Session::set::<i64>`. A purged session ignores the
/// call. Any other session stores under the key the text that
/// `serde_json::to_string` makes of the value, which reads back as the
/// value. The call succeeds either way: the only failure it knows is that of
/// making the text, and the text of an integer is its digits, written into
/// memory. No other key is touched, and a session is never purged or revived
/// by this.
#[verifier::external_body]
fn session_set(session: &mut actix_session::Session, key: &str, value: i64) -> (written: Result<
    (),
    actix_web::Error,
>)
    ensures
        written is Ok,
        session_purged(*final(session)) == session_purged(*old(session)),
        session_purged(*old(session)) ==> session_state(*final(session)) == session_state(
            *old(session),
        ),
        !session_purged(*old(session)) ==> exists|text: Seq<char>|
            #[trigger] json_i64(text) == Some(value) && session_state(*final(session))
                == session_state(*old(session)).insert(key@, text),
{
    session.set(key, value)
}

/// Calls `actix_session::Session::remove`. A purged session ignores the call.
/// Any other session loses the key, if it held it, and keeps every other
/// key. A session is never purged or revived by this.
#[verifier::external_body]
fn session_remove(session: &mut actix_session::Session, key: &str)
    ensures
        session_purged(*final(session)) == session_purged(*old(session)),
        session_state(*final(session)) == if session_purged(*old(session)) {
            session_state(*old(session))
        } else {
            session_state(*old(session)).remove(key@)
        },
{
    session.remove(key)
}

/// What is stored under [`GH_USER_ID`] in the state of a framework session:
/// the id that the text under the key denotes, something undecodable where
/// the text denotes no integer, and nothing where the key is missing.
pub open spec fn stored_in(state: Map<Seq<char>, Seq<char>>) -> StoredId {
    if state.contains_key(GH_USER_ID@) {
        match json_i64(state[GH_USER_ID@]) {
            Some(user_id) => StoredId::Id(user_id),
            None => StoredId::Undecodable,
        }
    } else {
        StoredId::Absent
    }
}

/// Reads the session of an incoming request. A key that holds no user id is
/// no error: the session then counts as bound to nobody.
pub fn load(session: &actix_session::Session) -> (local: SessionBinding)
    ensures
        local.stored == stored_in(session_state(*session)),
        !local.changed,
{
    let read = session_get(session, GH_USER_ID);
    SessionBinding::from_stored(StoredId::from_read(read))
}

/// Whether `after` is the state `before` with the user id `user_id` stored
/// under [`GH_USER_ID`], as a text that reads back as that id, and with every
/// other key as it was.
pub open spec fn holds_id(
    before: Map<Seq<char>, Seq<char>>,
    after: Map<Seq<char>, Seq<char>>,
    user_id: i64,
) -> bool {
    exists|text: Seq<char>|
        #[trigger] json_i64(text) == Some(user_id) && after == before.insert(GH_USER_ID@, text)
}

/// The state of a framework session once `local` has been written back to
/// it. Nothing is written for a request that did not write, and a purged
/// session takes no writes. Otherwise a binding is stored under the key, an
/// unbound session loses the key, and every other key stays as it was.
pub open spec fn written_back(
    local: SessionBinding,
    purged: bool,
    before: Map<Seq<char>, Seq<char>>,
    after: Map<Seq<char>, Seq<char>>,
) -> bool {
    if !local.changed || purged {
        after == before
    } else {
        match local.stored {
            StoredId::Id(user_id) => holds_id(before, after, user_id),
            StoredId::Absent => after == before.remove(GH_USER_ID@),
            StoredId::Undecodable => after == before,
        }
    }
}

/// What was written back loads back: after a write that was not ignored, a
/// framework session holds under the key what the request left there, and
/// its other keys are untouched.
pub proof fn lemma_written_back_loads_back(
    local: SessionBinding,
    before: Map<Seq<char>, Seq<char>>,
    after: Map<Seq<char>, Seq<char>>,
)
    requires
        local.changed,
        local.stored != StoredId::Undecodable,
        written_back(local, false, before, after),
    ensures
        stored_in(after) == local.stored,
        after.remove(GH_USER_ID@) == before.remove(GH_USER_ID@),
{
    match local.stored {
        StoredId::Id(user_id) => {
            let text = choose|text: Seq<char>|
                #[trigger] json_i64(text) == Some(user_id) && after == before.insert(
                    GH_USER_ID@,
                    text,
                );
            assert(after.remove(GH_USER_ID@) =~= before.remove(GH_USER_ID@));
        },
        _ => {
            assert(after.remove(GH_USER_ID@) =~= before.remove(GH_USER_ID@));
        },
    }
}

/// What a write to a framework session came to: success, or a session error
/// whatever the framework gave as the reason.
pub fn write_outcome<E>(written: Result<(), E>) -> (outcome: Result<(), HandlerError>)
    ensures
        outcome == match written {
            Ok(_) => Ok::<(), HandlerError>(()),
            Err(_) => Err(HandlerError::SessionError),
        },
{
    match written {
        Ok(_) => Ok(()),
        Err(_) => Err(HandlerError::SessionError),
    }
}

/// Writes back what a request did to its session. This always succeeds.
///
/// A session that the request did not write to is not written to here.
/// Otherwise a bound session has its user id stored under the key, and an
/// unbound one has the key removed; every other key is left alone. A
/// framework session that was purged takes no writes: it stays as it is.
pub fn store(local: &SessionBinding, session: &mut actix_session::Session) -> (outcome: Result<
    (),
    HandlerError,
>)
    ensures
        outcome is Ok,
        session_purged(*final(session)) == session_purged(*old(session)),
        written_back(
            *local,
            session_purged(*old(session)),
            session_state(*old(session)),
            session_state(*final(session)),
        ),
        local.changed && local.stored != StoredId::Undecodable && !session_purged(*old(session))
            ==> stored_in(session_state(*final(session))) == local.stored && session_state(
            *final(session),
        ).remove(GH_USER_ID@) == session_state(*old(session)).remove(GH_USER_ID@),
{
    if !local.changed {
        return Ok(());
    }
    let outcome = match local.stored {
        StoredId::Id(user_id) => write_outcome(session_set(session, GH_USER_ID, user_id)),
        StoredId::Absent => {
            session_remove(session, GH_USER_ID);
            Ok(())
        },
        StoredId::Undecodable => Ok(()),
    };
    proof {
        if outcome is Ok && local.stored != StoredId::Undecodable && !session_purged(
            *old(session),
        ) {
            lemma_written_back_loads_back(
                *local,
                session_state(*old(session)),
                session_state(*session),
            );
        }
    }
    outcome
}

} // verus!
