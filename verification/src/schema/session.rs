//! Login sessions: who opened them and when, how they travel in a cookie,
//! and which of them a logout ends.

use vstd::prelude::*;
use crate::clock::{now, Timestamp};
use crate::errors::{AppError, DatabaseError};
use crate::ids::{new_v4_id, parse_uuid, uuid_parse, uuid_simple_string, uuid_simple_text, uuid_variant_bits, uuid_version};

verus! {

/// A login session.
#[derive(Debug)]
pub struct Session {
    pub id: u128,
    /// The email of the person who logged in.
    pub creator: String,
    pub creation: Timestamp,
}

/// Which sessions to end: those of `creator`, all of them or only `session`.
#[derive(Debug)]
pub struct Revocation {
    pub creator: String,
    pub session: Option<u128>,
}

impl Revocation {
    /// Whether the session `id` opened by `creator` is among those to end.
    pub open spec fn covers(self, id: u128, creator: Seq<char>) -> bool {
        &&& creator == self.creator@
        &&& (self.session is None || self.session == Some(id))
    }
}

impl Session {
    /// A new session for `creator`, with a fresh random identifier and the
    /// current time.
    pub fn create(creator: &str) -> (s: Session)
        ensures
            s.creator@ == creator@,
            uuid_version(s.id) == 4,
            uuid_variant_bits(s.id) == 2,
            s.creation.secs >= 0,
    {
        Session { id: new_v4_id(), creation: now(), creator: String::from_str(creator) }
    }

    /// The session found under the identifier a visitor presented; any failure
    /// to find it means the session is no longer valid.
    pub fn authenticate(found: Result<Session, DatabaseError>) -> (r: Result<Session, AppError>)
        ensures
            match found {
                Ok(s) => r == Ok::<Session, AppError>(s),
                Err(_) => r == Err::<Session, AppError>(AppError::InvalidSession),
            },
    {
        match found {
            Ok(s) => Ok(s),
            Err(_) => Err(AppError::InvalidSession),
        }
    }

    /// The sessions to end: those of this session's creator, only `session_id`
    /// where one is given.
    pub fn revoke(&self, session_id: Option<u128>) -> (r: Revocation)
        ensures
            r.creator@ == self.creator@,
            r.session == session_id,
    {
        Revocation { creator: self.creator.clone(), session: session_id }
    }

    /// Ends this session only.
    pub fn revoke_self(&self) -> (r: Revocation)
        ensures
            r.creator@ == self.creator@,
            r.session == Some(self.id),
    {
        self.revoke(Some(self.id))
    }

    /// Ends every session of this session's creator.
    pub fn revoke_all(&self) -> (r: Revocation)
        ensures
            r.creator@ == self.creator@,
            r.session is None,
    {
        self.revoke(None)
    }

    /// What a logout ends: every session of the creator when `all` is asked
    /// for, this one only otherwise.
    pub fn logout(&self, all: bool) -> (r: Revocation)
        ensures
            r.creator@ == self.creator@,
            r.session == (if all { None } else { Some(self.id) }),
    {
        if all {
            self.revoke_all()
        } else {
            self.revoke_self()
        }
    }

    /// The value of the session cookie: the identifier in simple form.
    pub fn cookie_value(&self) -> (r: String)
        ensures
            r@ == uuid_simple_text(self.id),
    {
        uuid_simple_string(self.id)
    }

    /// The session identifier a visitor presents in the value of the session
    /// cookie: none, or one that is no UUID, means the visitor is not
    /// authenticated. The value written by `cookie_value` reads back as the
    /// session's identifier.
    pub fn id_from_cookie(value: Option<&str>) -> (r: Result<u128, AppError>)
        ensures
            match value {
                None => r == Err::<u128, AppError>(AppError::NotAuthenticated),
                Some(v) => match uuid_parse(v@) {
                    Some(id) => r == Ok::<u128, AppError>(id),
                    None => r == Err::<u128, AppError>(AppError::NotAuthenticated),
                },
            },
            forall|id: u128|
                value matches Some(v) && v@ == #[trigger] uuid_simple_text(id) ==> r == Ok::<
                    u128,
                    AppError,
                >(id),
    {
        match value {
            None => Err(AppError::NotAuthenticated),
            Some(v) => match parse_uuid(v) {
                Some(id) => Ok(id),
                None => Err(AppError::NotAuthenticated),
            },
        }
    }
}

/// A logout of this session alone ends exactly this session; a logout of all
/// sessions ends every session of the same person and none of anyone else.
pub proof fn lemma_logout_scope(s: Session, id: u128, creator: Seq<char>)
    ensures
        (Revocation { creator: s.creator, session: Some(s.id) }).covers(id, creator) <==> (id
            == s.id && creator == s.creator@),
        (Revocation { creator: s.creator, session: None }).covers(id, creator) <==> (creator
            == s.creator@),
{
}

} // verus!
