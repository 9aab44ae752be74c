//! The sessions that are open: for each token, whom it stands for and until when.

use vstd::prelude::*;
use vstd::string::*;
use crate::db::search::{first_from, first_index, kept, selected_from, whole_row};
use crate::schema::entities::PostgresInt;

verus! {

/// Whom a session stands for.
#[derive(Debug, Clone, Copy, PartialEq, Eq, Structural)]
pub enum SessionType {
    Customer(PostgresInt),
    Owner(PostgresInt),
    DefaultOwner,
}

/// The time at which a session ends, in milliseconds since the epoch.
pub type ExpirationTime = i64;

/// One open session.
#[derive(Debug, Clone, PartialEq, Eq)]
pub struct Session {
    pub token: String,
    pub session_type: SessionType,
    pub expires_at: ExpirationTime,
}

/// The condition "this session has the given token".
pub open spec fn has_token(token: Seq<char>) -> spec_fn(Session) -> bool {
    |session: Session| session.token@ == token
}

/// The condition "this session has another token than the given one".
pub open spec fn has_another_token(token: Seq<char>) -> spec_fn(Session) -> bool {
    |session: Session| session.token@ != token
}

/// Whom the first session with this token stands for, and until when.
pub open spec fn session_of(sessions: Seq<Session>, token: Seq<char>) -> Option<
    (SessionType, ExpirationTime),
> {
    let at = first_index(sessions, has_token(token));
    if at < sessions.len() {
        Some((sessions[at].session_type, sessions[at].expires_at))
    } else {
        None
    }
}

/// The sessions without those that have this token.
pub open spec fn without_token(sessions: Seq<Session>, token: Seq<char>) -> Seq<Session> {
    kept(sessions, has_another_token(token))
}

/// The sessions that are open.
pub struct SessionTokens {
    sessions: Vec<Session>,
}

impl View for SessionTokens {
    type V = Seq<Session>;

    closed spec fn view(&self) -> Seq<Session> {
        self.sessions@
    }
}

impl SessionTokens {
    /// No session.
    pub fn new() -> (r: SessionTokens)
        ensures
            r@ == Seq::<Session>::empty(),
    {
        SessionTokens { sessions: Vec::new() }
    }

    /// How many sessions are open.
    pub fn len(&self) -> (n: usize)
        ensures
            n == self@.len(),
    {
        self.sessions.len()
    }

    /// Whom the session at a position stands for.
    pub(crate) fn session_type_at(&self, at: usize) -> (r: SessionType)
        requires
            at < self@.len(),
        ensures
            r == self@[at as int].session_type,
    {
        self.sessions[at].session_type
    }

    /// Whom the session with this token stands for, and until when.
    pub fn get(&self, token: &str) -> (r: Option<(SessionType, ExpirationTime)>)
        ensures
            r == session_of(self@, token@),
    {
        let wanted = token.to_owned();
        let mut i: usize = 0;
        while i < self.sessions.len()
            invariant
                i <= self.sessions.len(),
                wanted@ == token@,
                first_index(self.sessions@, has_token(token@)) == first_from(
                    self.sessions@,
                    has_token(token@),
                    i as int,
                ),
            decreases self.sessions.len() - i,
        {
            if self.sessions[i].token == wanted {
                return Some((self.sessions[i].session_type, self.sessions[i].expires_at));
            }
            i = i + 1;
        }
        None
    }

    /// Closes the session with this token, if there is one.
    pub fn remove(&mut self, token: &str)
        ensures
            final(self)@ == without_token(old(self)@, token@),
    {
        let token = token.to_owned();
        let mut rest: Vec<Session> = Vec::new();
        let mut i: usize = 0;
        while i < self.sessions.len()
            invariant
                i <= self.sessions.len(),
                self.sessions@ == old(self).sessions@,
                rest@ + selected_from(
                    self.sessions@,
                    has_another_token(token@),
                    whole_row(),
                    i as int,
                ) == without_token(self.sessions@, token@),
            decreases self.sessions.len() - i,
        {
            if self.sessions[i].token != token {
                let ghost before = rest@;
                let session = Session {
                    token: self.sessions[i].token.clone(),
                    session_type: self.sessions[i].session_type,
                    expires_at: self.sessions[i].expires_at,
                };
                rest.push(session);
                proof {
                    let tail = selected_from(
                        self.sessions@,
                        has_another_token(token@),
                        whole_row(),
                        i as int + 1,
                    );
                    assert(session == whole_row::<Session>()(self.sessions@[i as int]));
                    assert(rest@ + tail =~= before + (seq![session] + tail));
                }
            }
            i = i + 1;
        }
        proof {
            assert(rest@ + Seq::<Session>::empty() =~= rest@);
        }
        self.sessions = rest;
    }

    /// Opens a session under a token. A session that had the token is replaced.
    pub fn insert(&mut self, token: String, session_type: SessionType, expires_at: ExpirationTime)
        ensures
            final(self)@ == without_token(old(self)@, token@).push(
                Session { token, session_type, expires_at },
            ),
    {
        self.remove(token.as_str());
        self.sessions.push(Session { token, session_type, expires_at });
    }
}

} // verus!
