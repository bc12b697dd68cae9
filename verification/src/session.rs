//! Sessions: short-lived credentials, each bound to one user.

use crate::clock::unix_seconds;
use crate::identifier::{is_random_identifier, random_identifier};
use vstd::prelude::*;

verus! {

/// What a session is: its own identifier, the identifier of the user it
/// belongs to, and the second (since the Unix epoch) after which it no longer
/// counts.
pub struct SessionView {
    pub session_id: u128,
    pub user_id: u128,
    pub expires_at: nat,
}

impl SessionView {
    /// A session has expired once the clock has passed its expiry.
    pub open spec fn expired(self, now: nat) -> bool {
        now > self.expires_at
    }
}

/// A session credential. Its expiry is fixed when it is made.
#[derive(Clone, Copy, Debug)]
pub struct Session {
    session_id: u128,
    user_id: u128,
    expires_at: u64,
}

impl View for Session {
    type V = SessionView;

    closed spec fn view(&self) -> SessionView {
        SessionView {
            session_id: self.session_id,
            user_id: self.user_id,
            expires_at: self.expires_at as nat,
        }
    }
}

impl Session {
    /// Makes a session for `user_id` that starts now and lasts `ttl` seconds,
    /// under a fresh random identifier.
    ///
    /// The clock and the identifier are not ours to foretell: there is no
    /// session when the clock stands before the Unix epoch or when the expiry
    /// would not fit in 64 bits, and `at_reading` says what is made of each
    /// identifier and each reading.
    pub fn new(user_id: u128, ttl: u64) -> (r: Option<Session>)
        ensures
            r matches Some(session) ==> {
                &&& session@.user_id == user_id
                &&& is_random_identifier(session@.session_id)
                &&& session@.expires_at >= ttl
            },
    {
        let session_id = random_identifier();
        Session::at_reading(session_id, user_id, unix_seconds(), ttl)
    }

    /// Makes the session `session_id` for `user_id` that starts at the clock
    /// reading `now` and lasts `ttl` seconds. There is a session exactly when
    /// the clock gave a reading and the expiry fits in 64 bits.
    pub fn at_reading(session_id: u128, user_id: u128, now: Option<u64>, ttl: u64) -> (r: Option<
        Session,
    >)
        ensures
            r is Some <==> now is Some && now->0 + ttl <= u64::MAX,
            r matches Some(session) ==> session@ == (SessionView {
                session_id,
                user_id,
                expires_at: (now->0 + ttl) as nat,
            }),
    {
        match now {
            Some(start) => Session::starting_at(session_id, user_id, start, ttl),
            None => None,
        }
    }

    /// Makes the session `session_id` for `user_id` that starts at second
    /// `now` and lasts `ttl` seconds, unless its expiry would not fit in 64
    /// bits.
    pub fn starting_at(session_id: u128, user_id: u128, now: u64, ttl: u64) -> (r: Option<Session>)
        ensures
            match r {
                Some(session) => now + ttl <= u64::MAX && session@ == (SessionView {
                    session_id,
                    user_id,
                    expires_at: (now + ttl) as nat,
                }),
                None => now + ttl > u64::MAX,
            },
    {
        match now.checked_add(ttl) {
            Some(expires_at) => Some(Session { session_id, user_id, expires_at }),
            None => None,
        }
    }

    /// The session's own identifier.
    pub fn session_id(&self) -> (id: u128)
        ensures
            id == self@.session_id,
    {
        self.session_id
    }

    /// The identifier of the user the session belongs to.
    pub fn user_id(&self) -> (id: u128)
        ensures
            id == self@.user_id,
    {
        self.user_id
    }

    /// The last second, counted from the Unix epoch, at which the session
    /// still counts.
    pub fn expires_at(&self) -> (second: u64)
        ensures
            second == self@.expires_at,
    {
        self.expires_at
    }

    /// Whether the session has expired by the system clock. A clock that
    /// stands before the Unix epoch is earlier than every expiry.
    pub fn is_expired(&self) -> (expired: bool)
        ensures
            exists|now: u64| expired == #[trigger] self@.expired(now as nat),
    {
        let now: u64 = match unix_seconds() {
            Some(now) => now,
            None => 0,
        };
        self.is_expired_at(now)
    }

    /// Whether the session has expired at second `now`.
    pub fn is_expired_at(&self, now: u64) -> (expired: bool)
        ensures
            expired == self@.expired(now as nat),
    {
        now > self.expires_at
    }
}

} // verus!
