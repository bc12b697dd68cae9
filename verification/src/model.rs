//! The registry as mathematics: two maps and the rules that bind them.

use crate::session::SessionView;
use crate::user::UserView;
use crate::username::valid_username;
use vstd::prelude::*;

verus! {

/// What a registry holds: users by user identifier and sessions by session
/// identifier.
pub struct RegistryView {
    pub users: Map<u128, UserView>,
    pub sessions: Map<u128, SessionView>,
}

impl RegistryView {
    /// The registry that holds nothing.
    pub open spec fn empty() -> RegistryView {
        RegistryView { users: Map::empty(), sessions: Map::empty() }
    }

    /// Whether some session in the registry belongs to `user_id`.
    pub open spec fn has_session_of(self, user_id: u128) -> bool {
        exists|session_id: u128| #[trigger]
            self.sessions.contains_key(session_id) && self.sessions[session_id].user_id == user_id
    }

    /// Users and sessions stand in pairs: every entry is filed under its own
    /// identifier, every session's user is present, every user has a session,
    /// no two sessions share a user, and every name is valid.
    pub open spec fn wf(self) -> bool {
        &&& self.users.dom().finite()
        &&& self.sessions.dom().finite()
        &&& forall|session_id: u128| #[trigger]
            self.sessions.contains_key(session_id) ==> {
                &&& self.sessions[session_id].session_id == session_id
                &&& self.users.contains_key(self.sessions[session_id].user_id)
            }
        &&& forall|user_id: u128| #[trigger]
            self.users.contains_key(user_id) ==> {
                &&& self.users[user_id].user_id == user_id
                &&& valid_username(self.users[user_id].name)
                &&& self.has_session_of(user_id)
            }
        &&& forall|a: u128, b: u128|
            #![trigger self.sessions.contains_key(a), self.sessions.contains_key(b)]
            self.sessions.contains_key(a) && self.sessions.contains_key(b)
                && self.sessions[a].user_id == self.sessions[b].user_id ==> a == b
    }

    /// Whether neither identifier of a new pair is taken.
    pub open spec fn vacant(self, user_id: u128, session_id: u128) -> bool {
        !self.users.contains_key(user_id) && !self.sessions.contains_key(session_id)
    }

    /// The registry with `user` and `session` filed under their identifiers.
    pub open spec fn with_pair(self, user: UserView, session: SessionView) -> RegistryView {
        RegistryView {
            users: self.users.insert(user.user_id, user),
            sessions: self.sessions.insert(session.session_id, session),
        }
    }

    /// The user that `session_id` stands for at second `now`: the session
    /// must be present and not expired, and its user present.
    pub open spec fn lookup(self, session_id: u128, now: nat) -> Option<UserView> {
        if self.sessions.contains_key(session_id) && !self.sessions[session_id].expired(now)
            && self.users.contains_key(self.sessions[session_id].user_id) {
            Some(self.users[self.sessions[session_id].user_id])
        } else {
            None
        }
    }

    /// The sessions that have expired at second `now`.
    pub open spec fn expired_sessions(self, now: nat) -> Set<u128> {
        Set::new(
            |session_id: u128|
                self.sessions.contains_key(session_id) && self.sessions[session_id].expired(now),
        )
    }

    /// The users that a session expired at second `now` belongs to.
    pub open spec fn expired_users(self, now: nat) -> Set<u128> {
        Set::new(
            |user_id: u128|
                exists|session_id: u128| #[trigger]
                    self.sessions.contains_key(session_id) && self.sessions[session_id].expired(
                        now,
                    ) && self.sessions[session_id].user_id == user_id,
        )
    }

    /// The registry without the sessions expired at second `now` and without
    /// the users they belong to.
    pub open spec fn sweep(self, now: nat) -> RegistryView {
        RegistryView {
            users: self.users.remove_keys(self.expired_users(now)),
            sessions: self.sessions.remove_keys(self.expired_sessions(now)),
        }
    }
}

/// Filing a new pair under two identifiers that are not taken keeps users
/// and sessions in pairs.
pub proof fn lemma_with_pair_keeps_pairs(
    registry: RegistryView,
    user: UserView,
    session: SessionView,
)
    requires
        registry.wf(),
        registry.vacant(user.user_id, session.session_id),
        session.user_id == user.user_id,
        valid_username(user.name),
    ensures
        registry.with_pair(user, session).wf(),
{
    let after = registry.with_pair(user, session);
    assert forall|user_id: u128| #[trigger] after.users.contains_key(user_id) implies {
        &&& after.users[user_id].user_id == user_id
        &&& valid_username(after.users[user_id].name)
        &&& after.has_session_of(user_id)
    } by {
        if user_id == user.user_id {
            assert(after.sessions.contains_key(session.session_id));
        } else {
            let witness = choose|session_id: u128| #[trigger]
                registry.sessions.contains_key(session_id)
                    && registry.sessions[session_id].user_id == user_id;
            assert(after.sessions.contains_key(witness));
        }
    }
}

/// A sweep keeps users and sessions in pairs.
pub proof fn lemma_sweep_keeps_pairs(registry: RegistryView, now: nat)
    requires
        registry.wf(),
    ensures
        registry.sweep(now).wf(),
{
    let after = registry.sweep(now);
    vstd::set_lib::lemma_len_subset(after.users.dom(), registry.users.dom());
    vstd::set_lib::lemma_len_subset(after.sessions.dom(), registry.sessions.dom());
    assert forall|session_id: u128| #[trigger] after.sessions.contains_key(session_id) implies {
        &&& after.sessions[session_id].session_id == session_id
        &&& after.users.contains_key(after.sessions[session_id].user_id)
    } by {
        let user_id = registry.sessions[session_id].user_id;
        if registry.expired_users(now).contains(user_id) {
            let other = choose|other: u128| #[trigger]
                registry.sessions.contains_key(other) && registry.sessions[other].expired(now)
                    && registry.sessions[other].user_id == user_id;
            assert(other == session_id);
        }
    }
    assert forall|user_id: u128| #[trigger] after.users.contains_key(user_id) implies {
        &&& after.users[user_id].user_id == user_id
        &&& valid_username(after.users[user_id].name)
        &&& after.has_session_of(user_id)
    } by {
        let witness = choose|session_id: u128| #[trigger]
            registry.sessions.contains_key(session_id) && registry.sessions[session_id].user_id
                == user_id;
        assert(after.sessions.contains_key(witness));
    }
}

} // verus!
