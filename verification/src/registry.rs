//! The registry: the one owner of all users and sessions.

use crate::clock::unix_seconds;
use crate::identifier::{is_random_identifier, random_identifier};
use crate::model::{lemma_sweep_keeps_pairs, lemma_with_pair_keeps_pairs, RegistryView};
use crate::session::{Session, SessionView};
use crate::user::{User, UserView};
use crate::username::{valid_username, INVALID_USERNAME};
use std::collections::HashMap;
use vstd::prelude::*;
use vstd::std_specs::hash::*;
use vstd::std_specs::iter::IteratorSpec;

verus! {

broadcast use group_hash_axioms;

/// Why no user and session were made.
#[derive(Debug)]
pub enum CreateError {
    /// The name is not a valid username; the text says what a valid one is.
    Validation(&'static str),
    /// One of the two identifiers is already in use.
    IdentifierInUse,
    /// The clock stands before the Unix epoch, or the expiry would not fit in
    /// 64 bits.
    ExpiryOutOfRange,
}

/// The answer to a session that is absent or expired, or whose user is
/// missing: the three are not told apart.
#[derive(Debug)]
pub struct NotFound;

/// The two stores, kept together so that they change together.
struct Stores {
    users: HashMap<u128, User>,
    sessions: HashMap<u128, Session>,
}

impl Stores {
    spec fn view(&self) -> RegistryView {
        RegistryView {
            users: self.users@.map_values(|user: User| user@),
            sessions: self.sessions@.map_values(|session: Session| session@),
        }
    }

    fn empty() -> (stores: Stores)
        ensures
            stores@ == RegistryView::empty(),
    {
        let stores = Stores { users: HashMap::new(), sessions: HashMap::new() };
        assert(stores@.users =~= Map::empty());
        assert(stores@.sessions =~= Map::empty());
        stores
    }
}

/// The identifiers of all sessions in `sessions`, each once, in the order in
/// which the map hands them out.
fn session_ids(sessions: &HashMap<u128, Session>) -> (ids: Vec<u128>)
    ensures
        ids@.no_duplicates(),
        ids@.to_set() == sessions@.dom(),
{
    let mut ids: Vec<u128> = Vec::new();
    let ghost keys = spec_keys_iter(sessions).remaining();
    for id in it: sessions.keys()
        invariant
            it.seq() == keys,
            ids@.len() == it.index(),
            forall|j: int| 0 <= j < ids@.len() ==> ids@[j] == *keys[j],
    {
        ids.push(*id);
    }
    assert(ids@ =~= keys.unref());
    ids
}

/// The sessions among `visited` that have expired at second `now`.
spec fn expired_sessions_among(registry: RegistryView, visited: Set<u128>, now: nat) -> Set<u128> {
    Set::new(
        |session_id: u128|
            visited.contains(session_id) && registry.sessions.contains_key(session_id)
                && registry.sessions[session_id].expired(now),
    )
}

/// The users that a session among `visited`, expired at second `now`,
/// belongs to.
spec fn expired_users_among(registry: RegistryView, visited: Set<u128>, now: nat) -> Set<u128> {
    Set::new(
        |user_id: u128|
            exists|session_id: u128| #[trigger]
                registry.sessions.contains_key(session_id) && visited.contains(session_id)
                    && registry.sessions[session_id].expired(now)
                    && registry.sessions[session_id].user_id == user_id,
    )
}

/// Visiting one more session adds it and its user to what is swept if it has
/// expired, and adds nothing if it has not.
proof fn lemma_visit_one_more(registry: RegistryView, visited: Set<u128>, next: u128, now: nat)
    requires
        registry.sessions.contains_key(next),
    ensures
        expired_sessions_among(registry, visited.insert(next), now) == if registry.sessions[next].expired(
            now,
        ) {
            expired_sessions_among(registry, visited, now).insert(next)
        } else {
            expired_sessions_among(registry, visited, now)
        },
        expired_users_among(registry, visited.insert(next), now) == if registry.sessions[next].expired(
            now,
        ) {
            expired_users_among(registry, visited, now).insert(registry.sessions[next].user_id)
        } else {
            expired_users_among(registry, visited, now)
        },
{
    let more = visited.insert(next);
    let users_before = expired_users_among(registry, visited, now);
    let expected = if registry.sessions[next].expired(now) {
        users_before.insert(registry.sessions[next].user_id)
    } else {
        users_before
    };
    assert(expired_users_among(registry, more, now) =~= expected);
    assert(expired_sessions_among(registry, more, now) =~= if registry.sessions[next].expired(now) {
        expired_sessions_among(registry, visited, now).insert(next)
    } else {
        expired_sessions_among(registry, visited, now)
    });
}

/// All users and sessions of one process. Whoever holds it exclusively sees
/// each operation happen as a whole.
pub struct Registry {
    stores: Stores,
}

impl View for Registry {
    type V = RegistryView;

    closed spec fn view(&self) -> RegistryView {
        self.stores@
    }
}

impl Registry {
    /// Every registry that exists is well formed.
    #[verifier::type_invariant]
    pub open spec fn inv(self) -> bool {
        self@.wf()
    }

    /// The registry that holds nothing.
    pub fn new() -> (registry: Registry)
        ensures
            registry@ == RegistryView::empty(),
            registry@.wf(),
    {
        Registry { stores: Stores::empty() }
    }

    /// Makes a user called `name` and a session for that user that lasts
    /// `ttl` seconds from now, both under fresh random identifiers, and files
    /// the two together.
    ///
    /// The identifiers and the clock are not ours to foretell; `create_at`
    /// says what is made of each value of them. Whatever they are, an invalid
    /// name is turned down, and nothing but the new pair is ever added.
    pub fn create_user_and_session(&mut self, name: &str, ttl: u64) -> (r: Result<
        (User, Session),
        CreateError,
    >)
        ensures
            final(self)@.wf(),
            !valid_username(name@) ==> r matches Err(CreateError::Validation(_)),
            match r {
                Ok((user, session)) => {
                    &&& valid_username(name@)
                    &&& user@.name == name@
                    &&& user@.current_table_id is None
                    &&& is_random_identifier(user@.user_id)
                    &&& is_random_identifier(session@.session_id)
                    &&& session@.user_id == user@.user_id
                    &&& session@.expires_at >= ttl
                    &&& old(self)@.vacant(user@.user_id, session@.session_id)
                    &&& final(self)@ == old(self)@.with_pair(user@, session@)
                },
                Err(CreateError::Validation(why)) => {
                    &&& !valid_username(name@)
                    &&& why@ == INVALID_USERNAME@
                    &&& final(self)@ == old(self)@
                },
                Err(_) => valid_username(name@) && final(self)@ == old(self)@,
            },
    {
        let user_id = random_identifier();
        let session_id = random_identifier();
        let now = unix_seconds();
        self.create_at(name, user_id, session_id, now, ttl)
    }

    /// Makes the user `user_id` called `name` and the session `session_id`
    /// for that user, which lasts `ttl` seconds from second `now`, and files
    /// the two together. `now` is `None` when the clock stands before the
    /// Unix epoch.
    ///
    /// The name is judged first, then the identifiers, then the expiry; when
    /// any of them fails the registry is left as it was.
    pub fn create_at(
        &mut self,
        name: &str,
        user_id: u128,
        session_id: u128,
        now: Option<u64>,
        ttl: u64,
    ) -> (r: Result<(User, Session), CreateError>)
        ensures
            final(self)@.wf(),
            match r {
                Ok((user, session)) => {
                    &&& valid_username(name@)
                    &&& old(self)@.vacant(user_id, session_id)
                    &&& now matches Some(start)
                    &&& start + ttl <= u64::MAX
                    &&& user@ == (UserView { user_id, name: name@, current_table_id: None })
                    &&& session@ == (SessionView {
                        session_id,
                        user_id,
                        expires_at: (start + ttl) as nat,
                    })
                    &&& final(self)@ == old(self)@.with_pair(user@, session@)
                },
                Err(CreateError::Validation(why)) => {
                    &&& !valid_username(name@)
                    &&& why@ == INVALID_USERNAME@
                    &&& final(self)@ == old(self)@
                },
                Err(CreateError::IdentifierInUse) => {
                    &&& valid_username(name@)
                    &&& !old(self)@.vacant(user_id, session_id)
                    &&& final(self)@ == old(self)@
                },
                Err(CreateError::ExpiryOutOfRange) => {
                    &&& valid_username(name@)
                    &&& old(self)@.vacant(user_id, session_id)
                    &&& (now matches Some(start) ==> start + ttl > u64::MAX)
                    &&& final(self)@ == old(self)@
                },
            },
    {
        proof {
            use_type_invariant(&*self);
        }
        let user = match User::with_id(user_id, name) {
            Ok(user) => user,
            Err(why) => {
                return Err(CreateError::Validation(why));
            },
        };
        if self.stores.users.contains_key(&user_id) || self.stores.sessions.contains_key(
            &session_id,
        ) {
            return Err(CreateError::IdentifierInUse);
        }
        let session = match now {
            Some(start) => match Session::starting_at(session_id, user_id, start, ttl) {
                Some(session) => session,
                None => {
                    return Err(CreateError::ExpiryOutOfRange);
                },
            },
            None => {
                return Err(CreateError::ExpiryOutOfRange);
            },
        };
        let mut stores = Stores::empty();
        std::mem::swap(&mut stores, &mut self.stores);
        let ghost before = stores@;
        stores.users.insert(user_id, user.clone());
        stores.sessions.insert(session_id, session);
        proof {
            lemma_with_pair_keeps_pairs(before, user@, session@);
            assert(stores@.users =~= before.users.insert(user_id, user@));
            assert(stores@.sessions =~= before.sessions.insert(session_id, session@));
        }
        self.stores = stores;
        Ok((user, session))
    }

    /// The user that `session_id` stands for by the system clock. A clock
    /// that stands before the Unix epoch is earlier than every expiry.
    ///
    /// The clock is not ours to foretell; `get_user_by_session_at` says what
    /// is answered at each second. Whatever the clock reads, the answer is
    /// the one that is right at some second: a session that is not in the
    /// registry is not found, and a user that is found is the one the session
    /// belongs to.
    pub fn get_user_by_session(&self, session_id: u128) -> (r: Result<&User, NotFound>)
        ensures
            exists|now: u64|
                match r {
                    Ok(user) => #[trigger] self@.lookup(session_id, now as nat) == Some(user@),
                    Err(_) => self@.lookup(session_id, now as nat) is None,
                },
            !self@.sessions.contains_key(session_id) ==> r is Err,
            r matches Ok(user) ==> {
                &&& self@.sessions.contains_key(session_id)
                &&& self@.users.contains_key(self@.sessions[session_id].user_id)
                &&& user@ == self@.users[self@.sessions[session_id].user_id]
            },
    {
        let now: u64 = match unix_seconds() {
            Some(now) => now,
            None => 0,
        };
        let r = self.get_user_by_session_at(session_id, now);
        assert(match r {
            Ok(user) => self@.lookup(session_id, now as nat) == Some(user@),
            Err(_) => self@.lookup(session_id, now as nat) is None,
        });
        r
    }

    /// The user that `session_id` stands for at second `now`: found exactly
    /// when the session is present and has not expired.
    pub fn get_user_by_session_at(&self, session_id: u128, now: u64) -> (r: Result<
        &User,
        NotFound,
    >)
        ensures
            match r {
                Ok(user) => self@.lookup(session_id, now as nat) == Some(user@),
                Err(_) => self@.lookup(session_id, now as nat) is None,
            },
            r is Ok <==> self@.sessions.contains_key(session_id)
                && !self@.sessions[session_id].expired(now as nat),
    {
        proof {
            use_type_invariant(self);
        }
        match self.stores.sessions.get(&session_id) {
            Some(session) => {
                if session.is_expired_at(now) {
                    Err(NotFound)
                } else {
                    let user_id = session.user_id();
                    match self.stores.users.get(&user_id) {
                        Some(user) => Ok(user),
                        None => Err(NotFound),
                    }
                }
            },
            None => Err(NotFound),
        }
    }

    /// Removes every session that has expired by the system clock, and the
    /// user of each, and names the users removed. A clock that stands before
    /// the Unix epoch is earlier than every expiry.
    ///
    /// The clock is not ours to foretell; `sweep_expired_at` says what goes
    /// at each second. Whatever the clock reads, what goes is what had
    /// expired at some one second.
    pub fn sweep_expired(&mut self) -> (removed: Vec<u128>)
        ensures
            final(self)@.wf(),
            removed@.no_duplicates(),
            exists|now: u64|
                {
                    &&& final(self)@ == #[trigger] old(self)@.sweep(now as nat)
                    &&& removed@.to_set() == old(self)@.expired_users(now as nat)
                },
    {
        let now: u64 = match unix_seconds() {
            Some(now) => now,
            None => 0,
        };
        self.sweep_expired_at(now)
    }

    /// Removes every session that has expired at second `now`, and the user
    /// of each, and names the users removed, each once. What has not expired
    /// stays as it is.
    pub fn sweep_expired_at(&mut self, now: u64) -> (removed: Vec<u128>)
        ensures
            final(self)@ == old(self)@.sweep(now as nat),
            final(self)@.wf(),
            removed@.no_duplicates(),
            removed@.to_set() == old(self)@.expired_users(now as nat),
    {
        proof {
            use_type_invariant(&*self);
        }
        let mut stores = Stores::empty();
        std::mem::swap(&mut stores, &mut self.stores);
        let ghost before = stores@;
        let ids = session_ids(&stores.sessions);
        let mut removed: Vec<u128> = Vec::new();
        let mut i: usize = 0;
        while i < ids.len()
            invariant
                i <= ids.len(),
                before.wf(),
                ids@.no_duplicates(),
                ids@.to_set() == before.sessions.dom(),
                stores@.sessions == before.sessions.remove_keys(
                    expired_sessions_among(before, ids@.take(i as int).to_set(), now as nat),
                ),
                stores@.users == before.users.remove_keys(
                    expired_users_among(before, ids@.take(i as int).to_set(), now as nat),
                ),
                removed@.no_duplicates(),
                removed@.to_set() == expired_users_among(
                    before,
                    ids@.take(i as int).to_set(),
                    now as nat,
                ),
            decreases ids.len() - i,
        {
            let id = ids[i];
            let ghost visited = ids@.take(i as int).to_set();
            let ghost users_gone = expired_users_among(before, visited, now as nat);
            proof {
                ids@.lemma_take_succ_push(i as int);
                ids@.take(i as int).lemma_push_to_set_commute(id);
                assert(!visited.contains(id)) by {
                    if visited.contains(id) {
                        let k = choose|k: int| 0 <= k < i && ids@.take(i as int)[k] == id;
                        assert(ids@[k] == ids@[i as int]);
                    }
                }
                lemma_visit_one_more(before, visited, id, now as nat);
            }
            let doomed = match stores.sessions.get(&id) {
                Some(session) => if session.is_expired_at(now) {
                    Some(session.user_id())
                } else {
                    None
                },
                None => None,
            };
            assert(stores@.sessions[id] == before.sessions[id]);
            assert(match doomed {
                Some(user_id) => before.sessions[id].expired(now as nat) && user_id
                    == before.sessions[id].user_id,
                None => !before.sessions[id].expired(now as nat),
            });
            if let Some(user_id) = doomed {
                let ghost sessions_then = stores@.sessions;
                let ghost users_then = stores@.users;
                stores.sessions.remove(&id);
                stores.users.remove(&user_id);
                proof {
                    assert(!users_gone.contains(user_id)) by {
                        if users_gone.contains(user_id) {
                            let other = choose|other: u128| #[trigger]
                                before.sessions.contains_key(other) && visited.contains(other)
                                    && before.sessions[other].expired(now as nat)
                                    && before.sessions[other].user_id == user_id;
                            assert(before.sessions.contains_key(id));
                            assert(other == id);
                        }
                    }
                    assert(stores@.sessions =~= sessions_then.remove(id));
                    assert(stores@.users =~= users_then.remove(user_id));
                    assert(stores@.sessions =~= before.sessions.remove_keys(
                        expired_sessions_among(before, visited.insert(id), now as nat),
                    ));
                    assert(stores@.users =~= before.users.remove_keys(
                        expired_users_among(before, visited.insert(id), now as nat),
                    ));
                    removed@.lemma_push_to_set_commute(user_id);
                }
                removed.push(user_id);
            }
            i += 1;
        }
        proof {
            assert(ids@.take(ids@.len() as int) =~= ids@);
            let all = before.sessions.dom();
            assert(expired_sessions_among(before, all, now as nat) =~= before.expired_sessions(
                now as nat,
            ));
            assert(expired_users_among(before, all, now as nat) =~= before.expired_users(
                now as nat,
            ));
            lemma_sweep_keeps_pairs(before, now as nat);
        }
        self.stores = stores;
        removed
    }

    /// How many users the registry holds.
    pub fn user_count(&self) -> (count: usize)
        ensures
            count == self@.users.len(),
    {
        assert(self@.users.dom() =~= self.stores.users@.dom());
        self.stores.users.len()
    }

    /// How many sessions the registry holds.
    pub fn session_count(&self) -> (count: usize)
        ensures
            count == self@.sessions.len(),
    {
        assert(self@.sessions.dom() =~= self.stores.sessions@.dom());
        self.stores.sessions.len()
    }
}

} // verus!
