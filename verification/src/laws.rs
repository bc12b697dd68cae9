//! What holds of every registry, whatever was done to it and in whatever
//! order.

use crate::model::{lemma_sweep_keeps_pairs, lemma_with_pair_keeps_pairs, RegistryView};
use crate::session::SessionView;
use crate::user::UserView;
use crate::username::valid_username;
use vstd::prelude::*;

verus! {

/// The registry after the pairs of `pairs` were filed one after another.
pub open spec fn after_creations(
    registry: RegistryView,
    pairs: Seq<(UserView, SessionView)>,
) -> RegistryView
    decreases pairs.len(),
{
    if pairs.len() == 0 {
        registry
    } else {
        after_creations(registry, pairs.drop_last()).with_pair(pairs.last().0, pairs.last().1)
    }
}

/// Whether each pair of `pairs` is one that a creation files: the session
/// belongs to the user, the name is valid, and when its turn comes neither
/// identifier is taken.
pub open spec fn each_creation_succeeds(
    registry: RegistryView,
    pairs: Seq<(UserView, SessionView)>,
) -> bool {
    forall|k: int|
        0 <= k < pairs.len() ==> {
            &&& (#[trigger] pairs[k]).1.user_id == pairs[k].0.user_id
            &&& valid_username(pairs[k].0.name)
            &&& after_creations(registry, pairs.take(k)).vacant(
                pairs[k].0.user_id,
                pairs[k].1.session_id,
            )
        }
}

/// A session that has just been filed with its user leads to that user for
/// as long as it has not expired.
pub proof fn lemma_new_session_finds_its_user(
    registry: RegistryView,
    user: UserView,
    session: SessionView,
    now: nat,
)
    requires
        session.user_id == user.user_id,
        !session.expired(now),
    ensures
        registry.with_pair(user, session).lookup(session.session_id, now) == Some(user),
{
}

/// A session identifier that was never filed leads to no user.
pub proof fn lemma_unknown_session_finds_nothing(
    registry: RegistryView,
    session_id: u128,
    now: nat,
)
    requires
        !registry.sessions.contains_key(session_id),
    ensures
        registry.lookup(session_id, now) is None,
{
}

/// Once the clock has passed a session's expiry the session leads to no
/// user, whether or not it has been swept.
pub proof fn lemma_expired_session_finds_nothing(
    registry: RegistryView,
    session_id: u128,
    now: nat,
)
    requires
        registry.sessions.contains_key(session_id),
        now > registry.sessions[session_id].expires_at,
    ensures
        registry.lookup(session_id, now) is None,
{
}

/// After a sweep every expired session is gone together with its user, every
/// other session and its user are there as they were, and nothing has been
/// added.
pub proof fn lemma_sweep_takes_the_expired_and_nothing_else(registry: RegistryView, now: nat)
    requires
        registry.wf(),
    ensures
        registry.sweep(now).wf(),
        registry.sweep(now).sessions.submap_of(registry.sessions),
        registry.sweep(now).users.submap_of(registry.users),
        forall|session_id: u128| #[trigger]
            registry.sessions.contains_key(session_id) ==> {
                let session = registry.sessions[session_id];
                let after = registry.sweep(now);
                if session.expired(now) {
                    &&& !after.sessions.contains_key(session_id)
                    &&& !after.users.contains_key(session.user_id)
                } else {
                    &&& after.sessions.contains_key(session_id)
                    &&& after.sessions[session_id] == session
                    &&& after.users.contains_key(session.user_id)
                    &&& after.users[session.user_id] == registry.users[session.user_id]
                }
            },
{
    lemma_sweep_keeps_pairs(registry, now);
    let after = registry.sweep(now);
    assert forall|session_id: u128| #[trigger]
        registry.sessions.contains_key(session_id) implies {
        let session = registry.sessions[session_id];
        if session.expired(now) {
            &&& !after.sessions.contains_key(session_id)
            &&& !after.users.contains_key(session.user_id)
        } else {
            &&& after.sessions.contains_key(session_id)
            &&& after.sessions[session_id] == session
            &&& after.users.contains_key(session.user_id)
            &&& after.users[session.user_id] == registry.users[session.user_id]
        }
    } by {
        let session = registry.sessions[session_id];
        if !session.expired(now) {
            assert(after.sessions.contains_key(session_id));
        }
    }
}

/// A sweep leaves nothing for a second sweep at the same second.
pub proof fn lemma_sweep_twice_is_once(registry: RegistryView, now: nat)
    ensures
        registry.sweep(now).sweep(now) == registry.sweep(now),
{
    let once = registry.sweep(now);
    assert(once.expired_sessions(now) =~= Set::empty());
    assert(once.expired_users(now) =~= Set::empty()) by {
        assert forall|user_id: u128| !once.expired_users(now).contains(user_id) by {
            if once.expired_users(now).contains(user_id) {
                let session_id = choose|session_id: u128| #[trigger]
                    once.sessions.contains_key(session_id) && once.sessions[session_id].expired(
                        now,
                    ) && once.sessions[session_id].user_id == user_id;
                assert(registry.expired_sessions(now).contains(session_id));
            }
        }
    }
    assert(once.sweep(now).users =~= once.users);
    assert(once.sweep(now).sessions =~= once.sessions);
}

/// A session that has not expired leads to its user, never to a missing one,
/// and a sweep that ran no later than the lookup changes nothing about that.
pub proof fn lemma_live_session_always_finds_its_user(
    registry: RegistryView,
    session_id: u128,
    swept_at: nat,
    now: nat,
)
    requires
        registry.wf(),
        registry.sessions.contains_key(session_id),
        !registry.sessions[session_id].expired(now),
        swept_at <= now,
    ensures
        registry.lookup(session_id, now) == Some(
            registry.users[registry.sessions[session_id].user_id],
        ),
        registry.sweep(swept_at).lookup(session_id, now) == registry.lookup(session_id, now),
{
    lemma_sweep_takes_the_expired_and_nothing_else(registry, swept_at);
}

/// The creations before the last one succeed if all of them do.
proof fn lemma_earlier_creations_succeed(
    registry: RegistryView,
    pairs: Seq<(UserView, SessionView)>,
)
    requires
        pairs.len() > 0,
        each_creation_succeeds(registry, pairs),
    ensures
        each_creation_succeeds(registry, pairs.drop_last()),
        after_creations(registry, pairs.drop_last()).vacant(
            pairs.last().0.user_id,
            pairs.last().1.session_id,
        ),
        pairs.last().1.user_id == pairs.last().0.user_id,
        valid_username(pairs.last().0.name),
{
    let earlier = pairs.drop_last();
    let last = pairs.len() - 1;
    assert forall|k: int| 0 <= k < earlier.len() implies {
        &&& (#[trigger] earlier[k]).1.user_id == earlier[k].0.user_id
        &&& valid_username(earlier[k].0.name)
        &&& after_creations(registry, earlier.take(k)).vacant(
            earlier[k].0.user_id,
            earlier[k].1.session_id,
        )
    } by {
        assert(earlier[k] == pairs[k]);
        assert(earlier.take(k) =~= pairs.take(k));
    }
    assert(pairs[last] == pairs.last());
    assert(pairs.take(last) =~= earlier);
}

/// Creations that succeed keep users and sessions in pairs.
proof fn lemma_creations_keep_pairs(registry: RegistryView, pairs: Seq<(UserView, SessionView)>)
    requires
        registry.wf(),
        each_creation_succeeds(registry, pairs),
    ensures
        after_creations(registry, pairs).wf(),
    decreases pairs.len(),
{
    if pairs.len() > 0 {
        lemma_earlier_creations_succeed(registry, pairs);
        lemma_creations_keep_pairs(registry, pairs.drop_last());
        lemma_with_pair_keeps_pairs(
            after_creations(registry, pairs.drop_last()),
            pairs.last().0,
            pairs.last().1,
        );
    }
}

/// What the creations of `pairs` have added to `registry`: each pair, under
/// identifiers that were not there, and nothing else.
spec fn added_exactly(
    registry: RegistryView,
    pairs: Seq<(UserView, SessionView)>,
    after: RegistryView,
) -> bool {
    &&& after.users.dom().finite()
    &&& after.sessions.dom().finite()
    &&& after.users.len() == registry.users.len() + pairs.len()
    &&& after.sessions.len() == registry.sessions.len() + pairs.len()
    &&& registry.users.submap_of(after.users)
    &&& registry.sessions.submap_of(after.sessions)
    &&& forall|k: int|
        0 <= k < pairs.len() ==> {
            &&& !registry.users.contains_key((#[trigger] pairs[k]).0.user_id)
            &&& !registry.sessions.contains_key(pairs[k].1.session_id)
            &&& after.users.contains_pair(pairs[k].0.user_id, pairs[k].0)
            &&& after.sessions.contains_pair(pairs[k].1.session_id, pairs[k].1)
        }
}

/// Filing one more pair under identifiers that are not taken adds exactly
/// that pair.
proof fn lemma_one_more_added(
    registry: RegistryView,
    earlier: Seq<(UserView, SessionView)>,
    before: RegistryView,
    user: UserView,
    session: SessionView,
)
    requires
        added_exactly(registry, earlier, before),
        before.vacant(user.user_id, session.session_id),
    ensures
        added_exactly(registry, earlier.push((user, session)), before.with_pair(user, session)),
        forall|j: int|
            0 <= j < earlier.len() ==> {
                &&& (#[trigger] earlier[j]).0.user_id != user.user_id
                &&& earlier[j].1.session_id != session.session_id
            },
{
}

/// Creations that succeed add exactly their pairs, under identifiers that
/// differ from each other.
proof fn lemma_creations_add_up(registry: RegistryView, pairs: Seq<(UserView, SessionView)>)
    requires
        registry.users.dom().finite(),
        registry.sessions.dom().finite(),
        each_creation_succeeds(registry, pairs),
    ensures
        added_exactly(registry, pairs, after_creations(registry, pairs)),
        forall|j: int, k: int|
            0 <= j < k < pairs.len() ==> {
                &&& (#[trigger] pairs[j]).0.user_id != (#[trigger] pairs[k]).0.user_id
                &&& pairs[j].1.session_id != pairs[k].1.session_id
            },
    decreases pairs.len(),
{
    if pairs.len() > 0 {
        let earlier = pairs.drop_last();
        lemma_earlier_creations_succeed(registry, pairs);
        lemma_creations_add_up(registry, earlier);
        lemma_one_more_added(
            registry,
            earlier,
            after_creations(registry, earlier),
            pairs.last().0,
            pairs.last().1,
        );
        assert(earlier.push((pairs.last().0, pairs.last().1)) =~= pairs);
    }
}

/// Creations that succeed one after another, in whatever order they were
/// asked for, leave as many new users and as many new sessions as there were
/// creations: their identifiers differ from each other and from those already
/// there, each pair is in the registry as it was made, and what was there
/// before is still there.
pub proof fn lemma_creations_neither_lose_nor_repeat(
    registry: RegistryView,
    pairs: Seq<(UserView, SessionView)>,
)
    requires
        registry.wf(),
        each_creation_succeeds(registry, pairs),
    ensures
        after_creations(registry, pairs).wf(),
        after_creations(registry, pairs).users.len() == registry.users.len() + pairs.len(),
        after_creations(registry, pairs).sessions.len() == registry.sessions.len() + pairs.len(),
        registry.users.submap_of(after_creations(registry, pairs).users),
        registry.sessions.submap_of(after_creations(registry, pairs).sessions),
        forall|k: int|
            0 <= k < pairs.len() ==> {
                &&& !registry.users.contains_key((#[trigger] pairs[k]).0.user_id)
                &&& !registry.sessions.contains_key(pairs[k].1.session_id)
                &&& after_creations(registry, pairs).users.contains_pair(
                    pairs[k].0.user_id,
                    pairs[k].0,
                )
                &&& after_creations(registry, pairs).sessions.contains_pair(
                    pairs[k].1.session_id,
                    pairs[k].1,
                )
            },
        forall|j: int, k: int|
            0 <= j < k < pairs.len() ==> {
                &&& (#[trigger] pairs[j]).0.user_id != (#[trigger] pairs[k]).0.user_id
                &&& pairs[j].1.session_id != pairs[k].1.session_id
            },
{
    lemma_creations_keep_pairs(registry, pairs);
    lemma_creations_add_up(registry, pairs);
}

} // verus!
