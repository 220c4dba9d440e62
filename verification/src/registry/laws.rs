//! The laws of the registry: what holds of registration, deregistration and
//! fan-out on every registry.

use vstd::prelude::*;
use crate::registry::{
    absent, bucket_of, deregistered, distinct, evicted, holds, indexed,
    lemma_attached_consistent, lemma_deregistered_consistent, lemma_evicted_by_owner,
    lemma_single_position, lemma_without_absent, lemma_without_idempotent, owned_by,
    owners_without, position, registered, targets, well_formed, without, WebSocketConnection,
};

verus! {

/// The index that belongs to a well-formed registry.
spec fn index_of(buckets: Map<u128, Seq<WebSocketConnection>>) -> Map<u128, u128> {
    Map::new(
        |c: u128| exists|u: u128| buckets.contains_key(u) && holds(#[trigger] buckets[u], c),
        |c: u128| choose|u: u128| buckets.contains_key(u) && holds(#[trigger] buckets[u], c),
    )
}

proof fn lemma_index_of(buckets: Map<u128, Seq<WebSocketConnection>>)
    requires
        well_formed(buckets),
    ensures
        indexed(buckets, index_of(buckets)),
{
    let index = index_of(buckets);
    assert forall|u: u128, i: int| buckets.contains_key(u) && 0 <= i < buckets[u].len() implies
        owned_by(index, (#[trigger] buckets[u][i]).connection_id, u) by {
        let c = buckets[u][i].connection_id;
        assert(holds(buckets[u], c));
        let v = index[c];
        assert(buckets.contains_key(v) && holds(buckets[v], c));
        let w = position(buckets[v], c);
        assert(buckets[v][w].connection_id == buckets[u][i].connection_id);
    }
}

/// Registering keeps the registry well formed.
pub proof fn lemma_registered_well_formed(
    buckets: Map<u128, Seq<WebSocketConnection>>,
    user: u128,
    connection: WebSocketConnection,
)
    requires
        well_formed(buckets),
    ensures
        well_formed(registered(buckets, user, connection)),
{
    let id = connection.connection_id;
    let index = index_of(buckets);
    lemma_index_of(buckets);
    lemma_evicted_by_owner(buckets, index, id);
    if index.contains_key(id) {
        lemma_deregistered_consistent(buckets, index, index[id], id);
        lemma_attached_consistent(
            evicted(buckets, id),
            owners_without(index, index[id], id),
            user,
            connection,
        );
    } else {
        lemma_attached_consistent(buckets, index, user, connection);
    }
}

/// Deregistering keeps the registry well formed.
pub proof fn lemma_deregistered_well_formed(
    buckets: Map<u128, Seq<WebSocketConnection>>,
    user: u128,
    id: u128,
)
    requires
        well_formed(buckets),
    ensures
        well_formed(deregistered(buckets, user, id)),
{
    lemma_index_of(buckets);
    lemma_deregistered_consistent(buckets, index_of(buckets), user, id);
}

/// Exclusion: a fan-out that leaves out `id` reaches no connection that goes
/// by `id`.
pub proof fn lemma_fanout_skips_excluded(
    buckets: Map<u128, Seq<WebSocketConnection>>,
    user: u128,
    id: u128,
)
    ensures
        !holds(targets(buckets, user, Some(id)), id),
{
    lemma_without_idempotent(bucket_of(buckets, user), id);
}

/// Completeness: a fan-out for `user` reaches every connection of the user
/// that it is not told to leave out.
pub proof fn lemma_fanout_reaches_every_other(
    buckets: Map<u128, Seq<WebSocketConnection>>,
    user: u128,
    exclude: Option<u128>,
    id: u128,
)
    requires
        holds(bucket_of(buckets, user), id),
        exclude != Some(id),
    ensures
        holds(targets(buckets, user, exclude), id),
{
    let bucket = bucket_of(buckets, user);
    let reach = targets(buckets, user, exclude);
    let w = position(bucket, id);
    match exclude {
        Some(x) => {
            bucket.lemma_filter_contains(|c: WebSocketConnection| c.connection_id != x, w);
            let k = choose|k: int| 0 <= k < reach.len() && reach[k] == bucket[w];
            assert(reach[k].connection_id == id);
        },
        None => {},
    }
}

/// No duplication: in a well-formed registry a fan-out reaches no connection
/// twice.
pub proof fn lemma_fanout_reaches_each_once(
    buckets: Map<u128, Seq<WebSocketConnection>>,
    user: u128,
    exclude: Option<u128>,
)
    requires
        well_formed(buckets),
    ensures
        distinct(targets(buckets, user, exclude)),
{
    let bucket = bucket_of(buckets, user);
    let reach = targets(buckets, user, exclude);
    if buckets.contains_key(user) {
        assert forall|i: int, j: int| 0 <= i < j < bucket.len() implies (
        #[trigger] bucket[i]).connection_id != (#[trigger] bucket[j]).connection_id by {
            assert(buckets[user][i] == bucket[i] && buckets[user][j] == bucket[j]);
        }
        match exclude {
            Some(x) => {
                if holds(bucket, x) {
                    let k = position(bucket, x);
                    lemma_single_position(buckets, user, x, k);
                    assert forall|i: int, j: int| 0 <= i < j < reach.len() implies (
                    #[trigger] reach[i]).connection_id != (#[trigger] reach[j]).connection_id by {
                        let i0 = if i < k { i } else { i + 1 };
                        let j0 = if j < k { j } else { j + 1 };
                        assert(reach[i] == bucket[i0] && reach[j] == bucket[j0]);
                    }
                } else {
                    lemma_without_absent(bucket, x);
                }
            },
            None => {},
        }
    } else {
        match exclude {
            Some(x) => {
                lemma_without_absent(bucket, x);
            },
            None => {},
        }
    }
}

/// The registry after `connections` are registered under `user`, one after
/// the other.
pub open spec fn registered_all(
    buckets: Map<u128, Seq<WebSocketConnection>>,
    user: u128,
    connections: Seq<WebSocketConnection>,
) -> Map<u128, Seq<WebSocketConnection>>
    decreases connections.len(),
{
    if connections.len() == 0 {
        buckets
    } else {
        registered(
            registered_all(buckets, user, connections.drop_last()),
            user,
            connections.last(),
        )
    }
}

/// Registering a connection under a user keeps every other connection of the
/// user.
pub proof fn lemma_registered_keeps_others(
    buckets: Map<u128, Seq<WebSocketConnection>>,
    user: u128,
    connection: WebSocketConnection,
    id: u128,
)
    requires
        holds(bucket_of(buckets, user), id),
        id != connection.connection_id,
    ensures
        holds(bucket_of(registered(buckets, user, connection), user), id),
{
    let bucket = bucket_of(buckets, user);
    let keep = |c: WebSocketConnection| c.connection_id != connection.connection_id;
    let rest = without(bucket, connection.connection_id);
    let w = position(bucket, id);
    bucket.lemma_filter_contains(keep, w);
    let k = choose|k: int| 0 <= k < rest.len() && rest[k] == bucket[w];
    let after = registered(buckets, user, connection)[user];
    assert(after[k] == rest[k]);
}

/// No duplication, whatever the order of registration: when any number of
/// connections have registered under a user, in any order, the registry is
/// well formed, so that a fan-out reaches none of them twice; and where their
/// identities differ from one another, it reaches every one of them that it
/// is not told to leave out. Each of them is offered the event exactly once.
pub proof fn lemma_fanout_after_registrations(
    buckets: Map<u128, Seq<WebSocketConnection>>,
    user: u128,
    connections: Seq<WebSocketConnection>,
    exclude: Option<u128>,
)
    requires
        well_formed(buckets),
    ensures
        well_formed(registered_all(buckets, user, connections)),
        distinct(targets(registered_all(buckets, user, connections), user, exclude)),
        distinct(connections) ==> forall|k: int|
            0 <= k < connections.len() && exclude != Some(
                (#[trigger] connections[k]).connection_id,
            ) ==> holds(
                targets(registered_all(buckets, user, connections), user, exclude),
                connections[k].connection_id,
            ),
    decreases connections.len(),
{
    let after = registered_all(buckets, user, connections);
    if connections.len() > 0 {
        let front = connections.drop_last();
        let last = connections.last();
        let before = registered_all(buckets, user, front);
        lemma_fanout_after_registrations(buckets, user, front, None);
        lemma_registered_well_formed(before, user, last);
        if distinct(connections) {
            assert forall|k: int|
                0 <= k < connections.len() && exclude != Some(
                    (#[trigger] connections[k]).connection_id,
                ) implies holds(targets(after, user, exclude), connections[k].connection_id) by {
                let id = connections[k].connection_id;
                if k < front.len() {
                    assert(front[k] == connections[k]);
                    assert(distinct(front)) by {
                        assert forall|i: int, j: int| 0 <= i < j < front.len() implies (
                        #[trigger] front[i]).connection_id != (
                        #[trigger] front[j]).connection_id by {
                            assert(front[i] == connections[i] && front[j] == connections[j]);
                        }
                    }
                    assert(holds(targets(before, user, None), front[k].connection_id));
                    assert(last == connections[connections.len() - 1]);
                    lemma_registered_keeps_others(before, user, last, id);
                } else {
                    let bucket = after[user];
                    assert(bucket[bucket.len() - 1] == last);
                }
                lemma_fanout_reaches_every_other(after, user, exclude, id);
            }
        }
    }
    lemma_fanout_reaches_each_once(after, user, exclude);
}

/// Isolation: in a well-formed registry a fan-out for one user reaches no
/// connection of another user.
pub proof fn lemma_fanout_stays_with_user(
    buckets: Map<u128, Seq<WebSocketConnection>>,
    user: u128,
    exclude: Option<u128>,
    other: u128,
    id: u128,
)
    requires
        well_formed(buckets),
        other != user,
        holds(bucket_of(buckets, other), id),
    ensures
        !holds(targets(buckets, user, exclude), id),
{
    let bucket = bucket_of(buckets, user);
    let reach = targets(buckets, user, exclude);
    let w = position(buckets[other], id);
    if holds(reach, id) {
        let k = position(reach, id);
        match exclude {
            Some(x) => {
                bucket.lemma_filter_contains_rev(
                    |c: WebSocketConnection| c.connection_id != x,
                    reach[k],
                );
            },
            None => {},
        }
        assert(bucket.contains(reach[k]));
        let i = choose|i: int| 0 <= i < bucket.len() && bucket[i] == reach[k];
        assert(buckets[user][i].connection_id == buckets[other][w].connection_id);
    }
}

/// A fan-out for a user without connections reaches nothing.
pub proof fn lemma_fanout_without_connections(
    buckets: Map<u128, Seq<WebSocketConnection>>,
    user: u128,
    exclude: Option<u128>,
)
    requires
        !buckets.contains_key(user),
    ensures
        targets(buckets, user, exclude) == Seq::<WebSocketConnection>::empty(),
{
    match exclude {
        Some(x) => {
            lemma_without_absent(bucket_of(buckets, user), x);
        },
        None => {},
    }
}

/// Deregistering a connection right after registering it undoes the
/// registration: what remains is the registry from before, less any earlier
/// registration of the same identity.
pub proof fn lemma_register_then_deregister(
    buckets: Map<u128, Seq<WebSocketConnection>>,
    user: u128,
    connection: WebSocketConnection,
)
    ensures
        deregistered(registered(buckets, user, connection), user, connection.connection_id)
            == evicted(buckets, connection.connection_id),
{
    let id = connection.connection_id;
    let keep = |c: WebSocketConnection| c.connection_id != id;
    let rest = evicted(buckets, id);
    let before = bucket_of(rest, user);
    let during = registered(buckets, user, connection);
    if buckets.contains_key(user) {
        lemma_without_idempotent(buckets[user], id);
    }
    assert(!holds(before, id));
    lemma_without_absent(before, id);
    before.lemma_filter_push(connection, keep);
    assert(during[user] == before.push(connection));
    assert(without(during[user], id) == before);
    assert(deregistered(during, user, id) =~= rest);
}

/// Registration symmetry: where a user has no connection but, at most, an
/// earlier registration of this one, registering the connection and
/// deregistering it at once leaves the registry without a bucket for the
/// user.
pub proof fn lemma_register_then_deregister_leaves_no_bucket(
    buckets: Map<u128, Seq<WebSocketConnection>>,
    user: u128,
    connection: WebSocketConnection,
)
    requires
        forall|i: int|
            0 <= i < bucket_of(buckets, user).len() ==> (#[trigger] bucket_of(
                buckets,
                user,
            )[i]).connection_id == connection.connection_id,
    ensures
        !deregistered(
            registered(buckets, user, connection),
            user,
            connection.connection_id,
        ).contains_key(user),
{
    let id = connection.connection_id;
    let bucket = bucket_of(buckets, user);
    let rest = without(bucket, id);
    lemma_register_then_deregister(buckets, user, connection);
    if rest.len() > 0 {
        let keep = |c: WebSocketConnection| c.connection_id != id;
        bucket.lemma_filter_pred(keep, 0);
        assert(rest.contains(rest[0]));
        bucket.lemma_filter_contains_rev(keep, rest[0]);
        let i = choose|i: int| 0 <= i < bucket.len() && bucket[i] == rest[0];
        assert(bucket[i].connection_id == id);
    }
}

/// Where the identity of a connection is new to the registry, registering
/// the connection and deregistering it at once gives back the registry as it
/// was.
pub proof fn lemma_register_then_deregister_restores(
    buckets: Map<u128, Seq<WebSocketConnection>>,
    user: u128,
    connection: WebSocketConnection,
)
    requires
        well_formed(buckets),
        absent(buckets, connection.connection_id),
    ensures
        deregistered(registered(buckets, user, connection), user, connection.connection_id)
            == buckets,
{
    lemma_register_then_deregister(buckets, user, connection);
    assert forall|u: u128| buckets.contains_key(u) implies #[trigger] without(
        buckets[u],
        connection.connection_id,
    ) == buckets[u] by {
        lemma_without_absent(buckets[u], connection.connection_id);
    }
    assert(evicted(buckets, connection.connection_id) =~= buckets);
}

/// Deregistering twice is deregistering once.
pub proof fn lemma_deregister_idempotent(
    buckets: Map<u128, Seq<WebSocketConnection>>,
    user: u128,
    id: u128,
)
    ensures
        deregistered(deregistered(buckets, user, id), user, id) == deregistered(buckets, user, id),
{
    if buckets.contains_key(user) {
        lemma_without_idempotent(buckets[user], id);
        assert(deregistered(deregistered(buckets, user, id), user, id) =~= deregistered(
            buckets,
            user,
            id,
        ));
    }
}

/// Registering the same connection twice is registering it once.
pub proof fn lemma_register_idempotent(
    buckets: Map<u128, Seq<WebSocketConnection>>,
    user: u128,
    connection: WebSocketConnection,
)
    ensures
        registered(registered(buckets, user, connection), user, connection)
            == registered(buckets, user, connection),
{
    let id = connection.connection_id;
    let keep = |c: WebSocketConnection| c.connection_id != id;
    let rest = evicted(buckets, id);
    let before = bucket_of(rest, user);
    let once = registered(buckets, user, connection);
    assert forall|u: u128| rest.contains_key(u) implies #[trigger] without(rest[u], id)
        == rest[u] by {
        lemma_without_idempotent(buckets[u], id);
    }
    assert(!holds(before, id)) by {
        if buckets.contains_key(user) {
            lemma_without_idempotent(buckets[user], id);
        }
    }
    lemma_without_absent(before, id);
    before.lemma_filter_push(connection, keep);
    assert(without(once[user], id) == before);
    assert(evicted(once, id) =~= rest);
}

} // verus!
