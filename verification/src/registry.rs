//! The connection registry: which streaming connections each user has open,
//! and the fan-out of a change event to them.

use std::collections::HashMap;
use vstd::prelude::*;
use crate::channel::{try_send, DeliveryOutcome};
use crate::message::{EventType, WebSocketMessage};

pub mod laws;

verus! {

/// One live connection as the registry knows it: its identity and the
/// sending half of its outbound queue.
pub struct WebSocketConnection {
    pub tx: tokio::sync::mpsc::Sender<WebSocketMessage>,
    pub connection_id: u128,
}

/// `bucket` without the connections that go by `id`; the rest keep their order.
pub open spec fn without(bucket: Seq<WebSocketConnection>, id: u128) -> Seq<WebSocketConnection> {
    bucket.filter(|c: WebSocketConnection| c.connection_id != id)
}

/// Whether a connection that goes by `id` stands in `bucket`.
pub open spec fn holds(bucket: Seq<WebSocketConnection>, id: u128) -> bool {
    exists|i: int| 0 <= i < bucket.len() && (#[trigger] bucket[i]).connection_id == id
}

/// Whether no two connections of `bucket` go by the same identity.
pub open spec fn distinct(bucket: Seq<WebSocketConnection>) -> bool {
    forall|i: int, j: int|
        0 <= i < j < bucket.len() ==> (#[trigger] bucket[i]).connection_id != (
        #[trigger] bucket[j]).connection_id
}

/// A place at which a connection that goes by `id` stands in `bucket`, where
/// `bucket` holds one.
pub open spec fn position(bucket: Seq<WebSocketConnection>, id: u128) -> int {
    choose|i: int| 0 <= i < bucket.len() && (#[trigger] bucket[i]).connection_id == id
}

/// The connections of `user`, oldest registration first; empty where the user
/// has no bucket.
pub open spec fn bucket_of(
    buckets: Map<u128, Seq<WebSocketConnection>>,
    user: u128,
) -> Seq<WebSocketConnection> {
    if buckets.contains_key(user) {
        buckets[user]
    } else {
        Seq::empty()
    }
}

/// Whether no user of the registry holds a connection that goes by `id`.
pub open spec fn absent(buckets: Map<u128, Seq<WebSocketConnection>>, id: u128) -> bool {
    forall|u: u128| buckets.contains_key(u) ==> !holds(#[trigger] buckets[u], id)
}

/// The identities of the connections of `bucket`, in its order.
pub open spec fn ids_of(bucket: Seq<WebSocketConnection>) -> Seq<u128> {
    bucket.map_values(|c: WebSocketConnection| c.connection_id)
}

/// The invariant of the registry: no bucket is empty, and no identity stands
/// twice in it, neither within one bucket nor in the buckets of two users.
pub open spec fn well_formed(buckets: Map<u128, Seq<WebSocketConnection>>) -> bool {
    &&& forall|u: u128| buckets.contains_key(u) ==> (#[trigger] buckets[u]).len() > 0
    &&& forall|u1: u128, i: int, u2: u128, j: int|
        buckets.contains_key(u1) && 0 <= i < buckets[u1].len() && buckets.contains_key(u2) && 0
            <= j < buckets[u2].len() && (#[trigger] buckets[u1][i]).connection_id == (
        #[trigger] buckets[u2][j]).connection_id ==> u1 == u2 && i == j
}

/// The registry with every connection that goes by `id` taken out, whichever
/// user it stood under; a bucket that this empties goes with it.
pub open spec fn evicted(
    buckets: Map<u128, Seq<WebSocketConnection>>,
    id: u128,
) -> Map<u128, Seq<WebSocketConnection>> {
    Map::new(
        |u: u128| buckets.contains_key(u) && without(buckets[u], id).len() > 0,
        |u: u128| without(buckets[u], id),
    )
}

/// The registry after `connection` is registered under `user`: an earlier
/// registration of the same identity gives way, and the connection becomes
/// the newest of the user's bucket.
pub open spec fn registered(
    buckets: Map<u128, Seq<WebSocketConnection>>,
    user: u128,
    connection: WebSocketConnection,
) -> Map<u128, Seq<WebSocketConnection>> {
    let rest = evicted(buckets, connection.connection_id);
    rest.insert(user, bucket_of(rest, user).push(connection))
}

/// The registry after the connection `id` of `user` is deregistered: the
/// bucket loses it, and leaves the registry when nothing remains in it.
pub open spec fn deregistered(
    buckets: Map<u128, Seq<WebSocketConnection>>,
    user: u128,
    id: u128,
) -> Map<u128, Seq<WebSocketConnection>> {
    if !buckets.contains_key(user) {
        buckets
    } else if without(buckets[user], id).len() == 0 {
        buckets.remove(user)
    } else {
        buckets.insert(user, without(buckets[user], id))
    }
}

/// The connections of `bucket` that a fan-out reaches: all of them, but for
/// the one that goes by the excluded identity.
pub open spec fn reached(bucket: Seq<WebSocketConnection>, exclude: Option<u128>) -> Seq<
    WebSocketConnection,
> {
    match exclude {
        Some(id) => without(bucket, id),
        None => bucket,
    }
}

/// The connections that a fan-out for `user` reaches: all of the user's, but
/// for the one that goes by the excluded identity.
pub open spec fn targets(
    buckets: Map<u128, Seq<WebSocketConnection>>,
    user: u128,
    exclude: Option<u128>,
) -> Seq<WebSocketConnection> {
    reached(bucket_of(buckets, user), exclude)
}

/// One step of a fan-out before it is taken: a copy of `message` is to be
/// offered to the queue `tx` of the connection `connection_id`.
pub struct Offer<'a> {
    pub connection_id: u128,
    pub tx: &'a tokio::sync::mpsc::Sender<WebSocketMessage>,
    pub message: &'a WebSocketMessage,
}

/// One step of a fan-out after it was taken: what became of the offer to the
/// connection `connection_id`.
#[derive(Clone, Copy, Debug, PartialEq, Eq, Structural)]
pub struct Delivery {
    pub connection_id: u128,
    pub outcome: DeliveryOutcome,
}

/// Whether `offers` hold one offer of `message` for each connection of
/// `reached`, in the same order, each to that connection's own queue.
pub open spec fn offers_to(
    offers: Seq<Offer>,
    reached: Seq<WebSocketConnection>,
    message: WebSocketMessage,
) -> bool {
    &&& offers.len() == reached.len()
    &&& forall|i: int|
        0 <= i < offers.len() ==> {
            &&& (#[trigger] offers[i]).connection_id == reached[i].connection_id
            &&& *offers[i].tx == reached[i].tx
            &&& *offers[i].message == message
        }
}

/// Whether `report` holds one delivery for each connection of `reached`, in
/// the same order.
pub open spec fn reports_on(report: Seq<Delivery>, reached: Seq<WebSocketConnection>) -> bool {
    &&& report.len() == reached.len()
    &&& forall|i: int|
        0 <= i < report.len() ==> (#[trigger] report[i]).connection_id == reached[i].connection_id
}

/// How many deliveries of `report` put the event into a queue.
pub open spec fn delivered(report: Seq<Delivery>) -> nat {
    report.filter(|d: Delivery| d.outcome == DeliveryOutcome::Delivered).len()
}

/// A bucket in which nothing goes by `id` loses nothing.
pub proof fn lemma_without_absent(bucket: Seq<WebSocketConnection>, id: u128)
    requires
        !holds(bucket, id),
    ensures
        without(bucket, id) == bucket,
    decreases bucket.len(),
{
    let keep = |c: WebSocketConnection| c.connection_id != id;
    if bucket.len() == 0 {
        reveal(Seq::filter);
        assert(bucket.filter(keep) =~= bucket);
    } else {
        let front = bucket.drop_last();
        assert forall|i: int| 0 <= i < front.len() implies (#[trigger] front[i]).connection_id
            != id by {
            assert(front[i] == bucket[i]);
        }
        lemma_without_absent(front, id);
        assert(bucket.last() == bucket[bucket.len() - 1]);
        front.lemma_filter_push(bucket.last(), keep);
        assert(front.push(bucket.last()) =~= bucket);
    }
}

/// A bucket in which only position `k` goes by `id` loses exactly that
/// position.
pub proof fn lemma_without_at(bucket: Seq<WebSocketConnection>, id: u128, k: int)
    requires
        0 <= k < bucket.len(),
        bucket[k].connection_id == id,
        forall|i: int|
            0 <= i < bucket.len() && i != k ==> (#[trigger] bucket[i]).connection_id != id,
    ensures
        without(bucket, id) == bucket.remove(k),
{
    let keep = |c: WebSocketConnection| c.connection_id != id;
    let front = bucket.take(k);
    let back = bucket.skip(k + 1);
    assert(bucket =~= front.push(bucket[k]) + back);
    assert(!holds(front, id));
    assert(!holds(back, id)) by {
        if holds(back, id) {
            let i = position(back, id);
            assert(back[i] == bucket[i + k + 1]);
        }
    }
    lemma_without_absent(front, id);
    lemma_without_absent(back, id);
    front.lemma_filter_push(bucket[k], keep);
    Seq::filter_distributes_over_add(front.push(bucket[k]), back, keep);
    assert(bucket.remove(k) =~= front + back);
}

/// What is left of a bucket when `id` is taken out holds nothing that goes by
/// `id`, so taking `id` out once more changes nothing.
pub proof fn lemma_without_idempotent(bucket: Seq<WebSocketConnection>, id: u128)
    ensures
        !holds(without(bucket, id), id),
        without(without(bucket, id), id) == without(bucket, id),
{
    let keep = |c: WebSocketConnection| c.connection_id != id;
    let rest = without(bucket, id);
    assert forall|i: int| 0 <= i < rest.len() implies (#[trigger] rest[i]).connection_id != id by {
        bucket.lemma_filter_pred(keep, i);
    }
    lemma_without_absent(rest, id);
}

/// Whether the index names `user` for the identity `id`.
spec fn owned_by(owners: Map<u128, u128>, id: u128, user: u128) -> bool {
    owners.contains_key(id) && owners[id] == user
}

/// The index that the registry keeps beside its buckets: for each registered
/// identity, the user whose bucket holds it.
spec fn indexed(buckets: Map<u128, Seq<WebSocketConnection>>, owners: Map<u128, u128>) -> bool {
    &&& forall|u: u128, i: int|
        buckets.contains_key(u) && 0 <= i < buckets[u].len() ==> owned_by(
            owners,
            (#[trigger] buckets[u][i]).connection_id,
            u,
        )
    &&& forall|c: u128| #[trigger]
        owners.contains_key(c) ==> buckets.contains_key(owners[c]) && holds(buckets[owners[c]], c)
}

/// The index after the connection `id` of `user` is deregistered.
spec fn owners_without(owners: Map<u128, u128>, user: u128, id: u128) -> Map<u128, u128> {
    if owners.contains_key(id) && owners[id] == user {
        owners.remove(id)
    } else {
        owners
    }
}

/// Where position `k` of a bucket of a well-formed registry goes by `id`, no
/// other position of that bucket does.
proof fn lemma_single_position(
    buckets: Map<u128, Seq<WebSocketConnection>>,
    user: u128,
    id: u128,
    k: int,
)
    requires
        well_formed(buckets),
        buckets.contains_key(user),
        0 <= k < buckets[user].len(),
        buckets[user][k].connection_id == id,
    ensures
        without(buckets[user], id) == buckets[user].remove(k),
{
    let bucket = buckets[user];
    assert forall|i: int| 0 <= i < bucket.len() && i != k implies (
    #[trigger] bucket[i]).connection_id != id by {
        assert(buckets[user][i] == bucket[i] && buckets[user][k] == bucket[k]);
    }
    lemma_without_at(bucket, id, k);
}

/// Deregistering keeps the registry well formed and its index right.
proof fn lemma_deregistered_consistent(
    buckets: Map<u128, Seq<WebSocketConnection>>,
    owners: Map<u128, u128>,
    user: u128,
    id: u128,
)
    requires
        well_formed(buckets),
        indexed(buckets, owners),
    ensures
        well_formed(deregistered(buckets, user, id)),
        indexed(deregistered(buckets, user, id), owners_without(owners, user, id)),
{
    let after = deregistered(buckets, user, id);
    let index = owners_without(owners, user, id);
    if !buckets.contains_key(user) {
        if owners.contains_key(id) && owners[id] == user {
            assert(buckets.contains_key(owners[id]));
        }
    } else if !holds(buckets[user], id) {
        lemma_without_absent(buckets[user], id);
        assert(after =~= buckets);
        if owners.contains_key(id) && owners[id] == user {
            assert(holds(buckets[owners[id]], id));
        }
    } else {
        let bucket = buckets[user];
        let k = position(bucket, id);
        lemma_single_position(buckets, user, id, k);
        let rest = bucket.remove(k);
        assert(forall|i: int|
            0 <= i < rest.len() ==> #[trigger] rest[i] == bucket[if i < k {
                i
            } else {
                i + 1
            }]);
        assert(owners.contains_key(bucket[k].connection_id) && owners[id] == user);
        assert forall|u1: u128, i: int, u2: u128, j: int|
            after.contains_key(u1) && 0 <= i < after[u1].len() && after.contains_key(u2) && 0 <= j
                < after[u2].len() && (#[trigger] after[u1][i]).connection_id == (
            #[trigger] after[u2][j]).connection_id implies u1 == u2 && i == j by {
            let i0 = if u1 == user && i >= k { i + 1 } else { i };
            let j0 = if u2 == user && j >= k { j + 1 } else { j };
            assert(after[u1][i] == buckets[u1][i0]);
            assert(after[u2][j] == buckets[u2][j0]);
        }
        assert forall|u: u128, i: int| after.contains_key(u) && 0 <= i < after[u].len() implies
            owned_by(index, (#[trigger] after[u][i]).connection_id, u) by {
            let i0 = if u == user && i >= k { i + 1 } else { i };
            assert(after[u][i] == buckets[u][i0]);
            assert(buckets[u][i0].connection_id != id) by {
                assert(buckets[user][k].connection_id == id);
            }
        }
        assert forall|c: u128| #[trigger] index.contains_key(c) implies after.contains_key(index[c])
            && holds(after[index[c]], c) by {
            let u = owners[c];
            assert(holds(buckets[u], c));
            let w = position(buckets[u], c);
            if u == user {
                let w1 = if w < k { w } else { w - 1 };
                assert(rest[w1] == bucket[w]);
                assert(after[u][w1].connection_id == c);
            } else {
                assert(after[u][w].connection_id == c);
            }
        }
    }
}

/// Taking an identity out of the whole registry is deregistering it from the
/// one user that the index names for it.
proof fn lemma_evicted_by_owner(
    buckets: Map<u128, Seq<WebSocketConnection>>,
    owners: Map<u128, u128>,
    id: u128,
)
    requires
        well_formed(buckets),
        indexed(buckets, owners),
    ensures
        evicted(buckets, id) == if owners.contains_key(id) {
            deregistered(buckets, owners[id], id)
        } else {
            buckets
        },
{
    let after = if owners.contains_key(id) {
        deregistered(buckets, owners[id], id)
    } else {
        buckets
    };
    assert forall|u: u128| buckets.contains_key(u) && !(owners.contains_key(id) && owners[id] == u)
        implies #[trigger] without(buckets[u], id) == buckets[u] by {
        if holds(buckets[u], id) {
            let w = position(buckets[u], id);
            assert(owners[buckets[u][w].connection_id] == u);
        }
        lemma_without_absent(buckets[u], id);
    }
    if owners.contains_key(id) {
        assert(buckets.contains_key(owners[id]));
    }
    assert(evicted(buckets, id) =~= after);
}

/// Registering an identity that the registry does not hold keeps it well
/// formed and its index right.
proof fn lemma_attached_consistent(
    buckets: Map<u128, Seq<WebSocketConnection>>,
    owners: Map<u128, u128>,
    user: u128,
    connection: WebSocketConnection,
)
    requires
        well_formed(buckets),
        indexed(buckets, owners),
        !owners.contains_key(connection.connection_id),
    ensures
        well_formed(buckets.insert(user, bucket_of(buckets, user).push(connection))),
        indexed(
            buckets.insert(user, bucket_of(buckets, user).push(connection)),
            owners.insert(connection.connection_id, user),
        ),
{
    let id = connection.connection_id;
    let before = bucket_of(buckets, user);
    let after = buckets.insert(user, before.push(connection));
    let index = owners.insert(id, user);
    assert forall|u: u128, i: int| buckets.contains_key(u) && 0 <= i < buckets[u].len() implies (
    #[trigger] buckets[u][i]).connection_id != id by {
        assert(owners.contains_key(buckets[u][i].connection_id));
    }
    assert forall|u1: u128, i: int, u2: u128, j: int|
        after.contains_key(u1) && 0 <= i < after[u1].len() && after.contains_key(u2) && 0 <= j
            < after[u2].len() && (#[trigger] after[u1][i]).connection_id == (
        #[trigger] after[u2][j]).connection_id implies u1 == u2 && i == j by {
        if u1 == user && i == before.len() {
            if !(u2 == user && j == before.len()) {
                assert(after[u2][j] == buckets[u2][j]);
            }
        } else {
            assert(after[u1][i] == buckets[u1][i]);
            if !(u2 == user && j == before.len()) {
                assert(after[u2][j] == buckets[u2][j]);
            }
        }
    }
    assert forall|u: u128, i: int| after.contains_key(u) && 0 <= i < after[u].len() implies
        owned_by(index, (#[trigger] after[u][i]).connection_id, u) by {
        if !(u == user && i == before.len()) {
            assert(after[u][i] == buckets[u][i]);
        }
    }
    assert forall|c: u128| #[trigger] index.contains_key(c) implies after.contains_key(index[c])
        && holds(after[index[c]], c) by {
        if c == id {
            assert(after[user][before.len() as int].connection_id == id);
        } else {
            let u = owners[c];
            assert(holds(buckets[u], c));
            let w = position(buckets[u], c);
            assert(after[u][w] == buckets[u][w]);
        }
    }
}

/// The buckets that a map of connection lists stands for.
spec fn buckets_of(connections: Map<u128, Vec<WebSocketConnection>>) -> Map<
    u128,
    Seq<WebSocketConnection>,
> {
    Map::new(|u: u128| connections.contains_key(u), |u: u128| connections[u]@)
}

/// Takes the connections that go by `id` out of `bucket`.
fn remove_by_id(bucket: &mut Vec<WebSocketConnection>, id: u128)
    ensures
        final(bucket)@ == without(old(bucket)@, id),
{
    let ghost keep = |c: WebSocketConnection| c.connection_id != id;
    let ghost removed: int = 0;
    let mut i: usize = 0;
    proof {
        reveal(Seq::filter);
        assert(old(bucket)@.take(0).filter(keep) =~= bucket@.take(0));
        assert(bucket@.skip(0) =~= old(bucket)@.skip(0));
    }
    while i < bucket.len()
        invariant
            0 <= removed,
            i <= bucket.len(),
            i + removed + (bucket.len() - i) == old(bucket).len(),
            keep == |c: WebSocketConnection| c.connection_id != id,
            bucket@.take(i as int) == old(bucket)@.take(i + removed).filter(keep),
            bucket@.skip(i as int) == old(bucket)@.skip(i + removed),
        decreases bucket.len() - i,
    {
        let ghost before = bucket@;
        let ghost seen = old(bucket)@.take(i + removed);
        let ghost next = old(bucket)@[i + removed];
        proof {
            assert(before.skip(i as int)[0] == old(bucket)@.skip(i + removed)[0]);
            assert(before[i as int] == next);
            seen.lemma_filter_push(next, keep);
            assert(old(bucket)@.take(i + removed + 1) =~= seen.push(next));
        }
        if bucket[i].connection_id == id {
            bucket.remove(i);
            proof {
                assert(bucket@.take(i as int) =~= before.take(i as int));
                assert(bucket@.skip(i as int) =~= before.skip(i as int).skip(1));
                assert(old(bucket)@.skip(i + removed).skip(1) =~= old(bucket)@.skip(
                    i + removed + 1,
                ));
                removed = removed + 1;
            }
        } else {
            proof {
                assert(bucket@.take(i as int + 1) =~= before.take(i as int).push(next));
                assert(bucket@.skip(i as int + 1) =~= before.skip(i as int).skip(1));
                assert(old(bucket)@.skip(i + removed).skip(1) =~= old(bucket)@.skip(
                    i + removed + 1,
                ));
            }
            i = i + 1;
        }
    }
    proof {
        assert(bucket@.take(i as int) =~= bucket@);
        assert(old(bucket)@.take(i + removed) =~= old(bucket)@);
    }
}

/// Takes the connection `id` of `user` out of the two maps of a registry.
fn detach(
    connections: &mut HashMap<u128, Vec<WebSocketConnection>>,
    owners: &mut HashMap<u128, u128>,
    user: u128,
    id: u128,
)
    requires
        well_formed(buckets_of(old(connections)@)),
        indexed(buckets_of(old(connections)@), old(owners)@),
    ensures
        well_formed(buckets_of(final(connections)@)),
        indexed(buckets_of(final(connections)@), final(owners)@),
        buckets_of(final(connections)@) == deregistered(buckets_of(old(connections)@), user, id),
        final(owners)@ == owners_without(old(owners)@, user, id),
{
    broadcast use vstd::std_specs::hash::group_hash_axioms;

    let ghost before = buckets_of(connections@);
    proof {
        lemma_deregistered_consistent(before, owners@, user, id);
    }
    match connections.remove(&user) {
        None => {
            proof {
                assert(buckets_of(connections@) =~= before);
                if owners@.contains_key(id) && owners@[id] == user {
                    assert(before.contains_key(owners@[id]));
                }
            }
        },
        Some(bucket) => {
            let mut bucket = bucket;
            assert(bucket@ == before[user]);
            remove_by_id(&mut bucket, id);
            if bucket.len() > 0 {
                connections.insert(user, bucket);
            }
            assert(buckets_of(connections@) =~= deregistered(before, user, id));
            let mine = match owners.get(&id) {
                Some(owner) => *owner == user,
                None => false,
            };
            if mine {
                owners.remove(&id);
            }
        },
    }
}

/// The registry of live connections: for each user with at least one open
/// connection, the user's connections in the order in which they registered.
pub struct WebSocketState {
    connections: HashMap<u128, Vec<WebSocketConnection>>,
    owners: HashMap<u128, u128>,
}

impl View for WebSocketState {
    type V = Map<u128, Seq<WebSocketConnection>>;

    closed spec fn view(&self) -> Map<u128, Seq<WebSocketConnection>> {
        buckets_of(self.connections@)
    }
}

impl<'a> Offer<'a> {
    /// Takes the step: offers a copy of the message to the connection's
    /// queue, without waiting, and reports what became of it.
    pub fn send(&self) -> (delivery: Delivery)
        ensures
            delivery.connection_id == self.connection_id,
    {
        let outcome = try_send(self.tx, self.message.clone());
        Delivery { connection_id: self.connection_id, outcome }
    }
}

/// Counts the deliveries of `report` that put the event into a queue.
pub fn delivered_count(report: &Vec<Delivery>) -> (count: usize)
    ensures
        count == delivered(report@),
{
    let ghost queued = |d: Delivery| d.outcome == DeliveryOutcome::Delivered;
    let mut count: usize = 0;
    let mut i: usize = 0;
    proof {
        reveal(Seq::filter);
        assert(report@.take(0).filter(queued).len() == 0);
    }
    while i < report.len()
        invariant
            i <= report.len(),
            count <= i,
            queued == |d: Delivery| d.outcome == DeliveryOutcome::Delivered,
            count == report@.take(i as int).filter(queued).len(),
        decreases report.len() - i,
    {
        proof {
            report@.take(i as int).lemma_filter_push(report@[i as int], queued);
            assert(report@.take(i + 1) =~= report@.take(i as int).push(report@[i as int]));
        }
        if report[i].outcome == DeliveryOutcome::Delivered {
            count = count + 1;
        }
        i = i + 1;
    }
    assert(report@.take(i as int) =~= report@);
    count
}

impl WebSocketState {
    #[verifier::type_invariant]
    spec fn consistent(self) -> bool {
        &&& well_formed(buckets_of(self.connections@))
        &&& indexed(buckets_of(self.connections@), self.owners@)
    }

    /// The registry with no connection in it.
    pub fn new() -> (state: Self)
        ensures
            state@ == Map::<u128, Seq<WebSocketConnection>>::empty(),
            well_formed(state@),
    {
        let state = WebSocketState { connections: HashMap::new(), owners: HashMap::new() };
        assert(state@ =~= Map::<u128, Seq<WebSocketConnection>>::empty());
        state
    }

    /// Registers a connection under `user_id`, making the user's bucket if
    /// there is none. Always succeeds: where `connection_id` is registered
    /// already, the earlier registration gives way to this one.
    pub fn add_connection(
        &mut self,
        user_id: u128,
        connection_id: u128,
        tx: tokio::sync::mpsc::Sender<WebSocketMessage>,
    )
        ensures
            final(self)@ == registered(
                old(self)@,
                user_id,
                WebSocketConnection { tx, connection_id },
            ),
            well_formed(final(self)@),
    {
        broadcast use vstd::std_specs::hash::group_hash_axioms;

        proof {
            use_type_invariant(&*self);
        }
        let mut taken = WebSocketState { connections: HashMap::new(), owners: HashMap::new() };
        std::mem::swap(self, &mut taken);
        let WebSocketState { connections, owners } = taken;
        let mut connections = connections;
        let mut owners = owners;
        let ghost before = buckets_of(connections@);
        let ghost connection = WebSocketConnection { tx, connection_id };
        proof {
            lemma_evicted_by_owner(before, owners@, connection_id);
        }
        let earlier = match owners.get(&connection_id) {
            Some(owner) => Some(*owner),
            None => None,
        };
        match earlier {
            Some(owner) => {
                detach(&mut connections, &mut owners, owner, connection_id);
            },
            None => {},
        }
        let ghost rest = buckets_of(connections@);
        assert(rest == evicted(before, connection_id));
        assert(!owners@.contains_key(connection_id));
        proof {
            lemma_attached_consistent(rest, owners@, user_id, connection);
        }
        let mut bucket = match connections.remove(&user_id) {
            Some(bucket) => bucket,
            None => Vec::new(),
        };
        assert(bucket@ =~= bucket_of(rest, user_id));
        bucket.push(WebSocketConnection { tx, connection_id });
        connections.insert(user_id, bucket);
        owners.insert(connection_id, user_id);
        assert(buckets_of(connections@) =~= rest.insert(
            user_id,
            bucket_of(rest, user_id).push(connection),
        ));
        *self = WebSocketState { connections, owners };
    }

    /// Deregisters the connection `connection_id` of `user_id`. The bucket
    /// leaves the registry with its last connection. Where the user has no
    /// such connection, nothing changes.
    pub fn remove_connection(&mut self, user_id: u128, connection_id: u128)
        ensures
            final(self)@ == deregistered(old(self)@, user_id, connection_id),
            well_formed(final(self)@),
    {
        proof {
            use_type_invariant(&*self);
        }
        let mut taken = WebSocketState { connections: HashMap::new(), owners: HashMap::new() };
        std::mem::swap(self, &mut taken);
        let WebSocketState { connections, owners } = taken;
        let mut connections = connections;
        let mut owners = owners;
        detach(&mut connections, &mut owners, user_id, connection_id);
        *self = WebSocketState { connections, owners };
    }

    /// Whether `user_id` has a bucket, that is, at least one live connection.
    pub fn has_user(&self, user_id: u128) -> (present: bool)
        ensures
            present == self@.contains_key(user_id),
    {
        broadcast use vstd::std_specs::hash::group_hash_axioms;

        self.connections.contains_key(&user_id)
    }

    /// How many users have a live connection.
    pub fn user_count(&self) -> (count: usize)
        ensures
            count == self@.len(),
    {
        broadcast use vstd::std_specs::hash::group_hash_axioms;

        assert(self@.dom() =~= self.connections@.dom());
        self.connections.len()
    }

    /// The identities of the connections of `user_id`, oldest registration
    /// first.
    pub fn connection_ids(&self, user_id: u128) -> (ids: Vec<u128>)
        ensures
            ids@ == ids_of(bucket_of(self@, user_id)),
    {
        broadcast use vstd::std_specs::hash::group_hash_axioms;

        let mut ids: Vec<u128> = Vec::new();
        match self.connections.get(&user_id) {
            None => {},
            Some(bucket) => {
                let mut i: usize = 0;
                while i < bucket.len()
                    invariant
                        i <= bucket.len(),
                        ids@ == ids_of(bucket@.take(i as int)),
                    decreases bucket.len() - i,
                {
                    ids.push(bucket[i].connection_id);
                    i = i + 1;
                    assert(ids@ =~= ids_of(bucket@.take(i as int)));
                }
                assert(bucket@.take(i as int) =~= bucket@);
            },
        }
        assert(ids@ =~= ids_of(bucket_of(self@, user_id)));
        ids
    }

    /// The user under whom the connection `connection_id` is registered;
    /// `None` where it is registered under nobody.
    pub fn user_of(&self, connection_id: u128) -> (user: Option<u128>)
        ensures
            match user {
                Some(user_id) => holds(bucket_of(self@, user_id), connection_id),
                None => absent(self@, connection_id),
            },
    {
        broadcast use vstd::std_specs::hash::group_hash_axioms;

        proof {
            use_type_invariant(self);
        }
        match self.owners.get(&connection_id) {
            Some(owner) => Some(*owner),
            None => {
                assert forall|u: u128| self@.contains_key(u) implies !holds(
                    #[trigger] self@[u],
                    connection_id,
                ) by {
                    if holds(self@[u], connection_id) {
                        let w = position(self@[u], connection_id);
                        assert(self.owners@.contains_key(self@[u][w].connection_id));
                    }
                }
                None
            },
        }
    }

    /// Lays out a fan-out of `message` to the connections of `user_id`: one
    /// offer for each of them, oldest registration first, but none for the
    /// connection `exclude`. No offer goes to a connection of another user,
    /// and there is none at all where the user has no connection.
    pub fn plan_fanout<'a>(
        &'a self,
        user_id: u128,
        message: &'a WebSocketMessage,
        exclude: Option<u128>,
    ) -> (offers: Vec<Offer<'a>>)
        ensures
            offers_to(offers@, targets(self@, user_id, exclude), *message),
    {
        broadcast use vstd::std_specs::hash::group_hash_axioms;

        let mut offers: Vec<Offer<'a>> = Vec::new();
        match self.connections.get(&user_id) {
            None => {},
            Some(bucket) => {
                let mut i: usize = 0;
                proof {
                    reveal(Seq::filter);
                    assert(reached(bucket@.take(0), exclude) =~= Seq::empty());
                }
                while i < bucket.len()
                    invariant
                        i <= bucket.len(),
                        offers_to(offers@, reached(bucket@.take(i as int), exclude), *message),
                    decreases bucket.len() - i,
                {
                    let ghost seen = bucket@.take(i as int);
                    proof {
                        assert(bucket@.take(i + 1) =~= seen.push(bucket@[i as int]));
                        if exclude is Some {
                            seen.lemma_filter_push(
                                bucket@[i as int],
                                |c: WebSocketConnection| c.connection_id != exclude->0,
                            );
                        }
                    }
                    let connection = &bucket[i];
                    let skip = match exclude {
                        Some(id) => connection.connection_id == id,
                        None => false,
                    };
                    if !skip {
                        offers.push(
                            Offer {
                                connection_id: connection.connection_id,
                                tx: &connection.tx,
                                message,
                            },
                        );
                    }
                    i = i + 1;
                }
                assert(bucket@.take(i as int) =~= bucket@);
            },
        }
        offers
    }

    /// Fans `message` out to the connections of `user_id`, but for the
    /// connection `exclude_connection_id`: each of them is offered one copy,
    /// oldest registration first, and the report says for each what became of
    /// the offer. An offer that a queue does not take is dropped for that
    /// connection alone; the others are offered all the same, and the caller
    /// gets no error.
    pub fn broadcast_to_user(
        &self,
        user_id: u128,
        message: WebSocketMessage,
        exclude_connection_id: Option<u128>,
    ) -> (report: Vec<Delivery>)
        ensures
            reports_on(report@, targets(self@, user_id, exclude_connection_id)),
    {
        let offers = self.plan_fanout(user_id, &message, exclude_connection_id);
        let mut report: Vec<Delivery> = Vec::new();
        let mut i: usize = 0;
        while i < offers.len()
            invariant
                i <= offers.len(),
                report.len() == i,
                forall|j: int|
                    0 <= j < i ==> (#[trigger] report[j]).connection_id == offers[j].connection_id,
            decreases offers.len() - i,
        {
            let delivery = offers[i].send();
            report.push(delivery);
            i = i + 1;
        }
        report
    }

    /// Announces a committed mutation: builds the change event and fans it
    /// out to the connections of `user_id`, but for the connection `origin`
    /// from which the mutation came.
    pub fn broadcast_change(
        &self,
        table: &str,
        user_id: u128,
        event_type: EventType,
        record_id: Option<u128>,
        data: Option<String>,
        origin: Option<u128>,
    ) -> (report: Vec<Delivery>)
        ensures
            reports_on(report@, targets(self@, user_id, origin)),
    {
        let message = WebSocketMessage::new(event_type, table, user_id, record_id, data);
        self.broadcast_to_user(user_id, message, origin)
    }
}

} // verus!
