use crate::message::MessageView;
use crate::response::Reply;
use crate::response::Payload;
use crate::service::{create_outcome, woop_outcome};
use crate::store::lists_exactly;
use vstd::prelude::*;

verus! {

/// The message that a reply hands out, where it hands out one.
pub open spec fn handed_out(r: Reply) -> MessageView {
    match r {
        Reply::Encode(Payload::One(m)) => m@,
        _ => arbitrary(),
    }
}

/// How many of the create requests in `bodies` had a body that decoded.
pub open spec fn successes(bodies: Seq<Option<(Seq<char>, Option<Seq<char>>)>>) -> nat
    decreases bodies.len(),
{
    if bodies.len() == 0 {
        0
    } else {
        successes(bodies.drop_last()) + if bodies.last() is Some {
            1nat
        } else {
            0nat
        }
    }
}

/// A run of create requests: `states[i]` is the store before the `i`-th,
/// `bodies[i]` its decoded body and `replies[i]` its answer.
pub open spec fn create_run(
    states: Seq<Map<u128, MessageView>>,
    bodies: Seq<Option<(Seq<char>, Option<Seq<char>>)>>,
    replies: Seq<Reply>,
) -> bool {
    &&& states.len() == bodies.len() + 1
    &&& replies.len() == bodies.len()
    &&& forall|i: int|
        0 <= i < bodies.len() ==> #[trigger] create_outcome(
            states[i],
            states[i + 1],
            bodies[i],
            replies[i],
        )
}

/// The messages created in a run have pairwise distinct identifiers.
pub open spec fn distinct_ids(
    bodies: Seq<Option<(Seq<char>, Option<Seq<char>>)>>,
    replies: Seq<Reply>,
) -> bool {
    forall|i: int, j: int|
        0 <= i < j < bodies.len() && bodies[i] is Some && bodies[j] is Some ==> handed_out(
            replies[i],
        ).id != handed_out(replies[j]).id
}

proof fn lemma_run_prefix(
    states: Seq<Map<u128, MessageView>>,
    bodies: Seq<Option<(Seq<char>, Option<Seq<char>>)>>,
    replies: Seq<Reply>,
    k: int,
)
    requires
        create_run(states, bodies, replies),
        distinct_ids(bodies, replies),
        states[0] == Map::<u128, MessageView>::empty(),
        0 <= k <= bodies.len(),
    ensures
        states[k].dom().finite(),
        states[k].len() == successes(bodies.subrange(0, k)),
        forall|j: int|
            k <= j < bodies.len() && bodies[j] is Some ==> !states[k].contains_key(
                #[trigger] handed_out(replies[j]).id,
            ),
    decreases k,
{
    if k == 0 {
        assert(bodies.subrange(0, 0).len() == 0);
    } else {
        lemma_run_prefix(states, bodies, replies, k - 1);
        let i = k - 1;
        assert(create_outcome(states[i], states[i + 1], bodies[i], replies[i]));
        assert(bodies.subrange(0, k).drop_last() =~= bodies.subrange(0, k - 1));
        if bodies[k - 1] is Some {
            assert(!states[k - 1].contains_key(handed_out(replies[k - 1]).id));
        }
    }
}

/// Creates followed by a listing: starting from an empty store, after a run
/// of create requests whose messages got distinct identifiers, a listing of
/// the store holds exactly one entry per create whose body decoded, and
/// every message that a create handed out is in it. A create whose body did
/// not decode adds nothing.
pub proof fn lemma_list_after_creates(
    states: Seq<Map<u128, MessageView>>,
    bodies: Seq<Option<(Seq<char>, Option<Seq<char>>)>>,
    replies: Seq<Reply>,
    listing: Seq<MessageView>,
)
    requires
        create_run(states, bodies, replies),
        distinct_ids(bodies, replies),
        states[0] == Map::<u128, MessageView>::empty(),
        lists_exactly(listing, states.last()),
    ensures
        listing.len() == successes(bodies),
        forall|j: int|
            0 <= j < bodies.len() && bodies[j] is Some ==> #[trigger] states.last().contains_key(
                handed_out(replies[j]).id,
            ),
{
    let n = bodies.len() as int;
    lemma_run_prefix(states, bodies, replies, n);
    assert(bodies.subrange(0, n) =~= bodies);
    assert forall|j: int| 0 <= j < n && bodies[j] is Some implies #[trigger] states.last().contains_key(
        handed_out(replies[j]).id,
    ) by {
        lemma_kept(states, bodies, replies, j, n);
    }
}

proof fn lemma_kept(
    states: Seq<Map<u128, MessageView>>,
    bodies: Seq<Option<(Seq<char>, Option<Seq<char>>)>>,
    replies: Seq<Reply>,
    j: int,
    k: int,
)
    requires
        create_run(states, bodies, replies),
        0 <= j < k <= bodies.len(),
        bodies[j] is Some,
    ensures
        states[k].contains_key(handed_out(replies[j]).id),
    decreases k,
{
    let i = k - 1;
    assert(create_outcome(states[i], states[i + 1], bodies[i], replies[i]));
    if k - 1 > j {
        lemma_kept(states, bodies, replies, j, k - 1);
    }
}

/// Repeated woops: where a message under `id` starts with no woops, after
/// `k` woops on `id` (no more than the counter holds) its count is `k`, and
/// the `i`-th woop hands it out with count `i + 1`.
pub proof fn lemma_repeated_woops(
    states: Seq<Map<u128, MessageView>>,
    replies: Seq<Reply>,
    id: u128,
)
    requires
        states.len() == replies.len() + 1,
        replies.len() <= u64::MAX,
        states[0].contains_key(id),
        states[0][id].woops == 0,
        forall|i: int|
            0 <= i < replies.len() ==> #[trigger] woop_outcome(
                states[i],
                states[i + 1],
                Some(id),
                replies[i],
            ),
    ensures
        forall|i: int|
            0 <= i < states.len() ==> #[trigger] states[i].contains_key(id) && states[i][id].woops
                == i,
        forall|i: int| 0 <= i < replies.len() ==> #[trigger] handed_out(replies[i]).woops == i + 1,
{
    assert forall|i: int| 0 <= i < states.len() implies #[trigger] states[i].contains_key(id)
        && states[i][id].woops == i by {
        lemma_woops_upto(states, replies, id, i);
    }
    assert forall|i: int| 0 <= i < replies.len() implies #[trigger] handed_out(replies[i]).woops
        == i + 1 by {
        lemma_woops_upto(states, replies, id, i + 1);
        assert(woop_outcome(states[i], states[i + 1], Some(id), replies[i]));
    }
}

proof fn lemma_woops_upto(
    states: Seq<Map<u128, MessageView>>,
    replies: Seq<Reply>,
    id: u128,
    k: int,
)
    requires
        states.len() == replies.len() + 1,
        replies.len() <= u64::MAX,
        states[0].contains_key(id),
        states[0][id].woops == 0,
        forall|i: int|
            0 <= i < replies.len() ==> #[trigger] woop_outcome(
                states[i],
                states[i + 1],
                Some(id),
                replies[i],
            ),
        0 <= k < states.len(),
    ensures
        states[k].contains_key(id),
        states[k][id].woops == k,
    decreases k,
{
    if k > 0 {
        lemma_woops_upto(states, replies, id, k - 1);
        assert(woop_outcome(states[k - 1], states[k], Some(id), replies[k - 1]));
    }
}

} // verus!
