use crate::node::{bump, cur_msg_id, spec_reply, spec_step_state, NodeView};
use crate::protocol::{body_in_reply_to, body_msg_id, is_reply, is_request, topo_lookup, BodyView};
use vstd::prelude::*;

verus! {

/// The state a node is left in after handling a whole run of inbound
/// bodies, one after the other.
pub open spec fn run_state(s: NodeView, bs: Seq<BodyView>) -> NodeView
    decreases bs.len(),
{
    if bs.len() == 0 {
        s
    } else {
        run_state(spec_step_state(s, bs[0]), bs.drop_first())
    }
}

/// Every reply except Init's draws its own id from the counter as it
/// stands when the request arrives.
pub proof fn lemma_reply_draws_counter(s: NodeView, b: BodyView, g: Seq<char>)
    requires
        is_request(b),
        !(b is Init),
    ensures
        (match spec_reply(s, b, g) {
            Some(r) => body_msg_id(r) == cur_msg_id(s.next_msg_id),
            None => false,
        }),
{
}

/// Correlation: every reply echoes the request's own id in `in_reply_to`,
/// and a reply is itself a reply-tagged body.
pub proof fn lemma_reply_correlates(s: NodeView, b: BodyView, g: Seq<char>)
    requires
        is_request(b),
    ensures
        (match spec_reply(s, b, g) {
            Some(r) => is_reply(r) && body_in_reply_to(r) == Some(body_msg_id(b)),
            None => false,
        }),
{
}

/// The counter never moves backwards: any body but Init leaves it where
/// it stood or one further on.
pub proof fn lemma_counter_monotonic(s: NodeView, b: BodyView)
    requires
        !(b is Init),
        cur_msg_id(s.next_msg_id) < u32::MAX,
    ensures
        cur_msg_id(spec_step_state(s, b).next_msg_id) >= cur_msg_id(s.next_msg_id),
{
}

/// Handling one non-Init request advances the counter by exactly one.
pub proof fn lemma_request_bumps_counter(s: NodeView, b: BodyView)
    requires
        is_request(b),
        !(b is Init),
    ensures
        spec_step_state(s, b).next_msg_id == bump(s.next_msg_id),
{
}

/// Over a run of non-Init requests starting with the counter at `c0`, the
/// counter as each request arrives is `c0`, `c0 + 1`, ... in order.
pub proof fn lemma_counter_advances(s: NodeView, bs: Seq<BodyView>, c0: u32)
    requires
        s.next_msg_id == Some(c0),
        forall|i: int| 0 <= i < bs.len() ==> is_request(#[trigger] bs[i]) && !(bs[i] is Init),
        c0 + bs.len() <= u32::MAX,
    ensures
        run_state(s, bs).next_msg_id == Some((c0 + bs.len()) as u32),
        forall|i: int|
            0 <= i < bs.len() ==> run_state(s, #[trigger] bs.take(i)).next_msg_id == Some(
                (c0 + i) as u32,
            ),
    decreases bs.len(),
{
    if bs.len() == 0 {
        assert(run_state(s, bs) == s);
    } else {
        let s1 = spec_step_state(s, bs[0]);
        assert(is_request(bs[0]) && !(bs[0] is Init));
        lemma_request_bumps_counter(s, bs[0]);
        assert(s1.next_msg_id == Some((c0 + 1) as u32));
        let rest = bs.drop_first();
        assert forall|i: int| 0 <= i < rest.len() implies is_request(#[trigger] rest[i]) && !(
        rest[i] is Init) by {
            assert(rest[i] == bs[i + 1]);
        }
        lemma_counter_advances(s1, rest, (c0 + 1) as u32);
        assert(run_state(s, bs) == run_state(s1, rest));
        assert forall|i: int|
            0 <= i < bs.len() implies run_state(s, #[trigger] bs.take(i)).next_msg_id == Some(
            (c0 + i) as u32,
        ) by {
            if i == 0 {
                assert(bs.take(0) =~= Seq::<BodyView>::empty());
                assert(run_state(s, bs.take(0)) == s);
            } else {
                assert(bs.take(i)[0] == bs[0]);
                assert(bs.take(i).drop_first() =~= rest.take(i - 1));
                assert(run_state(s, bs.take(i)) == run_state(s1, rest.take(i - 1)));
                assert(run_state(s1, rest.take(i - 1)).next_msg_id == Some(
                    ((c0 + 1) + (i - 1)) as u32,
                ));
            }
        }
    }
}

/// After an Init carrying id `m`, a run of further requests is answered
/// with reply ids m + 1, m + 2, ...: strictly increasing by exactly one,
/// starting one past the Init id, whatever identifiers Generate mints
/// along the way.
pub proof fn lemma_reply_ids_consecutive(s0: NodeView, init: BodyView, bs: Seq<BodyView>)
    requires
        init is Init,
        body_msg_id(init) + 1 + bs.len() <= u32::MAX,
        forall|i: int| 0 <= i < bs.len() ==> is_request(#[trigger] bs[i]) && !(bs[i] is Init),
    ensures
        forall|i: int|
            0 <= i < bs.len() ==> cur_msg_id(
                run_state(spec_step_state(s0, init), #[trigger] bs.take(i)).next_msg_id,
            ) == body_msg_id(init) + 1 + i,
{
    let m = body_msg_id(init);
    let s1 = spec_step_state(s0, init);
    assert(s1.next_msg_id == Some((m + 1) as u32));
    lemma_counter_advances(s1, bs, (m + 1) as u32);
}

/// Echo round trip: the reply to an Echo carries the request's string
/// back verbatim and correlates to the request's id, and nothing but the
/// counter moves.
pub proof fn lemma_echo_round_trip(s: NodeView, k: u32, text: Seq<char>, g: Seq<char>)
    ensures
        spec_reply(s, BodyView::Echo { msg_id: k, echo: text }, g) == Some(
            BodyView::EchoOk { msg_id: cur_msg_id(s.next_msg_id), in_reply_to: k, echo: text },
        ),
        spec_step_state(s, BodyView::Echo { msg_id: k, echo: text }).id == s.id,
        spec_step_state(s, BodyView::Echo { msg_id: k, echo: text }).neighbors == s.neighbors,
        spec_step_state(s, BodyView::Echo { msg_id: k, echo: text }).messages == s.messages,
        spec_step_state(s, BodyView::Echo { msg_id: k, echo: text }).next_msg_id == bump(
            s.next_msg_id,
        ),
{
}

/// A run of Broadcast requests appends their values, in order, to the
/// values the node already held.
pub proof fn lemma_broadcast_run(s: NodeView, bs: Seq<BodyView>, vs: Seq<u32>)
    requires
        bs.len() == vs.len(),
        forall|i: int|
            0 <= i < bs.len() ==> ((#[trigger] bs[i]) matches BodyView::Broadcast { msg, .. }
                && msg == vs[i]),
    ensures
        run_state(s, bs).messages == s.messages + vs,
    decreases bs.len(),
{
    if bs.len() == 0 {
        assert(s.messages + vs =~= s.messages);
    } else {
        let s1 = spec_step_state(s, bs[0]);
        assert(s1.messages == s.messages.push(vs[0]));
        let rest = bs.drop_first();
        let vrest = vs.drop_first();
        assert forall|i: int|
            0 <= i < rest.len() implies ((#[trigger] rest[i]) matches BodyView::Broadcast {
            msg,
            ..
        } && msg == vrest[i]) by {
            assert(rest[i] == bs[i + 1]);
            assert(vrest[i] == vs[i + 1]);
        }
        lemma_broadcast_run(s1, rest, vrest);
        assert(run_state(s, bs) == run_state(s1, rest));
        assert(s.messages.push(vs[0]) + vrest =~= s.messages + vs);
    }
}

/// Broadcast values v1..vn — duplicates and all — into a node that holds
/// nothing yet, then Read: the reply lists exactly that multiset of
/// values; only the order is left open.
pub proof fn lemma_broadcast_then_read(
    s: NodeView,
    bs: Seq<BodyView>,
    vs: Seq<u32>,
    read: BodyView,
    g: Seq<char>,
)
    requires
        s.messages == Seq::<u32>::empty(),
        bs.len() == vs.len(),
        forall|i: int|
            0 <= i < bs.len() ==> ((#[trigger] bs[i]) matches BodyView::Broadcast { msg, .. }
                && msg == vs[i]),
        read is Read,
    ensures
        (match spec_reply(run_state(s, bs), read, g) {
            Some(r) => (r matches BodyView::ReadOk { messages, .. } && messages.to_multiset()
                == vs.to_multiset()),
            None => false,
        }),
{
    lemma_broadcast_run(s, bs, vs);
    assert(run_state(s, bs).messages =~= vs);
}

/// Nothing in a topology table matching the key means the lookup finds
/// nothing.
pub proof fn lemma_topo_lookup_absent(t: Seq<(Seq<char>, Seq<Seq<char>>)>, k: Seq<char>)
    requires
        forall|i: int| 0 <= i < t.len() ==> (#[trigger] t[i]).0 != k,
    ensures
        topo_lookup(t, k) is None,
    decreases t.len(),
{
    if t.len() > 0 {
        assert(t[0].0 != k);
        let rest = t.drop_first();
        assert forall|i: int| 0 <= i < rest.len() implies (#[trigger] rest[i]).0 != k by {
            assert(rest[i] == t[i + 1]);
        }
        lemma_topo_lookup_absent(rest, k);
    }
}

/// A Topology request whose table nowhere names the node's own identity
/// empties the neighbor list, and the request is still acknowledged with
/// TopologyOk: the fallback is defined behavior, not an error.
pub proof fn lemma_topology_fallback(s: NodeView, b: BodyView, g: Seq<char>)
    requires
        (b matches BodyView::Topology { topology, .. } && (forall|i: int|
            0 <= i < topology.len() ==> (#[trigger] topology[i]).0 != s.id)),
    ensures
        spec_step_state(s, b).neighbors == Seq::<Seq<char>>::empty(),
        spec_reply(s, b, g) == Some(
            BodyView::TopologyOk { msg_id: cur_msg_id(s.next_msg_id), in_reply_to: body_msg_id(b) },
        ),
{
    match b {
        BodyView::Topology { topology, .. } => {
            lemma_topo_lookup_absent(topology, s.id);
        },
        _ => {},
    }
}

/// An inbound reply — any *Ok variant — is silently discarded: the state
/// does not move and no reply is produced.
pub proof fn lemma_inbound_reply_inert(s: NodeView, b: BodyView, g: Seq<char>)
    requires
        is_reply(b),
    ensures
        spec_step_state(s, b) == s,
        spec_reply(s, b, g) is None,
{
}

} // verus!
