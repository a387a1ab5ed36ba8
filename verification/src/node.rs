use crate::protocol::{body_msg_id, is_reply, is_request, topo_lookup, BodyView, Message,
    MessageBody};
use vstd::prelude::*;

verus! {

/// The whole mutable state of one node: its identity (empty until the
/// first Init), the neighbor table, the counter that numbers its replies
/// (unset until first established), and every value it was ever asked to
/// broadcast.
pub struct Node {
    pub id: String,
    pub neighbors: Vec<String>,
    pub next_msg_id: Option<u32>,
    pub messages: Vec<u32>,
}

/// The mathematical shadow of `Node`.
pub struct NodeView {
    pub id: Seq<char>,
    pub neighbors: Seq<Seq<char>>,
    pub next_msg_id: Option<u32>,
    pub messages: Seq<u32>,
}

impl View for Node {
    type V = NodeView;

    open spec fn view(&self) -> NodeView {
        NodeView {
            id: self.id@,
            neighbors: self.neighbors.deep_view(),
            next_msg_id: self.next_msg_id,
            messages: self.messages@,
        }
    }
}

/// The id the node would stamp on its next counter-numbered reply: the
/// counter's value, or `0` while the counter is still unset.
pub open spec fn cur_msg_id(next: Option<u32>) -> u32 {
    match next {
        Some(n) => n,
        None => 0,
    }
}

/// The counter after one reply has drawn its id from it.
pub open spec fn bump(next: Option<u32>) -> Option<u32> {
    Some((cur_msg_id(next) + 1) as u32)
}

/// The state a node starts in: everything empty or unset.
pub open spec fn initial_node() -> NodeView {
    NodeView {
        id: Seq::<char>::empty(),
        neighbors: Seq::<Seq<char>>::empty(),
        next_msg_id: None,
        messages: Seq::<u32>::empty(),
    }
}

/// What one request does to the node's state.  Requests that only answer
/// (Echo, Generate, Read) advance the counter and touch nothing else;
/// inbound replies touch nothing at all.
pub open spec fn spec_step_state(s: NodeView, b: BodyView) -> NodeView {
    match b {
        BodyView::Init { msg_id, node_id, node_ids } => (NodeView {
            id: node_id,
            neighbors: node_ids,
            next_msg_id: Some((msg_id + 1) as u32),
            messages: s.messages,
        }),
        BodyView::Echo { .. } => (NodeView { next_msg_id: bump(s.next_msg_id), ..s }),
        BodyView::Generate { .. } => (NodeView { next_msg_id: bump(s.next_msg_id), ..s }),
        BodyView::Broadcast { msg, .. } => (NodeView {
            messages: s.messages.push(msg),
            next_msg_id: bump(s.next_msg_id),
            ..s
        }),
        BodyView::Read { .. } => (NodeView { next_msg_id: bump(s.next_msg_id), ..s }),
        BodyView::Topology { topology, .. } => (NodeView {
            neighbors: (match topo_lookup(topology, s.id) {
                Some(v) => v,
                None => Seq::<Seq<char>>::empty(),
            }),
            next_msg_id: bump(s.next_msg_id),
            ..s
        }),
        _ => s,
    }
}

/// The body of the reply that a request draws out of state `s`.  Only
/// Generate's reply depends on the freshly minted identifier `gen`; Init's
/// reply reuses the inbound id instead of drawing from the counter.
/// Inbound replies draw no reply of their own.
pub open spec fn spec_reply(s: NodeView, b: BodyView, gen: Seq<char>) -> Option<BodyView> {
    match b {
        BodyView::Init { msg_id, .. } => Some(
            BodyView::InitOk { msg_id, in_reply_to: msg_id },
        ),
        BodyView::Echo { msg_id, echo } => Some(
            BodyView::EchoOk { msg_id: cur_msg_id(s.next_msg_id), in_reply_to: msg_id, echo },
        ),
        BodyView::Generate { msg_id } => Some(
            BodyView::GenerateOk { msg_id: cur_msg_id(s.next_msg_id), in_reply_to: msg_id, id: gen },
        ),
        BodyView::Broadcast { msg_id, .. } => Some(
            BodyView::BroadcastOk { msg_id: cur_msg_id(s.next_msg_id), in_reply_to: msg_id },
        ),
        BodyView::Read { msg_id, .. } => Some(
            BodyView::ReadOk {
                msg_id: cur_msg_id(s.next_msg_id),
                in_reply_to: msg_id,
                messages: s.messages,
            },
        ),
        BodyView::Topology { msg_id, .. } => Some(
            BodyView::TopologyOk { msg_id: cur_msg_id(s.next_msg_id), in_reply_to: msg_id },
        ),
        _ => None,
    }
}

/// The freshly minted identifier inside a Generate reply; empty for every
/// other body.
pub open spec fn reply_gen_id(b: BodyView) -> Seq<char> {
    match b {
        BodyView::GenerateOk { id, .. } => id,
        _ => Seq::<char>::empty(),
    }
}

/// The counter arithmetic a request asks for must not overflow the 32-bit
/// id space: Init computes one past the inbound id, and every other
/// request draws the counter's value and advances it by one.
pub open spec fn step_enabled(s: NodeView, b: BodyView) -> bool {
    match b {
        BodyView::Init { msg_id, .. } => msg_id < u32::MAX,
        BodyView::Echo { .. } => cur_msg_id(s.next_msg_id) < u32::MAX,
        BodyView::Generate { .. } => cur_msg_id(s.next_msg_id) < u32::MAX,
        BodyView::Broadcast { .. } => cur_msg_id(s.next_msg_id) < u32::MAX,
        BodyView::Read { .. } => cur_msg_id(s.next_msg_id) < u32::MAX,
        BodyView::Topology { .. } => cur_msg_id(s.next_msg_id) < u32::MAX,
        _ => true,
    }
}

/// One of the 32 characters of the Crockford base32 alphabet.
pub open spec fn is_crockford_char(c: char) -> bool {
    c == '0' || c == '1' || c == '2' || c == '3' || c == '4' || c == '5' || c == '6' || c == '7'
        || c == '8' || c == '9' || c == 'A' || c == 'B' || c == 'C' || c == 'D' || c == 'E' || c
        == 'F' || c == 'G' || c == 'H' || c == 'J' || c == 'K' || c == 'M' || c == 'N' || c == 'P'
        || c == 'Q' || c == 'R' || c == 'S' || c == 'T' || c == 'V' || c == 'W' || c == 'X' || c
        == 'Y' || c == 'Z'
}

/// A 26-character identifier over the Crockford base32 alphabet: the text
/// form of a freshly minted unique id.
pub open spec fn is_minted_id(s: Seq<char>) -> bool {
    s.len() == 26 && (forall|i: int| 0 <= i < s.len() ==> is_crockford_char(#[trigger] s[i]))
}

/// Relies on ulid::Ulid::generate and its inherent to_string: a fresh
/// identifier drawn from the clock and a random source, rendered in the
/// 26-character Crockford base32 text form.  Nothing more can be promised
/// of a value that depends on time and chance.
#[verifier::external_body]
fn mint_unique_id() -> (r: String)
    ensures
        is_minted_id(r@),
{
    ulid::Ulid::generate().to_string()
}

/// A copy of a vector of broadcast values, element for element.
fn clone_values(v: &Vec<u32>) -> (r: Vec<u32>)
    ensures
        r@ == v@,
{
    let mut r: Vec<u32> = Vec::new();
    let mut i: usize = 0;
    while i < v.len()
        invariant
            i <= v@.len(),
            r@ == v@.subrange(0, i as int),
        decreases v@.len() - i,
    {
        r.push(v[i]);
        i += 1;
    }
    proof {
        assert(r@ =~= v@);
    }
    r
}

/// A copy of a vector of node identities, element for element.
fn clone_ids(v: &Vec<String>) -> (r: Vec<String>)
    ensures
        r@ == v@,
{
    let mut r: Vec<String> = Vec::new();
    let mut i: usize = 0;
    while i < v.len()
        invariant
            i <= v@.len(),
            r@ == v@.subrange(0, i as int),
        decreases v@.len() - i,
    {
        r.push(v[i].clone());
        i += 1;
    }
    proof {
        assert(r@ =~= v@);
    }
    r
}

/// Looks `key` up in a topology table, returning a copy of the first
/// matching entry's neighbor list.
pub fn topo_get(topology: &Vec<(String, Vec<String>)>, key: &String) -> (r: Option<Vec<String>>)
    ensures
        (match r {
            Some(v) => topo_lookup(topology.deep_view(), key@) == Some(v.deep_view()),
            None => topo_lookup(topology.deep_view(), key@) is None,
        }),
{
    let ghost t = topology.deep_view();
    proof {
        assert(t.skip(0) =~= t);
    }
    let mut i: usize = 0;
    while i < topology.len()
        invariant
            i <= topology@.len(),
            t == topology.deep_view(),
            t.len() == topology@.len(),
            topo_lookup(t, key@) == topo_lookup(t.skip(i as int), key@),
        decreases topology@.len() - i,
    {
        proof {
            assert(t[i as int] == topology@[i as int].deep_view());
            assert(t.skip(i as int)[0] == t[i as int]);
        }
        if topology[i].0 == *key {
            let found = clone_ids(&topology[i].1);
            proof {
                assert(t.skip(i as int)[0].0 == key@);
                assert(topo_lookup(t.skip(i as int), key@) == Some(t[i as int].1));
                assert(found.deep_view() =~= topology@[i as int].1.deep_view());
            }
            return Some(found);
        }
        proof {
            assert(t.skip(i as int)[0].0 != key@);
            assert(t.skip(i as int).drop_first() =~= t.skip(i as int + 1));
        }
        i += 1;
    }
    proof {
        assert(t.skip(i as int).len() == 0);
    }
    None
}

impl Node {
    /// A freshly started node: no identity, no neighbors, no counter, no
    /// broadcast values.
    pub fn new() -> (r: Node)
        ensures
            r@ == initial_node(),
    {
        let r = Node {
            id: String::new(),
            neighbors: Vec::new(),
            next_msg_id: None,
            messages: Vec::new(),
        };
        proof {
            assert(r@.neighbors =~= initial_node().neighbors);
            assert(r@.messages =~= initial_node().messages);
        }
        r
    }

    /// The id the node would stamp on its next counter-numbered reply.
    pub fn current_msg_id(&self) -> (r: u32)
        ensures
            r == cur_msg_id(self.next_msg_id),
    {
        match self.next_msg_id {
            Some(n) => n,
            None => 0,
        }
    }

    /// Advances the reply counter by one, treating an unset counter as
    /// zero.  Nothing else moves.
    pub fn increase_msg_id(&mut self)
        requires
            cur_msg_id(old(self).next_msg_id) < u32::MAX,
        ensures
            final(self).next_msg_id == bump(old(self).next_msg_id),
            final(self).id == old(self).id,
            final(self).neighbors == old(self).neighbors,
            final(self).messages == old(self).messages,
    {
        let cur = self.current_msg_id();
        self.next_msg_id = Some(cur + 1);
    }

    /// Whether handling `message` stays inside the 32-bit id space: the
    /// one precondition `step` asks of its caller.
    pub fn can_step(&self, message: &Message) -> (r: bool)
        ensures
            r == step_enabled(self@, message.body@),
    {
        match &message.body {
            MessageBody::Init { msg_id, .. } => *msg_id < u32::MAX,
            MessageBody::Echo { .. } => self.current_msg_id() < u32::MAX,
            MessageBody::Generate { .. } => self.current_msg_id() < u32::MAX,
            MessageBody::Broadcast { .. } => self.current_msg_id() < u32::MAX,
            MessageBody::Read { .. } => self.current_msg_id() < u32::MAX,
            MessageBody::Topology { .. } => self.current_msg_id() < u32::MAX,
            _ => true,
        }
    }

    /// Handles one inbound message: mutates the state exactly as
    /// `spec_step_state` says and returns the reply that `spec_reply`
    /// says, addressed back to the sender and signed with the node's own
    /// identity.  Exactly the six request variants are answered.
    pub fn step(&mut self, message: Message) -> (reply: Option<Message>)
        requires
            step_enabled(old(self)@, message.body@),
        ensures
            final(self)@ == spec_step_state(old(self)@, message.body@),
            reply is Some <==> is_request(message.body@),
            (match reply {
                Some(r) => {
                    &&& r.src@ == spec_step_state(old(self)@, message.body@).id
                    &&& r.dest@ == message.src@
                    &&& Some(r.body@) == spec_reply(old(self)@, message.body@, reply_gen_id(r.body@))
                    &&& (message.body@ is Generate ==> is_minted_id(reply_gen_id(r.body@)))
                },
                None => true,
            }),
    {
        let Message { src: req_src, dest: _req_dest, body } = message;
        match body {
            MessageBody::Init { msg_id, node_id, node_ids } => {
                self.next_msg_id = Some(msg_id + 1);
                self.id = node_id;
                self.neighbors = node_ids;
                Some(Message {
                    src: self.id.clone(),
                    dest: req_src,
                    body: MessageBody::InitOk { msg_id, in_reply_to: msg_id },
                })
            },
            MessageBody::Echo { msg_id, echo } => {
                let own_id = self.current_msg_id();
                self.increase_msg_id();
                Some(Message {
                    src: self.id.clone(),
                    dest: req_src,
                    body: MessageBody::EchoOk { msg_id: own_id, in_reply_to: msg_id, echo },
                })
            },
            MessageBody::Generate { msg_id } => {
                let own_id = self.current_msg_id();
                self.increase_msg_id();
                let minted = mint_unique_id();
                Some(Message {
                    src: self.id.clone(),
                    dest: req_src,
                    body: MessageBody::GenerateOk {
                        msg_id: own_id,
                        in_reply_to: msg_id,
                        id: minted,
                    },
                })
            },
            MessageBody::Broadcast { msg_id, msg } => {
                self.messages.push(msg);
                let own_id = self.current_msg_id();
                self.increase_msg_id();
                Some(Message {
                    src: self.id.clone(),
                    dest: req_src,
                    body: MessageBody::BroadcastOk { msg_id: own_id, in_reply_to: msg_id },
                })
            },
            MessageBody::Read { msg_id, key: _key } => {
                let own_id = self.current_msg_id();
                self.increase_msg_id();
                let values = clone_values(&self.messages);
                Some(Message {
                    src: self.id.clone(),
                    dest: req_src,
                    body: MessageBody::ReadOk {
                        msg_id: own_id,
                        in_reply_to: msg_id,
                        messages: values,
                    },
                })
            },
            MessageBody::Topology { msg_id, topology } => {
                let looked_up = topo_get(&topology, &self.id);
                match looked_up {
                    Some(v) => {
                        self.neighbors = v;
                    },
                    None => {
                        self.neighbors = Vec::new();
                        proof {
                            assert(self.neighbors.deep_view() =~= Seq::<Seq<char>>::empty());
                        }
                    },
                }
                let own_id = self.current_msg_id();
                self.increase_msg_id();
                Some(Message {
                    src: self.id.clone(),
                    dest: req_src,
                    body: MessageBody::TopologyOk { msg_id: own_id, in_reply_to: msg_id },
                })
            },
            MessageBody::InitOk { .. } => None,
            MessageBody::EchoOk { .. } => None,
            MessageBody::GenerateOk { .. } => None,
            MessageBody::BroadcastOk { .. } => None,
            MessageBody::ReadOk { .. } => None,
            MessageBody::TopologyOk { .. } => None,
        }
    }
}

} // verus!
