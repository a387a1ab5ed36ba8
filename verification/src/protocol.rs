use vstd::prelude::*;

verus! {

/// The envelope carried on the wire: who sent it, who it is for, and a
/// tagged body.  A reply envelope is always built afresh, never mutated
/// from the request it answers.
pub struct Message {
    pub src: String,
    pub dest: String,
    pub body: MessageBody,
}

/// The closed set of message bodies.  Every request variant carries the
/// sender's own `msg_id`; every reply variant carries the replying node's
/// `msg_id` together with `in_reply_to`, which echoes the request's id.
pub enum MessageBody {
    Init { msg_id: u32, node_id: String, node_ids: Vec<String> },
    InitOk { msg_id: u32, in_reply_to: u32 },
    Echo { msg_id: u32, echo: String },
    EchoOk { msg_id: u32, in_reply_to: u32, echo: String },
    Generate { msg_id: u32 },
    GenerateOk { msg_id: u32, in_reply_to: u32, id: String },
    Broadcast { msg_id: u32, msg: u32 },
    BroadcastOk { msg_id: u32, in_reply_to: u32 },
    Read { msg_id: u32, key: Option<String> },
    ReadOk { msg_id: u32, in_reply_to: u32, messages: Vec<u32> },
    Topology { msg_id: u32, topology: Vec<(String, Vec<String>)> },
    TopologyOk { msg_id: u32, in_reply_to: u32 },
}

/// The mathematical shadow of `MessageBody`: strings become sequences of
/// characters, vectors become sequences, and the topology becomes a
/// sequence of key/value pairs.
pub enum BodyView {
    Init { msg_id: u32, node_id: Seq<char>, node_ids: Seq<Seq<char>> },
    InitOk { msg_id: u32, in_reply_to: u32 },
    Echo { msg_id: u32, echo: Seq<char> },
    EchoOk { msg_id: u32, in_reply_to: u32, echo: Seq<char> },
    Generate { msg_id: u32 },
    GenerateOk { msg_id: u32, in_reply_to: u32, id: Seq<char> },
    Broadcast { msg_id: u32, msg: u32 },
    BroadcastOk { msg_id: u32, in_reply_to: u32 },
    Read { msg_id: u32, key: Option<Seq<char>> },
    ReadOk { msg_id: u32, in_reply_to: u32, messages: Seq<u32> },
    Topology { msg_id: u32, topology: Seq<(Seq<char>, Seq<Seq<char>>)> },
    TopologyOk { msg_id: u32, in_reply_to: u32 },
}

impl View for MessageBody {
    type V = BodyView;

    open spec fn view(&self) -> BodyView {
        match self {
            MessageBody::Init { msg_id, node_id, node_ids } => (BodyView::Init {
                msg_id: *msg_id,
                node_id: node_id@,
                node_ids: node_ids.deep_view(),
            }),
            MessageBody::InitOk { msg_id, in_reply_to } => (BodyView::InitOk {
                msg_id: *msg_id,
                in_reply_to: *in_reply_to,
            }),
            MessageBody::Echo { msg_id, echo } => (BodyView::Echo {
                msg_id: *msg_id,
                echo: echo@,
            }),
            MessageBody::EchoOk { msg_id, in_reply_to, echo } => (BodyView::EchoOk {
                msg_id: *msg_id,
                in_reply_to: *in_reply_to,
                echo: echo@,
            }),
            MessageBody::Generate { msg_id } => (BodyView::Generate { msg_id: *msg_id }),
            MessageBody::GenerateOk { msg_id, in_reply_to, id } => (BodyView::GenerateOk {
                msg_id: *msg_id,
                in_reply_to: *in_reply_to,
                id: id@,
            }),
            MessageBody::Broadcast { msg_id, msg } => (BodyView::Broadcast {
                msg_id: *msg_id,
                msg: *msg,
            }),
            MessageBody::BroadcastOk { msg_id, in_reply_to } => (BodyView::BroadcastOk {
                msg_id: *msg_id,
                in_reply_to: *in_reply_to,
            }),
            MessageBody::Read { msg_id, key } => (BodyView::Read {
                msg_id: *msg_id,
                key: key.deep_view(),
            }),
            MessageBody::ReadOk { msg_id, in_reply_to, messages } => (BodyView::ReadOk {
                msg_id: *msg_id,
                in_reply_to: *in_reply_to,
                messages: messages@,
            }),
            MessageBody::Topology { msg_id, topology } => (BodyView::Topology {
                msg_id: *msg_id,
                topology: topology.deep_view(),
            }),
            MessageBody::TopologyOk { msg_id, in_reply_to } => (BodyView::TopologyOk {
                msg_id: *msg_id,
                in_reply_to: *in_reply_to,
            }),
        }
    }
}

/// True of the six request variants: the ones the node answers.
pub open spec fn is_request(b: BodyView) -> bool {
    match b {
        BodyView::Init { .. } => true,
        BodyView::Echo { .. } => true,
        BodyView::Generate { .. } => true,
        BodyView::Broadcast { .. } => true,
        BodyView::Read { .. } => true,
        BodyView::Topology { .. } => true,
        _ => false,
    }
}

/// True of the six reply variants: inbound, they are acknowledgments to be
/// discarded in silence.
pub open spec fn is_reply(b: BodyView) -> bool {
    !is_request(b)
}

/// The `msg_id` field of any body, request or reply.
pub open spec fn body_msg_id(b: BodyView) -> u32 {
    match b {
        BodyView::Init { msg_id, .. } => msg_id,
        BodyView::InitOk { msg_id, .. } => msg_id,
        BodyView::Echo { msg_id, .. } => msg_id,
        BodyView::EchoOk { msg_id, .. } => msg_id,
        BodyView::Generate { msg_id } => msg_id,
        BodyView::GenerateOk { msg_id, .. } => msg_id,
        BodyView::Broadcast { msg_id, .. } => msg_id,
        BodyView::BroadcastOk { msg_id, .. } => msg_id,
        BodyView::Read { msg_id, .. } => msg_id,
        BodyView::ReadOk { msg_id, .. } => msg_id,
        BodyView::Topology { msg_id, .. } => msg_id,
        BodyView::TopologyOk { msg_id, .. } => msg_id,
    }
}

/// The `in_reply_to` field of a reply body; requests carry none.
pub open spec fn body_in_reply_to(b: BodyView) -> Option<u32> {
    match b {
        BodyView::InitOk { in_reply_to, .. } => Some(in_reply_to),
        BodyView::EchoOk { in_reply_to, .. } => Some(in_reply_to),
        BodyView::GenerateOk { in_reply_to, .. } => Some(in_reply_to),
        BodyView::BroadcastOk { in_reply_to, .. } => Some(in_reply_to),
        BodyView::ReadOk { in_reply_to, .. } => Some(in_reply_to),
        BodyView::TopologyOk { in_reply_to, .. } => Some(in_reply_to),
        _ => None,
    }
}

/// First-match lookup in a topology table.  The table decoded from the wire
/// has each node's id at most once, so the first match is the only one.
pub open spec fn topo_lookup(t: Seq<(Seq<char>, Seq<Seq<char>>)>, k: Seq<char>) -> Option<
    Seq<Seq<char>>,
>
    decreases t.len(),
{
    if t.len() == 0 {
        None
    } else if t[0].0 == k {
        Some(t[0].1)
    } else {
        topo_lookup(t.drop_first(), k)
    }
}

} // verus!
