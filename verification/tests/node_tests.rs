use maelstrom_node::node::Node;
use maelstrom_node::protocol::{Message, MessageBody};

fn msg(body: MessageBody) -> Message {
    Message {
        src: String::from("c1"),
        dest: String::from("n1"),
        body,
    }
}

fn init_message(msg_id: u32, node_id: &str, node_ids: &[&str]) -> Message {
    msg(MessageBody::Init {
        msg_id,
        node_id: String::from(node_id),
        node_ids: node_ids.iter().map(|s| String::from(*s)).collect(),
    })
}

fn reply_msg_id(body: &MessageBody) -> u32 {
    match body {
        MessageBody::InitOk { msg_id, .. } => *msg_id,
        MessageBody::EchoOk { msg_id, .. } => *msg_id,
        MessageBody::GenerateOk { msg_id, .. } => *msg_id,
        MessageBody::BroadcastOk { msg_id, .. } => *msg_id,
        MessageBody::ReadOk { msg_id, .. } => *msg_id,
        MessageBody::TopologyOk { msg_id, .. } => *msg_id,
        _ => panic!("not a reply body"),
    }
}

#[test]
fn init_assigns_identity_and_replies() {
    let mut node = Node::new();
    let reply = node.step(init_message(1, "n1", &["n1", "n2"])).expect("Init must be answered");
    assert_eq!(reply.src, "n1");
    assert_eq!(reply.dest, "c1");
    match reply.body {
        MessageBody::InitOk { msg_id, in_reply_to } => {
            assert_eq!(msg_id, 1);
            assert_eq!(in_reply_to, 1);
        }
        _ => panic!("expected InitOk"),
    }
    assert_eq!(node.id, "n1");
    assert_eq!(node.neighbors, vec![String::from("n1"), String::from("n2")]);
    assert_eq!(node.next_msg_id, Some(2));
}

#[test]
fn reply_ids_increase_by_one_from_init() {
    let mut node = Node::new();
    node.step(init_message(1, "n1", &["n1"]));
    let requests = vec![
        MessageBody::Echo { msg_id: 40, echo: String::from("a") },
        MessageBody::Generate { msg_id: 41 },
        MessageBody::Broadcast { msg_id: 42, msg: 9 },
        MessageBody::Read { msg_id: 43, key: None },
        MessageBody::Topology { msg_id: 44, topology: Vec::new() },
    ];
    let mut expected: u32 = 2;
    for body in requests {
        let reply = node.step(msg(body)).expect("every request draws a reply");
        assert_eq!(reply_msg_id(&reply.body), expected);
        expected += 1;
    }
}

#[test]
fn echo_round_trip() {
    let mut node = Node::new();
    node.step(init_message(1, "n1", &["n1"]));
    let reply = node
        .step(msg(MessageBody::Echo { msg_id: 3, echo: String::from("hello there") }))
        .expect("Echo must be answered");
    match reply.body {
        MessageBody::EchoOk { in_reply_to, echo, .. } => {
            assert_eq!(in_reply_to, 3);
            assert_eq!(echo, "hello there");
        }
        _ => panic!("expected EchoOk"),
    }
}

#[test]
fn generate_ids_are_distinct() {
    let mut node = Node::new();
    node.step(init_message(1, "n1", &["n1"]));
    let mut ids: Vec<String> = Vec::new();
    for k in 0..5u32 {
        let reply = node
            .step(msg(MessageBody::Generate { msg_id: 10 + k }))
            .expect("Generate must be answered");
        match reply.body {
            MessageBody::GenerateOk { in_reply_to, id, .. } => {
                assert_eq!(in_reply_to, 10 + k);
                assert_eq!(id.len(), 26);
                ids.push(id);
            }
            _ => panic!("expected GenerateOk"),
        }
    }
    for a in 0..ids.len() {
        for b in (a + 1)..ids.len() {
            assert_ne!(ids[a], ids[b], "minted ids must be pairwise distinct");
        }
    }
}

#[test]
fn broadcast_then_read_returns_the_multiset() {
    let mut node = Node::new();
    node.step(init_message(1, "n1", &["n1"]));
    for v in [5u32, 3, 5, 8] {
        let reply = node
            .step(msg(MessageBody::Broadcast { msg_id: 20, msg: v }))
            .expect("Broadcast must be answered");
        assert!(matches!(reply.body, MessageBody::BroadcastOk { in_reply_to: 20, .. }));
    }
    let reply = node
        .step(msg(MessageBody::Read { msg_id: 30, key: None }))
        .expect("Read must be answered");
    match reply.body {
        MessageBody::ReadOk { in_reply_to, mut messages, .. } => {
            assert_eq!(in_reply_to, 30);
            messages.sort();
            assert_eq!(messages, vec![3, 5, 5, 8]);
        }
        _ => panic!("expected ReadOk"),
    }
}

#[test]
fn read_ignores_the_key_field() {
    let mut node = Node::new();
    node.step(init_message(1, "n1", &["n1"]));
    node.step(msg(MessageBody::Broadcast { msg_id: 2, msg: 7 }));
    let reply = node
        .step(msg(MessageBody::Read { msg_id: 3, key: Some(String::from("counter")) }))
        .expect("Read must be answered");
    match reply.body {
        MessageBody::ReadOk { messages, .. } => assert_eq!(messages, vec![7]),
        _ => panic!("expected ReadOk"),
    }
}

#[test]
fn topology_without_own_entry_empties_neighbors() {
    let mut node = Node::new();
    node.step(init_message(1, "n1", &["n1", "n2"]));
    assert!(!node.neighbors.is_empty());
    let topology = vec![(String::from("n2"), vec![String::from("n3")])];
    let reply = node
        .step(msg(MessageBody::Topology { msg_id: 9, topology }))
        .expect("Topology must be answered");
    assert!(matches!(reply.body, MessageBody::TopologyOk { in_reply_to: 9, .. }));
    assert!(node.neighbors.is_empty());
}

#[test]
fn topology_with_own_entry_sets_neighbors() {
    let mut node = Node::new();
    node.step(init_message(1, "n1", &["n1", "n2", "n3"]));
    let topology = vec![
        (String::from("n2"), vec![String::from("n1")]),
        (String::from("n1"), vec![String::from("n2"), String::from("n3")]),
    ];
    let reply = node
        .step(msg(MessageBody::Topology { msg_id: 9, topology }))
        .expect("Topology must be answered");
    assert!(matches!(reply.body, MessageBody::TopologyOk { .. }));
    assert_eq!(node.neighbors, vec![String::from("n2"), String::from("n3")]);
}

#[test]
fn inbound_replies_are_inert() {
    let mut node = Node::new();
    node.step(init_message(1, "n1", &["n1"]));
    node.step(msg(MessageBody::Broadcast { msg_id: 2, msg: 4 }));
    let id_before = node.id.clone();
    let neighbors_before = node.neighbors.clone();
    let counter_before = node.next_msg_id;
    let messages_before = node.messages.clone();
    let acks = vec![
        MessageBody::InitOk { msg_id: 1, in_reply_to: 1 },
        MessageBody::EchoOk { msg_id: 2, in_reply_to: 2, echo: String::from("x") },
        MessageBody::GenerateOk { msg_id: 3, in_reply_to: 3, id: String::from("y") },
        MessageBody::BroadcastOk { msg_id: 4, in_reply_to: 4 },
        MessageBody::ReadOk { msg_id: 5, in_reply_to: 5, messages: vec![1, 2] },
        MessageBody::TopologyOk { msg_id: 6, in_reply_to: 6 },
    ];
    for body in acks {
        assert!(node.step(msg(body)).is_none(), "an inbound reply draws no reply");
    }
    assert_eq!(node.id, id_before);
    assert_eq!(node.neighbors, neighbors_before);
    assert_eq!(node.next_msg_id, counter_before);
    assert_eq!(node.messages, messages_before);
}

#[test]
fn counter_defaults_to_zero_before_init() {
    let mut node = Node::new();
    assert_eq!(node.next_msg_id, None);
    let reply = node
        .step(msg(MessageBody::Echo { msg_id: 12, echo: String::from("early") }))
        .expect("Echo must be answered");
    match reply.body {
        MessageBody::EchoOk { msg_id, in_reply_to, .. } => {
            assert_eq!(msg_id, 0);
            assert_eq!(in_reply_to, 12);
        }
        _ => panic!("expected EchoOk"),
    }
    assert_eq!(node.next_msg_id, Some(1));
}

#[test]
fn read_on_fresh_node_returns_nothing() {
    let mut node = Node::new();
    let reply = node
        .step(msg(MessageBody::Read { msg_id: 1, key: None }))
        .expect("Read must be answered");
    match reply.body {
        MessageBody::ReadOk { msg_id, in_reply_to, messages } => {
            assert_eq!(msg_id, 0);
            assert_eq!(in_reply_to, 1);
            assert!(messages.is_empty());
        }
        _ => panic!("expected ReadOk"),
    }
}

#[test]
fn fresh_node_is_empty() {
    let node = Node::new();
    assert_eq!(node.id, "");
    assert!(node.neighbors.is_empty());
    assert_eq!(node.next_msg_id, None);
    assert!(node.messages.is_empty());
}

#[test]
fn increase_msg_id_counts_from_zero() {
    let mut node = Node::new();
    node.increase_msg_id();
    assert_eq!(node.next_msg_id, Some(1));
    node.increase_msg_id();
    assert_eq!(node.next_msg_id, Some(2));
}
