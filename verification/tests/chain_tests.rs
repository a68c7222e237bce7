use point_rpc::chain::{greeting, ChainNode};

#[test]
fn greeting_embeds_name() {
    assert_eq!(greeting("Engine"), "Hello Engine!".to_string());
    assert_eq!(greeting("Earth"), "Hello Earth!".to_string());
    assert_eq!(greeting(""), "Hello !".to_string());
}

#[test]
fn chain_reply_with_reachable_downstream() {
    let node = ChainNode::new();
    let downstream = Some("Hello Forwarding 'Hello' Message!".to_string());
    assert_eq!(node.reply("Engine", &downstream), "Hello Engine!".to_string());
}

#[test]
fn chain_reply_with_unreachable_downstream() {
    let node = ChainNode::new();
    assert_eq!(node.reply("Engine", &None), "Hello Engine!".to_string());
}

#[test]
fn forward_note_is_fixed() {
    let node = ChainNode::new();
    assert_eq!(node.forward_note(), "Forwarding 'Hello' Message".to_string());
    assert_eq!(node.forward_note(), node.forward_note());
}
