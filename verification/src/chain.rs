use vstd::prelude::*;

verus! {

/// The greeting every node replies with: the inbound name framed by a fixed
/// salutation.
pub open spec fn greeting_seq(name: Seq<char>) -> Seq<char> {
    "Hello "@ + name + "!"@
}

/// The fixed payload the middle node fans out downstream on every inbound
/// call.
pub open spec fn forward_note_seq() -> Seq<char> {
    "Forwarding 'Hello' Message"@
}

/// What the middle node replies given the inbound name and the downstream
/// call's outcome: the greeting of the name, whatever the outcome was.
pub open spec fn chain_reply_seq(name: Seq<char>, downstream: Option<Seq<char>>) -> Seq<char> {
    greeting_seq(name)
}

/// The view of an optional returned message.
pub open spec fn opt_string_view(o: Option<String>) -> Option<Seq<char>> {
    match o {
        Some(s) => Some(s@),
        None => None,
    }
}

/// Build the greeting reply, as the leaf node does for its caller and the
/// middle node does for its own.
pub fn greeting(name: &str) -> (r: String)
    ensures
        r@ == greeting_seq(name@),
{
    let s = String::from_str("Hello ");
    let s = s.concat(name);
    s.concat("!")
}

/// The forwarding handler of the middle node: on each inbound call it issues
/// one call downstream as a side effect and replies from the inbound request
/// alone. It holds no state of its own; the connection handle it reuses per
/// call lives with the unverified plumbing that drives it.
pub struct ChainNode {}

impl ChainNode {
    pub fn new() -> ChainNode {
        ChainNode {}
    }

    /// The payload to send downstream; the same fixed note on every call.
    pub fn forward_note(&self) -> (r: String)
        ensures
            r@ == forward_note_seq(),
    {
        String::from_str("Forwarding 'Hello' Message")
    }

    /// Reply to an inbound call. The downstream outcome — the leaf's message,
    /// or `None` where the leaf was unreachable or failed — is taken as an
    /// argument and deliberately ignored: the fan-out is best effort, and the
    /// reply embeds the inbound name alone.
    pub fn reply(&self, name: &str, downstream: &Option<String>) -> (r: String)
        ensures
            r@ == chain_reply_seq(name@, opt_string_view(*downstream)),
            r@ == greeting_seq(name@),
    {
        greeting(name)
    }
}

/// Fan-out independence law: the middle node's reply is a function of the
/// inbound name alone, so any two downstream outcomes — replies, failures,
/// an unreachable leaf — yield the identical reply to the caller.
pub proof fn lemma_reply_independent_of_downstream(
    name: Seq<char>,
    d1: Option<Seq<char>>,
    d2: Option<Seq<char>>,
)
    ensures
        chain_reply_seq(name, d1) == chain_reply_seq(name, d2),
{
}

} // verus!
