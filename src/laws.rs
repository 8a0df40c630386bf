use vstd::prelude::*;

use crate::decode::{
    classify, ok_status, reply_id, server_event_id, session_end, session_events, shout_name,
    StepView,
};
use crate::event::{EventView, Message, ProtocolEvent};
use crate::wire::text_of;

verus! {

/// A broadcast with a text sender id and a text body, and nothing after
/// them, decodes to exactly that shout.
pub proof fn lemma_shout_decodes(sender: Seq<u8>, text: Seq<u8>, s: Seq<char>, t: Seq<char>)
    requires
        text_of(sender) == Some(s),
        text_of(text) == Some(t),
    ensures
        classify(seq![server_event_id(), shout_name(), sender, text]) == StepView::Event(
            EventView::Shout(s, t),
        ),
{
    let fields = seq![server_event_id(), shout_name(), sender, text];
    assert(fields[0].len() == 1);
}

/// A server event under any other name than `shout` yields no event and no
/// error, whatever fields follow it.
pub proof fn lemma_other_events_skipped(name: Seq<u8>, rest: Seq<Seq<u8>>)
    requires
        name != shout_name(),
    ensures
        classify(seq![server_event_id(), name] + rest) == StepView::Skip,
{
    let fields = seq![server_event_id(), name] + rest;
    assert(fields[0] == server_event_id());
    assert(fields[1] == name);
    assert(fields[0].len() == 1);
}

/// A successful reply carrying a text user id decodes to exactly that
/// authentication.
pub proof fn lemma_reply_authenticates(id: Seq<u8>, user: Seq<char>)
    requires
        text_of(id) == Some(user),
    ensures
        classify(seq![reply_id(), ok_status(), id]) == StepView::Event(
            EventView::Authenticated(user),
        ),
{
    let fields = seq![reply_id(), ok_status(), id];
    assert(fields[0].len() == 1);
    assert(reply_id()[0] != server_event_id()[0]);
}

/// A reply whose status is not literally `ok` is an expectation failure.
pub proof fn lemma_reply_not_ok_fails(status: Seq<u8>, rest: Seq<Seq<u8>>)
    requires
        status != ok_status(),
    ensures
        classify(seq![reply_id(), status] + rest) == StepView::Mismatch,
{
    let fields = seq![reply_id(), status] + rest;
    assert(fields[0] == reply_id());
    assert(fields[1] == status);
    assert(fields[0].len() == 1);
    assert(reply_id()[0] != server_event_id()[0]);
}

/// A message made of one empty id ends the session gracefully: no event
/// and no failure come from it or from anything after it.
pub proof fn lemma_empty_id_ends_session(rest: Seq<Seq<Seq<u8>>>)
    ensures
        session_events(seq![seq![Seq::<u8>::empty()]] + rest) == Seq::<EventView>::empty(),
        session_end(seq![seq![Seq::<u8>::empty()]] + rest) == StepView::Stop,
{
    let msgs = seq![seq![Seq::<u8>::empty()]] + rest;
    assert(msgs[0] == seq![Seq::<u8>::empty()]);
    assert(classify(msgs[0]) == StepView::Stop);
}

/// The stream the consumer receives when the network producer's events and
/// the input producer's lines arrive in the order `from_network` gives
/// (`true`: the next network event arrives first).
pub open spec fn fan_in(net: Seq<ProtocolEvent>, lines: Seq<String>, from_network: Seq<bool>) -> Seq<
    Message,
>
    decreases from_network.len(),
{
    if from_network.len() == 0 {
        Seq::empty()
    } else if from_network[0] {
        if net.len() == 0 {
            Seq::empty()
        } else {
            seq![Message::ProtocolEvent(net[0])] + fan_in(
                net.drop_first(),
                lines,
                from_network.drop_first(),
            )
        }
    } else {
        if lines.len() == 0 {
            Seq::empty()
        } else {
            seq![Message::Line(lines[0])] + fan_in(net, lines.drop_first(), from_network.drop_first())
        }
    }
}

/// The protocol events of a received stream, in order.
pub open spec fn network_part(s: Seq<Message>) -> Seq<ProtocolEvent>
    decreases s.len(),
{
    if s.len() == 0 {
        Seq::empty()
    } else {
        match s[0] {
            Message::ProtocolEvent(e) => seq![e] + network_part(s.drop_first()),
            Message::Line(_) => network_part(s.drop_first()),
        }
    }
}

/// The local lines of a received stream, in order.
pub open spec fn input_part(s: Seq<Message>) -> Seq<String>
    decreases s.len(),
{
    if s.len() == 0 {
        Seq::empty()
    } else {
        match s[0] {
            Message::ProtocolEvent(_) => input_part(s.drop_first()),
            Message::Line(l) => seq![l] + input_part(s.drop_first()),
        }
    }
}

/// How many entries of `s` equal `b`.
pub open spec fn arrivals(s: Seq<bool>, b: bool) -> nat
    decreases s.len(),
{
    if s.len() == 0 {
        0
    } else {
        (if s[0] == b { 1nat } else { 0nat }) + arrivals(s.drop_first(), b)
    }
}

/// Whatever the arrival order, the consumer receives every event of each
/// producer exactly once, in the order that producer sent them.
pub proof fn lemma_fan_in_keeps_each_producer(
    net: Seq<ProtocolEvent>,
    lines: Seq<String>,
    from_network: Seq<bool>,
)
    requires
        arrivals(from_network, true) == net.len(),
        arrivals(from_network, false) == lines.len(),
    ensures
        fan_in(net, lines, from_network).len() == net.len() + lines.len(),
        network_part(fan_in(net, lines, from_network)) == net,
        input_part(fan_in(net, lines, from_network)) == lines,
    decreases from_network.len(),
{
    if from_network.len() == 0 {
        assert(net =~= Seq::<ProtocolEvent>::empty());
        assert(lines =~= Seq::<String>::empty());
    } else if from_network[0] {
        lemma_fan_in_keeps_each_producer(net.drop_first(), lines, from_network.drop_first());
        let tail = fan_in(net.drop_first(), lines, from_network.drop_first());
        let s = seq![Message::ProtocolEvent(net[0])] + tail;
        assert(s.drop_first() =~= tail);
        assert(network_part(s) =~= net);
    } else {
        lemma_fan_in_keeps_each_producer(net, lines.drop_first(), from_network.drop_first());
        let tail = fan_in(net, lines.drop_first(), from_network.drop_first());
        let s = seq![Message::Line(lines[0])] + tail;
        assert(s.drop_first() =~= tail);
        assert(input_part(s) =~= lines);
    }
}

} // verus!
