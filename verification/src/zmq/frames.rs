use vstd::prelude::*;

verus! {

/// Copies of bytes.
pub fn copy_bytes(b: &Vec<u8>) -> (r: Vec<u8>)
    ensures
        r@ == b@,
{
    let mut out: Vec<u8> = Vec::new();
    for i in 0..b.len()
        invariant
            out@ == b@.take(i as int),
    {
        out.push(b[i]);
        assert(b@.take(i as int).push(b@[i as int]) =~= b@.take(i + 1));
    }
    assert(b@.take(b@.len() as int) =~= b@);
    out
}

/// The frames of a message as plain bytes.
pub open spec fn frame_views(frames: Seq<Vec<u8>>) -> Seq<Seq<u8>> {
    frames.map_values(|f: Vec<u8>| f@)
}

/// Who sent a message to a router socket, and what it says: the first and the third frame.
pub open spec fn router_parts(frames: Seq<Seq<u8>>) -> Option<(Seq<u8>, Seq<u8>)> {
    if frames.len() < 3 {
        None
    } else {
        Some((frames[0], frames[2]))
    }
}

/// What a message to a dealer socket says: the second frame.
pub open spec fn dealer_part(frames: Seq<Seq<u8>>) -> Option<Seq<u8>> {
    if frames.len() < 2 {
        None
    } else {
        Some(frames[1])
    }
}

/// What a strategy's answer says: the second frame, or the only one.
pub open spec fn strategy_part(frames: Seq<Seq<u8>>) -> Option<Seq<u8>> {
    if frames.len() >= 2 {
        Some(frames[1])
    } else if frames.len() == 1 {
        Some(frames[0])
    } else {
        None
    }
}

/// Who sent a message to a router socket, and what it says; `None` for one with too few frames.
pub fn router_message(frames: &Vec<Vec<u8>>) -> (r: Option<(Vec<u8>, Vec<u8>)>)
    ensures
        match r {
            Some(m) => router_parts(frame_views(frames@)) == Some((m.0@, m.1@)),
            None => router_parts(frame_views(frames@)) is None,
        },
{
    if frames.len() < 3 {
        return None;
    }
    Some((copy_bytes(&frames[0]), copy_bytes(&frames[2])))
}

/// What a message to a dealer or subscriber socket says; `None` for one with too few frames.
pub fn dealer_payload(frames: &Vec<Vec<u8>>) -> (r: Option<Vec<u8>>)
    ensures
        match r {
            Some(p) => dealer_part(frame_views(frames@)) == Some(p@),
            None => dealer_part(frame_views(frames@)) is None,
        },
{
    if frames.len() < 2 {
        return None;
    }
    Some(copy_bytes(&frames[1]))
}

/// What a strategy's answer says; `None` for one without frames.
pub fn strategy_payload(frames: &Vec<Vec<u8>>) -> (r: Option<Vec<u8>>)
    ensures
        match r {
            Some(p) => strategy_part(frame_views(frames@)) == Some(p@),
            None => strategy_part(frame_views(frames@)) is None,
        },
{
    if frames.len() >= 2 {
        Some(copy_bytes(&frames[1]))
    } else if frames.len() == 1 {
        Some(copy_bytes(&frames[0]))
    } else {
        None
    }
}

/// The frames of a router's answer: whom it is for, an empty one and what it says.
pub fn reply_frames(identity: Vec<u8>, payload: Vec<u8>) -> (r: Vec<Vec<u8>>)
    ensures
        frame_views(r@) == seq![identity@, Seq::<u8>::empty(), payload@],
{
    let mut frames: Vec<Vec<u8>> = Vec::new();
    frames.push(identity);
    frames.push(Vec::new());
    frames.push(payload);
    assert(frame_views(frames@) =~= seq![identity@, Seq::<u8>::empty(), payload@]);
    frames
}

/// The frames of a dealer's command: an empty one and what it says.
pub fn command_frames(payload: Vec<u8>) -> (r: Vec<Vec<u8>>)
    ensures
        frame_views(r@) == seq![Seq::<u8>::empty(), payload@],
{
    let mut frames: Vec<Vec<u8>> = Vec::new();
    frames.push(Vec::new());
    frames.push(payload);
    assert(frame_views(frames@) =~= seq![Seq::<u8>::empty(), payload@]);
    frames
}

/// The frames of a published event: its topic and what it says.
pub fn event_frames(topic: &str, payload: Vec<u8>) -> (r: Vec<Vec<u8>>)
    ensures
        frame_views(r@) == seq![vstd::utf8::encode_utf8(topic@), payload@],
{
    let mut frames: Vec<Vec<u8>> = Vec::new();
    frames.push(vstd::slice::slice_to_vec(topic.as_bytes()));
    frames.push(payload);
    assert(frame_views(frames@) =~= seq![vstd::utf8::encode_utf8(topic@), payload@]);
    frames
}

/// A command reaches the router as it was sent: its socket puts the sender's identity in front of
/// the dealer's frames.
pub proof fn router_reads_what_dealer_sent(identity: Seq<u8>, payload: Seq<u8>)
    ensures
        router_parts(seq![identity] + seq![Seq::<u8>::empty(), payload]) == Some((identity, payload)),
{
}

/// An answer reaches the dealer as it was sent: the router's socket takes the identity off. A
/// strategy's client and a dealer read the same.
pub proof fn dealer_reads_what_router_sent(identity: Seq<u8>, payload: Seq<u8>)
    ensures
        dealer_part(seq![identity, Seq::<u8>::empty(), payload].skip(1)) == Some(payload),
        strategy_part(seq![identity, Seq::<u8>::empty(), payload].skip(1)) == Some(payload),
{
}

/// An event reaches the subscriber as it was sent.
pub proof fn subscriber_reads_what_was_published(topic: Seq<u8>, payload: Seq<u8>)
    ensures
        dealer_part(seq![topic, payload]) == Some(payload),
{
}

} // verus!
