use vstd::prelude::*;
use vstd::utf8::{decode_utf8, valid_utf8};

verus! {

/// Relies on `std::str::from_utf8`: `Ok` exactly on valid UTF-8, with the
/// characters the bytes encode.
#[verifier::external_body]
fn strict_utf8(b: &Vec<u8>) -> (r: Option<String>)
    ensures
        r is Some <==> valid_utf8(b@),
        r is Some ==> r->Some_0@ == decode_utf8(b@),
{
    match std::str::from_utf8(b.as_slice()) {
        Ok(s) => Some(s.to_owned()),
        Err(_) => None,
    }
}

/// What a producer connection hands to its ingest session.
pub enum IngestEvent {
    /// A text data frame.
    Text(String),
    /// A binary data frame, accepted only as UTF-8 text.
    Binary(Vec<u8>),
    /// A ping from the producer, with its token.
    Ping(Vec<u8>),
    /// A pong from the producer, answering a liveness probe.
    Pong(Vec<u8>),
    /// The producer closed the connection.
    Close,
    /// Reading from the connection failed.
    TransportError,
    /// The inactivity interval elapsed.
    InactivityTick,
    /// Sending a pong or a liveness probe failed.
    SendFailed,
}

/// What an ingest session does next.
pub enum IngestAction {
    /// Store the value as the stream's last value, then broadcast it.
    Publish(String),
    /// Answer a ping with a pong carrying the same token.
    Reply(Vec<u8>),
    /// Send a liveness probe to the producer.
    Probe,
    /// Nothing to do: wait for the next event.
    Wait,
    /// End the session and release the connection.
    Close,
}

/// What a consumer connection or the stream hands to a subscribe session.
pub enum SubscribeEvent {
    /// The stream delivered a published value.
    Delivered(String),
    /// The subscriber fell behind and this many values were dropped for it.
    Lagged(u64),
    /// A ping from the consumer, with its token.
    Ping(Vec<u8>),
    /// Any other frame from the consumer: data or a pong.
    Ignored,
    /// The consumer closed the connection, or its stream ended.
    Close,
    /// Reading from the consumer failed.
    TransportError,
    /// Sending a frame to the consumer failed.
    SendFailed,
}

/// What a subscribe session does next.
pub enum SubscribeAction {
    /// Send the value to the consumer as a text frame, unchanged.
    Forward(String),
    /// Answer a ping with a pong carrying the same token.
    Reply(Vec<u8>),
    /// Nothing to do: wait for the next event.
    Wait,
    /// End the session, dropping its subscription.
    Close,
}

/// The ingest decision for a binary frame whose strict UTF-8 decoding gave
/// `decoded`: publish the text, or drop the frame and keep the session.
pub fn binary_frame_action(decoded: Option<String>) -> (r: IngestAction)
    ensures
        decoded is Some ==> r == IngestAction::Publish(decoded->Some_0),
        decoded is None ==> r is Wait,
{
    match decoded {
        Some(text) => IngestAction::Publish(text),
        None => IngestAction::Wait,
    }
}

/// The next action of an active ingest session on `event`.
pub fn ingest_step(event: IngestEvent) -> (r: IngestAction)
    ensures
        match event {
            IngestEvent::Text(t) => r == IngestAction::Publish(t),
            IngestEvent::Binary(b) => if valid_utf8(b@) {
                r is Publish && r->Publish_0@ == decode_utf8(b@)
            } else {
                r is Wait
            },
            IngestEvent::Ping(p) => r == IngestAction::Reply(p),
            IngestEvent::Pong(_) => r is Wait,
            IngestEvent::InactivityTick => r is Probe,
            IngestEvent::Close | IngestEvent::TransportError | IngestEvent::SendFailed => r is Close,
        },
{
    match event {
        IngestEvent::Text(t) => IngestAction::Publish(t),
        IngestEvent::Binary(b) => binary_frame_action(strict_utf8(&b)),
        IngestEvent::Ping(p) => IngestAction::Reply(p),
        IngestEvent::Pong(_) => IngestAction::Wait,
        IngestEvent::InactivityTick => IngestAction::Probe,
        IngestEvent::Close => IngestAction::Close,
        IngestEvent::TransportError => IngestAction::Close,
        IngestEvent::SendFailed => IngestAction::Close,
    }
}

/// The warm-start action of a subscribe session that has just subscribed and
/// then read the stream's last value: send it first if there is one.
pub fn subscribe_attach(snapshot: Option<String>) -> (r: SubscribeAction)
    ensures
        snapshot is Some ==> r == SubscribeAction::Forward(snapshot->Some_0),
        snapshot is None ==> r is Wait,
{
    match snapshot {
        Some(v) => SubscribeAction::Forward(v),
        None => SubscribeAction::Wait,
    }
}

/// The next action of an active subscribe session on `event`.
pub fn subscribe_step(event: SubscribeEvent) -> (r: SubscribeAction)
    ensures
        match event {
            SubscribeEvent::Delivered(v) => r == SubscribeAction::Forward(v),
            SubscribeEvent::Ping(p) => r == SubscribeAction::Reply(p),
            SubscribeEvent::Lagged(_) | SubscribeEvent::Ignored => r is Wait,
            SubscribeEvent::Close | SubscribeEvent::TransportError | SubscribeEvent::SendFailed => r is Close,
        },
{
    match event {
        SubscribeEvent::Delivered(v) => SubscribeAction::Forward(v),
        SubscribeEvent::Ping(p) => SubscribeAction::Reply(p),
        SubscribeEvent::Lagged(_) => SubscribeAction::Wait,
        SubscribeEvent::Ignored => SubscribeAction::Wait,
        SubscribeEvent::Close => SubscribeAction::Close,
        SubscribeEvent::TransportError => SubscribeAction::Close,
        SubscribeEvent::SendFailed => SubscribeAction::Close,
    }
}

/// The texts of a sequence of strings.
pub open spec fn texts(v: Seq<String>) -> Seq<Seq<char>> {
    v.map_values(|s: String| s@)
}

/// The frames a consumer receives: the warm-start value, if one was read on
/// attach, then every value the stream delivered, in delivery order.
pub open spec fn frames_of(snapshot: Option<Seq<char>>, live: Seq<Seq<char>>) -> Seq<Seq<char>> {
    match snapshot {
        Some(v) => seq![v] + live,
        None => live,
    }
}

/// The text of an optional string.
pub open spec fn text_of(v: Option<String>) -> Option<Seq<char>> {
    match v {
        Some(s) => Some(s@),
        None => None,
    }
}

/// The frames a subscribe session sends when it read `snapshot` on attach
/// and the stream then delivered `live` without lag.
pub fn consumer_frames(snapshot: Option<String>, live: &Vec<String>) -> (r: Vec<String>)
    ensures
        texts(r@) == frames_of(text_of(snapshot), texts(live@)),
{
    let ghost first = text_of(snapshot);
    let mut out: Vec<String> = Vec::new();
    if let SubscribeAction::Forward(v) = subscribe_attach(snapshot) {
        out.push(v);
    }
    assert(texts(out@) =~= frames_of(first, texts(live@.take(0))));
    let mut i: usize = 0;
    while i < live.len()
        invariant
            i <= live@.len(),
            texts(out@) == frames_of(first, texts(live@.take(i as int))),
        decreases live@.len() - i,
    {
        let ghost before = out@;
        let v = live[i].clone();
        if let SubscribeAction::Forward(f) = subscribe_step(SubscribeEvent::Delivered(v)) {
            out.push(f);
        }
        proof {
            assert(out@ =~= before.push(out@.last()));
            assert(out@.last()@ == live@[i as int]@);
            assert(texts(out@) =~= texts(before).push(live@[i as int]@));
            assert(live@.take(i + 1) =~= live@.take(i as int).push(live@[i as int]));
            assert(texts(live@.take(i + 1)) =~= texts(live@.take(i as int)).push(live@[i as int]@));
            assert(texts(out@) =~= frames_of(first, texts(live@.take(i + 1))));
        }
        i = i + 1;
    }
    assert(live@.take(live@.len() as int) =~= live@);
    out
}

/// A session that attaches after a value was published sends that value as
/// its first frame, and every value published afterwards only behind it.
pub proof fn lemma_warm_start_comes_first(last: Seq<char>, live: Seq<Seq<char>>)
    ensures
        frames_of(Some(last), live).len() == live.len() + 1,
        frames_of(Some(last), live)[0] == last,
        frames_of(Some(last), live).subrange(1, live.len() + 1 as int) == live,
{
    assert(frames_of(Some(last), live).subrange(1, live.len() + 1 as int) =~= live);
}

/// A session that attaches before anything was published sends no warm-start
/// frame: its first frame, if any, is the next value published.
pub proof fn lemma_no_warm_start_when_empty(live: Seq<Seq<char>>)
    ensures
        frames_of(None, live) == live,
{
}

/// Two sessions on one stream, whatever each read on attach, send the same
/// live values in the same order when neither lags.
pub proof fn lemma_subscribers_agree_on_live_values(
    first: Option<Seq<char>>,
    second: Option<Seq<char>>,
    live: Seq<Seq<char>>,
)
    ensures
        ({
            let a = frames_of(first, live);
            let b = frames_of(second, live);
            a.subrange(a.len() - live.len(), a.len() as int) == b.subrange(b.len() - live.len(), b.len() as int)
        }),
        ({
            let a = frames_of(first, live);
            a.subrange(a.len() - live.len(), a.len() as int) == live
        }),
{
    let a = frames_of(first, live);
    let b = frames_of(second, live);
    assert(a.subrange(a.len() - live.len(), a.len() as int) =~= live);
    assert(b.subrange(b.len() - live.len(), b.len() as int) =~= live);
}

} // verus!
