//! The event dispatcher: turns the body of a SEND_EVENT frame into
//! structured live events.
//!
//! A frame body is a sequence of JSON documents separated by zero bytes.
//! Each document is parsed independently; a malformed document is skipped
//! and does not affect its siblings. Publication of the parsed events
//! happens outside the crate.

use vstd::prelude::*;

use crate::packet::{spec_packet_views, BiliPacket, SpecPacket, OP_SEND_EVENT};

verus! {

/// Declares the JSON value type of the serde_json crate, so that an
/// event can carry its payload through opaquely.
#[verifier::external_type_specification]
#[verifier::external_body]
pub struct ExValue(serde_json::Value);

/// Relies on serde_json's `Value: Clone`; the copy is opaque here, as the
/// value itself is.
pub assume_specification[ <serde_json::Value as Clone>::clone ](
    v: &serde_json::Value,
) -> serde_json::Value;

/// One decoded application-level occurrence: a command name and its
/// JSON payload. The payload is opaque to the contracts here; ownership
/// passes to the consumers it is published to.
#[derive(Debug, Clone)]
pub struct LiveEvent {
    pub cmd: String,
    pub data: serde_json::Value,
}

/// The command name one delimited chunk parses to: `Some` exactly when
/// the chunk is a JSON document with a string `cmd` field. A function of
/// the chunk bytes alone.
pub uninterp spec fn spec_parsed_cmd(chunk: Seq<u8>) -> Option<Seq<char>>;

/// Relies on serde_json's `from_slice` and `Value` accessors: parsing is
/// a deterministic function of the bytes; the `cmd` field must be a
/// string, and a missing `data` field falls back to null.
#[verifier::external_body]
fn parse_event_chunk(chunk: &[u8]) -> (r: Option<LiveEvent>)
    ensures
        r matches Some(e) ==> spec_parsed_cmd(chunk@) == Some(e.cmd@),
        r is None ==> spec_parsed_cmd(chunk@) is None,
{
    let value: serde_json::Value = match serde_json::from_slice(chunk) {
        Ok(v) => v,
        Err(_) => return None,
    };
    let cmd = match value.get("cmd").and_then(|c| c.as_str()) {
        Some(c) => c.to_string(),
        None => return None,
    };
    let data = match value.get("data") {
        Some(d) => d.clone(),
        None => serde_json::Value::Null,
    };
    Some(LiveEvent { cmd, data })
}

/// The chunks of a frame body, split on zero bytes. Splitting an empty
/// body gives one empty chunk; every delimiter ends the chunk before it.
pub open spec fn spec_split_chunks(s: Seq<u8>) -> Seq<Seq<u8>>
    decreases s.len(),
{
    if s.len() == 0 {
        seq![Seq::empty()]
    } else {
        let prev = spec_split_chunks(s.drop_last());
        if s.last() == 0 {
            prev.push(Seq::empty())
        } else {
            prev.update(prev.len() - 1, prev.last().push(s.last()))
        }
    }
}

/// The command names of the events a chunk list yields: empty chunks and
/// chunks that do not parse are skipped, in order.
pub open spec fn spec_chunk_cmds(chunks: Seq<Seq<u8>>) -> Seq<Seq<char>>
    decreases chunks.len(),
{
    if chunks.len() == 0 {
        Seq::empty()
    } else {
        let prev = spec_chunk_cmds(chunks.drop_last());
        let c = chunks.last();
        if c.len() > 0 && spec_parsed_cmd(c) is Some {
            prev.push(spec_parsed_cmd(c).unwrap())
        } else {
            prev
        }
    }
}

/// The command names of the events one frame body yields.
pub open spec fn spec_event_cmds(body: Seq<u8>) -> Seq<Seq<char>> {
    spec_chunk_cmds(spec_split_chunks(body))
}

/// One byte extends the split: a zero byte opens a new empty chunk, any
/// other byte extends the last chunk.
proof fn lemma_split_chunks_step(t: Seq<u8>, b: u8)
    ensures
        b == 0 ==> spec_split_chunks(t.push(b)) == spec_split_chunks(t).push(Seq::<u8>::empty()),
        b != 0 ==> spec_split_chunks(t.push(b)) == spec_split_chunks(t).update(
            spec_split_chunks(t).len() - 1,
            spec_split_chunks(t).last().push(b),
        ),
{
    assert(t.push(b).drop_last() =~= t);
    assert(t.push(b).last() == b);
    assert(t.push(b).len() == t.len() + 1);
}

/// One finished chunk extends the event list exactly when it is
/// non-empty and parses.
proof fn lemma_chunk_cmds_push(done: Seq<Seq<u8>>, c: Seq<u8>)
    ensures
        c.len() > 0 && spec_parsed_cmd(c) is Some ==> spec_chunk_cmds(done.push(c))
            == spec_chunk_cmds(done).push(spec_parsed_cmd(c).unwrap()),
        !(c.len() > 0 && spec_parsed_cmd(c) is Some) ==> spec_chunk_cmds(done.push(c))
            == spec_chunk_cmds(done),
{
    assert(done.push(c).drop_last() =~~= done);
    assert(done.push(c).last() == c);
}

/// The command names carried by a list of events.
pub open spec fn spec_event_views(events: Seq<LiveEvent>) -> Seq<Seq<char>> {
    events.map_values(|e: LiveEvent| e.cmd@)
}

/// Parses the zero-byte-delimited JSON documents of a SEND_EVENT frame
/// body. Exactly the chunks that are non-empty and well-formed become
/// events, in order; a malformed document is skipped and does not affect
/// its siblings.
pub fn parse_events(packet: &BiliPacket) -> (r: Vec<LiveEvent>)
    ensures
        spec_event_views(r@) == spec_event_cmds(packet.body@),
{
    let body = packet.body.as_slice();
    let n = body.len();
    let mut events: Vec<LiveEvent> = Vec::new();
    let mut start: usize = 0;
    let mut i: usize = 0;
    let ghost mut done: Seq<Seq<u8>> = Seq::empty();
    proof {
        assert(body@.take(0) =~= Seq::<u8>::empty());
        assert(spec_split_chunks(body@.take(0)) =~~= done.push(body@.subrange(0, 0)));
        assert(spec_event_views(events@) =~~= spec_chunk_cmds(done));
    }
    while i < n
        invariant
            n == body@.len(),
            start <= i <= n,
            spec_split_chunks(body@.take(i as int)) == done.push(
                body@.subrange(start as int, i as int),
            ),
            spec_event_views(events@) == spec_chunk_cmds(done),
        decreases n - i,
    {
        let ghost cur = body@.subrange(start as int, i as int);
        let b = body[i];
        proof {
            assert(body@.take(i as int + 1) =~= body@.take(i as int).push(b));
            lemma_split_chunks_step(body@.take(i as int), b);
        }
        if b == 0 {
            if i > start {
                let chunk = vstd::slice::slice_subrange(body, start, i);
                match parse_event_chunk(chunk) {
                    Some(e) => {
                        let ghost old_events = events@;
                        events.push(e);
                        proof {
                            assert(spec_event_views(events@) =~= spec_event_views(old_events).push(
                                e.cmd@,
                            ));
                        }
                    },
                    None => {
                    },
                }
            }
            proof {
                lemma_chunk_cmds_push(done, cur);
                done = done.push(cur);
                assert(spec_split_chunks(body@.take(i as int + 1)) =~~= done.push(
                    body@.subrange(i as int + 1, i as int + 1),
                ));
                assert(spec_event_views(events@) =~~= spec_chunk_cmds(done));
            }
            start = i + 1;
        } else {
            proof {
                assert(done.push(cur).len() >= 1);
                assert(done.push(cur).last() == cur);
                assert(done.push(cur).update(done.len() as int, cur.push(b)) =~~= done.push(
                    cur.push(b),
                ));
                assert(cur.push(b) =~= body@.subrange(start as int, i as int + 1));
                assert(spec_split_chunks(body@.take(i as int + 1)) =~~= done.push(
                    body@.subrange(start as int, i as int + 1),
                ));
            }
        }
        i = i + 1;
    }
    let ghost cur = body@.subrange(start as int, n as int);
    if i > start {
        let chunk = vstd::slice::slice_subrange(body, start, n);
        match parse_event_chunk(chunk) {
            Some(e) => {
                let ghost old_events = events@;
                events.push(e);
                proof {
                    assert(spec_event_views(events@) =~= spec_event_views(old_events).push(e.cmd@));
                }
            },
            None => {
            },
        }
    }
    proof {
        lemma_chunk_cmds_push(done, cur);
        done = done.push(cur);
        assert(body@.take(n as int) =~= body@);
        assert(spec_split_chunks(body@) =~~= done);
        assert(spec_event_views(events@) =~~= spec_chunk_cmds(done));
    }
    events
}

/// The command names yielded by every SEND_EVENT frame of a packet list,
/// in order; other operations yield none.
pub open spec fn spec_all_event_cmds(packets: Seq<SpecPacket>) -> Seq<Seq<char>>
    decreases packets.len(),
{
    if packets.len() == 0 {
        Seq::empty()
    } else {
        spec_all_event_cmds(packets.drop_last()) + (if packets.last().operation == OP_SEND_EVENT {
            spec_event_cmds(packets.last().body)
        } else {
            Seq::empty()
        })
    }
}

/// Collects the events of every SEND_EVENT frame in the list, in order.
/// Reply and unknown frames yield nothing here; they are only logged by
/// the surrounding application.
pub fn extract_events(packets: &Vec<BiliPacket>) -> (r: Vec<LiveEvent>)
    ensures
        spec_event_views(r@) == spec_all_event_cmds(spec_packet_views(packets@)),
{
    let mut events: Vec<LiveEvent> = Vec::new();
    let mut i: usize = 0;
    proof {
        assert(spec_packet_views(packets@.take(0)) =~= Seq::<SpecPacket>::empty());
        assert(spec_event_views(events@) =~= spec_all_event_cmds(
            spec_packet_views(packets@.take(0)),
        ));
    }
    while i < packets.len()
        invariant
            i <= packets@.len(),
            spec_event_views(events@) == spec_all_event_cmds(spec_packet_views(packets@.take(i as int))),
        decreases packets@.len() - i,
    {
        let p = &packets[i];
        if p.operation == OP_SEND_EVENT {
            let mut more = parse_events(p);
            let ghost old_events = events@;
            let ghost more_views = spec_event_views(more@);
            events.append(&mut more);
            proof {
                assert(spec_event_views(events@) =~= spec_event_views(old_events) + more_views);
            }
        } else {
            proof {
                assert(spec_event_views(events@) + Seq::<Seq<char>>::empty() =~= spec_event_views(
                    events@,
                ));
            }
        }
        i = i + 1;
        proof {
            assert(spec_packet_views(packets@.take(i as int)).drop_last() =~= spec_packet_views(
                packets@.take(i as int - 1),
            ));
            assert(spec_packet_views(packets@.take(i as int)).last() == packets@[i - 1]@);
        }
    }
    proof {
        assert(packets@.take(packets@.len() as int) =~= packets@);
    }
    events
}

} // verus!
