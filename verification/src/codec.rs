//! The persisted form of a recorded workflow.
//!
//! The boundary contract for storage is independent of the in-memory
//! representation: per event a discriminant tag, the relative timestamp and
//! the variant's fields, preceded by the workflow's name and creation
//! anchor. This codec writes every scalar as eight little-endian bytes —
//! signed values offset into the unsigned range — and every string as its
//! byte length followed by its UTF-8 bytes. Decoding accepts exactly the
//! well-formed encodings and hands back exactly the encoded value; the
//! round-trip law is proved at the end of the module.

use vstd::prelude::*;

use vstd::bytes::{
    lemma_auto_spec_u64_to_from_le_bytes, spec_u64_from_le_bytes, spec_u64_to_le_bytes,
    u64_from_le_bytes, u64_to_le_bytes,
};
use vstd::string::StringSliceAdditionalSpecFns;
use vstd::utf8::{decode_utf8, encode_utf8, valid_utf8};

use crate::event::{Event, EventData, EventDataV, EventV, events_view};

verus! {

/// A scalar on disk: eight little-endian bytes.
pub open spec fn enc_u64v(x: u64) -> Seq<u8> {
    spec_u64_to_le_bytes(x)
}

/// A signed 32-bit value on disk: offset by `2^31` into the unsigned range.
pub open spec fn enc_i32v(x: i32) -> Seq<u8> {
    enc_u64v(((x as int) + 0x80000000) as u64)
}

/// A signed 16-bit value on disk: offset by `2^15` into the unsigned range.
pub open spec fn enc_i16v(x: i16) -> Seq<u8> {
    enc_u64v(((x as int) + 0x8000) as u64)
}

/// A string on disk: its UTF-8 byte length, then its UTF-8 bytes.
pub open spec fn enc_str(s: Seq<char>) -> Seq<u8> {
    enc_u64v(encode_utf8(s).len() as u64) + encode_utf8(s)
}

/// An event payload on disk: a discriminant tag, then the fields.
pub open spec fn enc_data(d: EventDataV) -> Seq<u8> {
    match d {
        EventDataV::Move { x, y } => enc_u64v(1) + enc_i32v(x) + enc_i32v(y),
        EventDataV::Click { x, y, button, clicks, modifiers } => enc_u64v(2) + enc_i32v(x)
            + enc_i32v(y) + enc_u64v(button as u64) + enc_u64v(clicks as u64) + enc_u64v(
            modifiers as u64,
        ),
        EventDataV::Scroll { x, y, dx, dy } => enc_u64v(3) + enc_i32v(x) + enc_i32v(y) + enc_i16v(
            dx,
        ) + enc_i16v(dy),
        EventDataV::Key { code, modifiers } => enc_u64v(4) + enc_u64v(code as u64) + enc_u64v(
            modifiers as u64,
        ),
        EventDataV::Text { text } => enc_u64v(5) + enc_str(text),
        EventDataV::App { name, pid } => enc_u64v(6) + enc_str(name) + enc_i32v(pid),
        EventDataV::Window { app, title } => enc_u64v(7) + enc_str(app) + enc_str(title),
    }
}

/// An event on disk: the timestamp, then the payload.
pub open spec fn enc_event(e: EventV) -> Seq<u8> {
    enc_u64v(e.t) + enc_data(e.data)
}

/// The events from `k` on, one after another.
pub open spec fn enc_events_from(evs: Seq<EventV>, k: int) -> Seq<u8>
    decreases evs.len() - k,
{
    if k < 0 || k >= evs.len() {
        Seq::empty()
    } else {
        enc_event(evs[k]) + enc_events_from(evs, k + 1)
    }
}

/// A whole workflow on disk: name, creation anchor, event count, events.
pub open spec fn enc_workflow(name: Seq<char>, created_ms: u64, evs: Seq<EventV>) -> Seq<u8> {
    enc_str(name) + enc_u64v(created_ms) + enc_u64v(evs.len() as u64) + enc_events_from(evs, 0)
}

fn put_u64(out: &mut Vec<u8>, x: u64)
    ensures
        final(out)@ == old(out)@ + enc_u64v(x),
{
    let mut b = u64_to_le_bytes(x);
    out.append(&mut b);
}

fn put_i32(out: &mut Vec<u8>, x: i32)
    ensures
        final(out)@ == old(out)@ + enc_i32v(x),
{
    let v: u64 = ((x as i64) + 0x80000000) as u64;
    put_u64(out, v);
}

fn put_i16(out: &mut Vec<u8>, x: i16)
    ensures
        final(out)@ == old(out)@ + enc_i16v(x),
{
    let v: u64 = ((x as i64) + 0x8000) as u64;
    put_u64(out, v);
}

fn put_str(out: &mut Vec<u8>, s: &String)
    ensures
        final(out)@ == old(out)@ + enc_str(s@),
{
    let mut bytes = s.as_str().as_bytes_vec();
    put_u64(out, bytes.len() as u64);
    out.append(&mut bytes);
    proof {
        assert(final(out)@ =~= old(out)@ + enc_str(s@));
    }
}

fn put_event(out: &mut Vec<u8>, e: &Event)
    ensures
        final(out)@ == old(out)@ + enc_event(e@),
{
    put_u64(out, e.t);
    match &e.data {
        EventData::Move { x, y } => {
            put_u64(out, 1);
            put_i32(out, *x);
            put_i32(out, *y);
        },
        EventData::Click { x, y, button, clicks, modifiers } => {
            put_u64(out, 2);
            put_i32(out, *x);
            put_i32(out, *y);
            put_u64(out, *button as u64);
            put_u64(out, *clicks as u64);
            put_u64(out, *modifiers as u64);
        },
        EventData::Scroll { x, y, dx, dy } => {
            put_u64(out, 3);
            put_i32(out, *x);
            put_i32(out, *y);
            put_i16(out, *dx);
            put_i16(out, *dy);
        },
        EventData::Key { code, modifiers } => {
            put_u64(out, 4);
            put_u64(out, *code as u64);
            put_u64(out, *modifiers as u64);
        },
        EventData::Text { text } => {
            put_u64(out, 5);
            put_str(out, text);
        },
        EventData::App { name, pid } => {
            put_u64(out, 6);
            put_str(out, name);
            put_i32(out, *pid);
        },
        EventData::Window { app, title } => {
            put_u64(out, 7);
            put_str(out, app);
            put_str(out, title);
        },
    }
    proof {
        assert(final(out)@ =~= old(out)@ + enc_event(e@));
    }
}

/// Encodes a workflow into its persisted form.
pub fn encode_workflow(w: &crate::event::RecordedWorkflow) -> (out: Vec<u8>)
    ensures
        out@ == enc_workflow(w.name@, w.created_ms, events_view(w.events@)),
{
    let ghost evs = events_view(w.events@);
    let mut out: Vec<u8> = Vec::new();
    put_str(&mut out, &w.name);
    put_u64(&mut out, w.created_ms);
    put_u64(&mut out, w.events.len() as u64);
    let ghost header = out@;
    let n = w.events.len();
    let mut i: usize = 0;
    while i < n
        invariant
            0 <= i <= n,
            n == w.events@.len(),
            evs == events_view(w.events@),
            out@ + enc_events_from(evs, i as int) == header + enc_events_from(evs, 0),
        decreases n - i,
    {
        put_event(&mut out, &w.events[i]);
        proof {
            assert(evs[i as int] == w.events@[i as int]@);
            assert(out@ + enc_events_from(evs, i + 1) =~= header + enc_events_from(evs, 0));
        }
        i = i + 1;
    }
    proof {
        assert(enc_events_from(evs, n as int) =~= Seq::<u8>::empty());
        assert(out@ =~= enc_workflow(w.name@, w.created_ms, evs));
    }
    out
}

/// Reads one scalar: eight little-endian bytes.
pub open spec fn dec_u64(b: Seq<u8>, i: int) -> Option<(u64, int)> {
    if 0 <= i && i + 8 <= b.len() {
        Some((spec_u64_from_le_bytes(b.subrange(i, i + 8)), i + 8))
    } else {
        None
    }
}

/// Reads one signed 32-bit value.
pub open spec fn dec_i32(b: Seq<u8>, i: int) -> Option<(i32, int)> {
    match dec_u64(b, i) {
        Some(r) => if r.0 < 0x100000000 {
            Some(((((r.0 as int) - 0x80000000) as i32), r.1))
        } else {
            None
        },
        None => None,
    }
}

/// Reads one signed 16-bit value.
pub open spec fn dec_i16(b: Seq<u8>, i: int) -> Option<(i16, int)> {
    match dec_u64(b, i) {
        Some(r) => if r.0 < 0x10000 {
            Some(((((r.0 as int) - 0x8000) as i16), r.1))
        } else {
            None
        },
        None => None,
    }
}

/// Reads one byte-sized value.
pub open spec fn dec_u8(b: Seq<u8>, i: int) -> Option<(u8, int)> {
    match dec_u64(b, i) {
        Some(r) => if r.0 < 0x100 {
            Some((r.0 as u8, r.1))
        } else {
            None
        },
        None => None,
    }
}

/// Reads one 16-bit unsigned value.
pub open spec fn dec_u16(b: Seq<u8>, i: int) -> Option<(u16, int)> {
    match dec_u64(b, i) {
        Some(r) => if r.0 < 0x10000 {
            Some((r.0 as u16, r.1))
        } else {
            None
        },
        None => None,
    }
}

/// Reads one string: a byte length, then that many valid UTF-8 bytes.
pub open spec fn dec_str(b: Seq<u8>, i: int) -> Option<(Seq<char>, int)> {
    match dec_u64(b, i) {
        Some(r) => {
            let n = r.0 as int;
            let j = r.1;
            if j + n <= b.len() && valid_utf8(b.subrange(j, j + n)) {
                Some((decode_utf8(b.subrange(j, j + n)), j + n))
            } else {
                None
            }
        },
        None => None,
    }
}

/// Reads one event payload: the tag, then the variant's fields.
pub open spec fn dec_data(b: Seq<u8>, i: int) -> Option<(EventDataV, int)> {
    match dec_u64(b, i) {
        None => None,
        Some(tag) => {
            let j = tag.1;
            if tag.0 == 1 {
                match (dec_i32(b, j)) {
                    Some(x) => match dec_i32(b, x.1) {
                        Some(y) => Some((EventDataV::Move { x: x.0, y: y.0 }, y.1)),
                        None => None,
                    },
                    None => None,
                }
            } else if tag.0 == 2 {
                match (dec_i32(b, j)) {
                    Some(x) => match dec_i32(b, x.1) {
                        Some(y) => match dec_u8(b, y.1) {
                            Some(bu) => match dec_u8(b, bu.1) {
                                Some(cl) => match dec_u8(b, cl.1) {
                                    Some(mo) => Some(
                                        (
                                            EventDataV::Click {
                                                x: x.0,
                                                y: y.0,
                                                button: bu.0,
                                                clicks: cl.0,
                                                modifiers: mo.0,
                                            },
                                            mo.1,
                                        ),
                                    ),
                                    None => None,
                                },
                                None => None,
                            },
                            None => None,
                        },
                        None => None,
                    },
                    None => None,
                }
            } else if tag.0 == 3 {
                match (dec_i32(b, j)) {
                    Some(x) => match dec_i32(b, x.1) {
                        Some(y) => match dec_i16(b, y.1) {
                            Some(dx) => match dec_i16(b, dx.1) {
                                Some(dy) => Some(
                                    (EventDataV::Scroll { x: x.0, y: y.0, dx: dx.0, dy: dy.0 }, dy.1),
                                ),
                                None => None,
                            },
                            None => None,
                        },
                        None => None,
                    },
                    None => None,
                }
            } else if tag.0 == 4 {
                match (dec_u16(b, j)) {
                    Some(code) => match dec_u8(b, code.1) {
                        Some(mo) => Some(
                            (EventDataV::Key { code: code.0, modifiers: mo.0 }, mo.1),
                        ),
                        None => None,
                    },
                    None => None,
                }
            } else if tag.0 == 5 {
                match (dec_str(b, j)) {
                    Some(s) => Some((EventDataV::Text { text: s.0 }, s.1)),
                    None => None,
                }
            } else if tag.0 == 6 {
                match (dec_str(b, j)) {
                    Some(s) => match dec_i32(b, s.1) {
                        Some(p) => Some((EventDataV::App { name: s.0, pid: p.0 }, p.1)),
                        None => None,
                    },
                    None => None,
                }
            } else if tag.0 == 7 {
                match (dec_str(b, j)) {
                    Some(a) => match dec_str(b, a.1) {
                        Some(t) => Some((EventDataV::Window { app: a.0, title: t.0 }, t.1)),
                        None => None,
                    },
                    None => None,
                }
            } else {
                None
            }
        },
    }
}

/// Reads one event: the timestamp, then the payload.
pub open spec fn dec_event(b: Seq<u8>, i: int) -> Option<(EventV, int)> {
    match dec_u64(b, i) {
        Some(t) => match dec_data(b, t.1) {
            Some(d) => Some((EventV { t: t.0, data: d.0 }, d.1)),
            None => None,
        },
        None => None,
    }
}

/// Reads `n` events, one after another.
pub open spec fn dec_events(b: Seq<u8>, i: int, n: nat) -> Option<(Seq<EventV>, int)>
    decreases n,
{
    if n == 0 {
        Some((Seq::empty(), i))
    } else {
        match dec_event(b, i) {
            Some(e) => match dec_events(b, e.1, (n - 1) as nat) {
                Some(rest) => Some((seq![e.0] + rest.0, rest.1)),
                None => None,
            },
            None => None,
        }
    }
}

/// Reads a whole workflow; the encoding must account for every byte.
pub open spec fn dec_workflow(b: Seq<u8>) -> Option<(Seq<char>, u64, Seq<EventV>)> {
    match dec_str(b, 0) {
        Some(nm) => match dec_u64(b, nm.1) {
            Some(cr) => match dec_u64(b, cr.1) {
                Some(count) => match dec_events(b, count.1, count.0 as nat) {
                    Some(evs) => if evs.1 == b.len() {
                        Some((nm.0, cr.0, evs.0))
                    } else {
                        None
                    },
                    None => None,
                },
                None => None,
            },
            None => None,
        },
        None => None,
    }
}

/// A string small enough for the length field.
pub open spec fn str_bounded(s: Seq<char>) -> bool {
    encode_utf8(s).len() <= u64::MAX
}

/// Every string of the payload is small enough for its length field.
pub open spec fn data_bounded(d: EventDataV) -> bool {
    match d {
        EventDataV::Text { text } => str_bounded(text),
        EventDataV::App { name, pid } => str_bounded(name),
        EventDataV::Window { app, title } => str_bounded(app) && str_bounded(title),
        _ => true,
    }
}

/// Every string of every event is small enough for its length field.
pub open spec fn events_bounded(evs: Seq<EventV>) -> bool {
    forall|k: int| 0 <= k < evs.len() ==> data_bounded((#[trigger] evs[k]).data)
}

proof fn lemma_enc_u64_len(x: u64)
    ensures
        enc_u64v(x).len() == 8,
{
    lemma_auto_spec_u64_to_from_le_bytes();
}

proof fn lemma_dec_u64_at(b: Seq<u8>, i: int, x: u64)
    requires
        0 <= i,
        i + 8 <= b.len(),
        b.subrange(i, i + 8) == enc_u64v(x),
    ensures
        dec_u64(b, i) == Some((x, i + 8)),
{
    lemma_auto_spec_u64_to_from_le_bytes();
}

proof fn lemma_dec_i32_at(b: Seq<u8>, i: int, x: i32)
    requires
        0 <= i,
        i + 8 <= b.len(),
        b.subrange(i, i + 8) == enc_i32v(x),
    ensures
        dec_i32(b, i) == Some((x, i + 8)),
{
    lemma_dec_u64_at(b, i, ((x as int) + 0x80000000) as u64);
}

proof fn lemma_dec_i16_at(b: Seq<u8>, i: int, x: i16)
    requires
        0 <= i,
        i + 8 <= b.len(),
        b.subrange(i, i + 8) == enc_i16v(x),
    ensures
        dec_i16(b, i) == Some((x, i + 8)),
{
    lemma_dec_u64_at(b, i, ((x as int) + 0x8000) as u64);
}

proof fn lemma_dec_u8_at(b: Seq<u8>, i: int, x: u8)
    requires
        0 <= i,
        i + 8 <= b.len(),
        b.subrange(i, i + 8) == enc_u64v(x as u64),
    ensures
        dec_u8(b, i) == Some((x, i + 8)),
{
    lemma_dec_u64_at(b, i, x as u64);
}

proof fn lemma_dec_u16_at(b: Seq<u8>, i: int, x: u16)
    requires
        0 <= i,
        i + 8 <= b.len(),
        b.subrange(i, i + 8) == enc_u64v(x as u64),
    ensures
        dec_u16(b, i) == Some((x, i + 8)),
{
    lemma_dec_u64_at(b, i, x as u64);
}

proof fn lemma_dec_str_at(b: Seq<u8>, i: int, s: Seq<char>)
    requires
        0 <= i,
        str_bounded(s),
        i + enc_str(s).len() <= b.len(),
        b.subrange(i, i + enc_str(s).len()) == enc_str(s),
    ensures
        dec_str(b, i) == Some((s, i + enc_str(s).len())),
{
    let u = encode_utf8(s);
    let el = enc_str(s);
    lemma_enc_u64_len(u.len() as u64);
    assert(b.subrange(i, i + 8) =~= el.subrange(0, 8));
    assert(el.subrange(0, 8) =~= enc_u64v(u.len() as u64));
    lemma_dec_u64_at(b, i, u.len() as u64);
    assert(b.subrange(i + 8, i + 8 + u.len()) =~= el.subrange(8, el.len() as int));
    assert(el.subrange(8, el.len() as int) =~= u);
    vstd::utf8::encode_utf8_valid_utf8(s);
    vstd::utf8::encode_utf8_decode_utf8(s);
}


proof fn lemma_chunk_eq(b: Seq<u8>, i: int, whole: Seq<u8>, off: int, part: Seq<u8>)
    requires
        0 <= i,
        0 <= off,
        off + part.len() <= whole.len(),
        i + whole.len() <= b.len(),
        b.subrange(i, i + whole.len()) == whole,
        whole.subrange(off, off + part.len()) == part,
    ensures
        b.subrange(i + off, i + off + part.len()) == part,
{
    assert(b.subrange(i + off, i + off + part.len()) =~= whole.subrange(off, off + part.len()));
}

proof fn lemma_dec_data_at(b: Seq<u8>, i: int, d: EventDataV)
    requires
        0 <= i,
        data_bounded(d),
        i + enc_data(d).len() <= b.len(),
        b.subrange(i, i + enc_data(d).len()) == enc_data(d),
    ensures
        dec_data(b, i) == Some((d, i + enc_data(d).len())),
{
    lemma_auto_spec_u64_to_from_le_bytes();
    let w = enc_data(d);
    match d {
        EventDataV::Move { x, y } => {
            assert(w.subrange(0, 8) =~= enc_u64v(1));
            lemma_chunk_eq(b, i, w, 0, enc_u64v(1));
            lemma_dec_u64_at(b, i, 1);
            assert(w.subrange(8, 16) =~= enc_i32v(x));
            lemma_chunk_eq(b, i, w, 8, enc_i32v(x));
            lemma_dec_i32_at(b, i + 8, x);
            assert(w.subrange(16, 24) =~= enc_i32v(y));
            lemma_chunk_eq(b, i, w, 16, enc_i32v(y));
            lemma_dec_i32_at(b, i + 16, y);
        },
        EventDataV::Click { x, y, button, clicks, modifiers } => {
            assert(w.subrange(0, 8) =~= enc_u64v(2));
            lemma_chunk_eq(b, i, w, 0, enc_u64v(2));
            lemma_dec_u64_at(b, i, 2);
            assert(w.subrange(8, 16) =~= enc_i32v(x));
            lemma_chunk_eq(b, i, w, 8, enc_i32v(x));
            lemma_dec_i32_at(b, i + 8, x);
            assert(w.subrange(16, 24) =~= enc_i32v(y));
            lemma_chunk_eq(b, i, w, 16, enc_i32v(y));
            lemma_dec_i32_at(b, i + 16, y);
            assert(w.subrange(24, 32) =~= enc_u64v(button as u64));
            lemma_chunk_eq(b, i, w, 24, enc_u64v(button as u64));
            lemma_dec_u8_at(b, i + 24, button);
            assert(w.subrange(32, 40) =~= enc_u64v(clicks as u64));
            lemma_chunk_eq(b, i, w, 32, enc_u64v(clicks as u64));
            lemma_dec_u8_at(b, i + 32, clicks);
            assert(w.subrange(40, 48) =~= enc_u64v(modifiers as u64));
            lemma_chunk_eq(b, i, w, 40, enc_u64v(modifiers as u64));
            lemma_dec_u8_at(b, i + 40, modifiers);
        },
        EventDataV::Scroll { x, y, dx, dy } => {
            assert(w.subrange(0, 8) =~= enc_u64v(3));
            lemma_chunk_eq(b, i, w, 0, enc_u64v(3));
            lemma_dec_u64_at(b, i, 3);
            assert(w.subrange(8, 16) =~= enc_i32v(x));
            lemma_chunk_eq(b, i, w, 8, enc_i32v(x));
            lemma_dec_i32_at(b, i + 8, x);
            assert(w.subrange(16, 24) =~= enc_i32v(y));
            lemma_chunk_eq(b, i, w, 16, enc_i32v(y));
            lemma_dec_i32_at(b, i + 16, y);
            assert(w.subrange(24, 32) =~= enc_i16v(dx));
            lemma_chunk_eq(b, i, w, 24, enc_i16v(dx));
            lemma_dec_i16_at(b, i + 24, dx);
            assert(w.subrange(32, 40) =~= enc_i16v(dy));
            lemma_chunk_eq(b, i, w, 32, enc_i16v(dy));
            lemma_dec_i16_at(b, i + 32, dy);
        },
        EventDataV::Key { code, modifiers } => {
            assert(w.subrange(0, 8) =~= enc_u64v(4));
            lemma_chunk_eq(b, i, w, 0, enc_u64v(4));
            lemma_dec_u64_at(b, i, 4);
            assert(w.subrange(8, 16) =~= enc_u64v(code as u64));
            lemma_chunk_eq(b, i, w, 8, enc_u64v(code as u64));
            lemma_dec_u16_at(b, i + 8, code);
            assert(w.subrange(16, 24) =~= enc_u64v(modifiers as u64));
            lemma_chunk_eq(b, i, w, 16, enc_u64v(modifiers as u64));
            lemma_dec_u8_at(b, i + 16, modifiers);
        },
        EventDataV::Text { text } => {
            let sl = enc_str(text).len() as int;
            assert(w.subrange(0, 8) =~= enc_u64v(5));
            lemma_chunk_eq(b, i, w, 0, enc_u64v(5));
            lemma_dec_u64_at(b, i, 5);
            assert(w.subrange(8, 8 + sl) =~= enc_str(text));
            lemma_chunk_eq(b, i, w, 8, enc_str(text));
            lemma_dec_str_at(b, i + 8, text);
        },
        EventDataV::App { name, pid } => {
            let sl = enc_str(name).len() as int;
            assert(w.subrange(0, 8) =~= enc_u64v(6));
            lemma_chunk_eq(b, i, w, 0, enc_u64v(6));
            lemma_dec_u64_at(b, i, 6);
            assert(w.subrange(8, 8 + sl) =~= enc_str(name));
            lemma_chunk_eq(b, i, w, 8, enc_str(name));
            lemma_dec_str_at(b, i + 8, name);
            assert(w.subrange(8 + sl, 8 + sl + 8) =~= enc_i32v(pid));
            lemma_chunk_eq(b, i, w, 8 + sl, enc_i32v(pid));
            lemma_dec_i32_at(b, i + 8 + sl, pid);
        },
        EventDataV::Window { app, title } => {
            let al = enc_str(app).len() as int;
            let tl = enc_str(title).len() as int;
            assert(w.subrange(0, 8) =~= enc_u64v(7));
            lemma_chunk_eq(b, i, w, 0, enc_u64v(7));
            lemma_dec_u64_at(b, i, 7);
            assert(w.subrange(8, 8 + al) =~= enc_str(app));
            lemma_chunk_eq(b, i, w, 8, enc_str(app));
            lemma_dec_str_at(b, i + 8, app);
            assert(w.subrange(8 + al, 8 + al + tl) =~= enc_str(title));
            lemma_chunk_eq(b, i, w, 8 + al, enc_str(title));
            lemma_dec_str_at(b, i + 8 + al, title);
        },
    }
}

proof fn lemma_dec_event_at(b: Seq<u8>, i: int, e: EventV)
    requires
        0 <= i,
        data_bounded(e.data),
        i + enc_event(e).len() <= b.len(),
        b.subrange(i, i + enc_event(e).len()) == enc_event(e),
    ensures
        dec_event(b, i) == Some((e, i + enc_event(e).len())),
{
    lemma_auto_spec_u64_to_from_le_bytes();
    let w = enc_event(e);
    let dl = enc_data(e.data).len() as int;
    assert(w.subrange(0, 8) =~= enc_u64v(e.t));
    lemma_chunk_eq(b, i, w, 0, enc_u64v(e.t));
    lemma_dec_u64_at(b, i, e.t);
    assert(w.subrange(8, 8 + dl) =~= enc_data(e.data));
    lemma_chunk_eq(b, i, w, 8, enc_data(e.data));
    lemma_dec_data_at(b, i + 8, e.data);
}

proof fn lemma_dec_events_at(b: Seq<u8>, i: int, evs: Seq<EventV>, k: int)
    requires
        0 <= i,
        0 <= k <= evs.len(),
        events_bounded(evs),
        i + enc_events_from(evs, k).len() <= b.len(),
        b.subrange(i, i + enc_events_from(evs, k).len()) == enc_events_from(evs, k),
    ensures
        dec_events(b, i, (evs.len() - k) as nat) == Some((evs.skip(k), i + enc_events_from(
            evs,
            k,
        ).len())),
    decreases evs.len() - k,
{
    if k == evs.len() {
        assert(evs.skip(k) =~= Seq::<EventV>::empty());
    } else {
        let w = enc_events_from(evs, k);
        let el = enc_event(evs[k]).len() as int;
        let rl = enc_events_from(evs, k + 1).len() as int;
        assert(w.subrange(0, el) =~= enc_event(evs[k]));
        lemma_chunk_eq(b, i, w, 0, enc_event(evs[k]));
        lemma_dec_event_at(b, i, evs[k]);
        assert(w.subrange(el, el + rl) =~= enc_events_from(evs, k + 1));
        lemma_chunk_eq(b, i, w, el, enc_events_from(evs, k + 1));
        lemma_dec_events_at(b, i + el, evs, k + 1);
        assert(seq![evs[k]] + evs.skip(k + 1) =~= evs.skip(k));
    }
}

/// The round-trip law of the codec: decoding an encoded workflow gives back
/// exactly the name, the creation anchor, and the event sequence that were
/// encoded.
pub proof fn lemma_codec_round_trip(name: Seq<char>, created_ms: u64, evs: Seq<EventV>)
    requires
        str_bounded(name),
        events_bounded(evs),
        evs.len() <= u64::MAX,
    ensures
        dec_workflow(enc_workflow(name, created_ms, evs)) == Some((name, created_ms, evs)),
{
    lemma_auto_spec_u64_to_from_le_bytes();
    let b = enc_workflow(name, created_ms, evs);
    let nl = enc_str(name).len() as int;
    let tl = enc_events_from(evs, 0).len() as int;
    assert(b.subrange(0, nl) =~= enc_str(name));
    lemma_dec_str_at(b, 0, name);
    assert(b.subrange(nl, nl + 8) =~= enc_u64v(created_ms));
    lemma_dec_u64_at(b, nl, created_ms);
    assert(b.subrange(nl + 8, nl + 16) =~= enc_u64v(evs.len() as u64));
    lemma_dec_u64_at(b, nl + 8, evs.len() as u64);
    assert(b.subrange(nl + 16, nl + 16 + tl) =~= enc_events_from(evs, 0));
    lemma_dec_events_at(b, nl + 16, evs, 0);
    assert(evs.skip(0) =~= evs);
}


fn copy_range(b: &Vec<u8>, i: usize, len: usize) -> (t: Vec<u8>)
    requires
        i + len <= b@.len(),
    ensures
        t@ == b@.subrange(i as int, i + len),
{
    let mut t: Vec<u8> = Vec::new();
    let bl = b.len();
    let mut j: usize = 0;
    while j < len
        invariant
            0 <= j <= len,
            i + len <= b@.len(),
            bl == b@.len(),
            t@ == b@.subrange(i as int, i + j),
        decreases len - j,
    {
        t.push(b[i + j]);
        proof {
            assert(t@ =~= b@.subrange(i as int, i + j + 1));
        }
        j = j + 1;
    }
    t
}

fn get_u64(b: &Vec<u8>, i: usize) -> (r: Option<(u64, usize)>)
    ensures
        match r {
            Some(p) => dec_u64(b@, i as int) == Some((p.0, p.1 as int)),
            None => dec_u64(b@, i as int) is None,
        },
{
    if b.len() >= 8 && i <= b.len() - 8 {
        let t = copy_range(b, i, 8);
        let x = u64_from_le_bytes(t.as_slice());
        Some((x, i + 8))
    } else {
        None
    }
}

fn get_i32(b: &Vec<u8>, i: usize) -> (r: Option<(i32, usize)>)
    ensures
        match r {
            Some(p) => dec_i32(b@, i as int) == Some((p.0, p.1 as int)),
            None => dec_i32(b@, i as int) is None,
        },
{
    match get_u64(b, i) {
        Some((v, j)) => {
            if v < 0x100000000 {
                Some((((v as i64) - 0x80000000) as i32, j))
            } else {
                None
            }
        },
        None => None,
    }
}

fn get_i16(b: &Vec<u8>, i: usize) -> (r: Option<(i16, usize)>)
    ensures
        match r {
            Some(p) => dec_i16(b@, i as int) == Some((p.0, p.1 as int)),
            None => dec_i16(b@, i as int) is None,
        },
{
    match get_u64(b, i) {
        Some((v, j)) => {
            if v < 0x10000 {
                Some((((v as i64) - 0x8000) as i16, j))
            } else {
                None
            }
        },
        None => None,
    }
}

fn get_u8(b: &Vec<u8>, i: usize) -> (r: Option<(u8, usize)>)
    ensures
        match r {
            Some(p) => dec_u8(b@, i as int) == Some((p.0, p.1 as int)),
            None => dec_u8(b@, i as int) is None,
        },
{
    match get_u64(b, i) {
        Some((v, j)) => {
            if v < 0x100 {
                Some((v as u8, j))
            } else {
                None
            }
        },
        None => None,
    }
}

fn get_u16(b: &Vec<u8>, i: usize) -> (r: Option<(u16, usize)>)
    ensures
        match r {
            Some(p) => dec_u16(b@, i as int) == Some((p.0, p.1 as int)),
            None => dec_u16(b@, i as int) is None,
        },
{
    match get_u64(b, i) {
        Some((v, j)) => {
            if v < 0x10000 {
                Some((v as u16, j))
            } else {
                None
            }
        },
        None => None,
    }
}

fn get_str(b: &Vec<u8>, i: usize) -> (r: Option<(String, usize)>)
    ensures
        match r {
            Some(p) => dec_str(b@, i as int) == Some((p.0@, p.1 as int)),
            None => dec_str(b@, i as int) is None,
        },
{
    match get_u64(b, i) {
        Some((n, j)) => {
            if n <= (b.len() - j) as u64 {
                let nu = n as usize;
                let t = copy_range(b, j, nu);
                match crate::shims::bytes_to_str(t.as_slice()) {
                    Some(st) => {
                        let s = st.to_owned();
                        proof {
                            vstd::utf8::encode_utf8_valid_utf8(st@);
                            vstd::utf8::encode_utf8_decode_utf8(st@);
                        }
                        Some((s, j + nu))
                    },
                    None => None,
                }
            } else {
                None
            }
        },
        None => None,
    }
}

fn get_data(b: &Vec<u8>, i: usize) -> (r: Option<(EventData, usize)>)
    ensures
        match r {
            Some(p) => dec_data(b@, i as int) == Some((p.0@, p.1 as int)),
            None => dec_data(b@, i as int) is None,
        },
{
    let (tag, j) = match get_u64(b, i) {
        Some(p) => p,
        None => {
            return None;
        },
    };
    if tag == 1 {
        let (x, j1) = match get_i32(b, j) {
            Some(p) => p,
            None => {
                return None;
            },
        };
        let (y, j2) = match get_i32(b, j1) {
            Some(p) => p,
            None => {
                return None;
            },
        };
        Some((EventData::Move { x, y }, j2))
    } else if tag == 2 {
        let (x, j1) = match get_i32(b, j) {
            Some(p) => p,
            None => {
                return None;
            },
        };
        let (y, j2) = match get_i32(b, j1) {
            Some(p) => p,
            None => {
                return None;
            },
        };
        let (button, j3) = match get_u8(b, j2) {
            Some(p) => p,
            None => {
                return None;
            },
        };
        let (clicks, j4) = match get_u8(b, j3) {
            Some(p) => p,
            None => {
                return None;
            },
        };
        let (modifiers, j5) = match get_u8(b, j4) {
            Some(p) => p,
            None => {
                return None;
            },
        };
        Some((EventData::Click { x, y, button, clicks, modifiers }, j5))
    } else if tag == 3 {
        let (x, j1) = match get_i32(b, j) {
            Some(p) => p,
            None => {
                return None;
            },
        };
        let (y, j2) = match get_i32(b, j1) {
            Some(p) => p,
            None => {
                return None;
            },
        };
        let (dx, j3) = match get_i16(b, j2) {
            Some(p) => p,
            None => {
                return None;
            },
        };
        let (dy, j4) = match get_i16(b, j3) {
            Some(p) => p,
            None => {
                return None;
            },
        };
        Some((EventData::Scroll { x, y, dx, dy }, j4))
    } else if tag == 4 {
        let (code, j1) = match get_u16(b, j) {
            Some(p) => p,
            None => {
                return None;
            },
        };
        let (modifiers, j2) = match get_u8(b, j1) {
            Some(p) => p,
            None => {
                return None;
            },
        };
        Some((EventData::Key { code, modifiers }, j2))
    } else if tag == 5 {
        let (text, j1) = match get_str(b, j) {
            Some(p) => p,
            None => {
                return None;
            },
        };
        Some((EventData::Text { text }, j1))
    } else if tag == 6 {
        let (name, j1) = match get_str(b, j) {
            Some(p) => p,
            None => {
                return None;
            },
        };
        let (pid, j2) = match get_i32(b, j1) {
            Some(p) => p,
            None => {
                return None;
            },
        };
        Some((EventData::App { name, pid }, j2))
    } else if tag == 7 {
        let (app, j1) = match get_str(b, j) {
            Some(p) => p,
            None => {
                return None;
            },
        };
        let (title, j2) = match get_str(b, j1) {
            Some(p) => p,
            None => {
                return None;
            },
        };
        Some((EventData::Window { app, title }, j2))
    } else {
        None
    }
}

fn get_event(b: &Vec<u8>, i: usize) -> (r: Option<(Event, usize)>)
    ensures
        match r {
            Some(p) => dec_event(b@, i as int) == Some((p.0@, p.1 as int)),
            None => dec_event(b@, i as int) is None,
        },
{
    let (t, j) = match get_u64(b, i) {
        Some(p) => p,
        None => {
            return None;
        },
    };
    match get_data(b, j) {
        Some((data, j1)) => Some((Event { t, data }, j1)),
        None => None,
    }
}

fn get_events(b: &Vec<u8>, i: usize, n: u64) -> (r: Option<(Vec<Event>, usize)>)
    ensures
        match r {
            Some(p) => dec_events(b@, i as int, n as nat) == Some(
                (events_view(p.0@), p.1 as int),
            ),
            None => dec_events(b@, i as int, n as nat) is None,
        },
    decreases n,
{
    if n == 0 {
        let out: Vec<Event> = Vec::new();
        proof {
            assert(events_view(out@) =~= Seq::<EventV>::empty());
        }
        Some((out, i))
    } else {
        let (e, j) = match get_event(b, i) {
            Some(p) => p,
            None => {
                return None;
            },
        };
        match get_events(b, j, n - 1) {
            Some((rest, j1)) => {
                let ghost rv = events_view(rest@);
                let mut out = rest;
                out.insert(0, e);
                proof {
                    assert(events_view(out@) =~= seq![e@] + rv);
                }
                Some((out, j1))
            },
            None => None,
        }
    }
}

/// Timestamps never decrease along a decoded event sequence.
pub open spec fn stamps_sorted(evs: Seq<EventV>) -> bool {
    forall|a: int, c: int| 0 <= a <= c < evs.len() ==> evs[a].t <= evs[c].t
}

fn events_sorted(evs: &Vec<Event>) -> (r: bool)
    ensures
        r == stamps_sorted(events_view(evs@)),
{
    let ghost vs = events_view(evs@);
    let n = evs.len();
    if n == 0 {
        return true;
    }
    let mut i: usize = 1;
    while i < n
        invariant
            1 <= i <= n,
            n == evs@.len(),
            vs == events_view(evs@),
            forall|a: int, c: int| 0 <= a <= c < i ==> vs[a].t <= vs[c].t,
        decreases n - i,
    {
        proof {
            assert(vs[i - 1] == evs@[i - 1]@);
            assert(vs[i as int] == evs@[i as int]@);
        }
        if evs[i - 1].t > evs[i].t {
            return false;
        }
        proof {
            assert forall|a: int, c: int| 0 <= a <= c < i + 1 implies vs[a].t <= vs[c].t by {
                if c == i && a < i {
                    assert(vs[a].t <= vs[i - 1].t);
                }
            }
        }
        i = i + 1;
    }
    true
}

/// Decodes a persisted workflow. Exactly the well-formed encodings that
/// account for every byte and whose timestamps never run backwards give a
/// workflow, and it is exactly the encoded one.
pub fn decode_workflow(bytes: &Vec<u8>) -> (r: Option<crate::event::RecordedWorkflow>)
    ensures
        match r {
            Some(w) => {
                &&& dec_workflow(bytes@) == Some((w.name@, w.created_ms, events_view(w.events@)))
                &&& w.wf()
            },
            None => dec_workflow(bytes@) is None || !stamps_sorted(
                (dec_workflow(bytes@)->0).2,
            ),
        },
{
    let (name, i1) = match get_str(bytes, 0) {
        Some(p) => p,
        None => {
            return None;
        },
    };
    let (created_ms, i2) = match get_u64(bytes, i1) {
        Some(p) => p,
        None => {
            return None;
        },
    };
    let (count, i3) = match get_u64(bytes, i2) {
        Some(p) => p,
        None => {
            return None;
        },
    };
    let (events, i4) = match get_events(bytes, i3, count) {
        Some(p) => p,
        None => {
            return None;
        },
    };
    if i4 != bytes.len() {
        return None;
    }
    if !events_sorted(&events) {
        return None;
    }
    let w = crate::event::RecordedWorkflow { name, created_ms, events };
    proof {
        let vs = events_view(w.events@);
        assert forall|a: int, c: int|
            0 <= a <= c < w.events@.len() implies w.events@[a].t <= w.events@[c].t by {
            assert(vs[a] == w.events@[a]@);
            assert(vs[c] == w.events@[c]@);
        }
    }
    Some(w)
}

} // verus!
