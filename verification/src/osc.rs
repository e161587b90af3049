//! Mapping of OSC messages onto control events.
//!
//! Address patterns: `/cc/N value` and `/control/N value` move continuous
//! channel N, `/trigger/N` and `/note/N` trigger channel N, and any other
//! address moves the channel given by the sum of its bytes modulo 128.
use vstd::prelude::*;

use vstd::string::StrSliceExecFns;
use vstd::utf8::encode_utf8;

use crossbeam::channel::Sender;

use crate::bus::try_send;
use crate::event::{BusEvent, ControlEvent, InputSource};

verus! {

broadcast use vstd::seq_lib::group_seq_properties;

/// A received OSC packet. `value` is the first argument of a message as a
/// control value, or `None` when the message has no argument or its first
/// argument is not a number.
pub enum OscPacket<V> {
    Message { addr: String, value: Option<V> },
    Bundle { content: Vec<OscPacket<V>> },
}

/// Splits `s` at every `'/'`, keeping empty pieces.
pub open spec fn split_slash(s: Seq<char>) -> Seq<Seq<char>>
    decreases s.len(),
{
    if s.len() == 0 {
        seq![Seq::<char>::empty()]
    } else {
        let r = split_slash(s.drop_last());
        if s.last() == '/' {
            r.push(Seq::<char>::empty())
        } else {
            r.update(r.len() - 1, r.last().push(s.last()))
        }
    }
}

/// The pieces of `ps` that are not empty, in order.
pub open spec fn drop_empty(ps: Seq<Seq<char>>) -> Seq<Seq<char>>
    decreases ps.len(),
{
    if ps.len() == 0 {
        Seq::empty()
    } else if ps.last().len() > 0 {
        drop_empty(ps.drop_last()).push(ps.last())
    } else {
        drop_empty(ps.drop_last())
    }
}

/// The non-empty pieces of `s` between slashes.
pub open spec fn address_parts(s: Seq<char>) -> Seq<Seq<char>> {
    drop_empty(split_slash(s))
}

pub open spec fn is_digit(c: char) -> bool {
    '0' <= c && c <= '9'
}

/// `s` without a leading `'+'`.
pub open spec fn without_plus(s: Seq<char>) -> Seq<char> {
    if s.len() > 0 && s[0] == '+' {
        s.skip(1)
    } else {
        s
    }
}

pub open spec fn all_digits(d: Seq<char>) -> bool {
    forall|i: int| 0 <= i < d.len() ==> is_digit(#[trigger] d[i])
}

pub open spec fn digits_value(d: Seq<char>) -> nat
    decreases d.len(),
{
    if d.len() == 0 {
        0
    } else {
        digits_value(d.drop_last()) * 10 + ((d.last() as nat) - ('0' as nat)) as nat
    }
}

/// What `str::parse::<u8>` gives for `s`: an optional `'+'`, then one or
/// more decimal digits whose value is at most 255.
pub open spec fn parse_u8(s: Seq<char>) -> Option<u8> {
    let d = without_plus(s);
    if d.len() > 0 && all_digits(d) && digits_value(d) <= 255 {
        Some(digits_value(d) as u8)
    } else {
        None
    }
}

pub open spec fn byte_sum(b: Seq<u8>) -> nat
    decreases b.len(),
{
    if b.len() == 0 {
        0
    } else {
        byte_sum(b.drop_last()) + b.last() as nat
    }
}

/// The channel named by the second address part, or 0.
pub open spec fn channel_part(parts: Seq<Seq<char>>) -> u8 {
    if parts.len() > 1 {
        match parse_u8(parts[1]) {
            Some(c) => c,
            None => 0,
        }
    } else {
        0
    }
}

/// The control event of an OSC message with address `addr` (as characters
/// and as bytes) and control value `value`.
pub open spec fn osc_event<V>(addr: Seq<char>, value: Option<V>) -> Option<ControlEvent<V>> {
    let parts = address_parts(addr);
    if parts.len() == 0 || value is None {
        None
    } else if parts[0] == seq!['c', 'c'] || parts[0] == seq!['c', 'o', 'n', 't', 'r', 'o', 'l'] {
        Some(ControlEvent::Continuous { source: InputSource::Osc, channel: channel_part(parts), value: value->0 })
    } else if parts[0] == seq!['t', 'r', 'i', 'g', 'g', 'e', 'r'] || parts[0] == seq!['n', 'o', 't', 'e'] {
        Some(ControlEvent::Trigger { source: InputSource::Osc, channel: channel_part(parts) })
    } else {
        Some(ControlEvent::Continuous { source: InputSource::Osc, channel: (byte_sum(encode_utf8(addr)) % 128) as u8, value: value->0 })
    }
}

/// The events of the messages in `p`, depth first, in order.
pub open spec fn packet_events<V>(p: OscPacket<V>) -> Seq<ControlEvent<V>>
    decreases p,
{
    match p {
        OscPacket::Message { addr, value } => match osc_event(addr@, value) {
            Some(e) => seq![e],
            None => Seq::empty(),
        },
        OscPacket::Bundle { content } => packets_events(content@),
    }
}

/// The events of the packets `ps`, in order.
pub open spec fn packets_events<V>(ps: Seq<OscPacket<V>>) -> Seq<ControlEvent<V>>
    decreases ps,
{
    if ps.len() == 0 {
        Seq::empty()
    } else {
        packets_events(ps.drop_last()) + packet_events(ps.last())
    }
}

/// The non-empty pieces of `addr` between slashes, as characters.
fn split_address(addr: &str) -> (parts: Vec<Vec<char>>)
    ensures
        parts@.map_values(|p: Vec<char>| p@) == address_parts(addr@),
{
    let n = addr.unicode_len();
    let mut parts: Vec<Vec<char>> = Vec::new();
    let mut cur: Vec<char> = Vec::new();
    let mut i: usize = 0;
    while i < n
        invariant
            n == addr@.len(),
            i <= n,
            parts@.map_values(|p: Vec<char>| p@) == drop_empty(split_slash(addr@.take(i as int)).drop_last()),
            cur@ == split_slash(addr@.take(i as int)).last(),
            split_slash(addr@.take(i as int)).len() > 0,
        decreases n - i,
    {
        let c = addr.get_char(i);
        let ghost sp = split_slash(addr@.take(i as int));
        let ghost old_parts = parts@.map_values(|p: Vec<char>| p@);
        proof {
            assert(addr@.take(i + 1).drop_last() =~= addr@.take(i as int));
            assert(addr@.take(i + 1).last() == c);
        }
        if c == '/' {
            if cur.len() > 0 {
                parts.push(cur);
                proof {
                    assert(parts@.map_values(|p: Vec<char>| p@) =~= old_parts.push(sp.last()));
                    assert(sp.push(Seq::<char>::empty()).drop_last() =~= sp);
                }
            } else {
                proof {
                    assert(sp.push(Seq::<char>::empty()).drop_last() =~= sp);
                }
            }
            cur = Vec::new();
        } else {
            cur.push(c);
            proof {
                let sp2 = sp.update(sp.len() - 1, sp.last().push(c));
                assert(sp2.drop_last() =~= sp.drop_last());
            }
        }
        i = i + 1;
    }
    proof {
        assert(addr@.take(n as int) =~= addr@);
    }
    let ghost sp = split_slash(addr@);
    let ghost before = parts@.map_values(|p: Vec<char>| p@);
    if cur.len() > 0 {
        parts.push(cur);
        assert(parts@.map_values(|p: Vec<char>| p@) =~= before.push(sp.last()));
    }
    assert(sp.drop_last().push(sp.last()) =~= sp);
    parts
}

/// `chars` is exactly `lit`.
fn chars_eq(chars: &Vec<char>, lit: &[char]) -> (r: bool)
    ensures
        r == (chars@ == lit@),
{
    if chars.len() != lit.len() {
        return false;
    }
    let mut i: usize = 0;
    while i < lit.len()
        invariant
            chars@.len() == lit@.len(),
            i <= lit@.len(),
            forall|k: int| 0 <= k < i ==> chars@[k] == lit@[k],
        decreases lit@.len() - i,
    {
        if chars[i] != lit[i] {
            return false;
        }
        i = i + 1;
    }
    assert(chars@ =~= lit@);
    true
}

/// A non-digit, or digits whose value passes 255, make `parse_u8` fail.
proof fn lemma_parse_u8_fails(s: Seq<char>, start: int, i: int)
    requires
        start == (if s.len() > 0 && s[0] == '+' { 1int } else { 0int }),
        start <= i < s.len(),
        !is_digit(s[i]) || (forall|k: int| start <= k <= i ==> is_digit(#[trigger] s[k]))
            && digits_value(s.subrange(start, i + 1)) > 255,
    ensures
        parse_u8(s) is None,
{
    let d = without_plus(s);
    assert(d =~= s.skip(start));
    assert(d[i - start] == s[i]);
    if is_digit(s[i]) {
        assert(d.take(i - start + 1) =~= s.subrange(start, i + 1));
        if all_digits(d) {
            lemma_digits_value_monotone(d, (i - start + 1) as nat);
        }
    } else {
        assert(!is_digit(d[i - start]));
    }
}

/// `str::parse::<u8>` on a sequence of characters.
fn parse_u8_chars(s: &Vec<char>) -> (r: Option<u8>)
    ensures
        r == parse_u8(s@),
{
    let n = s.len();
    let start: usize = if n > 0 && s[0] == '+' { 1 } else { 0 };
    if start >= n {
        return None;
    }
    let mut value: u32 = 0;
    let mut i: usize = start;
    while i < n
        invariant
            n == s@.len(),
            start == (if s@.len() > 0 && s@[0] == '+' { 1int } else { 0int }),
            start <= i <= n,
            value as nat == digits_value(s@.subrange(start as int, i as int)),
            value <= 255,
            forall|k: int| start <= k < i ==> is_digit(#[trigger] s@[k]),
        decreases n - i,
    {
        let c = s[i];
        if !('0' <= c && c <= '9') {
            proof {
                lemma_parse_u8_fails(s@, start as int, i as int);
            }
            return None;
        }
        let digit = (c as u32) - ('0' as u32);
        let next = value * 10 + digit;
        proof {
            let sub = s@.subrange(start as int, i + 1);
            assert(sub.drop_last() =~= s@.subrange(start as int, i as int));
            assert(sub.last() == c);
            assert(digits_value(sub) == next as nat);
        }
        if next > 255 {
            proof {
                lemma_parse_u8_fails(s@, start as int, i as int);
            }
            return None;
        }
        value = next;
        i = i + 1;
    }
    proof {
        let d = without_plus(s@);
        assert(s@.subrange(start as int, n as int) =~= d);
        assert forall|k: int| 0 <= k < d.len() implies is_digit(#[trigger] d[k]) by {
            assert(d[k] == s@[k + start]);
        }
    }
    Some(value as u8)
}

/// Digits never lose value when more are appended.
proof fn lemma_digits_value_monotone(d: Seq<char>, k: nat)
    requires
        k <= d.len(),
        forall|i: int| 0 <= i < d.len() ==> is_digit(#[trigger] d[i]),
    ensures
        digits_value(d.take(k as int)) <= digits_value(d),
    decreases d.len(),
{
    if k < d.len() {
        assert(d.drop_last().take(k as int) =~= d.take(k as int));
        lemma_digits_value_monotone(d.drop_last(), k);
    } else {
        assert(d.take(k as int) =~= d);
    }
}

/// The sum of the address's UTF-8 bytes modulo 128.
fn address_hash(addr: &str) -> (c: u8)
    ensures
        c == byte_sum(encode_utf8(addr@)) % 128,
{
    let bytes = addr.as_bytes();
    let n = bytes.len();
    let mut acc: u32 = 0;
    let mut i: usize = 0;
    while i < n
        invariant
            n == bytes@.len(),
            bytes@ == encode_utf8(addr@),
            i <= n,
            acc < 128,
            acc as nat == byte_sum(bytes@.take(i as int)) % 128,
        decreases n - i,
    {
        proof {
            assert(bytes@.take(i + 1).drop_last() =~= bytes@.take(i as int));
            let b = bytes@[i as int] as nat;
            let s = byte_sum(bytes@.take(i as int));
            assert((s + b) % 128 == (s % 128 + b) % 128) by (nonlinear_arith);
        }
        acc = (acc + bytes[i] as u32) % 128;
        i = i + 1;
    }
    assert(bytes@.take(n as int) =~= bytes@);
    acc as u8
}

/// The control event that an OSC message asks for, if any.
pub fn message_event<V: Copy>(addr: &str, value: Option<V>) -> (r: Option<ControlEvent<V>>)
    ensures
        r == osc_event(addr@, value),
{
    let parts = split_address(addr);
    if parts.len() == 0 {
        return None;
    }
    let v = match value {
        Some(v) => v,
        None => return None,
    };
    let ghost ps = address_parts(addr@);
    assert(ps[0] == parts@[0]@);
    let channel: u8 = if parts.len() > 1 {
        assert(ps[1] == parts@[1]@);
        match parse_u8_chars(&parts[1]) {
            Some(c) => c,
            None => 0,
        }
    } else {
        0
    };
    let first = &parts[0];
    if chars_eq(first, &['c', 'c']) || chars_eq(first, &['c', 'o', 'n', 't', 'r', 'o', 'l']) {
        Some(ControlEvent::Continuous { source: InputSource::Osc, channel, value: v })
    } else if chars_eq(first, &['t', 'r', 'i', 'g', 'g', 'e', 'r']) || chars_eq(first, &['n', 'o', 't', 'e']) {
        Some(ControlEvent::Trigger { source: InputSource::Osc, channel })
    } else {
        Some(ControlEvent::Continuous { source: InputSource::Osc, channel: address_hash(addr), value: v })
    }
}

/// Appends the events of the messages in `packet` to `out`, depth first.
pub fn collect_packet_events<V: Copy>(packet: &OscPacket<V>, out: &mut Vec<ControlEvent<V>>)
    ensures
        final(out)@ == old(out)@ + packet_events(*packet),
    decreases packet,
{
    match packet {
        OscPacket::Message { addr, value } => {
            match message_event(addr.as_str(), *value) {
                Some(e) => {
                    out.push(e);
                },
                None => {
                    assert(old(out)@ + Seq::<ControlEvent<V>>::empty() =~= old(out)@);
                },
            }
        },
        OscPacket::Bundle { content } => {
            let n = content.len();
            let mut i: usize = 0;
            assert(content@.take(0) =~= Seq::<OscPacket<V>>::empty());
            assert(old(out)@ + Seq::<ControlEvent<V>>::empty() =~= old(out)@);
            while i < n
                invariant
                    n == content@.len(),
                    i <= n,
                    out@ == old(out)@ + packets_events(content@.take(i as int)),
                    *packet == (OscPacket::<V>::Bundle { content: *content }),
                decreases n - i,
            {
                proof {
                    assert(decreases_to!(*packet => (*packet)->content));
                    assert((*packet)->content == *content);
                    assert(decreases_to!(*content => content@));
                    assert(decreases_to!(content@ => content@[i as int]));
                }
                collect_packet_events(&content[i], out);
                proof {
                    let t = content@.take(i + 1);
                    assert(t.drop_last() =~= content@.take(i as int));
                    assert(t.last() == content@[i as int]);
                }
                i = i + 1;
            }
            assert(content@.take(n as int) =~= content@);
        },
    }
}

/// Sends the control events of the messages in `packet` to the bus. Events
/// that do not fit into the bus are dropped.
pub fn handle_packet<V: Copy>(packet: &OscPacket<V>, sender: &Sender<BusEvent<V>>) {
    let mut events: Vec<ControlEvent<V>> = Vec::new();
    collect_packet_events(packet, &mut events);
    let n = events.len();
    let mut i: usize = 0;
    while i < n
        invariant
            n == events@.len(),
            i <= n,
        decreases n - i,
    {
        let _ = try_send(sender, BusEvent::Control(events[i]));
        i = i + 1;
    }
}

} // verus!
