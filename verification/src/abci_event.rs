//! Writes ABCI events as length-prefixed strings into a byte buffer.
//! Go scans this sequentially into `[][]abci.Event` — self-describing,
//! no struct sync required across FFI.
//!
//! Wire format:
//!   per tx:    `[event_count: u16 LE]`
//!   per event: `[type_len: u16 LE][type bytes][attr_count: u16 LE]`
//!   per attr:  `[key_len: u16 LE][key bytes][val_len: u16 LE][val bytes]`
//!
//! Lengths are written truncated to 16 bits, as the engine always has.
use vstd::prelude::*;

use crate::render::{
    attr, decimal, frame, hex, le16, le16_value, lemma_double_mod, lemma_hex_len, lemma_le16_mod,
    push_decimal, push_framed, push_hex, push_le16, push_signed_decimal, signed_decimal,
};
use crate::text::{all_ascii, lemma_ascii_valid_utf8, lemma_decimal_ascii, utf8_string};
use vstd::string::StringSliceAdditionalSpecFns;
use vstd::utf8::encode_utf8;

verus! {

/// Accumulates the ABCI encoding of a transaction's events.
pub struct AbciEventWriter {
    buf: Vec<u8>,
}

impl View for AbciEventWriter {
    type V = Seq<u8>;

    /// The bytes written so far.
    closed spec fn view(&self) -> Seq<u8> {
        self.buf@
    }
}

/// Canonical chain coordinates attached to trigger lifecycle events once the
/// trigger-active gate is live. Ordinary events keep their historical bytes.
#[derive(Clone, Copy, Debug, PartialEq, Eq)]
pub struct EventCoordinates {
    pub block_height: u64,
    pub execution_ordinal: u64,
    pub event_ordinal: u32,
}

/// The `height:execution:event` key of a set of coordinates.
pub open spec fn coordinates_key(c: EventCoordinates) -> Seq<u8> {
    decimal(c.block_height as nat) + seq![58u8] + decimal(c.execution_ordinal as nat) + seq![
        58u8,
    ] + decimal(c.event_ordinal as nat)
}

/// The four attributes that `EventCoordinates::write_attrs` appends.
pub open spec fn coordinates_attrs(c: EventCoordinates) -> Seq<u8> {
    attr("block_height".spec_bytes(), decimal(c.block_height as nat)) + attr(
        "execution_ordinal".spec_bytes(),
        decimal(c.execution_ordinal as nat),
    ) + attr("event_ordinal".spec_bytes(), decimal(c.event_ordinal as nat)) + attr(
        "event_key".spec_bytes(),
        coordinates_key(c),
    )
}

impl EventCoordinates {
    /// Appends `block_height`, `execution_ordinal`, `event_ordinal` and the
    /// combined `event_key` attribute.
    pub fn write_attrs(self, writer: &mut AbciEventWriter)
        ensures
            final(writer)@ == old(writer)@ + coordinates_attrs(self),
    {
        writer.write_attr_u64("block_height", self.block_height);
        writer.write_attr_u64("execution_ordinal", self.execution_ordinal);
        writer.write_attr_u64("event_ordinal", self.event_ordinal as u64);
        let key = self.key_bytes();
        writer.write_attr_bytes("event_key", key.as_slice());
        assert(final(writer)@ =~= old(writer)@ + coordinates_attrs(self));
    }

    fn key_bytes(&self) -> (r: Vec<u8>)
        ensures
            r@ == coordinates_key(*self),
    {
        let mut out: Vec<u8> = Vec::new();
        push_decimal(&mut out, self.block_height);
        out.push(58u8);
        push_decimal(&mut out, self.execution_ordinal);
        out.push(58u8);
        push_decimal(&mut out, self.event_ordinal as u64);
        assert(out@ =~= coordinates_key(*self));
        out
    }

    /// The `height:execution:event` rendering used as the `event_key`
    /// attribute.
    pub fn to_string(&self) -> (r: String)
        ensures
            encode_utf8(r@) == coordinates_key(*self),
    {
        let key = self.key_bytes();
        proof {
            lemma_decimal_ascii(self.block_height as nat);
            lemma_decimal_ascii(self.execution_ordinal as nat);
            lemma_decimal_ascii(self.event_ordinal as nat);
            let k = coordinates_key(*self);
            assert(all_ascii(k));
            lemma_ascii_valid_utf8(k);
        }
        utf8_string(key)
    }
}

impl Default for AbciEventWriter {
    fn default() -> (w: Self)
        ensures
            w@ == Seq::<u8>::empty(),
    {
        Self::new()
    }
}

impl AbciEventWriter {
    /// An empty writer.
    pub fn new() -> (w: Self)
        ensures
            w@ == Seq::<u8>::empty(),
    {
        Self { buf: Vec::with_capacity(256) }
    }

    /// Appends the per-transaction event count.
    pub fn write_tx_header(&mut self, count: u16)
        ensures
            final(self)@ == old(self)@ + le16(count as nat),
    {
        push_le16(&mut self.buf, count as usize);
    }

    /// Appends an event header: its framed type and its attribute count.
    pub fn begin_event(&mut self, event_type: &str, attr_count: u16)
        ensures
            final(self)@ == old(self)@ + frame(event_type.spec_bytes()) + le16(attr_count as nat),
    {
        self.write_str(event_type);
        push_le16(&mut self.buf, attr_count as usize);
        assert(final(self)@ =~= old(self)@ + frame(event_type.spec_bytes()) + le16(
            attr_count as nat,
        ));
    }

    /// Appends a string attribute.
    pub fn write_attr(&mut self, key: &str, value: &str)
        ensures
            final(self)@ == old(self)@ + attr(key.spec_bytes(), value.spec_bytes()),
    {
        self.write_str(key);
        self.write_str(value);
        assert(final(self)@ =~= old(self)@ + attr(key.spec_bytes(), value.spec_bytes()));
    }

    /// Appends an attribute whose value is the decimal rendering of `value`.
    pub fn write_attr_u64(&mut self, key: &str, value: u64)
        ensures
            final(self)@ == old(self)@ + attr(key.spec_bytes(), decimal(value as nat)),
    {
        self.write_str(key);
        let mut digits: Vec<u8> = Vec::new();
        push_decimal(&mut digits, value);
        assert(digits@ =~= decimal(value as nat));
        push_framed(&mut self.buf, digits.as_slice());
        assert(final(self)@ =~= old(self)@ + attr(key.spec_bytes(), decimal(value as nat)));
    }

    /// Appends an attribute whose value is the decimal rendering of a
    /// signed value (a leading `-` for negatives).
    pub(crate) fn write_attr_i64(&mut self, key: &str, value: i64)
        ensures
            final(self)@ == old(self)@ + attr(key.spec_bytes(), signed_decimal(value as int)),
    {
        self.write_str(key);
        let mut digits: Vec<u8> = Vec::new();
        push_signed_decimal(&mut digits, value);
        assert(digits@ =~= signed_decimal(value as int));
        push_framed(&mut self.buf, digits.as_slice());
        assert(final(self)@ =~= old(self)@ + attr(key.spec_bytes(), signed_decimal(value as int)));
    }

    /// Appends an attribute whose value is the lower-case hex rendering of
    /// `bytes`, two digits per byte.
    pub fn write_attr_hex(&mut self, key: &str, bytes: &[u8])
        ensures
            final(self)@ == old(self)@ + attr(key.spec_bytes(), hex(bytes@)),
    {
        self.write_str(key);
        let hex_len = (bytes.len() % 32768) * 2;
        proof {
            lemma_hex_len(bytes@);
            lemma_double_mod(bytes@.len());
            lemma_le16_mod(hex_len as nat, hex(bytes@).len());
        }
        push_le16(&mut self.buf, hex_len);
        push_hex(&mut self.buf, bytes);
        assert(final(self)@ =~= old(self)@ + attr(key.spec_bytes(), hex(bytes@)));
    }

    /// Appends an attribute whose value is an already rendered display
    /// string (the text a `Display` impl produces for the value).
    pub fn write_attr_display(&mut self, key: &str, value: &str)
        ensures
            final(self)@ == old(self)@ + attr(key.spec_bytes(), value.spec_bytes()),
    {
        self.write_attr(key, value);
    }

    /// Appends an attribute whose value is given as raw bytes.
    pub(crate) fn write_attr_bytes(&mut self, key: &str, value: &[u8])
        ensures
            final(self)@ == old(self)@ + attr(key.spec_bytes(), value@),
    {
        self.write_str(key);
        push_framed(&mut self.buf, value);
        assert(final(self)@ =~= old(self)@ + attr(key.spec_bytes(), value@));
    }

    fn write_str(&mut self, s: &str)
        ensures
            final(self)@ == old(self)@ + frame(s.spec_bytes()),
    {
        push_framed(&mut self.buf, s.as_bytes());
    }

    /// The bytes written so far.
    pub fn into_vec(self) -> (v: Vec<u8>)
        ensures
            v@ == self@,
    {
        self.buf
    }
}

// ---------------------------------------------------------------------------
// Reading a transaction's events back
// ---------------------------------------------------------------------------

/// One attribute as written: its key and its rendered value.
pub type AbciAttr = (Seq<u8>, Seq<u8>);

/// One event as written: its type and its attributes.
pub type AbciEventRecord = (Seq<u8>, Seq<AbciAttr>);

/// The bytes of a run of attributes, in order.
pub open spec fn attrs_bytes(attrs: Seq<AbciAttr>) -> Seq<u8>
    decreases attrs.len(),
{
    if attrs.len() == 0 {
        Seq::empty()
    } else {
        attr(attrs[0].0, attrs[0].1) + attrs_bytes(attrs.drop_first())
    }
}

/// The bytes of one event: `begin_event(type, count)` then its attributes.
pub open spec fn event_bytes(e: AbciEventRecord) -> Seq<u8> {
    frame(e.0) + le16(e.1.len()) + attrs_bytes(e.1)
}

/// The bytes of a run of events, in order.
pub open spec fn events_bytes(events: Seq<AbciEventRecord>) -> Seq<u8>
    decreases events.len(),
{
    if events.len() == 0 {
        Seq::empty()
    } else {
        event_bytes(events[0]) + events_bytes(events.drop_first())
    }
}

/// The bytes of a transaction: `write_tx_header(count)` then its events.
pub open spec fn stream_bytes(events: Seq<AbciEventRecord>) -> Seq<u8> {
    le16(events.len()) + events_bytes(events)
}

/// Every count and length fits the 16-bit prefixes.
pub open spec fn fits_u16(n: nat) -> bool {
    n < 65536
}

/// Every attribute's key and value, and their number, fit the 16-bit
/// prefixes.
pub open spec fn attrs_fit(attrs: Seq<AbciAttr>) -> bool {
    &&& fits_u16(attrs.len())
    &&& forall|i: int|
        0 <= i < attrs.len() ==> fits_u16(#[trigger] attrs[i].0.len()) && fits_u16(
            attrs[i].1.len(),
        )
}

/// The event count, every event type and every event's attributes fit the
/// 16-bit prefixes.
pub open spec fn stream_fits(events: Seq<AbciEventRecord>) -> bool {
    &&& fits_u16(events.len())
    &&& forall|i: int|
        0 <= i < events.len() ==> fits_u16(#[trigger] events[i].0.len()) && attrs_fit(
            events[i].1,
        )
}

/// Reads a two-byte little-endian count.
pub open spec fn read_u16(s: Seq<u8>) -> Option<(nat, Seq<u8>)> {
    if s.len() < 2 {
        None
    } else {
        Some((le16_value(s[0], s[1]), s.subrange(2, s.len() as int)))
    }
}

/// Reads one length-prefixed string.
pub open spec fn read_frame(s: Seq<u8>) -> Option<(Seq<u8>, Seq<u8>)> {
    match read_u16(s) {
        Some((n, r)) => if n <= r.len() {
            Some((r.subrange(0, n as int), r.subrange(n as int, r.len() as int)))
        } else {
            None
        },
        None => None,
    }
}

/// Reads `n` attributes.
pub open spec fn read_attrs(s: Seq<u8>, n: nat) -> Option<(Seq<AbciAttr>, Seq<u8>)>
    decreases n,
{
    if n == 0 {
        Some((Seq::empty(), s))
    } else {
        match read_frame(s) {
            Some((k, r1)) => match read_frame(r1) {
                Some((v, r2)) => match read_attrs(r2, (n - 1) as nat) {
                    Some((rest, r3)) => Some((seq![(k, v)] + rest, r3)),
                    None => None,
                },
                None => None,
            },
            None => None,
        }
    }
}

/// Reads one event: its type, its attribute count, then that many attributes.
pub open spec fn read_event(s: Seq<u8>) -> Option<(AbciEventRecord, Seq<u8>)> {
    match read_frame(s) {
        Some((t, r1)) => match read_u16(r1) {
            Some((c, r2)) => match read_attrs(r2, c) {
                Some((attrs, r3)) => Some(((t, attrs), r3)),
                None => None,
            },
            None => None,
        },
        None => None,
    }
}

/// Reads `n` events.
pub open spec fn read_events(s: Seq<u8>, n: nat) -> Option<(Seq<AbciEventRecord>, Seq<u8>)>
    decreases n,
{
    if n == 0 {
        Some((Seq::empty(), s))
    } else {
        match read_event(s) {
            Some((e, r1)) => match read_events(r1, (n - 1) as nat) {
                Some((rest, r2)) => Some((seq![e] + rest, r2)),
                None => None,
            },
            None => None,
        }
    }
}

/// Scans a whole transaction: the event count, then that many events, with
/// nothing left over.
pub open spec fn read_stream(s: Seq<u8>) -> Option<Seq<AbciEventRecord>> {
    match read_u16(s) {
        Some((n, r)) => match read_events(r, n) {
            Some((events, rest)) => if rest.len() == 0 {
                Some(events)
            } else {
                None
            },
            None => None,
        },
        None => None,
    }
}

proof fn lemma_read_u16(n: nat, rest: Seq<u8>)
    requires
        fits_u16(n),
    ensures
        read_u16(le16(n) + rest) == Some((n, rest)),
{
    let s = le16(n) + rest;
    vstd::arithmetic::div_mod::lemma_fundamental_div_mod(n as int, 256);
    vstd::arithmetic::div_mod::lemma_small_mod(n, 65536);
    assert(le16_value(s[0], s[1]) == n);
    assert(s.subrange(2, s.len() as int) =~= rest);
}

proof fn lemma_read_frame(x: Seq<u8>, rest: Seq<u8>)
    requires
        fits_u16(x.len()),
    ensures
        read_frame(frame(x) + rest) == Some((x, rest)),
{
    vstd::seq_lib::lemma_concat_associative(le16(x.len()), x, rest);
    lemma_read_u16(x.len(), x + rest);
    assert((x + rest).subrange(0, x.len() as int) =~= x);
    assert((x + rest).subrange(x.len() as int, (x + rest).len() as int) =~= rest);
}

proof fn lemma_read_attrs(attrs: Seq<AbciAttr>, rest: Seq<u8>)
    requires
        attrs_fit(attrs),
    ensures
        read_attrs(attrs_bytes(attrs) + rest, attrs.len()) == Some((attrs, rest)),
    decreases attrs.len(),
{
    if attrs.len() > 0 {
        let (k, v) = attrs[0];
        let tail = attrs.drop_first();
        assert(attrs_fit(tail)) by {
            assert forall|i: int| 0 <= i < tail.len() implies fits_u16(#[trigger] tail[i].0.len())
                && fits_u16(tail[i].1.len()) by {
                assert(tail[i] == attrs[i + 1]);
            }
        }
        assert(fits_u16(attrs[0].0.len()) && fits_u16(attrs[0].1.len()));
        lemma_read_attrs(tail, rest);
        let t = attrs_bytes(tail);
        vstd::seq_lib::lemma_concat_associative(attr(k, v), t, rest);
        vstd::seq_lib::lemma_concat_associative(frame(k), frame(v), t + rest);
        lemma_read_frame(k, frame(v) + (t + rest));
        lemma_read_frame(v, t + rest);
        assert(seq![(k, v)] + tail =~= attrs);
    }
}

/// One event scans back: reading the bytes of an event, followed by
/// anything, yields its type and its attributes in order, each key with the
/// value written under it, and leaves what follows; provided the type, the
/// attribute count and every key and value fit the 16-bit prefixes.
pub proof fn lemma_read_event(e: AbciEventRecord, rest: Seq<u8>)
    requires
        fits_u16(e.0.len()),
        attrs_fit(e.1),
    ensures
        read_event(event_bytes(e) + rest) == Some((e, rest)),
{
    let a = attrs_bytes(e.1);
    vstd::seq_lib::lemma_concat_associative(frame(e.0) + le16(e.1.len()), a, rest);
    vstd::seq_lib::lemma_concat_associative(frame(e.0), le16(e.1.len()), a + rest);
    lemma_read_frame(e.0, le16(e.1.len()) + (a + rest));
    lemma_read_u16(e.1.len(), a + rest);
    lemma_read_attrs(e.1, rest);
}

proof fn lemma_read_events(events: Seq<AbciEventRecord>, rest: Seq<u8>)
    requires
        forall|i: int|
            0 <= i < events.len() ==> fits_u16(#[trigger] events[i].0.len()) && attrs_fit(
                events[i].1,
            ),
    ensures
        read_events(events_bytes(events) + rest, events.len()) == Some((events, rest)),
    decreases events.len(),
{
    if events.len() > 0 {
        let tail = events.drop_first();
        assert forall|i: int| 0 <= i < tail.len() implies fits_u16(#[trigger] tail[i].0.len())
            && attrs_fit(tail[i].1) by {
            assert(tail[i] == events[i + 1]);
        }
        assert(fits_u16(events[0].0.len()) && attrs_fit(events[0].1));
        lemma_read_events(tail, rest);
        vstd::seq_lib::lemma_concat_associative(
            event_bytes(events[0]),
            events_bytes(tail),
            rest,
        );
        lemma_read_event(events[0], events_bytes(tail) + rest);
        assert(seq![events[0]] + tail =~= events);
    }
}

/// A transaction's events scan back: reading the bytes of a transaction by
/// the documented format consumes every byte and yields exactly the events
/// that were written, in order, provided every count, type, key and value
/// fits the 16-bit length prefixes.
pub proof fn lemma_stream_reads_back(events: Seq<AbciEventRecord>)
    requires
        stream_fits(events),
    ensures
        read_stream(stream_bytes(events)) == Some(events),
{
    assert(events_bytes(events) + Seq::<u8>::empty() =~= events_bytes(events));
    lemma_read_u16(events.len(), events_bytes(events));
    lemma_read_events(events, Seq::empty());
}

/// Writing attributes one call after another gives `attrs_bytes` of them
/// in call order.
pub proof fn lemma_attrs_bytes_push(attrs: Seq<AbciAttr>, a: AbciAttr)
    ensures
        attrs_bytes(attrs.push(a)) == attrs_bytes(attrs) + attr(a.0, a.1),
    decreases attrs.len(),
{
    if attrs.len() == 0 {
        let one = attrs.push(a);
        assert(one.drop_first() =~= Seq::<AbciAttr>::empty());
        assert(attrs_bytes(one.drop_first()) == Seq::<u8>::empty());
        assert(one[0] == a);
        assert(attrs_bytes(one) =~= attr(a.0, a.1));
    } else {
        let tail = attrs.drop_first();
        lemma_attrs_bytes_push(tail, a);
        assert(attrs.push(a).drop_first() =~= tail.push(a));
        vstd::seq_lib::lemma_concat_associative(
            attr(attrs[0].0, attrs[0].1),
            attrs_bytes(tail),
            attr(a.0, a.1),
        );
    }
}

/// Writing events one after another gives `events_bytes` of them in call
/// order.
pub proof fn lemma_events_bytes_push(events: Seq<AbciEventRecord>, e: AbciEventRecord)
    ensures
        events_bytes(events.push(e)) == events_bytes(events) + event_bytes(e),
    decreases events.len(),
{
    if events.len() == 0 {
        let one = events.push(e);
        assert(one.drop_first() =~= Seq::<AbciEventRecord>::empty());
        assert(events_bytes(one.drop_first()) == Seq::<u8>::empty());
        assert(one[0] == e);
        assert(events_bytes(one) =~= event_bytes(e));
    } else {
        let tail = events.drop_first();
        lemma_events_bytes_push(tail, e);
        assert(events.push(e).drop_first() =~= tail.push(e));
        vstd::seq_lib::lemma_concat_associative(
            event_bytes(events[0]),
            events_bytes(tail),
            event_bytes(e),
        );
    }
}

/// Chain coordinates are written as four attributes, each under its own
/// key: `block_height`, `execution_ordinal` and `event_ordinal` hold those
/// numbers in decimal, and `event_key` holds them joined by `:` (byte 58)
/// in the order height, execution, event.
pub proof fn lemma_coordinates_under_own_keys(c: EventCoordinates)
    ensures
        coordinates_attrs(c) == attrs_bytes(
            Seq::<AbciAttr>::empty()
                .push(("block_height".spec_bytes(), decimal(c.block_height as nat)))
                .push(("execution_ordinal".spec_bytes(), decimal(c.execution_ordinal as nat)))
                .push(("event_ordinal".spec_bytes(), decimal(c.event_ordinal as nat)))
                .push(
                    (
                        "event_key".spec_bytes(),
                        decimal(c.block_height as nat) + seq![58u8] + decimal(
                            c.execution_ordinal as nat,
                        ) + seq![58u8] + decimal(c.event_ordinal as nat),
                    ),
                ),
        ),
{
    let a1 = ("block_height".spec_bytes(), decimal(c.block_height as nat));
    let a2 = ("execution_ordinal".spec_bytes(), decimal(c.execution_ordinal as nat));
    let a3 = ("event_ordinal".spec_bytes(), decimal(c.event_ordinal as nat));
    let a4 = ("event_key".spec_bytes(), coordinates_key(c));
    let s0 = Seq::<AbciAttr>::empty();
    lemma_attrs_bytes_push(s0, a1);
    lemma_attrs_bytes_push(s0.push(a1), a2);
    lemma_attrs_bytes_push(s0.push(a1).push(a2), a3);
    lemma_attrs_bytes_push(s0.push(a1).push(a2).push(a3), a4);
    assert(attrs_bytes(s0) + attr(a1.0, a1.1) =~= attr(a1.0, a1.1));
}

} // verus!
