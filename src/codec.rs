use crate::tag::{lemma_tag_byte_tag, tag_byte, tag_canonical, tag_of_byte, DHCPOPTION};
use vstd::prelude::*;

verus! {

/// Structural failures of the codec and of the builders.
#[derive(Debug, Clone, Copy, PartialEq, Eq, Structural)]
pub enum DhcpError {
    /// A hardware address with a wrong octet count or a non-hex octet.
    InvalidHardwareAddress,
    /// A header or an option ran past the bytes at hand.
    Truncated,
    /// Sending or receiving a datagram failed.
    TransportError,
}

/// One tag-length-value option. `len` is the length byte written on the wire.
#[derive(Debug, Clone)]
pub struct DHCPOPTIONS {
    pub tp: DHCPOPTION,
    pub len: u8,
    pub va: Vec<u8>,
}

/// An option as the wire holds it: the tag byte and the value bytes.
pub ghost struct RawOption {
    pub tag: u8,
    pub value: Seq<u8>,
}

pub open spec fn is_pad_or_end(t: u8) -> bool {
    t == 0 || t == 0xFF
}

/// An option whose length byte is the length of its value (Pad and End carry none).
pub open spec fn option_wf(o: DHCPOPTIONS) -> bool {
    !is_pad_or_end(tag_byte(o.tp)) ==> o.len as nat == o.va@.len()
}

/// An option that survives a round trip through the wire: it carries a value,
/// and its tag is canonical.
pub open spec fn option_carries_value(o: DHCPOPTIONS) -> bool {
    &&& option_wf(o)
    &&& tag_canonical(o.tp)
    &&& !is_pad_or_end(tag_byte(o.tp))
}

/// Pad and End are written as their tag alone; any other option as tag, length, value.
pub open spec fn option_bytes(o: DHCPOPTIONS) -> Seq<u8> {
    let t = tag_byte(o.tp);
    if is_pad_or_end(t) {
        seq![t]
    } else {
        seq![t, o.len] + o.va@
    }
}

/// The options written one after the other, in order.
pub open spec fn options_bytes(os: Seq<DHCPOPTIONS>) -> Seq<u8>
    decreases os.len(),
{
    if os.len() == 0 {
        Seq::empty()
    } else {
        option_bytes(os[0]) + options_bytes(os.drop_first())
    }
}

/// The options of a stream, read from its front: Pad is skipped, End or the end
/// of the bytes stops the scan, and an option whose value runs past the bytes
/// makes the stream truncated (`None`).
pub open spec fn decode_options(s: Seq<u8>) -> Option<Seq<RawOption>>
    decreases s.len(),
{
    if s.len() == 0 {
        Some(Seq::empty())
    } else if s[0] == 0 {
        decode_options(s.drop_first())
    } else if s[0] == 0xFF {
        Some(Seq::empty())
    } else if s.len() < 2 || s.len() < 2 + s[1] {
        None
    } else {
        match decode_options(s.subrange(2 + s[1], s.len() as int)) {
            Some(rest) => Some(
                seq![RawOption { tag: s[0], value: s.subrange(2, 2 + s[1]) }] + rest,
            ),
            None => None,
        }
    }
}

/// An option value of the library agrees with a raw option read from the wire.
pub open spec fn option_matches(o: DHCPOPTIONS, r: RawOption) -> bool {
    &&& o.tp == tag_of_byte(r.tag)
    &&& o.len as nat == r.value.len()
    &&& o.va@ == r.value
}

pub open spec fn options_match(os: Seq<DHCPOPTIONS>, rs: Seq<RawOption>) -> bool {
    &&& os.len() == rs.len()
    &&& forall|i: int| 0 <= i < os.len() ==> option_matches(#[trigger] os[i], rs[i])
}

/// What one step of the option scanner meets at a cursor.
pub enum OptionStep {
    /// A Pad byte: skip it.
    Pad,
    /// The End tag: stop.
    End,
    /// An option, and the cursor just past it.
    Item(DHCPOPTIONS, usize),
}

pub proof fn lemma_options_bytes_push(os: Seq<DHCPOPTIONS>, o: DHCPOPTIONS)
    ensures
        options_bytes(os.push(o)) == options_bytes(os) + option_bytes(o),
    decreases os.len(),
{
    if os.len() == 0 {
        assert(os.push(o).drop_first() =~= Seq::<DHCPOPTIONS>::empty());
        assert(os.push(o)[0] == o);
        assert(options_bytes(os.push(o).drop_first()) == Seq::<u8>::empty());
        assert(options_bytes(os.push(o)) =~= options_bytes(os) + option_bytes(o));
    } else {
        assert(os.push(o).drop_first() =~= os.drop_first().push(o));
        lemma_options_bytes_push(os.drop_first(), o);
        assert(options_bytes(os.push(o)) =~= options_bytes(os) + option_bytes(o));
    }
}

/// Appends the wire form of one option to `out`.
pub fn encode_option(o: &DHCPOPTIONS, out: &mut Vec<u8>)
    requires
        option_wf(*o),
    ensures
        final(out)@ == old(out)@ + option_bytes(*o),
{
    let t = o.tp.code();
    out.push(t);
    if t != 0 && t != 0xFF {
        out.push(o.len);
        let mut i: usize = 0;
        while i < o.va.len()
            invariant
                i <= o.va@.len(),
                out@ == old(out)@ + seq![t, o.len] + o.va@.take(i as int),
            decreases o.va@.len() - i,
        {
            out.push(o.va[i]);
            i += 1;
            assert(o.va@.take(i as int) =~= o.va@.take(i - 1).push(o.va@[i - 1]));
        }
        assert(o.va@.take(i as int) =~= o.va@);
    }
    assert(out@ =~= old(out)@ + option_bytes(*o));
}

/// Appends the wire form of each option to `out`, in order.
pub fn encode_options(os: &Vec<DHCPOPTIONS>, out: &mut Vec<u8>)
    requires
        forall|i: int| 0 <= i < os@.len() ==> option_wf(#[trigger] os@[i]),
    ensures
        final(out)@ == old(out)@ + options_bytes(os@),
{
    let mut i: usize = 0;
    while i < os.len()
        invariant
            i <= os@.len(),
            forall|k: int| 0 <= k < os@.len() ==> option_wf(#[trigger] os@[k]),
            out@ == old(out)@ + options_bytes(os@.take(i as int)),
        decreases os@.len() - i,
    {
        encode_option(&os[i], out);
        proof {
            lemma_options_bytes_push(os@.take(i as int), os@[i as int]);
            assert(os@.take(i + 1) =~= os@.take(i as int).push(os@[i as int]));
        }
        i += 1;
    }
    assert(os@.take(i as int) =~= os@);
}

/// `done` followed by the outcome of the rest of a scan.
pub open spec fn after(done: Seq<RawOption>, rest: Option<Seq<RawOption>>) -> Option<Seq<RawOption>> {
    match rest {
        Some(r) => Some(done + r),
        None => None,
    }
}

/// Copies a run of bytes out of a buffer.
pub(crate) fn copy_range(buf: &[u8], from: usize, to: usize) -> (r: Vec<u8>)
    requires
        from <= to <= buf@.len(),
    ensures
        r@ == buf@.subrange(from as int, to as int),
{
    let mut r: Vec<u8> = Vec::new();
    let mut i: usize = from;
    while i < to
        invariant
            from <= i <= to <= buf@.len(),
            r@ == buf@.subrange(from as int, i as int),
        decreases to - i,
    {
        r.push(buf[i]);
        i += 1;
        assert(r@ =~= buf@.subrange(from as int, i as int));
    }
    r
}

/// Reads the option that starts at `at`: a Pad or End tag is one byte; any
/// other tag is followed by a length byte `L` and `L` value bytes, and fails
/// with `Truncated` where fewer remain.
pub fn decode_option(buf: &[u8], at: usize) -> (r: Result<OptionStep, DhcpError>)
    requires
        at < buf@.len(),
    ensures
        ({
            let s = buf@.skip(at as int);
            match r {
                Ok(OptionStep::Pad) => s[0] == 0,
                Ok(OptionStep::End) => s[0] == 0xFF,
                Ok(OptionStep::Item(o, next)) => {
                    &&& !is_pad_or_end(s[0])
                    &&& 2 <= s.len() && 2 + s[1] <= s.len()
                    &&& next == at + 2 + s[1]
                    &&& option_matches(o, RawOption { tag: s[0], value: s.subrange(2, 2 + s[1]) })
                },
                Err(e) => {
                    &&& e == DhcpError::Truncated
                    &&& !is_pad_or_end(s[0])
                    &&& (s.len() < 2 || s.len() < 2 + s[1])
                },
            }
        }),
{
    let t = buf[at];
    if t == 0 {
        return Ok(OptionStep::Pad);
    }
    if t == 0xFF {
        return Ok(OptionStep::End);
    }
    if buf.len() - at < 2 {
        return Err(DhcpError::Truncated);
    }
    let len = buf[at + 1];
    if buf.len() - at - 2 < len as usize {
        return Err(DhcpError::Truncated);
    }
    let next = at + 2 + len as usize;
    let va = copy_range(buf, at + 2, next);
    proof {
        assert(va@ =~= buf@.skip(at as int).subrange(2, 2 + len));
    }
    Ok(OptionStep::Item(DHCPOPTIONS { tp: DHCPOPTION::from_code(t), len, va }, next))
}

/// Reads the option stream that starts at `start`, up to the End tag or the
/// end of `buf`, whichever comes first; Pad bytes are skipped.
pub fn decode_option_stream(buf: &[u8], start: usize) -> (r: Result<Vec<DHCPOPTIONS>, DhcpError>)
    requires
        start <= buf@.len(),
    ensures
        match decode_options(buf@.skip(start as int)) {
            Some(rs) => r is Ok && options_match(r->Ok_0@, rs),
            None => r == Err::<Vec<DHCPOPTIONS>, DhcpError>(DhcpError::Truncated),
        },
{
    let mut out: Vec<DHCPOPTIONS> = Vec::new();
    let ghost mut done: Seq<RawOption> = Seq::empty();
    let mut at: usize = start;
    while at < buf.len()
        invariant
            start <= at <= buf@.len(),
            decode_options(buf@.skip(start as int)) == after(done, decode_options(buf@.skip(at as int))),
            options_match(out@, done),
        decreases buf@.len() - at,
    {
        let ghost s = buf@.skip(at as int);
        match decode_option(buf, at) {
            Ok(OptionStep::Pad) => {
                assert(s.drop_first() =~= buf@.skip(at + 1));
                at += 1;
            },
            Ok(OptionStep::End) => {
                assert(after(done, Some(Seq::empty())) == Some(done + Seq::<RawOption>::empty()));
                assert(done + Seq::<RawOption>::empty() =~= done);
                return Ok(out);
            },
            Ok(OptionStep::Item(o, next)) => {
                proof {
                    let raw = RawOption { tag: s[0], value: s.subrange(2, 2 + s[1]) };
                    assert(s.subrange(2 + s[1], s.len() as int) =~= buf@.skip(next as int));
                    match decode_options(buf@.skip(next as int)) {
                        Some(rest) => {
                            assert(done + (seq![raw] + rest) =~= done.push(raw) + rest);
                        },
                        None => {},
                    }
                    done = done.push(raw);
                }
                out.push(o);
                at = next;
            },
            Err(e) => {
                return Err(e);
            },
        }
    }
    assert(buf@.skip(at as int) =~= Seq::<u8>::empty());
    assert(done + Seq::<RawOption>::empty() =~= done);
    Ok(out)
}

/// The raw form of an option of the library.
pub open spec fn raw_of(o: DHCPOPTIONS) -> RawOption {
    RawOption { tag: tag_byte(o.tp), value: o.va@ }
}

pub open spec fn raws_of(os: Seq<DHCPOPTIONS>) -> Seq<RawOption> {
    os.map_values(|o: DHCPOPTIONS| raw_of(o))
}

/// Options that carry values, written out and closed by End, read back as
/// themselves; the scan stops at End, so whatever bytes follow it are ignored.
pub proof fn lemma_options_round_trip(os: Seq<DHCPOPTIONS>, trailing: Seq<u8>)
    requires
        forall|i: int| 0 <= i < os.len() ==> option_carries_value(#[trigger] os[i]),
    ensures
        decode_options(options_bytes(os) + seq![0xFFu8] + trailing) == Some(raws_of(os)),
        options_match(os, raws_of(os)),
    decreases os.len(),
{
    let s = options_bytes(os) + seq![0xFFu8] + trailing;
    if os.len() == 0 {
        assert(s[0] == 0xFF);
        assert(raws_of(os) =~= Seq::<RawOption>::empty());
    } else {
        let o = os[0];
        let rest = os.drop_first();
        assert forall|i: int| 0 <= i < rest.len() implies option_carries_value(#[trigger] rest[i]) by {
            assert(rest[i] == os[i + 1]);
        }
        lemma_options_round_trip(rest, trailing);
        lemma_tag_byte_tag(o.tp);
        let l = o.len;
        assert(s =~= seq![tag_byte(o.tp), l] + o.va@ + (options_bytes(rest) + seq![0xFFu8] + trailing));
        assert(s.subrange(2, 2 + l) =~= o.va@);
        assert(s.subrange(2 + l, s.len() as int) =~= options_bytes(rest) + seq![0xFFu8] + trailing);
        assert(raws_of(os) =~= seq![RawOption { tag: s[0], value: s.subrange(2, 2 + l) }] + raws_of(rest));
    }
    assert forall|i: int| 0 <= i < os.len() implies option_matches(#[trigger] os[i], raws_of(os)[i]) by {
        lemma_tag_byte_tag(os[i].tp);
    }
}

/// After options that carry values, an option whose length byte promises more
/// bytes than remain makes the whole stream truncated.
pub proof fn lemma_options_truncated(os: Seq<DHCPOPTIONS>, tag: u8, len: u8, value: Seq<u8>)
    requires
        forall|i: int| 0 <= i < os.len() ==> option_carries_value(#[trigger] os[i]),
        !is_pad_or_end(tag),
        value.len() < len,
    ensures
        decode_options(options_bytes(os) + seq![tag, len] + value) is None,
    decreases os.len(),
{
    let s = options_bytes(os) + seq![tag, len] + value;
    if os.len() == 0 {
        assert(s =~= seq![tag, len] + value);
    } else {
        let o = os[0];
        let rest = os.drop_first();
        assert forall|i: int| 0 <= i < rest.len() implies option_carries_value(#[trigger] rest[i]) by {
            assert(rest[i] == os[i + 1]);
        }
        lemma_options_truncated(rest, tag, len, value);
        let l = o.len;
        assert(s =~= seq![tag_byte(o.tp), l] + o.va@ + (options_bytes(rest) + seq![tag, len] + value));
        assert(s.subrange(2 + l, s.len() as int) =~= options_bytes(rest) + seq![tag, len] + value);
    }
}

/// Option `i` is the first of `os` with tag `t`.
pub open spec fn is_first_tag(os: Seq<DHCPOPTIONS>, t: DHCPOPTION, i: int) -> bool {
    &&& 0 <= i < os.len()
    &&& os[i].tp == t
    &&& forall|j: int| 0 <= j < i ==> (#[trigger] os[j]).tp != t
}

/// The first option of `os` with tag `t`, if any: lookup where the first match wins.
pub open spec fn first_with_tag(os: Seq<DHCPOPTIONS>, t: DHCPOPTION) -> Option<DHCPOPTIONS> {
    if exists|i: int| is_first_tag(os, t, i) {
        Some(os[choose|i: int| is_first_tag(os, t, i)])
    } else {
        None
    }
}

pub proof fn lemma_first_tag_unique(os: Seq<DHCPOPTIONS>, t: DHCPOPTION, i: int, k: int)
    requires
        is_first_tag(os, t, i),
        is_first_tag(os, t, k),
    ensures
        i == k,
{
    if i < k {
        assert(os[i].tp != t);
    } else if k < i {
        assert(os[k].tp != t);
    }
}

/// The index of the first option with tag `t`, or `None` where no option has it.
pub fn find_option(os: &Vec<DHCPOPTIONS>, t: DHCPOPTION) -> (r: Option<usize>)
    ensures
        r is Some ==> is_first_tag(os@, t, r->Some_0 as int)
            && first_with_tag(os@, t) == Some(os@[r->Some_0 as int]),
        r is None ==> (forall|j: int| 0 <= j < os@.len() ==> (#[trigger] os@[j]).tp != t)
            && first_with_tag(os@, t) is None,
{
    let mut i: usize = 0;
    while i < os.len()
        invariant
            i <= os@.len(),
            forall|j: int| 0 <= j < i ==> (#[trigger] os@[j]).tp != t,
        decreases os@.len() - i,
    {
        if os[i].tp == t {
            proof {
                assert(is_first_tag(os@, t, i as int));
                let k = choose|k: int| is_first_tag(os@, t, k);
                lemma_first_tag_unique(os@, t, i as int, k);
            }
            return Some(i);
        }
        i += 1;
    }
    Option::None
}

/// Two lists read from the same raw options find the same first option by tag.
pub proof fn lemma_first_with_tag_same(a: Seq<DHCPOPTIONS>, b: Seq<DHCPOPTIONS>, rs: Seq<RawOption>, t: DHCPOPTION)
    requires
        options_match(a, rs),
        options_match(b, rs),
    ensures
        first_with_tag(a, t) is Some <==> first_with_tag(b, t) is Some,
        first_with_tag(a, t) is Some ==> {
            &&& first_with_tag(a, t)->Some_0.len == first_with_tag(b, t)->Some_0.len
            &&& first_with_tag(a, t)->Some_0.va@ == first_with_tag(b, t)->Some_0.va@
        },
{
    assert forall|i: int| #![trigger a[i]] #![trigger b[i]]
        0 <= i < a.len() implies a[i].tp == b[i].tp && a[i].len == b[i].len && a[i].va@ == b[i].va@ by {
        assert(option_matches(a[i], rs[i]));
        assert(option_matches(b[i], rs[i]));
    }
    if exists|i: int| is_first_tag(a, t, i) {
        let i = choose|i: int| is_first_tag(a, t, i);
        assert(is_first_tag(b, t, i));
        let k = choose|k: int| is_first_tag(b, t, k);
        lemma_first_tag_unique(b, t, i, k);
    } else if exists|i: int| is_first_tag(b, t, i) {
        let i = choose|i: int| is_first_tag(b, t, i);
        assert(is_first_tag(a, t, i));
    }
}

/// Options read from the wire have a length byte equal to their value's length.
pub proof fn lemma_frame_options_wf(os: Seq<DHCPOPTIONS>, rs: Seq<RawOption>)
    requires
        options_match(os, rs),
    ensures
        forall|i: int| 0 <= i < os.len() ==> option_wf(#[trigger] os[i]),
{
    assert forall|i: int| 0 <= i < os.len() implies option_wf(#[trigger] os[i]) by {
        assert(option_matches(os[i], rs[i]));
    }
}

} // verus!
