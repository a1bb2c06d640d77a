//! H.264 bitstream adapters.
//!
//! H.264 video is carried in two framings: Annex B separates NAL units with
//! start codes (`00 00 01` or `00 00 00 01`), while AVCC prefixes each NAL
//! unit with a big-endian length. RTMP/FLV expects AVCC plus an
//! AVCDecoderConfigurationRecord sequence header built from the SPS and PPS.

use vstd::prelude::*;

verus! {

/// NAL unit types relevant for H.264.
#[derive(Debug, Clone, Copy, PartialEq, Eq, Structural)]
pub enum NalUnitType {
    /// Non-IDR slice (P/B frame).
    NonIdrSlice,
    /// IDR slice (keyframe).
    IdrSlice,
    /// Supplemental Enhancement Information.
    Sei,
    /// Sequence Parameter Set.
    Sps,
    /// Picture Parameter Set.
    Pps,
    /// Access Unit Delimiter.
    Aud,
    /// Other/unknown NAL type.
    Other,
}

/// The NAL unit type encoded in the low five bits of a NAL header byte.
pub open spec fn nal_type_of(byte: u8) -> NalUnitType {
    let t = byte % 32;
    if t == 1 {
        NalUnitType::NonIdrSlice
    } else if t == 5 {
        NalUnitType::IdrSlice
    } else if t == 6 {
        NalUnitType::Sei
    } else if t == 7 {
        NalUnitType::Sps
    } else if t == 8 {
        NalUnitType::Pps
    } else if t == 9 {
        NalUnitType::Aud
    } else {
        NalUnitType::Other
    }
}

impl NalUnitType {
    /// Decode a NAL header byte into its type (low five bits).
    pub fn from_byte(byte: u8) -> (r: NalUnitType)
        ensures
            r == nal_type_of(byte),
    {
        let t = byte % 32;
        match t {
            1u8 => NalUnitType::NonIdrSlice,
            5u8 => NalUnitType::IdrSlice,
            6u8 => NalUnitType::Sei,
            7u8 => NalUnitType::Sps,
            8u8 => NalUnitType::Pps,
            9u8 => NalUnitType::Aud,
            _ => NalUnitType::Other,
        }
    }
}

/// A single NAL unit extracted from an Annex B stream: the NAL data includes
/// the header byte but no start code.
#[derive(Debug, Clone)]
pub struct NalUnit {
    /// The NAL unit type.
    pub nal_type: NalUnitType,
    /// The NAL unit data (including the NAL header byte, excluding start code).
    pub data: Vec<u8>,
}

impl NalUnit {
    /// A NAL unit is well-formed when its payload is nonempty and the recorded
    /// type matches the header byte.
    pub open spec fn wf(self) -> bool {
        self.data@.len() > 0 && self.nal_type == nal_type_of(self.data@[0])
    }
}

/// The payload byte sequences of a list of NAL units.
pub open spec fn payloads_of(nals: Seq<NalUnit>) -> Seq<Seq<u8>> {
    nals.map_values(|n: NalUnit| n.data@)
}

/// The four big-endian bytes of a 32-bit value.
pub open spec fn u32_be(x: u32) -> Seq<u8> {
    seq![
        (x / 0x1000000) as u8,
        ((x / 0x10000) % 0x100) as u8,
        ((x / 0x100) % 0x100) as u8,
        (x % 0x100) as u8,
    ]
}

/// The two big-endian bytes of a 16-bit value.
pub open spec fn u16_be(x: u16) -> Seq<u8> {
    seq![(x / 0x100) as u8, (x % 0x100) as u8]
}

/// AVCC framing of a list of NAL payloads: each payload is prefixed by its
/// length as four big-endian bytes.
pub open spec fn avcc_of(ps: Seq<Seq<u8>>) -> Seq<u8>
    decreases ps.len(),
{
    if ps.len() == 0 {
        Seq::empty()
    } else {
        u32_be(ps[0].len() as u32) + ps[0] + avcc_of(ps.drop_first())
    }
}

proof fn lemma_avcc_of_snoc(ps: Seq<Seq<u8>>, p: Seq<u8>)
    ensures
        avcc_of(ps.push(p)) == avcc_of(ps) + u32_be(p.len() as u32) + p,
    decreases ps.len(),
{
    if ps.len() == 0 {
        assert(ps.push(p)[0] == p);
        assert(ps.push(p).drop_first() =~= Seq::<Seq<u8>>::empty());
        assert(avcc_of(Seq::<Seq<u8>>::empty()) =~= Seq::<u8>::empty());
        assert(avcc_of(ps.push(p)) =~= u32_be(p.len() as u32) + p);
        assert(avcc_of(ps) + u32_be(p.len() as u32) + p =~= u32_be(p.len() as u32) + p);
    } else {
        assert(ps.push(p)[0] == ps[0]);
        assert(ps.push(p).drop_first() =~= ps.drop_first().push(p));
        lemma_avcc_of_snoc(ps.drop_first(), p);
        assert(avcc_of(ps.push(p)) =~= avcc_of(ps) + u32_be(p.len() as u32) + p);
    }
}

/// Append the four big-endian bytes of `x` to `out`.
fn push_u32_be(out: &mut Vec<u8>, x: u32)
    ensures
        final(out)@ == old(out)@ + u32_be(x),
{
    out.push((x >> 24) as u8);
    out.push(((x >> 16) & 0xFF) as u8);
    out.push(((x >> 8) & 0xFF) as u8);
    out.push((x & 0xFF) as u8);
    proof {
        assert((x >> 24) as u8 == (x / 0x1000000) as u8
            && ((x >> 16) & 0xFF) as u8 == ((x / 0x10000) % 0x100) as u8
            && ((x >> 8) & 0xFF) as u8 == ((x / 0x100) % 0x100) as u8
            && (x & 0xFF) as u8 == (x % 0x100) as u8) by (bit_vector);
        assert(final(out)@ =~= old(out)@ + u32_be(x));
    }
}

/// Append the two big-endian bytes of `x` to `out`.
fn push_u16_be(out: &mut Vec<u8>, x: u16)
    ensures
        final(out)@ == old(out)@ + u16_be(x),
{
    out.push((x >> 8) as u8);
    out.push((x & 0xFF) as u8);
    proof {
        assert((x >> 8) as u8 == (x / 0x100) as u8 && (x & 0xFF) as u8 == (x % 0x100) as u8)
            by (bit_vector);
        assert(final(out)@ =~= old(out)@ + u16_be(x));
    }
}

/// A start code begins at `i`: `00 00 01`, or `00 00 00 01`. The scanner for
/// the stream head demands four bytes after `i` even for the three-byte form.
pub open spec fn start_code_at(d: Seq<u8>, i: int) -> bool {
    &&& i + 3 < d.len()
    &&& d[i] == 0
    &&& d[i + 1] == 0
    &&& (d[i + 2] == 1 || (d[i + 2] == 0 && d[i + 3] == 1))
}

/// Length of the start code at `i` (3 or 4 bytes), assuming `start_code_at`.
pub open spec fn start_code_len(d: Seq<u8>, i: int) -> int {
    if d[i + 2] == 1 {
        3
    } else {
        4
    }
}

/// A start code as recognised by the scan for the end of a NAL payload; a
/// three-byte code flush with the end of input counts here.
pub open spec fn next_code_at(d: Seq<u8>, j: int) -> bool {
    &&& j + 2 < d.len()
    &&& d[j] == 0
    &&& d[j + 1] == 0
    &&& (d[j + 2] == 1 || (j + 3 < d.len() && d[j + 2] == 0 && d[j + 3] == 1))
}

/// Position where the NAL payload starting at `j` ends: the first start code
/// at or after `j`, or the end of input.
pub open spec fn nal_end_from(d: Seq<u8>, j: int) -> int
    decreases d.len() - j when 0 <= j <= d.len()
{
    if j + 2 >= d.len() {
        d.len() as int
    } else if next_code_at(d, j) {
        j
    } else {
        nal_end_from(d, j + 1)
    }
}

pub proof fn lemma_nal_end_from_bounds(d: Seq<u8>, j: int)
    requires
        0 <= j <= d.len(),
    ensures
        j <= nal_end_from(d, j) <= d.len(),
    decreases d.len() - j,
{
    if j + 2 >= d.len() || next_code_at(d, j) {
    } else {
        lemma_nal_end_from_bounds(d, j + 1);
    }
}

/// The NAL payloads of an Annex B stream, scanning from position `i`: bytes
/// before the first start code are ignored, payloads run between start codes
/// (a trailing payload runs to the end of input), and empty payloads are
/// dropped.
pub open spec fn parse_payloads_from(d: Seq<u8>, i: int) -> Seq<Seq<u8>>
    decreases d.len() - i when 0 <= i <= d.len()
{
    if i >= d.len() {
        Seq::empty()
    } else if !start_code_at(d, i) {
        parse_payloads_from(d, i + 1)
    } else {
        let ns = i + start_code_len(d, i);
        let ne = nal_end_from(d, ns);
        let rest_from = if i < ne <= d.len() {
            ne
        } else {
            i + 1
        };
        if ns < ne {
            seq![d.subrange(ns, ne)] + parse_payloads_from(d, rest_from)
        } else {
            parse_payloads_from(d, rest_from)
        }
    }
}

/// The NAL payloads of a whole Annex B stream.
pub open spec fn annex_b_payloads(d: Seq<u8>) -> Seq<Seq<u8>> {
    parse_payloads_from(d, 0)
}

/// Parse an Annex B byte stream into individual NAL units, without the start
/// codes. Every returned unit has a nonempty payload whose first byte encodes
/// the recorded NAL type.
pub fn parse_annex_b(data: &[u8]) -> (r: Vec<NalUnit>)
    ensures
        payloads_of(r@) == annex_b_payloads(data@),
        forall|k: int| 0 <= k < r@.len() ==> (#[trigger] r@[k]).wf(),
{
    let n = data.len();
    let mut r: Vec<NalUnit> = Vec::new();
    let mut i: usize = 0;
    proof {
        assert(payloads_of(r@) =~= Seq::<Seq<u8>>::empty());
        assert(payloads_of(r@) + parse_payloads_from(data@, 0) =~= parse_payloads_from(
            data@,
            0,
        ));
    }
    while i < n
        invariant
            i <= n,
            n == data@.len(),
            annex_b_payloads(data@) == payloads_of(r@) + parse_payloads_from(data@, i as int),
            forall|k: int| 0 <= k < r@.len() ==> (#[trigger] r@[k]).wf(),
        decreases n - i,
    {
        if !(n - i > 3 && data[i] == 0 && data[i + 1] == 0 && (data[i + 2] == 1 || (data[i + 2]
            == 0 && data[i + 3] == 1))) {
            proof {
                assert(!start_code_at(data@, i as int));
            }
            i += 1;
            continue ;
        }
        let scl: usize = if data[i + 2] == 1 {
            3
        } else {
            4
        };
        let ns = i + scl;
        proof {
            assert(start_code_at(data@, i as int));
            assert(scl == start_code_len(data@, i as int));
        }
        // Scan for the next start code, or the end of input.
        let mut j = ns;
        let mut ne = n;
        let mut found = false;
        while n - j > 2 && !found
            invariant
                ns <= j <= n,
                n == data@.len(),
                if found {
                    ne == j && nal_end_from(data@, ns as int) == j
                } else {
                    ne == n && nal_end_from(data@, ns as int) == nal_end_from(data@, j as int)
                },
            decreases n - j + (if found { 0int } else { 1int }),
        {
            if data[j] == 0 && data[j + 1] == 0 && (data[j + 2] == 1 || (n - j > 3 && data[j + 2]
                == 0 && data[j + 3] == 1)) {
                proof {
                    assert(next_code_at(data@, j as int));
                }
                ne = j;
                found = true;
            } else {
                proof {
                    assert(!next_code_at(data@, j as int));
                }
                j += 1;
            }
        }
        proof {
            if !found {
                assert(nal_end_from(data@, j as int) == n as int);
            }
            assert(nal_end_from(data@, ns as int) == ne as int);
        }
        if ns < ne {
            let payload_slice = vstd::slice::slice_subrange(data, ns, ne);
            let payload = vstd::slice::slice_to_vec(payload_slice);
            let nal_type = NalUnitType::from_byte(payload[0]);
            let nal = NalUnit { nal_type, data: payload };
            proof {
                let ghost prev = r@;
                assert(nal.wf());
            }
            let ghost prev = r@;
            r.push(nal);
            proof {
                assert(payloads_of(r@) =~= payloads_of(prev).push(data@.subrange(
                    ns as int,
                    ne as int,
                )));
                assert(parse_payloads_from(data@, i as int) =~= seq![data@.subrange(
                    ns as int,
                    ne as int,
                )] + parse_payloads_from(data@, ne as int));
                assert(payloads_of(r@) + parse_payloads_from(data@, ne as int)
                    =~= payloads_of(prev) + parse_payloads_from(data@, i as int));
            }
        } else {
            proof {
                assert(parse_payloads_from(data@, i as int) =~= parse_payloads_from(
                    data@,
                    ne as int,
                ));
            }
        }
        i = ne;
    }
    proof {
        assert(parse_payloads_from(data@, i as int) =~= Seq::<Seq<u8>>::empty());
        assert(payloads_of(r@) =~= payloads_of(r@) + Seq::<Seq<u8>>::empty());
    }
    r
}

/// Convert NAL units to AVCC framing: each NAL unit is emitted as a 4-byte
/// big-endian length followed by its payload, with no start codes.
pub fn nals_to_avcc(nals: &Vec<NalUnit>) -> (r: Vec<u8>)
    requires
        forall|k: int| 0 <= k < nals@.len() ==> (#[trigger] nals@[k]).data@.len() <= u32::MAX,
    ensures
        r@ == avcc_of(payloads_of(nals@)),
{
    let mut buf: Vec<u8> = Vec::new();
    let mut k: usize = 0;
    proof {
        assert(payloads_of(nals@.take(0)) =~= Seq::<Seq<u8>>::empty());
    }
    while k < nals.len()
        invariant
            k <= nals@.len(),
            forall|j: int| 0 <= j < nals@.len() ==> (#[trigger] nals@[j]).data@.len() <= u32::MAX,
            buf@ == avcc_of(payloads_of(nals@.take(k as int))),
        decreases nals@.len() - k,
    {
        let nal = &nals[k];
        push_u32_be(&mut buf, nal.data.len() as u32);
        let mut i: usize = 0;
        let ghost mid = buf@;
        while i < nal.data.len()
            invariant
                i <= nal.data@.len(),
                buf@ == mid + nal.data@.take(i as int),
            decreases nal.data@.len() - i,
        {
            buf.push(nal.data[i]);
            proof {
                assert(nal.data@.take(i + 1) =~= nal.data@.take(i as int).push(nal.data@[i as int]));
            }
            i += 1;
        }
        proof {
            assert(nal.data@.take(nal.data@.len() as int) =~= nal.data@);
            lemma_avcc_of_snoc(payloads_of(nals@.take(k as int)), nal.data@);
            assert(payloads_of(nals@.take(k + 1)) =~= payloads_of(nals@.take(k as int)).push(
                nal.data@,
            ));
        }
        k += 1;
    }
    proof {
        assert(nals@.take(nals@.len() as int) =~= nals@);
    }
    buf
}

/// Append all bytes of `s` to `out`.
fn push_bytes(out: &mut Vec<u8>, s: &[u8])
    ensures
        final(out)@ == old(out)@ + s@,
{
    let mut i: usize = 0;
    let ghost base = out@;
    while i < s.len()
        invariant
            i <= s@.len(),
            out@ == base + s@.take(i as int),
        decreases s@.len() - i,
    {
        out.push(s[i]);
        proof {
            assert(s@.take(i + 1) =~= s@.take(i as int).push(s@[i as int]));
        }
        i += 1;
    }
    proof {
        assert(base + s@.take(s@.len() as int) =~= base + s@);
    }
}

/// The payload of the last NAL unit of type `t` in `ps` (payloads are keyed by
/// the type encoded in their first byte).
pub open spec fn last_payload_of_type(ps: Seq<Seq<u8>>, t: NalUnitType) -> Option<Seq<u8>>
    decreases ps.len(),
{
    if ps.len() == 0 {
        None
    } else if ps.last().len() > 0 && nal_type_of(ps.last()[0]) == t {
        Some(ps.last())
    } else {
        last_payload_of_type(ps.drop_last(), t)
    }
}

/// Extract the last SPS and PPS NAL payloads from Annex B header data, as
/// emitted by an encoder ahead of its first frame. Returns `None` unless both
/// an SPS and a PPS are present.
pub fn extract_sps_pps(annex_b_headers: &[u8]) -> (r: Option<(Vec<u8>, Vec<u8>)>)
    ensures
        ({
            let ps = annex_b_payloads(annex_b_headers@);
            match r {
                Some(pair) => {
                    &&& last_payload_of_type(ps, NalUnitType::Sps) == Some(pair.0@)
                    &&& last_payload_of_type(ps, NalUnitType::Pps) == Some(pair.1@)
                },
                None => last_payload_of_type(ps, NalUnitType::Sps) is None
                    || last_payload_of_type(ps, NalUnitType::Pps) is None,
            }
        }),
{
    let nals = parse_annex_b(annex_b_headers);
    let ghost ps = annex_b_payloads(annex_b_headers@);
    let mut sps: Option<Vec<u8>> = None;
    let mut pps: Option<Vec<u8>> = None;
    let mut k: usize = 0;
    proof {
        assert(payloads_of(nals@).take(0) =~= Seq::<Seq<u8>>::empty());
    }
    while k < nals.len()
        invariant
            k <= nals@.len(),
            payloads_of(nals@) == ps,
            forall|j: int| 0 <= j < nals@.len() ==> (#[trigger] nals@[j]).wf(),
            match sps {
                Some(ref v) => last_payload_of_type(ps.take(k as int), NalUnitType::Sps) == Some(
                    v@,
                ),
                None => last_payload_of_type(ps.take(k as int), NalUnitType::Sps) is None,
            },
            match pps {
                Some(ref v) => last_payload_of_type(ps.take(k as int), NalUnitType::Pps) == Some(
                    v@,
                ),
                None => last_payload_of_type(ps.take(k as int), NalUnitType::Pps) is None,
            },
        decreases nals@.len() - k,
    {
        let nal = &nals[k];
        proof {
            assert(ps.take(k + 1).drop_last() =~= ps.take(k as int));
            assert(ps.take(k + 1).last() == nal.data@);
        }
        match nal.nal_type {
            NalUnitType::Sps => { sps = Some(nal.data.clone()) },
            NalUnitType::Pps => { pps = Some(nal.data.clone()) },
            _ => {},
        }
        k += 1;
    }
    proof {
        assert(ps.take(nals@.len() as int) =~= ps);
    }
    match (sps, pps) {
        (Some(s), Some(p)) => Some((s, p)),
        _ => None,
    }
}

/// Whether a NAL unit carries stream parameters (SPS/PPS) or an access unit
/// delimiter; those belong in the sequence header, not in data tags.
pub open spec fn is_parameter_set_nal(n: NalUnit) -> bool {
    n.nal_type == NalUnitType::Sps || n.nal_type == NalUnitType::Pps || n.nal_type
        == NalUnitType::Aud
}

/// The NAL units of `ns` that carry frame data: SPS, PPS and AUD units
/// removed.
pub open spec fn without_parameter_sets(ns: Seq<NalUnit>) -> Seq<NalUnit> {
    ns.filter(|n: NalUnit| !is_parameter_set_nal(n))
}

/// Filter NAL units, removing SPS, PPS and AUD units: they are already carried
/// by the sequence header sent at stream start.
pub fn filter_parameter_sets(nals: Vec<NalUnit>) -> (r: Vec<NalUnit>)
    ensures
        r@ == without_parameter_sets(nals@),
{
    let mut rest = nals;
    let mut r: Vec<NalUnit> = Vec::new();
    let ghost all = rest@;
    let ghost done: Seq<NalUnit> = Seq::empty();
    proof {
        assert(without_parameter_sets(done) =~= Seq::<NalUnit>::empty());
        assert(done + rest@ =~= all);
    }
    while rest.len() > 0
        invariant
            all == done + rest@,
            r@ == without_parameter_sets(done),
        decreases rest@.len(),
    {
        let ghost prev_done = done;
        let ghost prev_rest = rest@;
        let nal = rest.remove(0);
        proof {
            done = prev_done.push(nal);
            assert(done.drop_last() =~= prev_done);
            assert(all =~= done + rest@);
            reveal_with_fuel(Seq::filter, 2);
            broadcast use vstd::seq_lib::group_seq_properties;
        }
        let keep = match nal.nal_type {
            NalUnitType::Sps => false,
            NalUnitType::Pps => false,
            NalUnitType::Aud => false,
            _ => true,
        };
        proof {
            assert(without_parameter_sets(done) == if !is_parameter_set_nal(nal) {
                without_parameter_sets(prev_done).push(nal)
            } else {
                without_parameter_sets(prev_done)
            });
        }
        if keep {
            r.push(nal);
        }
    }
    proof {
        assert(done + rest@ =~= done);
        assert(without_parameter_sets(all) == without_parameter_sets(done));
    }
    r
}

/// The four-byte start code.
pub open spec fn start_code4() -> Seq<u8> {
    seq![0u8, 0u8, 0u8, 1u8]
}

/// Annex B framing of NAL payloads with four-byte start codes.
pub open spec fn annex_b_of(ps: Seq<Seq<u8>>) -> Seq<u8>
    decreases ps.len(),
{
    if ps.len() == 0 {
        Seq::empty()
    } else {
        start_code4() + ps[0] + annex_b_of(ps.drop_first())
    }
}

/// A payload that survives the framing round trip: nonempty, with no
/// embedded start-code pattern for the scanner to mistake for a boundary.
pub open spec fn round_trip_safe(p: Seq<u8>) -> bool {
    &&& p.len() > 0
    &&& forall|j: int|
        0 <= j && j + 2 < p.len() ==> !(#[trigger] p[j] == 0 && p[j + 1] == 0 && p[j + 2] == 1)
}

/// Every payload of `ps` is round-trip safe.
pub open spec fn all_round_trip_safe(ps: Seq<Seq<u8>>) -> bool {
    forall|k: int| 0 <= k < ps.len() ==> round_trip_safe(#[trigger] ps[k])
}

/// The framing of a nonempty payload list, byte by byte: a start code, the
/// first payload, then the framing of the rest.
proof fn lemma_annex_b_head_bytes(ps: Seq<Seq<u8>>)
    requires
        ps.len() > 0,
    ensures
        annex_b_of(ps).len() == 4 + ps[0].len() + annex_b_of(ps.drop_first()).len(),
        annex_b_of(ps)[0] == 0,
        annex_b_of(ps)[1] == 0,
        annex_b_of(ps)[2] == 0,
        annex_b_of(ps)[3] == 1,
        forall|t: int| 0 <= t < ps[0].len() ==> annex_b_of(ps)[4 + t] == #[trigger] ps[0][t],
        forall|t: int|
            0 <= t < annex_b_of(ps.drop_first()).len() ==> annex_b_of(ps)[4 + ps[0].len() + t]
                == #[trigger] annex_b_of(ps.drop_first())[t],
{
    let sc = start_code4();
    let p = ps[0];
    let tail = annex_b_of(ps.drop_first());
    let e = annex_b_of(ps);
    assert(e == sc + p + tail);
    assert(sc.len() == 4);
    assert(e[0] == (sc + p)[0] && (sc + p)[0] == sc[0]);
    assert(e[1] == (sc + p)[1] && (sc + p)[1] == sc[1]);
    assert(e[2] == (sc + p)[2] && (sc + p)[2] == sc[2]);
    assert(e[3] == (sc + p)[3] && (sc + p)[3] == sc[3]);
    assert forall|t: int| 0 <= t < p.len() implies e[4 + t] == #[trigger] p[t] by {
        assert(e[4 + t] == (sc + p)[4 + t]);
        assert((sc + p)[4 + t] == p[t]);
    }
    assert forall|t: int| 0 <= t < tail.len() implies e[4 + p.len() + t] == #[trigger] tail[t] by {
        assert(e[4 + p.len() + t] == tail[4 + p.len() + t - (sc + p).len()]);
    }
}

/// If no boundary pattern occurs in `[j0, m)` and `m` is either a boundary
/// or the end of input, the payload scan from `j0` ends at `m`.
proof fn lemma_nal_end_scan(d: Seq<u8>, j0: int, m: int)
    requires
        0 <= j0 <= m <= d.len(),
        forall|j: int| j0 <= j < m ==> !next_code_at(d, j),
        m == d.len() || next_code_at(d, m),
    ensures
        nal_end_from(d, j0) == m,
    decreases m - j0,
{
    if j0 == m {
        if m == d.len() {
        }
    } else {
        assert(!next_code_at(d, j0));
        if j0 + 2 >= d.len() {
            // The scan returns the input length; no boundary fits in the
            // remaining window, so m can only be the length.
            if m < d.len() {
                assert(next_code_at(d, m));
                assert(m + 2 < d.len());
                assert(false);
            }
        } else {
            lemma_nal_end_scan(d, j0 + 1, m);
        }
    }
}

/// Parsing an Annex B framing of safe payloads, starting where the framing
/// begins, recovers exactly the payloads.
proof fn lemma_round_trip_from(d: Seq<u8>, i: int, ps: Seq<Seq<u8>>)
    requires
        0 <= i <= d.len(),
        d.skip(i) == annex_b_of(ps),
        all_round_trip_safe(ps),
    ensures
        parse_payloads_from(d, i) == ps,
    decreases ps.len(),
{
    let e = annex_b_of(ps);
    assert forall|k: int| 0 <= k < e.len() implies d[i + k] == #[trigger] e[k] by {
        assert(d.skip(i)[k] == d[k + i]);
        assert(d.skip(i)[k] == e[k]);
    }
    assert(d.len() == i + e.len());
    if ps.len() == 0 {
        assert(i == d.len());
        assert(parse_payloads_from(d, i) =~= ps);
    } else {
        let p = ps[0];
        let rest = ps.drop_first();
        assert(round_trip_safe(p));
        lemma_annex_b_head_bytes(ps);
        let m = i + 4 + p.len();
        assert(d[i] == 0 && d[i + 1] == 0 && d[i + 2] == 0 && d[i + 3] == 1);
        assert(forall|t: int| 0 <= t < p.len() ==> d[i + 4 + t] == #[trigger] p[t]) by {
            assert(forall|t: int| 0 <= t < p.len() ==> d[i + (4 + t)] == #[trigger] e[4 + t]);
        }
        assert(forall|t: int|
            0 <= t < annex_b_of(rest).len() ==> d[i + 4 + p.len() + t] == #[trigger] annex_b_of(
                rest,
            )[t]) by {
            assert(forall|t: int|
                0 <= t < annex_b_of(rest).len() ==> d[i + (4 + p.len() + t)] == #[trigger] e[4
                    + p.len() + t]);
        }
        assert(d.len() >= m);
        assert(start_code_at(d, i));
        assert(start_code_len(d, i) == 4);
        let ns = i + 4;
        // No boundary pattern inside the payload or straddling its end.
        assert forall|j: int| ns <= j < m implies !next_code_at(d, j) by {
            lemma_no_code_in_payload(d, i, p, rest, j);
        }
        if rest.len() == 0 {
            assert(annex_b_of(rest).len() == 0);
            assert(m == d.len());
            lemma_nal_end_scan(d, ns, m);
        } else {
            lemma_annex_b_head_bytes(rest);
            assert(d[m] == 0 && d[m + 1] == 0 && d[m + 2] == 0 && d[m + 3] == 1);
            assert(rest[0].len() > 0);
            assert(m + 3 < d.len());
            assert(next_code_at(d, m));
            lemma_nal_end_scan(d, ns, m);
        }
        assert(nal_end_from(d, ns) == m);
        assert(d.subrange(ns, m) =~= p);
        assert(d.skip(m) =~= annex_b_of(rest));
        assert(all_round_trip_safe(rest)) by {
            assert(forall|k: int| 0 <= k < rest.len() ==> rest[k] == #[trigger] ps[k + 1]);
        }
        lemma_round_trip_from(d, m, rest);
        assert(parse_payloads_from(d, i) == seq![d.subrange(ns, m)] + parse_payloads_from(d, m));
        assert(parse_payloads_from(d, i) =~= ps);
    }
}

/// Inside one framed payload no scanner boundary can occur: the payload is
/// free of start-code patterns, and the window straddling its end runs into
/// the zero bytes of the next start code or the end of input.
proof fn lemma_no_code_in_payload(d: Seq<u8>, i: int, p: Seq<u8>, rest: Seq<Seq<u8>>, j: int)
    requires
        0 <= i,
        round_trip_safe(p),
        all_round_trip_safe(rest),
        i + 4 + p.len() + annex_b_of(rest).len() == d.len(),
        forall|t: int| 0 <= t < p.len() ==> d[i + 4 + t] == p[t],
        forall|t: int|
            0 <= t < annex_b_of(rest).len() ==> d[i + 4 + p.len() + t] == annex_b_of(rest)[t],
        i + 4 <= j < i + 4 + p.len(),
    ensures
        !next_code_at(d, j),
{
    let ns = i + 4;
    let m = i + 4 + p.len();
    let t = j - ns;
    if rest.len() > 0 {
        lemma_annex_b_head_bytes(rest);
        assert(d[m + 0] == annex_b_of(rest)[0]);
        assert(d[m + 1] == annex_b_of(rest)[1]);
        assert(d[m + 2] == annex_b_of(rest)[2]);
        assert(d[m + 3] == annex_b_of(rest)[3]);
        assert(d[m] == 0 && d[m + 1] == 0 && d[m + 2] == 0 && d[m + 3] == 1);
    }
    if next_code_at(d, j) {
        assert(d[j] == 0 && d[j + 1] == 0);
        if d[j + 2] == 1 {
            // A three-byte pattern must lie entirely in the payload (the
            // next bytes after it are zero), contradicting safety.
            if j + 2 < m {
                assert(p[t] == 0 && p[t + 1] == 0 && p[t + 2] == 1);
                assert(false);
            } else if j + 2 == m {
                assert(d[m] == 0 || m == d.len());
                assert(false);
            } else {
                assert(j + 2 == m + 1);
                assert(d[m + 1] == 0 || m + 1 >= d.len());
                assert(false);
            }
        } else {
            assert(j + 3 < d.len() && d[j + 2] == 0 && d[j + 3] == 1);
            // The four-byte pattern embeds a three-byte one at its second
            // position; it cannot fit the payload, and past the payload the
            // next bytes are zero.
            if j + 3 < m {
                assert(p[t + 1] == 0 && p[t + 2] == 0 && p[t + 3] == 1);
                assert(false);
            } else if j + 3 == m {
                assert(d[m] == 1);
                assert(false);
            } else if j + 3 == m + 1 {
                assert(d[m + 1] == 1);
                assert(false);
            } else {
                assert(j + 3 == m + 2);
                assert(d[m + 2] == 1);
                assert(false);
            }
        }
    }
}

/// Annex B framing round trip: parsing the four-byte-start-code framing of
/// safe payloads — nonempty, with no embedded start-code pattern — yields
/// exactly those payloads. Together with the AVCC packer's contract, packing
/// what was parsed reproduces every NAL unit under four-byte length
/// prefixes.
pub proof fn lemma_annex_b_round_trip(ps: Seq<Seq<u8>>)
    requires
        all_round_trip_safe(ps),
    ensures
        annex_b_payloads(annex_b_of(ps)) == ps,
{
    let d = annex_b_of(ps);
    assert(d.skip(0) =~= d);
    lemma_round_trip_from(d, 0, ps);
}

/// Every payload the parser yields is a slice of the input, so none is
/// longer than the input.
pub proof fn lemma_parse_payload_lens(d: Seq<u8>, i: int)
    requires
        0 <= i <= d.len(),
    ensures
        forall|k: int|
            0 <= k < parse_payloads_from(d, i).len() ==> (#[trigger] parse_payloads_from(d, i)[k]).len()
                <= d.len(),
    decreases d.len() - i,
{
    if i >= d.len() {
    } else if !start_code_at(d, i) {
        lemma_parse_payload_lens(d, i + 1);
        assert(parse_payloads_from(d, i) == parse_payloads_from(d, i + 1));
        assert forall|k: int|
            0 <= k < parse_payloads_from(d, i).len() implies (#[trigger] parse_payloads_from(
            d,
            i,
        )[k]).len() <= d.len() by {
            assert(parse_payloads_from(d, i)[k] == parse_payloads_from(d, i + 1)[k]);
        }
    } else {
        let ns = i + start_code_len(d, i);
        let ne = nal_end_from(d, ns);
        lemma_nal_end_from_bounds(d, ns);
        let rest_from = if i < ne <= d.len() {
            ne
        } else {
            i + 1
        };
        lemma_parse_payload_lens(d, rest_from);
        let ps = parse_payloads_from(d, i);
        if ns < ne {
            assert(ps == seq![d.subrange(ns, ne)] + parse_payloads_from(d, rest_from));
            assert forall|k: int| 0 <= k < ps.len() implies (#[trigger] ps[k]).len()
                <= d.len() by {
                if k == 0 {
                    assert(ps[k] == d.subrange(ns, ne));
                } else {
                    assert(ps[k] == parse_payloads_from(d, rest_from)[k - 1]);
                }
            }
        } else {
            assert(ps == parse_payloads_from(d, rest_from));
            assert forall|k: int| 0 <= k < ps.len() implies (#[trigger] ps[k]).len()
                <= d.len() by {
                assert(ps[k] == parse_payloads_from(d, rest_from)[k]);
            }
        }
    }
}

/// The last payload of a type, when present, is one of the payloads.
pub proof fn lemma_last_payload_is_element(ps: Seq<Seq<u8>>, t: NalUnitType)
    ensures
        last_payload_of_type(ps, t) matches Some(p) ==> exists|k: int|
            0 <= k < ps.len() && ps[k] == p,
    decreases ps.len(),
{
    if ps.len() > 0 {
        if ps.last().len() > 0 && nal_type_of(ps.last()[0]) == t {
            assert(ps[ps.len() - 1] == ps.last());
        } else {
            lemma_last_payload_is_element(ps.drop_last(), t);
            match last_payload_of_type(ps.drop_last(), t) {
                Some(p) => {
                    let k = choose|k: int|
                        0 <= k < ps.drop_last().len() && ps.drop_last()[k] == p;
                    assert(ps[k] == p);
                },
                None => {},
            }
        }
    }
}

/// The AVCDecoderConfigurationRecord for one SPS and one PPS: eleven fixed
/// bytes interleaved with the two parameter sets and their big-endian lengths.
pub open spec fn avc_decoder_config_bytes(sps: Seq<u8>, pps: Seq<u8>) -> Seq<u8> {
    seq![1u8, sps[1], sps[2], sps[3], 0xFFu8, 0xE1u8] + u16_be(sps.len() as u16) + sps + seq![1u8]
        + u16_be(pps.len() as u16) + pps
}

/// Build an AVC Decoder Configuration Record from SPS and PPS: the sequence
/// header a subscriber needs before any video data. Fails exactly when the
/// SPS is shorter than the four bytes its header fields occupy.
pub fn build_avc_decoder_config(sps: &[u8], pps: &[u8]) -> (r: Option<Vec<u8>>)
    requires
        sps@.len() <= 0xFFFF,
        pps@.len() <= 0xFFFF,
    ensures
        sps@.len() >= 4 ==> (r matches Some(c) && c@ == avc_decoder_config_bytes(sps@, pps@)),
        sps@.len() < 4 ==> r is None,
{
    if sps.len() < 4 {
        return None;
    }
    let mut buf: Vec<u8> = Vec::new();
    buf.push(0x01);  // configurationVersion
    buf.push(sps[1]);  // AVCProfileIndication
    buf.push(sps[2]);  // profile_compatibility
    buf.push(sps[3]);  // AVCLevelIndication
    buf.push(0xFF);  // reserved (6 ones) | lengthSizeMinusOne = 3
    buf.push(0xE1);  // reserved (3 ones) | numOfSequenceParameterSets = 1
    push_u16_be(&mut buf, sps.len() as u16);
    push_bytes(&mut buf, sps);
    buf.push(0x01);  // numOfPictureParameterSets
    push_u16_be(&mut buf, pps.len() as u16);
    push_bytes(&mut buf, pps);
    proof {
        assert(buf@ =~= avc_decoder_config_bytes(sps@, pps@));
    }
    Some(buf)
}

/// The configuration record is eleven bytes plus the two parameter sets, laid
/// out field by field as `avc_decoder_config_bytes` states.
pub proof fn lemma_avc_decoder_config_layout(sps: Seq<u8>, pps: Seq<u8>)
    requires
        4 <= sps.len() <= 0xFFFF,
        pps.len() <= 0xFFFF,
    ensures
        ({
            let c = avc_decoder_config_bytes(sps, pps);
            &&& c.len() == 11 + sps.len() + pps.len()
            &&& c[0] == 1u8
            &&& c[1] == sps[1]
            &&& c[2] == sps[2]
            &&& c[3] == sps[3]
            &&& c[4] == 0xFFu8
            &&& c[5] == 0xE1u8
            &&& c.subrange(6, 8) == u16_be(sps.len() as u16)
            &&& c.subrange(8, 8 + sps.len() as int) == sps
            &&& c[8 + sps.len() as int] == 1u8
            &&& c.subrange(9 + sps.len() as int, 11 + sps.len() as int) == u16_be(
                pps.len() as u16,
            )
            &&& c.subrange(11 + sps.len() as int, c.len() as int) == pps
        }),
{
    let c = avc_decoder_config_bytes(sps, pps);
    assert(c.subrange(6, 8) =~= u16_be(sps.len() as u16));
    assert(c.subrange(8, 8 + sps.len() as int) =~= sps);
    assert(c.subrange(9 + sps.len() as int, 11 + sps.len() as int) =~= u16_be(pps.len() as u16));
    assert(c.subrange(11 + sps.len() as int, c.len() as int) =~= pps);
}

/// The low 24 bits of a composition-time offset, as a nonnegative value.
pub open spec fn lo24(ct: i32) -> int {
    (ct as int) % 0x1000000
}

/// The three big-endian bytes of a signed 24-bit composition-time offset.
pub open spec fn i24_be(ct: i32) -> Seq<u8> {
    seq![(lo24(ct) / 0x10000) as u8, ((lo24(ct) / 0x100) % 0x100) as u8, (lo24(ct) % 0x100) as u8]
}

/// An FLV video tag for H.264 data: frame type and codec id, AVC packet type,
/// 24-bit composition time, then the payload.
pub open spec fn flv_video_tag_bytes(
    payload: Seq<u8>,
    is_keyframe: bool,
    is_sequence_header: bool,
    composition_time: i32,
) -> Seq<u8> {
    seq![
        if is_keyframe {
            0x17u8
        } else {
            0x27u8
        },
        if is_sequence_header {
            0x00u8
        } else {
            0x01u8
        },
    ] + i24_be(composition_time) + payload
}

/// Build an FLV video tag payload for H.264 data: byte 0 packs the frame type
/// (1 for a keyframe, 2 otherwise) with codec id 7 (AVC), byte 1 is the AVC
/// packet type (0 for a sequence header, 1 for data), bytes 2..5 carry the
/// signed composition-time offset big-endian, and the data follows.
pub fn build_flv_video_tag(
    data: &[u8],
    is_keyframe: bool,
    is_sequence_header: bool,
    composition_time: i32,
) -> (r: Vec<u8>)
    ensures
        r@ == flv_video_tag_bytes(data@, is_keyframe, is_sequence_header, composition_time),
{
    let mut buf: Vec<u8> = Vec::new();
    buf.push(if is_keyframe {
        0x17
    } else {
        0x27
    });
    buf.push(if is_sequence_header {
        0x00
    } else {
        0x01
    });
    let m: i64 = ((composition_time as i64) + 0x1_0000_0000i64) % 0x1000000;
    proof {
        vstd::arithmetic::div_mod::lemma_mod_multiples_vanish(
            256,
            composition_time as int,
            0x1000000,
        );
        assert(m == lo24(composition_time));
    }
    buf.push((m / 0x10000) as u8);
    buf.push(((m / 0x100) % 0x100) as u8);
    buf.push((m % 0x100) as u8);
    push_bytes(&mut buf, data);
    proof {
        assert(buf@ =~= flv_video_tag_bytes(
            data@,
            is_keyframe,
            is_sequence_header,
            composition_time,
        ));
    }
    buf
}

/// Byte 0 of a video tag is `0x17` exactly for keyframes and `0x27` otherwise;
/// byte 1 is zero exactly for sequence headers; bytes 2..5 are the big-endian
/// 24-bit composition time.
pub proof fn lemma_flv_video_tag_layout(
    payload: Seq<u8>,
    is_keyframe: bool,
    is_sequence_header: bool,
    composition_time: i32,
)
    ensures
        ({
            let t = flv_video_tag_bytes(payload, is_keyframe, is_sequence_header, composition_time);
            &&& t.len() == 5 + payload.len()
            &&& (t[0] == 0x17u8 <==> is_keyframe)
            &&& (t[0] == 0x27u8 <==> !is_keyframe)
            &&& (t[1] == 0x00u8 <==> is_sequence_header)
            &&& (t[1] == 0x01u8 <==> !is_sequence_header)
            &&& t.subrange(2, 5) == i24_be(composition_time)
            &&& t.subrange(5, t.len() as int) == payload
        }),
{
    let t = flv_video_tag_bytes(payload, is_keyframe, is_sequence_header, composition_time);
    assert(t.subrange(2, 5) =~= i24_be(composition_time));
    assert(t.subrange(5, t.len() as int) =~= payload);
}

/// An FLV audio tag for AAC data: `0xAF` (AAC, 44 kHz flag, 16-bit, stereo —
/// the conventional value, the rate bits being ignored for AAC), then the AAC
/// packet type, then the payload.
pub open spec fn flv_audio_tag_bytes(payload: Seq<u8>, is_sequence_header: bool) -> Seq<u8> {
    seq![
        0xAFu8,
        if is_sequence_header {
            0x00u8
        } else {
            0x01u8
        },
    ] + payload
}

/// Build an FLV audio tag payload for AAC data: byte 0 is `0xAF`, byte 1 is
/// the AAC packet type (0 for the sequence header, 1 for data), and the raw
/// AAC access unit follows.
pub fn build_flv_audio_tag(data: &[u8], is_sequence_header: bool) -> (r: Vec<u8>)
    ensures
        r@ == flv_audio_tag_bytes(data@, is_sequence_header),
{
    let mut buf: Vec<u8> = Vec::new();
    buf.push(0xAF);
    buf.push(if is_sequence_header {
        0x00
    } else {
        0x01
    });
    push_bytes(&mut buf, data);
    proof {
        assert(buf@ =~= flv_audio_tag_bytes(data@, is_sequence_header));
    }
    buf
}

/// The MPEG-4 sampling-frequency index for a sample rate, if the rate has one.
pub open spec fn sampling_frequency_index(sample_rate: u32) -> Option<u8> {
    if sample_rate == 96000 {
        Some(0u8)
    } else if sample_rate == 88200 {
        Some(1u8)
    } else if sample_rate == 64000 {
        Some(2u8)
    } else if sample_rate == 48000 {
        Some(3u8)
    } else if sample_rate == 44100 {
        Some(4u8)
    } else if sample_rate == 32000 {
        Some(5u8)
    } else if sample_rate == 24000 {
        Some(6u8)
    } else if sample_rate == 22050 {
        Some(7u8)
    } else if sample_rate == 16000 {
        Some(8u8)
    } else if sample_rate == 12000 {
        Some(9u8)
    } else if sample_rate == 11025 {
        Some(10u8)
    } else if sample_rate == 8000 {
        Some(11u8)
    } else {
        None
    }
}

/// The two-byte AudioSpecificConfig for AAC-LC: 5 bits of audio object type
/// (2 = AAC-LC), 4 bits of sampling-frequency index, 4 bits of channel
/// configuration, and 3 zero bits.
pub open spec fn audio_specific_config_bytes(freq_index: u8, channels: u16) -> Seq<u8> {
    seq![(0x10 + freq_index / 2) as u8, ((freq_index % 2) * 0x80 + (channels % 16) * 8) as u8]
}

/// Build the AudioSpecificConfig carried by the AAC sequence header, derived
/// from the encoder's configuration. Fails exactly when the sample rate has
/// no MPEG-4 frequency index or the channel count does not fit its field.
pub fn build_audio_specific_config(sample_rate: u32, channels: u16) -> (r: Option<Vec<u8>>)
    ensures
        match r {
            Some(c) => {
                &&& sampling_frequency_index(sample_rate) matches Some(fi) && c@
                    == audio_specific_config_bytes(fi, channels)
                &&& channels < 16
            },
            None => sampling_frequency_index(sample_rate) is None || channels >= 16,
        },
{
    if channels >= 16 {
        return None;
    }
    let freq_index: u8 = match sample_rate {
        96000u32 => 0,
        88200u32 => 1,
        64000u32 => 2,
        48000u32 => 3,
        44100u32 => 4,
        32000u32 => 5,
        24000u32 => 6,
        22050u32 => 7,
        16000u32 => 8,
        12000u32 => 9,
        11025u32 => 10,
        8000u32 => 11,
        _ => { return None },
    };
    let mut buf: Vec<u8> = Vec::new();
    buf.push(0x10 + freq_index / 2);
    buf.push((freq_index % 2) * 0x80 + ((channels % 16) as u8) * 8);
    proof {
        assert(buf@ =~= audio_specific_config_bytes(freq_index, channels));
    }
    Some(buf)
}

} // verus!
