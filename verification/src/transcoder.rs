//! The transcoder: one stream's decode→encode pipeline through the UTF-8
//! intermediate representation, the one-time guess of the source encoding,
//! and the verification of that guess against the non-text threshold.

use vstd::prelude::*;
use vstd::utf8::valid_utf8;
use vstd::utf8::decode_utf8;
use vstd::utf8::encode_utf8;
use crate::codec::Enc;
use crate::codec::TextDecoder;
use crate::codec::TextEncoder;
use crate::codec::Detector;
use crate::codec::CoderCall;
use crate::codec::DecodeStep;
use crate::codec::decode_utf8_step;
use crate::codec::decode_utf16_step;
use crate::codec::encode_step;
use crate::codec::guess_of;
use crate::codec::has_non_ascii;
use crate::codec::utf8_name;
use crate::codec::utf16le_name;
use crate::codec::utf16be_name;
use crate::codec::utf8_as_str;
use crate::codec::lemma_names_distinct;
use crate::codec::spec_output_name;
use crate::constants::char_is_non_text;
use crate::constants::non_text_count;
use crate::constants::is_non_text;
use crate::constants::spec_detection_failed;
use crate::constants::detection_failed;

verus! {

broadcast use vstd::string::group_string_axioms, vstd::slice::group_slice_axioms;

/// The status of one transcode step: either the whole input was consumed,
/// or the output buffer filled up first and the caller must flush it and
/// offer the unread remainder again.
#[derive(PartialEq, Eq, Structural, Clone, Copy, Debug)]
pub enum CoderResult {
    InputEmpty,
    OutputFull,
}

/// The bytes that serialize a sequence of UTF-16 code units in the given
/// byte order.
pub open spec fn utf16_bytes(units: Seq<u16>, be: bool) -> Seq<u8>
    decreases units.len(),
{
    if units.len() == 0 {
        seq![]
    } else {
        let u = units[0];
        let pair = if be {
            seq![#[verifier::truncate] ((u >> 8) as u8), #[verifier::truncate] ((u & 0xFF) as u8)]
        } else {
            seq![#[verifier::truncate] ((u & 0xFF) as u8), #[verifier::truncate] ((u >> 8) as u8)]
        };
        pair + utf16_bytes(units.drop_first(), be)
    }
}

proof fn lemma_utf16_bytes_push(units: Seq<u16>, u: u16, be: bool)
    ensures
        utf16_bytes(units.push(u), be) == utf16_bytes(units, be) + (if be {
            seq![#[verifier::truncate] ((u >> 8) as u8), #[verifier::truncate] ((u & 0xFF) as u8)]
        } else {
            seq![#[verifier::truncate] ((u & 0xFF) as u8), #[verifier::truncate] ((u >> 8) as u8)]
        }),
    decreases units.len(),
{
    let whole = units.push(u);
    if units.len() == 0 {
        assert(whole.drop_first() =~= Seq::<u16>::empty());
        assert(utf16_bytes(whole.drop_first(), be) == Seq::<u8>::empty());
        assert(utf16_bytes(units, be) == Seq::<u8>::empty());
        assert(whole[0] == u);
        assert(utf16_bytes(whole, be) =~= utf16_bytes(units, be) + (if be {
            seq![#[verifier::truncate] ((u >> 8) as u8), #[verifier::truncate] ((u & 0xFF) as u8)]
        } else {
            seq![#[verifier::truncate] ((u & 0xFF) as u8), #[verifier::truncate] ((u >> 8) as u8)]
        }));
    } else {
        assert(whole.drop_first() =~= units.drop_first().push(u));
        lemma_utf16_bytes_push(units.drop_first(), u, be);
        assert(utf16_bytes(whole, be) =~= utf16_bytes(units, be) + (if be {
            seq![#[verifier::truncate] ((u >> 8) as u8), #[verifier::truncate] ((u & 0xFF) as u8)]
        } else {
            seq![#[verifier::truncate] ((u & 0xFF) as u8), #[verifier::truncate] ((u >> 8) as u8)]
        }));
    }
}

proof fn lemma_utf16_bytes_len(units: Seq<u16>, be: bool)
    ensures
        utf16_bytes(units, be).len() == 2 * units.len(),
    decreases units.len(),
{
    if units.len() > 0 {
        lemma_utf16_bytes_len(units.drop_first(), be);
    }
}

/// Serializes UTF-16 code units to bytes, two per unit, in the requested
/// byte order.
fn u16_to_u8(src: &Vec<u16>, be: bool) -> (r: Vec<u8>)
    ensures
        r@ == utf16_bytes(src@, be),
        r@.len() == 2 * src@.len(),
{
    let n = src.len();
    let mut out: Vec<u8> = Vec::new();
    let mut i: usize = 0;
    while i < n
        invariant
            i <= n,
            n == src@.len(),
            out@ == utf16_bytes(src@.take(i as int), be),
            out@.len() == 2 * i,
        decreases n - i,
    {
        let u = src[i];
        let hi = #[verifier::truncate] ((u >> 8) as u8);
        let lo = #[verifier::truncate] ((u & 0xFF) as u8);
        if be {
            out.push(hi);
            out.push(lo);
        } else {
            out.push(lo);
            out.push(hi);
        }
        proof {
            assert(src@.take(i + 1) =~= src@.take(i as int).push(src@[i as int]));
            lemma_utf16_bytes_push(src@.take(i as int), src@[i as int], be);
        }
        i += 1;
    }
    proof {
        assert(src@.take(n as int) =~= src@);
    }
    out
}

proof fn lemma_encode_utf8_len(s: Seq<char>)
    ensures
        encode_utf8(s).len() >= s.len(),
    decreases s.len(),
{
    if s.len() > 0 {
        lemma_encode_utf8_len(s.drop_first());
    }
}

proof fn lemma_non_text_count_push(s: Seq<char>, c: char)
    ensures
        non_text_count(s.push(c)) == non_text_count(s) + (if char_is_non_text(c) {
            1nat
        } else {
            0nat
        }),
{
    assert(s.push(c).drop_last() =~= s);
    assert(s.push(c).last() == c);
}

/// Counts the non-text characters and all characters of a text: the inputs
/// of the guess-verification policy.
fn count_non_text(s: &str) -> (r: (usize, usize))
    ensures
        r.0 == non_text_count(s@),
        r.1 == s@.len(),
{
    proof {
        lemma_encode_utf8_len(s@);
    }
    let n_bytes = s.as_bytes().len();
    let mut non_text: usize = 0;
    let mut total: usize = 0;
    for c in it: s.chars()
        invariant
            it.seq() == s@,
            total == it.index(),
            total <= s@.len(),
            s@.len() <= n_bytes,
            non_text <= total,
            non_text == non_text_count(s@.take(it.index() as int)),
    {
        proof {
            assert(s@.take(it.index() as int + 1) =~= s@.take(it.index() as int).push(c));
            lemma_non_text_count_push(s@.take(it.index() as int), c);
        }
        if is_non_text(&c) {
            non_text += 1;
        }
        total += 1;
    }
    proof {
        assert(s@.take(s@.len() as int) =~= s@);
    }
    (non_text, total)
}

/// The encoding a byte-order mark announces: UTF-8 after EF BB BF, UTF-16LE
/// after FF FE, UTF-16BE after FE FF.
pub open spec fn spec_bom(s: Seq<u8>) -> Option<(Seq<char>, nat)> {
    if s.len() >= 3 && s[0] == 0xEF && s[1] == 0xBB && s[2] == 0xBF {
        Some((utf8_name(), 3nat))
    } else if s.len() >= 2 && s[0] == 0xFF && s[1] == 0xFE {
        Some((utf16le_name(), 2nat))
    } else if s.len() >= 2 && s[0] == 0xFE && s[1] == 0xFF {
        Some((utf16be_name(), 2nat))
    } else {
        None
    }
}

/// BOM sniffing: checked before any statistical guessing, and taking
/// priority over it.
fn sniff_bom(src: &[u8]) -> (r: Option<(Enc, usize)>)
    ensures
        (r is Some) == (spec_bom(src@) is Some),
        r matches Some(p) ==> (spec_bom(src@) matches Some(q) && p.0.spec_name() == q.0 && p.1
            as nat == q.1),
{
    if src.len() >= 3 && src[0] == 0xEF && src[1] == 0xBB && src[2] == 0xBF {
        Some((Enc::utf8(), 3))
    } else if src.len() >= 2 && src[0] == 0xFF && src[1] == 0xFE {
        Some((Enc::utf16le(), 2))
    } else if src.len() >= 2 && src[0] == 0xFE && src[1] == 0xFF {
        Some((Enc::utf16be(), 2))
    } else {
        None
    }
}

/// Whether byte `i` of `s` counts against the guess budget: the stream up
/// to and including it has held a non-ASCII byte, or the byte itself is a
/// non-text character.
pub open spec fn byte_significant(s: Seq<u8>, i: int) -> bool {
    has_non_ascii(s.take(i + 1)) || char_is_non_text(s[i] as char)
}

/// How many of the first `k` bytes of `s` are significant.
pub open spec fn sig_count(s: Seq<u8>, k: int) -> nat
    decreases k,
{
    if k <= 0 {
        0
    } else {
        sig_count(s, k - 1) + if byte_significant(s, k - 1) {
            1nat
        } else {
            0nat
        }
    }
}

proof fn lemma_sig_count_mono(s: Seq<u8>, a: int, b: int)
    requires
        a <= b,
    ensures
        sig_count(s, a) <= sig_count(s, b),
    decreases b,
{
    if a < b && b > 0 {
        lemma_sig_count_mono(s, a, b - 1);
    }
}

/// How many of the first `k` bytes of `s` the guess loop feeds before
/// stopping: all of them, unless the significant-byte count exceeds the
/// budget first.
pub open spec fn guess_feed_len(s: Seq<u8>, budget: nat, k: nat) -> nat
    decreases k,
{
    if k == 0 {
        0
    } else if sig_count(s, k - 1) > budget {
        guess_feed_len(s, budget, (k - 1) as nat)
    } else {
        k
    }
}

/// How many bytes of `s` feed the guesser under the given budget.
pub open spec fn spec_fed_len(s: Seq<u8>, budget: nat) -> nat {
    guess_feed_len(s, budget, s.len())
}

proof fn lemma_feed_len_char(s: Seq<u8>, budget: nat, k: nat, j: nat)
    requires
        j <= k,
        sig_count(s, j as int) <= budget + 1,
        j < k ==> sig_count(s, j as int) == budget + 1,
        j > 0 ==> sig_count(s, j as int - 1) <= budget,
    ensures
        guess_feed_len(s, budget, k) == j,
    decreases k,
{
    if k == 0 {
    } else if sig_count(s, k as int - 1) > budget {
        assert(j < k);
        lemma_feed_len_char(s, budget, (k - 1) as nat, j);
    } else {
        if j < k {
            lemma_sig_count_mono(s, j as int, k as int - 1);
            assert(false);
        }
    }
}

/// Feeds bytes one at a time to the guesser, counting a byte as significant
/// per `byte_significant`, and stops once the budget is exceeded or the
/// input runs out. Returns how many bytes were fed.
fn feed_for_guess(det: &mut Detector, src: &[u8], budget: usize, eof: bool) -> (num_fed: usize)
    requires
        old(det).bytes_fed() == Seq::<u8>::empty(),
        !old(det).is_closed(),
    ensures
        num_fed <= src@.len(),
        num_fed as nat == spec_fed_len(src@, budget as nat),
        final(det).bytes_fed() == src@.take(num_fed as int),
        final(det).is_closed() == (eof && num_fed == src@.len() && src@.len() > 0),
{
    let n = src.len();
    let mut cnt: usize = 0;
    let mut i: usize = 0;
    proof {
        assert(src@.take(0) =~= Seq::<u8>::empty());
    }
    while i < n && cnt <= budget
        invariant
            i <= n,
            n == src@.len(),
            cnt <= i,
            det.bytes_fed() == src@.take(i as int),
            det.is_closed() == (eof && i == n && n > 0),
            cnt == sig_count(src@, i as int),
            i > 0 ==> sig_count(src@, i as int - 1) <= budget,
            cnt <= budget + 1,
        decreases n - i,
    {
        let b = src[i];
        let is_non_ascii = det.feed_byte(b, eof && i + 1 == n);
        proof {
            assert(src@.take(i as int).push(src@[i as int]) =~= src@.take(i + 1));
        }
        let sig = is_non_ascii || is_non_text(&(b as char));
        if sig {
            cnt += 1;
        }
        i += 1;
    }
    proof {
        lemma_feed_len_char(src@, budget as nat, n as nat, i as nat);
    }
    i
}

/// The decode half of one pipelined transcode step: what the decoder
/// produces for this input, or nothing at all if the decoder has already
/// finished the stream.
pub open spec fn pipe_decode(t: Transcoder, src: Seq<u8>, last: bool) -> DecodeStep {
    if t.dec_done() {
        DecodeStep { read: 0, text: seq![], input_empty: true, replaced: false }
    } else {
        decode_utf8_step(t.dec_enc(), t.dec_hist(), src, t.scratch_size(), last)
    }
}

/// Owns one stream's decoder and (unless the destination is UTF-16)
/// encoder, and the carry-over buffer of decoded but not yet encoded text.
pub struct Transcoder {
    src_encoding: Option<Enc>,
    dst_encoding: Enc,
    decoder: Option<TextDecoder>,
    decoder_finished: bool,
    encoder: Option<TextEncoder>,
    unencoded_bytes: Vec<u8>,
    buffer_size: usize,
}

impl Transcoder {
    /// The canonical name of the source encoding, once known.
    pub closed spec fn spec_src(&self) -> Option<Seq<char>> {
        match self.src_encoding {
            Some(e) => Some(e.spec_name()),
            None => None,
        }
    }

    /// The canonical name of the destination encoding.
    pub closed spec fn spec_dst(&self) -> Seq<char> {
        self.dst_encoding.spec_name()
    }

    /// Whether a decoder exists: the source encoding was given or guessed.
    pub closed spec fn has_decoder(&self) -> bool {
        self.decoder is Some
    }

    /// The encoding of the decoder.
    pub closed spec fn dec_enc(&self) -> Seq<char> {
        self.decoder->Some_0.encoding()
    }

    /// The call history of the decoder.
    pub closed spec fn dec_hist(&self) -> Seq<CoderCall> {
        self.decoder->Some_0.history()
    }

    /// Whether the decoder has consumed the final input in full; it must
    /// not decode again after that.
    pub closed spec fn dec_done(&self) -> bool {
        self.decoder_finished
    }

    /// The call history of the encoder.
    pub closed spec fn enc_hist(&self) -> Seq<CoderCall> {
        self.encoder->Some_0.history()
    }

    /// The carry-over buffer: UTF-8 text already decoded but not yet
    /// consumed by the encoder.
    pub closed spec fn carry(&self) -> Seq<u8> {
        self.unencoded_bytes@
    }

    /// The capacity of the internal decode buffer.
    pub closed spec fn scratch_size(&self) -> nat {
        self.buffer_size as nat
    }

    /// Internal consistency: decoder and source encoding exist together
    /// and agree; an encoder exists exactly for non-UTF-16 destinations
    /// and encodes to that destination's output encoding; the carry-over
    /// is valid UTF-8; the scratch buffer can hold at least one character.
    pub closed spec fn wf(&self) -> bool {
        &&& (self.src_encoding is Some <==> self.decoder is Some)
        &&& (self.decoder matches Some(d) ==> (self.src_encoding matches Some(e) && d.encoding()
            == e.spec_name()))
        &&& (self.decoder matches Some(d) ==> self.decoder_finished == d.finished())
        &&& (self.decoder is None ==> !self.decoder_finished)
        &&& (self.encoder is Some <==> !self.dst_encoding.is_utf16())
        &&& (self.encoder matches Some(e) ==> e.encoding() == spec_output_name(
            self.dst_encoding.spec_name(),
        ))
        &&& valid_utf8(self.unencoded_bytes@)
        &&& self.buffer_size >= 4
    }

    /// A transcoder from `src_encoding` (or a later guess, if none) to
    /// `dst_encoding`, with the default 8 KiB decode buffer.
    pub fn new(src_encoding: Option<Enc>, dst_encoding: Enc) -> (r: Transcoder)
        ensures
            r.wf(),
            r.has_decoder() == (src_encoding is Some),
            src_encoding matches Some(e) ==> (r.spec_src() == Some(e.spec_name()) && r.dec_enc()
                == e.spec_name() && r.dec_hist() == Seq::<CoderCall>::empty()),
            src_encoding is None ==> r.spec_src() is None,
            r.spec_dst() == dst_encoding.spec_name(),
            !r.dec_done(),
            r.carry() == Seq::<u8>::empty(),
            !dst_encoding.is_utf16() ==> r.enc_hist() == Seq::<CoderCall>::empty(),
            r.scratch_size() == 8 * 1024,
    {
        let encoder = if dst_encoding.check_utf16() {
            None
        } else {
            Some(dst_encoding.new_encoder())
        };
        let decoder = match &src_encoding {
            Some(e) => Some(e.new_decoder()),
            None => None,
        };
        Transcoder {
            src_encoding,
            dst_encoding,
            decoder,
            decoder_finished: false,
            encoder,
            unencoded_bytes: Vec::new(),
            buffer_size: 8 * 1024,
        }
    }

    /// Sets the internal decode buffer size. A size too small to hold one
    /// decoded character is ignored.
    pub fn buffer_size(self, size: usize) -> (r: Self)
        requires
            self.wf(),
        ensures
            r.wf(),
            r.scratch_size() == if size >= 4 {
                size as nat
            } else {
                self.scratch_size()
            },
            r.spec_src() == self.spec_src(),
            r.spec_dst() == self.spec_dst(),
            r.has_decoder() == self.has_decoder(),
            r.has_decoder() ==> (r.dec_enc() == self.dec_enc() && r.dec_hist()
                == self.dec_hist()),
            r.dec_done() == self.dec_done(),
            r.carry() == self.carry(),
            !self.spec_dst_is_utf16() ==> r.enc_hist() == self.enc_hist(),
    {
        if size < 4 {
            return self;
        }
        let mut r = self;
        r.buffer_size = size;
        r
    }

    /// Whether the destination is one of the UTF-16 encodings.
    pub open spec fn spec_dst_is_utf16(&self) -> bool {
        self.spec_dst() == utf16le_name() || self.spec_dst() == utf16be_name()
    }

    /// Whether this character is non-text, as the guess verification
    /// counts it.
    pub fn is_non_text(c: &char) -> (r: bool)
        ensures
            r == char_is_non_text(*c),
    {
        is_non_text(c)
    }

    /// The source encoding, once known.
    pub fn src_encoding(&self) -> (r: Option<&Enc>)
        ensures
            (r is Some) == (self.spec_src() is Some),
            r matches Some(e) ==> Some(e.spec_name()) == self.spec_src(),
    {
        self.src_encoding.as_ref()
    }

    /// The destination encoding.
    pub fn dst_encoding(&self) -> (r: &Enc)
        ensures
            r.spec_name() == self.spec_dst(),
    {
        &self.dst_encoding
    }

    /// Pipes one buffer of source bytes through decode and, unless the
    /// destination is UTF-8 or UTF-16, encode, by way of the carry-over
    /// buffer. Returns the status, how many source bytes were consumed, the
    /// produced bytes (at most `dst_cap` of them), and whether a replacement
    /// or unmappable character was seen in this step.
    ///
    /// Every byte of the input is consumed across repeated calls, in order,
    /// and no carry-over text is ever consumed twice: the new carry-over is
    /// exactly the old one, extended by what the decoder produced, minus
    /// the prefix the encoder consumed.
    pub fn transcode(&mut self, src: &[u8], dst_cap: usize, last: bool) -> (r: (
        CoderResult,
        usize,
        Vec<u8>,
        bool,
    ))
        requires
            old(self).wf(),
            old(self).has_decoder(),
            dst_cap >= 4,
            old(self).dec_done() ==> src@.len() == 0 && last,
        ensures
            final(self).wf(),
            final(self).has_decoder(),
            final(self).spec_src() == old(self).spec_src(),
            final(self).spec_dst() == old(self).spec_dst(),
            final(self).dec_enc() == old(self).dec_enc(),
            final(self).scratch_size() == old(self).scratch_size(),
            r.1 <= src@.len(),
            r.2@.len() <= dst_cap,
            r.0 == CoderResult::InputEmpty ==> r.1 == src@.len(),
            old(self).dec_done() ==> (final(self).dec_hist() == old(self).dec_hist() && final(self).dec_done()),
            // in summary: the call behaves as the spec-level step function says
            ({
                let s = spec_transcode(*old(self), src@, dst_cap as nat, last);
                &&& r.0 == s.0
                &&& r.1 == s.1
                &&& r.2@ == s.2
                &&& r.3 == s.3
            }),
            final(self).carry() == spec_transcode_carry(*old(self), src@, dst_cap as nat, last),
            final(self).dec_done() ==> (r.1 == src@.len() && last),
            r.0 == CoderResult::InputEmpty && last ==> final(self).dec_done(),
            // destination UTF-8: decode straight to the output
            old(self).spec_dst() == utf8_name() ==> ({
                let step = pipe_decode_at(*old(self), src@, dst_cap as nat, last);
                &&& r.2@ == step.text
                &&& r.1 == step.read
                &&& r.0 == (if step.input_empty {
                    CoderResult::InputEmpty
                } else {
                    CoderResult::OutputFull
                })
                &&& r.3 == step.replaced
                &&& final(self).dec_done() == (old(self).dec_done() || (last && step.input_empty))
                &&& (!old(self).dec_done() ==> final(self).dec_hist() == old(self).dec_hist().push((CoderCall { src: src@, cap: dst_cap as nat, last })))
                &&& final(self).carry() == old(self).carry()
            }),
            // destination UTF-16: decode to code units, then serialize
            old(self).spec_dst_is_utf16() && !old(self).dec_done() ==> ({
                let step = decode_utf16_step(
                    old(self).dec_enc(),
                    old(self).dec_hist(),
                    src@,
                    (dst_cap / 2) as nat,
                    last,
                );
                &&& r.2@ == utf16_bytes(step.units, old(self).spec_dst() == utf16be_name())
                &&& r.1 == step.read
                &&& r.0 == (if step.input_empty {
                    CoderResult::InputEmpty
                } else {
                    CoderResult::OutputFull
                })
                &&& r.3 == step.replaced
                &&& final(self).dec_done() == (last && step.input_empty)
                &&& final(self).dec_hist() == old(self).dec_hist().push(
                    (CoderCall { src: src@, cap: (dst_cap / 2) as nat, last }),
                )
                &&& final(self).carry() == old(self).carry()
            }),
            old(self).spec_dst_is_utf16() && old(self).dec_done() ==> (r.0
                == CoderResult::InputEmpty && r.1 == 0 && r.2@ == Seq::<u8>::empty() && r.3
                == false && final(self).carry() == old(self).carry()),
            // any other destination: decode to the carry-over, encode from it
            old(self).spec_dst() != utf8_name() && !old(self).spec_dst_is_utf16() ==> ({
                let dstep = pipe_decode(*old(self), src@, last);
                let merged = old(self).carry() + dstep.text;
                let estep = encode_step(
                    spec_output_name(old(self).spec_dst()),
                    old(self).enc_hist(),
                    merged,
                    dst_cap as nat,
                    last,
                );
                &&& r.2@ == estep.out
                &&& r.1 == dstep.read
                &&& r.0 == (if dstep.input_empty && estep.input_empty {
                    CoderResult::InputEmpty
                } else {
                    CoderResult::OutputFull
                })
                &&& r.3 == (dstep.replaced || estep.unmappable)
                &&& final(self).carry() == merged.skip(estep.read as int)
                &&& final(self).enc_hist() == old(self).enc_hist().push(
                    (CoderCall { src: merged, cap: dst_cap as nat, last }),
                )
                &&& final(self).dec_done() == (old(self).dec_done() || (last
                    && dstep.input_empty))
                &&& (!old(self).dec_done() ==> final(self).dec_hist() == old(self).dec_hist().push(
                    (CoderCall { src: src@, cap: old(self).scratch_size(), last }),
                ))
            }),
    {
        broadcast use vstd::utf8::valid_utf8_concat, vstd::utf8::valid_utf8_split;

        proof {
            crate::codec::lemma_names_distinct();
        }
        if self.dst_encoding.check_utf8() {
            if self.decoder_finished {
                return (CoderResult::InputEmpty, 0, Vec::new(), false);
            }
            let r = if let Some(d) = &mut self.decoder {
                d.decode_to_utf8(src, dst_cap, last)
            } else {
                unreached()
            };
            let (text, read, input_empty, replaced) = r;
            self.decoder_finished = last && input_empty;
            let status = if input_empty {
                CoderResult::InputEmpty
            } else {
                CoderResult::OutputFull
            };
            (status, read, text, replaced)
        } else if self.dst_encoding.check_utf16() {
            if self.decoder_finished {
                return (CoderResult::InputEmpty, 0, Vec::new(), false);
            }
            let be = self.dst_encoding.name_is("UTF-16BE");
            let r = if let Some(d) = &mut self.decoder {
                d.decode_to_utf16(src, dst_cap / 2, last)
            } else {
                unreached()
            };
            let (units, read, input_empty, replaced) = r;
            self.decoder_finished = last && input_empty;
            let out = u16_to_u8(&units, be);
            proof {
                lemma_utf16_bytes_len(units@, be);
            }
            let status = if input_empty {
                CoderResult::InputEmpty
            } else {
                CoderResult::OutputFull
            };
            (status, read, out, replaced)
        } else {
            let scratch = self.buffer_size;
            let mut dread: usize = 0;
            let mut dinput_empty: bool = true;
            let mut dreplaced: bool = false;
            if !self.decoder_finished {
                let r = if let Some(d) = &mut self.decoder {
                    d.decode_to_utf8(src, scratch, last)
                } else {
                    unreached()
                };
                let (mut text, read, input_empty, replaced) = r;
                dread = read;
                dinput_empty = input_empty;
                dreplaced = replaced;
                self.decoder_finished = last && input_empty;
                self.unencoded_bytes.append(&mut text);
            } else {
                proof {
                    assert(old(self).carry() + pipe_decode(*old(self), src@, last).text =~= old(self).carry());
                }
            }
            let r = if let Some(e) = &mut self.encoder {
                e.encode_from_utf8(self.unencoded_bytes.as_slice(), dst_cap, last)
            } else {
                unreached()
            };
            let (out, eread, einput_empty, unmappable) = r;
            let tail = self.unencoded_bytes.split_off(eread);
            self.unencoded_bytes = tail;
            let status = if dinput_empty && einput_empty {
                CoderResult::InputEmpty
            } else {
                CoderResult::OutputFull
            };
            (status, dread, out, dreplaced || unmappable)
        }
    }
}

/// The decode half of one transcode step when the destination is UTF-8 and
/// the output capacity is the destination buffer itself.
pub open spec fn pipe_decode_at(t: Transcoder, src: Seq<u8>, cap: nat, last: bool) -> DecodeStep {
    if t.dec_done() {
        DecodeStep { read: 0, text: seq![], input_empty: true, replaced: false }
    } else {
        decode_utf8_step(t.dec_enc(), t.dec_hist(), src, cap, last)
    }
}

/// What one `transcode` call returns, as a function of the transcoder's
/// state and the call's arguments: the status, the count of source bytes
/// consumed, the bytes produced, and whether a replacement or unmappable
/// character occurred.
pub open spec fn spec_transcode(t: Transcoder, src: Seq<u8>, cap: nat, last: bool) -> (
    CoderResult,
    nat,
    Seq<u8>,
    bool,
) {
    if t.spec_dst() == utf8_name() {
        let step = pipe_decode_at(t, src, cap, last);
        (
            if step.input_empty {
                CoderResult::InputEmpty
            } else {
                CoderResult::OutputFull
            },
            step.read,
            step.text,
            step.replaced,
        )
    } else if t.spec_dst_is_utf16() {
        if t.dec_done() {
            (CoderResult::InputEmpty, 0nat, Seq::<u8>::empty(), false)
        } else {
            let step = decode_utf16_step(t.dec_enc(), t.dec_hist(), src, cap / 2, last);
            (
                if step.input_empty {
                    CoderResult::InputEmpty
                } else {
                    CoderResult::OutputFull
                },
                step.read,
                utf16_bytes(step.units, t.spec_dst() == utf16be_name()),
                step.replaced,
            )
        }
    } else {
        let dstep = pipe_decode(t, src, last);
        let merged = t.carry() + dstep.text;
        let estep = encode_step(spec_output_name(t.spec_dst()), t.enc_hist(), merged, cap, last);
        (
            if dstep.input_empty && estep.input_empty {
                CoderResult::InputEmpty
            } else {
                CoderResult::OutputFull
            },
            dstep.read,
            estep.out,
            dstep.replaced || estep.unmappable,
        )
    }
}

/// The carry-over buffer after one `transcode` call.
pub open spec fn spec_transcode_carry(t: Transcoder, src: Seq<u8>, cap: nat, last: bool) -> Seq<
    u8,
> {
    if t.spec_dst() == utf8_name() || t.spec_dst_is_utf16() {
        t.carry()
    } else {
        let dstep = pipe_decode(t, src, last);
        let merged = t.carry() + dstep.text;
        let estep = encode_step(spec_output_name(t.spec_dst()), t.enc_hist(), merged, cap, last);
        merged.skip(estep.read as int)
    }
}

/// The encoding selected for a stream whose prefix is `src`: the one the
/// byte-order mark announces, if the prefix begins with one; otherwise the
/// statistical guess over the bytes the budget lets through. The guesser is
/// told the stream ended only when it saw the whole prefix of an exhausted
/// stream.
pub open spec fn chosen_encoding(src: Seq<u8>, budget: nat, eof: bool) -> Seq<char> {
    match spec_bom(src) {
        Some(p) => p.0,
        None => guess_of(
            src.take(spec_fed_len(src, budget) as int),
            eof && spec_fed_len(src, budget) == src.len() && src.len() > 0,
            true,
        ),
    }
}

/// What an accepted guess commits when the transcoder is fresh (nothing
/// carried over, encoder unused): the bytes produced, the source bytes
/// consumed, the status, and the replacement flag.
pub ghost struct GuessCommit {
    pub out: Seq<u8>,
    pub read: nat,
    pub status: CoderResult,
    pub replaced: bool,
}

/// The commit of an accepted guess for a fresh transcoder, by destination
/// class: UTF-8 keeps the trial decode, UTF-16 re-decodes to code units and
/// serializes them, anything else encodes the trial text.
pub open spec fn fresh_guess_commit(
    dst: Seq<char>,
    chosen: Seq<char>,
    src: Seq<u8>,
    cap: nat,
    scratch: nat,
    last: bool,
) -> GuessCommit {
    if dst == utf8_name() {
        let t = trial_step(chosen, src, cap, last);
        GuessCommit {
            out: t.text,
            read: t.read,
            status: if t.input_empty {
                CoderResult::InputEmpty
            } else {
                CoderResult::OutputFull
            },
            replaced: t.replaced,
        }
    } else if dst == utf16le_name() || dst == utf16be_name() {
        let s = decode_utf16_step(chosen, Seq::<CoderCall>::empty(), src, cap / 2, last);
        GuessCommit {
            out: utf16_bytes(s.units, dst == utf16be_name()),
            read: s.read,
            status: if s.input_empty {
                CoderResult::InputEmpty
            } else {
                CoderResult::OutputFull
            },
            replaced: s.replaced,
        }
    } else {
        let t = trial_step(chosen, src, scratch, last);
        let e = encode_step(spec_output_name(dst), Seq::<CoderCall>::empty(), t.text, cap, last);
        GuessCommit {
            out: e.out,
            read: t.read,
            status: if t.input_empty && e.input_empty {
                CoderResult::InputEmpty
            } else {
                CoderResult::OutputFull
            },
            replaced: t.replaced || e.unmappable,
        }
    }
}

/// BOM precedence: an input that begins with a byte-order mark is never
/// routed through the statistical guesser — the selected encoding is the
/// BOM's, whatever the rest of the bytes would suggest and whatever the
/// budget. In particular a UTF-16LE BOM always selects UTF-16LE.
pub proof fn lemma_bom_precedence(src: Seq<u8>, budget: nat, eof: bool)
    requires
        spec_bom(src) is Some,
    ensures
        chosen_encoding(src, budget, eof) == spec_bom(src)->Some_0.0,
        src.len() >= 2 && src[0] == 0xFF && src[1] == 0xFE ==> chosen_encoding(src, budget, eof)
            == crate::codec::utf16le_name(),
{
}

/// What the trial decode of the guess-window produces: the whole prefix is
/// decoded once, by a fresh decoder for the selected encoding, into a
/// buffer of the given capacity.
pub open spec fn trial_step(chosen: Seq<char>, src: Seq<u8>, cap: nat, last: bool) -> DecodeStep {
    decode_utf8_step(chosen, Seq::<CoderCall>::empty(), src, cap, last)
}

/// Whether the guess `chosen` is rejected for this prefix: the decoded
/// characters of the trial decode exceed the non-text threshold.
pub open spec fn spec_guess_rejected(
    chosen: Seq<char>,
    src: Seq<u8>,
    cap: nat,
    threshold: u8,
    last: bool,
) -> bool {
    let chars = decode_utf8(trial_step(chosen, src, cap, last).text);
    spec_detection_failed(non_text_count(chars), chars.len(), threshold)
}

impl Transcoder {
    /// The capacity of the trial decode: the destination buffer itself when
    /// the destination is UTF-8, else the internal scratch buffer.
    pub open spec fn trial_cap(&self, dst_cap: nat) -> nat {
        if self.spec_dst() == utf8_name() {
            dst_cap
        } else {
            self.scratch_size()
        }
    }

    /// Decodes the whole prefix once with a fresh decoder for `enc`, scores
    /// the decoded text against the non-text threshold, and commits the
    /// decoder (for UTF-16 destinations: a fresh one, since the trial
    /// consumed the stream state) exactly when the guess is accepted.
    fn try_transcode(&mut self, enc: Enc, src: &[u8], dst_cap: usize, non_text_threshold: u8, last: bool)
        -> (r: (bool, CoderResult, usize, Vec<u8>, bool))
        requires
            old(self).wf(),
            !old(self).has_decoder(),
            dst_cap >= 4,
        ensures
            final(self).wf(),
            final(self).spec_dst() == old(self).spec_dst(),
            final(self).scratch_size() == old(self).scratch_size(),
            r.2 <= src@.len(),
            r.3@.len() <= dst_cap,
            ({
                let tstep = trial_step(
                    enc.spec_name(),
                    src@,
                    old(self).trial_cap(dst_cap as nat),
                    last,
                );
                let rejected = spec_guess_rejected(
                    enc.spec_name(),
                    src@,
                    old(self).trial_cap(dst_cap as nat),
                    non_text_threshold,
                    last,
                );
                &&& r.0 == !rejected
                &&& (rejected ==> {
                    &&& r.1 == (if tstep.input_empty {
                        CoderResult::InputEmpty
                    } else {
                        CoderResult::OutputFull
                    })
                    &&& r.2 == tstep.read
                    &&& r.3@ == Seq::<u8>::empty()
                    &&& r.4 == tstep.replaced
                    &&& !final(self).has_decoder()
                    &&& final(self).carry() == old(self).carry()
                    &&& (!old(self).spec_dst_is_utf16() ==> final(self).enc_hist() == old(
                        self,
                    ).enc_hist())
                })
                &&& (!rejected ==> (final(self).dec_done() ==> (r.2 == src@.len() && last)))
                &&& (!rejected && r.1 == CoderResult::InputEmpty && last ==> final(self).dec_done())
                &&& (!rejected ==> {
                    &&& final(self).has_decoder()
                    &&& final(self).spec_src() == Some(enc.spec_name())
                    &&& final(self).dec_enc() == enc.spec_name()
                    &&& (old(self).spec_dst() == utf8_name() ==> {
                        &&& r.3@ == tstep.text
                        &&& r.2 == tstep.read
                        &&& r.1 == (if tstep.input_empty {
                            CoderResult::InputEmpty
                        } else {
                            CoderResult::OutputFull
                        })
                        &&& r.4 == tstep.replaced
                        &&& final(self).dec_hist() == seq![
                            (CoderCall { src: src@, cap: dst_cap as nat, last }),
                        ]
                        &&& final(self).dec_done() == (last && tstep.input_empty)
                        &&& final(self).carry() == old(self).carry()
                    })
                    &&& (old(self).spec_dst_is_utf16() ==> ({
                        let step16 = decode_utf16_step(
                            enc.spec_name(),
                            Seq::<CoderCall>::empty(),
                            src@,
                            (dst_cap / 2) as nat,
                            last,
                        );
                        &&& r.3@ == utf16_bytes(step16.units, old(self).spec_dst()
                            == utf16be_name())
                        &&& r.2 == step16.read
                        &&& r.1 == (if step16.input_empty {
                            CoderResult::InputEmpty
                        } else {
                            CoderResult::OutputFull
                        })
                        &&& r.4 == step16.replaced
                        &&& final(self).dec_hist() == seq![
                            (CoderCall { src: src@, cap: (dst_cap / 2) as nat, last }),
                        ]
                        &&& final(self).dec_done() == (last && step16.input_empty)
                        &&& final(self).carry() == old(self).carry()
                    }))
                    &&& (old(self).spec_dst() != utf8_name() && !old(self).spec_dst_is_utf16()
                        ==> ({
                        let merged = old(self).carry() + tstep.text;
                        let estep = encode_step(
                            spec_output_name(old(self).spec_dst()),
                            old(self).enc_hist(),
                            merged,
                            dst_cap as nat,
                            last,
                        );
                        &&& r.3@ == estep.out
                        &&& r.2 == tstep.read
                        &&& r.1 == (if tstep.input_empty && estep.input_empty {
                            CoderResult::InputEmpty
                        } else {
                            CoderResult::OutputFull
                        })
                        &&& r.4 == (tstep.replaced || estep.unmappable)
                        &&& final(self).carry() == merged.skip(estep.read as int)
                        &&& final(self).enc_hist() == old(self).enc_hist().push(
                            (CoderCall { src: merged, cap: dst_cap as nat, last }),
                        )
                        &&& final(self).dec_hist() == seq![
                            (CoderCall { src: src@, cap: old(self).scratch_size(), last }),
                        ]
                        &&& final(self).dec_done() == (last && tstep.input_empty)
                    }))
                })
            }),
    {
        broadcast use vstd::utf8::valid_utf8_concat, vstd::utf8::valid_utf8_split;

        proof {
            lemma_names_distinct();
        }
        let mut decoder = enc.new_decoder();
        let trial_cap = if self.dst_encoding.check_utf8() {
            dst_cap
        } else {
            self.buffer_size
        };
        let (text, read, input_empty, replaced) = decoder.decode_to_utf8(src, trial_cap, last);
        let s = utf8_as_str(text.as_slice());
        let (non_text, total) = count_non_text(s);
        let failed = detection_failed(non_text, total, non_text_threshold);
        if failed {
            let status = if input_empty {
                CoderResult::InputEmpty
            } else {
                CoderResult::OutputFull
            };
            return (false, status, read, Vec::new(), replaced);
        }
        if self.dst_encoding.check_utf8() {
            self.src_encoding = Some(enc);
            self.decoder = Some(decoder);
            self.decoder_finished = last && input_empty;
            let status = if input_empty {
                CoderResult::InputEmpty
            } else {
                CoderResult::OutputFull
            };
            return (true, status, read, text, replaced);
        }
        if self.dst_encoding.check_utf16() {
            let be = self.dst_encoding.name_is("UTF-16BE");
            let mut fresh = enc.new_decoder();
            let (units, read16, ie16, rep16) = fresh.decode_to_utf16(src, dst_cap / 2, last);
            self.src_encoding = Some(enc);
            self.decoder = Some(fresh);
            self.decoder_finished = last && ie16;
            let out = u16_to_u8(&units, be);
            proof {
                lemma_utf16_bytes_len(units@, be);
            }
            let status = if ie16 {
                CoderResult::InputEmpty
            } else {
                CoderResult::OutputFull
            };
            return (true, status, read16, out, rep16);
        }
        let mut text2 = text;
        self.unencoded_bytes.append(&mut text2);
        let er = if let Some(e) = &mut self.encoder {
            e.encode_from_utf8(self.unencoded_bytes.as_slice(), dst_cap, last)
        } else {
            unreached()
        };
        let (out, eread, einput_empty, unmappable) = er;
        let tail = self.unencoded_bytes.split_off(eread);
        self.unencoded_bytes = tail;
        self.src_encoding = Some(enc);
        self.decoder = Some(decoder);
        self.decoder_finished = last && input_empty;
        let status = if input_empty && einput_empty {
            CoderResult::InputEmpty
        } else {
            CoderResult::OutputFull
        };
        (true, status, read, out, replaced || unmappable)
    }

    /// Selects the source encoding for the stream — by the byte-order mark
    /// if there is one, else by feeding the guesser up to the budget of
    /// significant bytes — then decodes the whole prefix as a trial, scores
    /// it against the non-text threshold, and commits the transcoding state
    /// exactly when the guess is accepted. A rejected guess returns no
    /// encoding, and the caller falls back to a verbatim copy.
    pub fn guess_and_transcode(
        &mut self,
        src: &[u8],
        dst_cap: usize,
        non_ascii_to_guess: usize,
        non_text_threshold: u8,
        last: bool,
    ) -> (r: (Option<Enc>, CoderResult, usize, Vec<u8>, bool))
        requires
            old(self).wf(),
            !old(self).has_decoder(),
            dst_cap >= 4,
        ensures
            final(self).wf(),
            final(self).spec_dst() == old(self).spec_dst(),
            final(self).scratch_size() == old(self).scratch_size(),
            r.2 <= src@.len(),
            r.3@.len() <= dst_cap,
            ({
                let chosen = chosen_encoding(src@, non_ascii_to_guess as nat, last);
                let cap = old(self).trial_cap(dst_cap as nat);
                let tstep = trial_step(chosen, src@, cap, last);
                let rejected = spec_guess_rejected(chosen, src@, cap, non_text_threshold, last);
                &&& (r.0 is Some) == !rejected
                &&& (r.0 matches Some(e) ==> e.spec_name() == chosen)
                &&& (rejected ==> {
                    &&& r.1 == (if tstep.input_empty {
                        CoderResult::InputEmpty
                    } else {
                        CoderResult::OutputFull
                    })
                    &&& r.2 == tstep.read
                    &&& r.3@ == Seq::<u8>::empty()
                    &&& r.4 == tstep.replaced
                    &&& !final(self).has_decoder()
                    &&& !final(self).dec_done()
                    &&& final(self).carry() == old(self).carry()
                })
                &&& (!rejected && old(self).carry() == Seq::<u8>::empty() && (old(self).spec_dst()
                    == utf8_name() || old(self).spec_dst_is_utf16() || old(self).enc_hist()
                    == Seq::<CoderCall>::empty()) ==> ({
                    let c = fresh_guess_commit(
                        old(self).spec_dst(),
                        chosen,
                        src@,
                        dst_cap as nat,
                        old(self).scratch_size(),
                        last,
                    );
                    &&& r.3@ == c.out
                    &&& r.2 == c.read
                    &&& r.1 == c.status
                    &&& r.4 == c.replaced
                }))
                &&& (!rejected ==> (final(self).dec_done() ==> (r.2 == src@.len() && last)))
                &&& (!rejected && r.1 == CoderResult::InputEmpty && last ==> final(self).dec_done())
                &&& (!rejected ==> {
                    &&& final(self).has_decoder()
                    &&& final(self).spec_src() == Some(chosen)
                    &&& final(self).dec_enc() == chosen
                    &&& (old(self).spec_dst() == utf8_name() ==> {
                        &&& r.3@ == tstep.text
                        &&& r.2 == tstep.read
                        &&& r.1 == (if tstep.input_empty {
                            CoderResult::InputEmpty
                        } else {
                            CoderResult::OutputFull
                        })
                        &&& final(self).dec_done() == (last && tstep.input_empty)
                    })
                    &&& (old(self).spec_dst_is_utf16() ==> ({
                        let step16 = decode_utf16_step(
                            chosen,
                            Seq::<CoderCall>::empty(),
                            src@,
                            (dst_cap / 2) as nat,
                            last,
                        );
                        &&& r.3@ == utf16_bytes(step16.units, old(self).spec_dst()
                            == utf16be_name())
                        &&& r.2 == step16.read
                        &&& r.1 == (if step16.input_empty {
                            CoderResult::InputEmpty
                        } else {
                            CoderResult::OutputFull
                        })
                        &&& final(self).dec_done() == (last && step16.input_empty)
                    }))
                    &&& (old(self).spec_dst() != utf8_name() && !old(self).spec_dst_is_utf16()
                        ==> ({
                        let merged = old(self).carry() + tstep.text;
                        let estep = encode_step(
                            spec_output_name(old(self).spec_dst()),
                            old(self).enc_hist(),
                            merged,
                            dst_cap as nat,
                            last,
                        );
                        &&& r.3@ == estep.out
                        &&& r.2 == tstep.read
                        &&& r.1 == (if tstep.input_empty && estep.input_empty {
                            CoderResult::InputEmpty
                        } else {
                            CoderResult::OutputFull
                        })
                        &&& final(self).carry() == merged.skip(estep.read as int)
                        &&& final(self).dec_done() == (last && tstep.input_empty)
                    }))
                })
            }),
    {
        let enc: Enc = match sniff_bom(src) {
            Some(found_bom) => {
                let (encoding, _) = found_bom;
                encoding
            },
            None => {
                let mut detector = Detector::new();
                feed_for_guess(&mut detector, src, non_ascii_to_guess, last);
                proof {
                    assert(detector.bytes_fed() == src@.take(
                        spec_fed_len(src@, non_ascii_to_guess as nat) as int,
                    ));
                }
                detector.guess()
            },
        };
        proof {
            assert(enc.spec_name() == chosen_encoding(src@, non_ascii_to_guess as nat, last));
        }
        let enc_out = enc.clone();
        let (accepted, status, read, out, had_replacement) = self.try_transcode(
            enc,
            src,
            dst_cap,
            non_text_threshold,
            last,
        );
        let guessed = if accepted {
            Some(enc_out)
        } else {
            None
        };
        proof {
            lemma_names_distinct();
            let chosen = chosen_encoding(src@, non_ascii_to_guess as nat, last);
            let cap = old(self).trial_cap(dst_cap as nat);
            let tstep = trial_step(chosen, src@, cap, last);
            assert(Seq::<u8>::empty() + tstep.text =~= tstep.text);
        }
        (guessed, status, read, out, had_replacement)
    }
}

} // verus!
