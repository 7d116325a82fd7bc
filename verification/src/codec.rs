//! The trusted boundary to the two outside capabilities the engine consumes:
//! the per-encoding incremental codec (`encoding_rs`) and the statistical
//! charset guesser (`chardetng`).
//!
//! Both are deterministic: what a coder or the guesser produces is a function
//! of the encoding it was created for and of the full sequence of calls made
//! on it so far. That history is carried as ghost state, and the outcome of
//! each call is given a name (an uninterpreted function of the history), so
//! that the verified engine above can state exactly how its own bookkeeping
//! relates to what the codec produced.

use vstd::prelude::*;
use vstd::utf8::valid_utf8;
use vstd::utf8::decode_utf8;
use vstd::utf8::is_char_boundary;

verus! {

// What Encoding::for_label returns for a label: the canonical name of the
// encoding it designates, or none when the label is not recognized.
pub uninterp spec fn encoding_of_label(label: Seq<char>) -> Option<Seq<char>>;

/// The canonical name of the UTF-8 encoding.
pub open spec fn utf8_name() -> Seq<char> {
    "UTF-8"@
}

/// The canonical name of the UTF-16LE encoding.
pub open spec fn utf16le_name() -> Seq<char> {
    "UTF-16LE"@
}

/// The canonical name of the UTF-16BE encoding.
pub open spec fn utf16be_name() -> Seq<char> {
    "UTF-16BE"@
}

/// The canonical name of the replacement encoding, which decodes
/// everything to the replacement character and has no encoder of its own.
pub open spec fn replacement_name() -> Seq<char> {
    "replacement"@
}

/// The encoding a fresh encoder actually encodes to: the named one, except
/// that the replacement encoding's output encoding is UTF-8. (UTF-16 is
/// excluded from encoder creation altogether.)
pub open spec fn spec_output_name(n: Seq<char>) -> Seq<char> {
    if n == replacement_name() {
        utf8_name()
    } else {
        n
    }
}

/// The three canonical names with a dedicated code path are pairwise
/// distinct.
pub proof fn lemma_names_distinct()
    ensures
        utf8_name() != utf16le_name(),
        utf8_name() != utf16be_name(),
        utf16le_name() != utf16be_name(),
{
    reveal_strlit("UTF-8");
    reveal_strlit("UTF-16LE");
    reveal_strlit("UTF-16BE");
    assert(utf8_name().len() == 5);
    assert(utf16le_name().len() == 8);
    assert(utf16le_name()[6] == 'L');
    assert(utf16be_name()[6] == 'B');
}

/// One call of an incremental coder: the input offered, the capacity of the
/// output buffer, and the end-of-stream flag.
pub ghost struct CoderCall {
    pub src: Seq<u8>,
    pub cap: nat,
    pub last: bool,
}

/// What one decoder call, decoding to UTF-8, produces.
pub ghost struct DecodeStep {
    /// How many input bytes were consumed.
    pub read: nat,
    /// The UTF-8 bytes written.
    pub text: Seq<u8>,
    /// Whether the whole input was consumed (as opposed to the output
    /// buffer filling up).
    pub input_empty: bool,
    /// Whether a malformed sequence was replaced.
    pub replaced: bool,
}

/// What one decoder call, decoding to UTF-16, produces.
pub ghost struct DecodeStep16 {
    pub read: nat,
    /// The UTF-16 code units written.
    pub units: Seq<u16>,
    pub input_empty: bool,
    pub replaced: bool,
}

/// What one encoder call produces.
pub ghost struct EncodeStep {
    /// How many bytes of the UTF-8 input were consumed.
    pub read: nat,
    /// The encoded bytes written.
    pub out: Seq<u8>,
    pub input_empty: bool,
    /// Whether an unmappable character was replaced.
    pub unmappable: bool,
}

// What Decoder::decode_to_utf8 returns: a function of the encoding, the
// call history of the decoder, and the arguments of the call.
pub uninterp spec fn decode_utf8_step(
    enc: Seq<char>,
    hist: Seq<CoderCall>,
    src: Seq<u8>,
    cap: nat,
    last: bool,
) -> DecodeStep;

// What Decoder::decode_to_utf16 returns.
pub uninterp spec fn decode_utf16_step(
    enc: Seq<char>,
    hist: Seq<CoderCall>,
    src: Seq<u8>,
    cap: nat,
    last: bool,
) -> DecodeStep16;

// What Encoder::encode_from_utf8 returns.
pub uninterp spec fn encode_step(
    enc: Seq<char>,
    hist: Seq<CoderCall>,
    src: Seq<u8>,
    cap: nat,
    last: bool,
) -> EncodeStep;

// What EncodingDetector::guess concludes, with no top-level domain given:
// the canonical name of the guessed encoding, as a function of the bytes
// fed, of whether the end of the stream was signalled, and of whether UTF-8
// is an allowed guess.
pub uninterp spec fn guess_of(fed: Seq<u8>, closed: bool, allow_utf8: bool) -> Seq<char>;

/// Whether some byte of `s` is outside the ASCII range.
pub open spec fn has_non_ascii(s: Seq<u8>) -> bool {
    exists|i: int| 0 <= i < s.len() && s[i] >= 0x80
}

/// Declares the incremental decoder type of encoding_rs.
#[verifier::external_type_specification]
#[verifier::external_body]
pub struct ExDecoder(encoding_rs::Decoder);

/// Declares the incremental encoder type of encoding_rs.
#[verifier::external_type_specification]
#[verifier::external_body]
pub struct ExEncoder(encoding_rs::Encoder);

/// Declares the charset detector type of chardetng.
#[verifier::external_type_specification]
#[verifier::external_body]
pub struct ExEncodingDetector(chardetng::EncodingDetector);

/// The identity of a character encoding, given by its canonical name.
/// Encodings are equal exactly when their canonical names are.
pub struct Enc {
    name: String,
}

impl Enc {
    /// The canonical name that stands for this encoding.
    pub closed spec fn spec_name(&self) -> Seq<char> {
        self.name@
    }

    #[verifier::type_invariant]
    spec fn inv(&self) -> bool {
        encoding_of_label(self.name@) == Some(self.name@)
    }

    /// Whether this is the UTF-8 encoding.
    pub open spec fn is_utf8(&self) -> bool {
        self.spec_name() == utf8_name()
    }

    /// Whether this is the UTF-16LE encoding.
    pub open spec fn is_utf16le(&self) -> bool {
        self.spec_name() == utf16le_name()
    }

    /// Whether this is the UTF-16BE encoding.
    pub open spec fn is_utf16be(&self) -> bool {
        self.spec_name() == utf16be_name()
    }

    /// Whether this is one of the two UTF-16 encodings, which have no
    /// incremental encoder of their own.
    pub open spec fn is_utf16(&self) -> bool {
        self.is_utf16le() || self.is_utf16be()
    }

    /// Relies on Encoding::for_label and Encoding::name of encoding_rs:
    /// the label is looked up per the Encoding Standard, and the canonical
    /// name of every encoding is itself a label of that same encoding.
    #[verifier::external_body]
    pub fn for_label(label: &str) -> (r: Option<Enc>)
        ensures
            (r is Some) == (encoding_of_label(label@) is Some),
            r matches Some(e) ==> Some(e.spec_name()) == encoding_of_label(label@),
    {
        match encoding_rs::Encoding::for_label(label.as_bytes()) {
            Some(e) => Some(Enc { name: e.name().to_owned() }),
            None => None,
        }
    }

    /// Relies on encoding_rs::UTF_8: its canonical name is "UTF-8".
    #[verifier::external_body]
    pub fn utf8() -> (e: Enc)
        ensures
            e.spec_name() == utf8_name(),
    {
        Enc { name: encoding_rs::UTF_8.name().to_owned() }
    }

    /// Relies on encoding_rs::UTF_16LE: its canonical name is "UTF-16LE".
    #[verifier::external_body]
    pub(crate) fn utf16le() -> (e: Enc)
        ensures
            e.spec_name() == utf16le_name(),
    {
        Enc { name: encoding_rs::UTF_16LE.name().to_owned() }
    }

    /// Relies on encoding_rs::UTF_16BE: its canonical name is "UTF-16BE".
    #[verifier::external_body]
    pub(crate) fn utf16be() -> (e: Enc)
        ensures
            e.spec_name() == utf16be_name(),
    {
        Enc { name: encoding_rs::UTF_16BE.name().to_owned() }
    }

    /// The canonical name, for display.
    pub fn name(&self) -> (r: &str)
        ensures
            r@ == self.spec_name(),
    {
        self.name.as_str()
    }

    /// Whether this encoding's canonical name is `s`.
    pub fn name_is(&self, s: &str) -> (r: bool)
        ensures
            r == (self.spec_name() == s@),
    {
        self.name == s.to_owned()
    }

    /// Whether this is the UTF-8 encoding.
    pub fn check_utf8(&self) -> (r: bool)
        ensures
            r == self.is_utf8(),
    {
        self.name_is("UTF-8")
    }

    /// Whether this is one of the two UTF-16 encodings.
    pub fn check_utf16(&self) -> (r: bool)
        ensures
            r == self.is_utf16(),
    {
        self.name_is("UTF-16LE") || self.name_is("UTF-16BE")
    }

    /// Whether two encodings are the same.
    pub fn same(&self, other: &Enc) -> (r: bool)
        ensures
            r == (self.spec_name() == other.spec_name()),
    {
        self.name == other.name
    }

    /// Relies on Encoding::for_label and Encoding::new_decoder of
    /// encoding_rs: a fresh decoder for this encoding, with BOM sniffing,
    /// that has consumed nothing yet. The lookup cannot fail because a
    /// canonical name is a label of its own encoding.
    #[verifier::external_body]
    pub(crate) fn new_decoder(&self) -> (d: TextDecoder)
        ensures
            d.encoding() == self.spec_name(),
            d.history() == Seq::<CoderCall>::empty(),
            !d.finished(),
    {
        TextDecoder {
            inner: encoding_rs::Encoding::for_label(self.name.as_bytes()).unwrap().new_decoder(),
            enc: Ghost(arbitrary()),
            hist: Ghost(arbitrary()),
            done: Ghost(arbitrary()),
        }
    }

    /// Relies on Encoding::for_label and Encoding::new_encoder of
    /// encoding_rs: a fresh encoder for this encoding's output encoding,
    /// which is the encoding itself except for the replacement encoding,
    /// whose output encoding is UTF-8. UTF-16 is excluded because
    /// encoding_rs has no UTF-16 encoder (it would hand back a UTF-8 one
    /// for it too).
    #[verifier::external_body]
    pub(crate) fn new_encoder(&self) -> (r: TextEncoder)
        requires
            !self.is_utf16(),
        ensures
            r.encoding() == spec_output_name(self.spec_name()),
            r.history() == Seq::<CoderCall>::empty(),
    {
        TextEncoder {
            inner: encoding_rs::Encoding::for_label(self.name.as_bytes()).unwrap().new_encoder(),
            enc: Ghost(arbitrary()),
            hist: Ghost(arbitrary()),
        }
    }
}

impl Clone for Enc {
    /// A clone stands for the same encoding.
    fn clone(&self) -> (r: Self)
        ensures
            r.spec_name() == self.spec_name(),
    {
        proof {
            use_type_invariant(self);
        }
        Enc { name: self.name.clone() }
    }
}

/// An incremental decoder: the stateful side of one stream's decoding. The
/// ghost history records every call made on it.
pub struct TextDecoder {
    inner: encoding_rs::Decoder,
    enc: Ghost<Seq<char>>,
    hist: Ghost<Seq<CoderCall>>,
    done: Ghost<bool>,
}

impl TextDecoder {
    /// The canonical name of the encoding this decoder was created for.
    pub closed spec fn encoding(&self) -> Seq<char> {
        self.enc@
    }

    /// The calls made on this decoder so far.
    pub closed spec fn history(&self) -> Seq<CoderCall> {
        self.hist@
    }

    /// Whether the decoder has finished: it was given the last input and
    /// consumed it all. A finished decoder must not be used again.
    pub closed spec fn finished(&self) -> bool {
        self.done@
    }

    /// Relies on Decoder::decode_to_utf8 of encoding_rs: it consumes a
    /// prefix of `src`, writes at most `cap` bytes of valid UTF-8 made of
    /// complete characters, reports "input empty" exactly when all of `src`
    /// was consumed, needs at least 4 bytes of output space, and must not
    /// be called once the decoder has finished.
    #[verifier::external_body]
    pub(crate) fn decode_to_utf8(&mut self, src: &[u8], cap: usize, last: bool) -> (r: (
        Vec<u8>,
        usize,
        bool,
        bool,
    ))
        requires
            !old(self).finished(),
            cap >= 4,
        ensures
            final(self).encoding() == old(self).encoding(),
            final(self).history() == old(self).history().push(
                (CoderCall { src: src@, cap: cap as nat, last }),
            ),
            ({
                let step = decode_utf8_step(
                    old(self).encoding(),
                    old(self).history(),
                    src@,
                    cap as nat,
                    last,
                );
                &&& r.0@ == step.text
                &&& r.1 == step.read
                &&& r.2 == step.input_empty
                &&& r.3 == step.replaced
            }),
            valid_utf8(r.0@),
            r.0@.len() <= cap,
            r.1 <= src@.len(),
            r.2 ==> r.1 == src@.len(),
            final(self).finished() == (last && r.2),
    {
        let mut buf = vec![0u8; cap];
        let (res, read, written, replaced) = self.inner.decode_to_utf8(src, &mut buf, last);
        buf.truncate(written);
        (buf, read, res == encoding_rs::CoderResult::InputEmpty, replaced)
    }

    /// Relies on Decoder::decode_to_utf16 of encoding_rs: as with
    /// decode_to_utf8, but the output is UTF-16 code units and at least 2
    /// units of output space are needed.
    #[verifier::external_body]
    pub(crate) fn decode_to_utf16(&mut self, src: &[u8], cap: usize, last: bool) -> (r: (
        Vec<u16>,
        usize,
        bool,
        bool,
    ))
        requires
            !old(self).finished(),
            cap >= 2,
        ensures
            final(self).encoding() == old(self).encoding(),
            final(self).history() == old(self).history().push(
                (CoderCall { src: src@, cap: cap as nat, last }),
            ),
            ({
                let step = decode_utf16_step(
                    old(self).encoding(),
                    old(self).history(),
                    src@,
                    cap as nat,
                    last,
                );
                &&& r.0@ == step.units
                &&& r.1 == step.read
                &&& r.2 == step.input_empty
                &&& r.3 == step.replaced
            }),
            r.0@.len() <= cap,
            r.1 <= src@.len(),
            r.2 ==> r.1 == src@.len(),
            final(self).finished() == (last && r.2),
    {
        let mut buf = vec![0u16; cap];
        let (res, read, written, replaced) = self.inner.decode_to_utf16(src, &mut buf, last);
        buf.truncate(written);
        (buf, read, res == encoding_rs::CoderResult::InputEmpty, replaced)
    }
}

/// An incremental encoder: the stateful side of one stream's encoding. The
/// ghost history records every call made on it.
pub struct TextEncoder {
    inner: encoding_rs::Encoder,
    enc: Ghost<Seq<char>>,
    hist: Ghost<Seq<CoderCall>>,
}

impl TextEncoder {
    /// The canonical name of the encoding this encoder was created for.
    pub closed spec fn encoding(&self) -> Seq<char> {
        self.enc@
    }

    /// The calls made on this encoder so far.
    pub closed spec fn history(&self) -> Seq<CoderCall> {
        self.hist@
    }

    /// Relies on Encoder::encode_from_utf8 of encoding_rs: it consumes
    /// whole characters from a prefix of the UTF-8 input, writes at most
    /// `cap` bytes, reports "input empty" exactly when the whole input was
    /// consumed, and replaces unmappable characters with numeric character
    /// references. Unlike a decoder it may be called again after the end of
    /// the stream until it reports "input empty".
    #[verifier::external_body]
    pub(crate) fn encode_from_utf8(&mut self, src: &[u8], cap: usize, last: bool) -> (r: (
        Vec<u8>,
        usize,
        bool,
        bool,
    ))
        requires
            valid_utf8(src@),
        ensures
            final(self).encoding() == old(self).encoding(),
            final(self).history() == old(self).history().push(
                (CoderCall { src: src@, cap: cap as nat, last }),
            ),
            ({
                let step = encode_step(
                    old(self).encoding(),
                    old(self).history(),
                    src@,
                    cap as nat,
                    last,
                );
                &&& r.0@ == step.out
                &&& r.1 == step.read
                &&& r.2 == step.input_empty
                &&& r.3 == step.unmappable
            }),
            r.0@.len() <= cap,
            r.1 <= src@.len(),
            is_char_boundary(src@, r.1 as int),
            r.2 ==> r.1 == src@.len(),
    {
        let s = core::str::from_utf8(src).unwrap();
        let mut buf = vec![0u8; cap];
        let (res, read, written, unmappable) = self.inner.encode_from_utf8(s, &mut buf, last);
        buf.truncate(written);
        (buf, read, res == encoding_rs::CoderResult::InputEmpty, unmappable)
    }
}

/// The statistical charset guesser. The ghost state records the bytes fed.
pub struct Detector {
    inner: chardetng::EncodingDetector,
    fed: Ghost<Seq<u8>>,
    closed: Ghost<bool>,
}

impl Detector {
    /// The bytes fed to the guesser so far.
    pub closed spec fn bytes_fed(&self) -> Seq<u8> {
        self.fed@
    }

    /// Whether the end of the stream has been signalled; the guesser must
    /// not be fed after that.
    pub closed spec fn is_closed(&self) -> bool {
        self.closed@
    }

    /// Relies on EncodingDetector::new of chardetng, with ISO-2022-JP
    /// among the allowed guesses.
    #[verifier::external_body]
    pub(crate) fn new() -> (d: Detector)
        ensures
            d.bytes_fed() == Seq::<u8>::empty(),
            !d.is_closed(),
    {
        Detector {
            inner: chardetng::EncodingDetector::new(chardetng::Iso2022JpDetection::Allow),
            fed: Ghost(arbitrary()),
            closed: Ghost(arbitrary()),
        }
    }

    /// Relies on EncodingDetector::feed of chardetng: the stream may be fed
    /// in chunks of any size, here one byte at a time; it must not be fed
    /// after the end was signalled; and the result says whether the stream
    /// has contained a non-ASCII byte so far.
    #[verifier::external_body]
    pub(crate) fn feed_byte(&mut self, b: u8, last: bool) -> (r: bool)
        requires
            !old(self).is_closed(),
        ensures
            final(self).bytes_fed() == old(self).bytes_fed().push(b),
            final(self).is_closed() == last,
            r == has_non_ascii(final(self).bytes_fed()),
    {
        self.inner.feed(&[b], last)
    }

    /// Relies on EncodingDetector::guess of chardetng, called with no
    /// top-level domain and with UTF-8 allowed: the guess is a function of
    /// the bytes fed and of whether the end of the stream was signalled,
    /// and the returned encoding's canonical name is a label of itself.
    #[verifier::external_body]
    pub(crate) fn guess(&self) -> (r: Enc)
        ensures
            r.spec_name() == guess_of(self.bytes_fed(), self.is_closed(), true),
    {
        Enc { name: self.inner.guess(None, chardetng::Utf8Detection::Allow).name().to_owned() }
    }
}

/// Relies on str::from_utf8 of std: valid UTF-8 bytes reinterpreted as the
/// text they encode.
#[verifier::external_body]
pub(crate) fn utf8_as_str(v: &[u8]) -> (r: &str)
    requires
        valid_utf8(v@),
    ensures
        r@ == decode_utf8(v@),
{
    core::str::from_utf8(v).unwrap()
}

} // verus!
