//! The stream driver: guesses the source encoding from a bounded prefix,
//! then delivers the stream transcoded — or verbatim, when the guess was
//! rejected or no transcoding is needed. The driver itself performs no
//! I/O: the caller reads chunks from its source and hands them in, and
//! writes out whatever the driver produces.

use vstd::prelude::*;
use crate::codec::Enc;
use crate::transcoder::Transcoder;
use crate::transcoder::CoderResult;
use crate::transcoder::spec_transcode;
use crate::transcoder::chosen_encoding;
use crate::transcoder::spec_guess_rejected;
use crate::transcoder::fresh_guess_commit;

verus! {

/// Configures the encoding detection of a stream: how much of it seeds the
/// guess, the guesser's budget of significant bytes, the non-text
/// threshold, and whether a missing UTF-16 byte-order mark is added.
#[derive(Debug)]
pub struct I18nReaderEncodingDetector {
    bytes_to_guess: usize,
    non_ascii_to_guess: usize,
    non_text_threshold: u8,
    buffer_size: usize,
    add_bom_utf16: bool,
}

/// The outcome of the one guess a stream gets.
pub enum GuessResult {
    /// The input was empty: there is nothing to deliver.
    NoInput,
    /// The guess was accepted: the reader transcodes, or hands the input
    /// through when the source already has the destination encoding.
    Success(I18nReader, Enc),
    /// The guess was rejected: the reader hands the input through
    /// verbatim.
    Fail(I18nReader),
}

impl I18nReaderEncodingDetector {
    /// How many bytes of the stream seed the guess.
    pub closed spec fn spec_bytes_to_guess(&self) -> nat {
        self.bytes_to_guess as nat
    }

    /// The guesser's budget of significant bytes.
    pub closed spec fn spec_non_ascii_to_guess(&self) -> nat {
        self.non_ascii_to_guess as nat
    }

    /// The non-text percentage above which the guess is rejected.
    pub closed spec fn spec_non_text_threshold(&self) -> u8 {
        self.non_text_threshold
    }

    /// The size of the transcoding buffers.
    pub closed spec fn spec_buffer_size(&self) -> nat {
        self.buffer_size as nat
    }

    /// Whether a missing UTF-16 byte-order mark is added to the output.
    pub closed spec fn spec_add_bom_utf16(&self) -> bool {
        self.add_bom_utf16
    }

    /// The defaults: an 8 KiB buffer, a 1 KiB guess window, a budget of 100
    /// significant bytes, threshold zero, and no added byte-order mark.
    pub fn new() -> (r: Self)
        ensures
            r.spec_bytes_to_guess() == 1024,
            r.spec_non_ascii_to_guess() == 100,
            r.spec_non_text_threshold() == 0,
            r.spec_buffer_size() == 8 * 1024,
            !r.spec_add_bom_utf16(),
    {
        Self {
            bytes_to_guess: 1024,
            non_ascii_to_guess: 100,
            non_text_threshold: 0,
            buffer_size: 8 * 1024,
            add_bom_utf16: false,
        }
    }

    /// Sets the buffer size. A size too small for one transcoding step is
    /// ignored.
    pub fn buffer_size(self, size: usize) -> (r: Self)
        ensures
            r.spec_buffer_size() == if size >= 16 {
                size as nat
            } else {
                self.spec_buffer_size()
            },
            r.spec_bytes_to_guess() == self.spec_bytes_to_guess(),
            r.spec_non_ascii_to_guess() == self.spec_non_ascii_to_guess(),
            r.spec_non_text_threshold() == self.spec_non_text_threshold(),
            r.spec_add_bom_utf16() == self.spec_add_bom_utf16(),
    {
        if size < 16 {
            return self;
        }
        proof {
            use_type_invariant(&self);
        }
        let mut r = self;
        r.buffer_size = size;
        r
    }

    /// Sets how many bytes of the stream seed the guess.
    pub fn bytes_to_guess(self, size: usize) -> (r: Self)
        ensures
            r.spec_bytes_to_guess() == size,
            r.spec_buffer_size() == self.spec_buffer_size(),
            r.spec_non_ascii_to_guess() == self.spec_non_ascii_to_guess(),
            r.spec_non_text_threshold() == self.spec_non_text_threshold(),
            r.spec_add_bom_utf16() == self.spec_add_bom_utf16(),
    {
        proof {
            use_type_invariant(&self);
        }
        let mut r = self;
        r.bytes_to_guess = size;
        r
    }

    /// Sets the non-text percentage above which the guess is rejected.
    pub fn non_text_threshold(self, percent: u8) -> (r: Self)
        ensures
            r.spec_non_text_threshold() == percent,
            r.spec_buffer_size() == self.spec_buffer_size(),
            r.spec_bytes_to_guess() == self.spec_bytes_to_guess(),
            r.spec_non_ascii_to_guess() == self.spec_non_ascii_to_guess(),
            r.spec_add_bom_utf16() == self.spec_add_bom_utf16(),
    {
        proof {
            use_type_invariant(&self);
        }
        let mut r = self;
        r.non_text_threshold = percent;
        r
    }

    /// Sets the guesser's budget of significant bytes.
    pub fn non_ascii_to_guess(self, num: usize) -> (r: Self)
        ensures
            r.spec_non_ascii_to_guess() == num,
            r.spec_buffer_size() == self.spec_buffer_size(),
            r.spec_bytes_to_guess() == self.spec_bytes_to_guess(),
            r.spec_non_text_threshold() == self.spec_non_text_threshold(),
            r.spec_add_bom_utf16() == self.spec_add_bom_utf16(),
    {
        proof {
            use_type_invariant(&self);
        }
        let mut r = self;
        r.non_ascii_to_guess = num;
        r
    }

    #[verifier::type_invariant]
    spec fn inv(&self) -> bool {
        self.buffer_size >= 16
    }

    /// Sets whether a missing UTF-16 byte-order mark is added.
    pub fn add_bom_utf16(self, add_bom: bool) -> (r: Self)
        ensures
            r.spec_add_bom_utf16() == add_bom,
            r.spec_buffer_size() == self.spec_buffer_size(),
            r.spec_bytes_to_guess() == self.spec_bytes_to_guess(),
            r.spec_non_ascii_to_guess() == self.spec_non_ascii_to_guess(),
            r.spec_non_text_threshold() == self.spec_non_text_threshold(),
    {
        proof {
            use_type_invariant(&self);
        }
        let mut r = self;
        r.add_bom_utf16 = add_bom;
        r
    }
}

/// The byte-order mark the output gets when one is wanted, the destination
/// is UTF-16, and the produced bytes do not already begin with one.
pub open spec fn maybe_bom(dst: Seq<char>, add: bool, out: Seq<u8>) -> Seq<u8> {
    if add && dst == crate::codec::utf16be_name() && !(out.len() >= 2 && out[0] == 0xFE && out[1]
        == 0xFF) {
        seq![0xFEu8, 0xFFu8]
    } else if add && dst == crate::codec::utf16le_name() && !(out.len() >= 2 && out[0] == 0xFF
        && out[1] == 0xFE) {
        seq![0xFFu8, 0xFEu8]
    } else {
        seq![]
    }
}

/// What one step of the reader asks of its caller.
pub enum ReadStep {
    /// Deliver these bytes.
    Output(Vec<u8>),
    /// The stream has been delivered in full.
    Done,
    /// Copy bytes straight from the source: no transcoding is needed.
    Raw,
    /// Read one chunk from the source and hand it to `feed`; an empty
    /// chunk means the source is exhausted.
    NeedInput,
}

/// The state of one stream being delivered: the transcoder, the unread
/// remainder of the last chunk, the produced bytes not yet handed out, and
/// the flags of the drive loop.
pub struct I18nReader {
    read_buffer: Vec<u8>,
    write_buffer: Vec<u8>,
    transcoder: Transcoder,
    had_replacement_or_unmappable: bool,
    transcode_done: bool,
    eof: bool,
    no_transcoding_needed: bool,
}

impl I18nReader {
    /// The produced bytes not yet handed to the caller.
    pub closed spec fn pending(&self) -> Seq<u8> {
        self.write_buffer@
    }

    /// The unread remainder of the last chunk.
    pub closed spec fn src_pending(&self) -> Seq<u8> {
        self.read_buffer@
    }

    /// Whether the reader hands bytes through verbatim.
    pub closed spec fn raw_mode(&self) -> bool {
        self.no_transcoding_needed
    }

    /// Whether transcoding has delivered the whole stream.
    pub closed spec fn done_flag(&self) -> bool {
        self.transcode_done
    }

    /// Whether the source has reported its end.
    pub closed spec fn eof_flag(&self) -> bool {
        self.eof
    }

    /// Whether a replacement or unmappable character has occurred so far.
    pub closed spec fn had_repl(&self) -> bool {
        self.had_replacement_or_unmappable
    }

    /// The transcoder driving this stream.
    pub closed spec fn trans(&self) -> Transcoder {
        self.transcoder
    }

    /// The reader is consistent: its transcoder is, a transcoding reader
    /// has a decoder, and a finished decoder means the chunk was consumed
    /// at the end of the stream.
    pub closed spec fn wf(&self) -> bool {
        &&& self.transcoder.wf()
        &&& (!self.no_transcoding_needed ==> self.transcoder.has_decoder())
        &&& (self.transcoder.dec_done() ==> (self.read_buffer@.len() == 0 && self.eof))
    }

    /// A reader over a transcoder whose source encoding is already known.
    pub fn new(transcoder: Transcoder) -> (r: Self)
        requires
            transcoder.wf(),
            transcoder.has_decoder(),
            !transcoder.dec_done(),
        ensures
            r.wf(),
            r.pending() == Seq::<u8>::empty(),
            r.src_pending() == Seq::<u8>::empty(),
            !r.raw_mode(),
            !r.done_flag(),
            !r.eof_flag(),
            !r.had_repl(),
            r.trans() == transcoder,
    {
        Self {
            read_buffer: Vec::new(),
            write_buffer: Vec::new(),
            transcoder,
            had_replacement_or_unmappable: false,
            transcode_done: false,
            eof: false,
            no_transcoding_needed: false,
        }
    }

    /// Whether replacement or unmappable characters were seen so far.
    pub fn had_replacement_or_unmappable(self: &Self) -> (r: bool)
        ensures
            r == self.had_repl(),
    {
        return self.had_replacement_or_unmappable;
    }

    /// Hands out up to `cap` bytes of the pending output, oldest first,
    /// keeping the rest.
    fn copy_from_write_buffer_to(&mut self, cap: usize) -> (out: Vec<u8>)
        requires
            old(self).wf(),
        ensures
            final(self).wf(),
            out@ == old(self).pending().take(vstd::math::min(
                cap as int,
                old(self).pending().len() as int,
            )),
            final(self).pending() == old(self).pending().skip(vstd::math::min(
                cap as int,
                old(self).pending().len() as int,
            )),
            final(self).src_pending() == old(self).src_pending(),
            final(self).raw_mode() == old(self).raw_mode(),
            final(self).done_flag() == old(self).done_flag(),
            final(self).eof_flag() == old(self).eof_flag(),
            final(self).had_repl() == old(self).had_repl(),
            final(self).trans() == old(self).trans(),
    {
        let m = if cap < self.write_buffer.len() {
            cap
        } else {
            self.write_buffer.len()
        };
        let mut tail = self.write_buffer.split_off(m);
        std::mem::swap(&mut self.write_buffer, &mut tail);
        tail
    }

    /// The output capacity of one internal transcode step: the caller's
    /// buffer if it is comfortably large, else the reader's own buffer.
    pub open spec fn step_cap(cap: nat) -> nat {
        if cap > 16 {
            cap
        } else {
            8 * 1024
        }
    }

    /// Runs one transcode step over the unread remainder, delivering up to
    /// `cap` bytes and keeping any overflow pending.
    fn run_transcode(&mut self, cap: usize) -> (out: Vec<u8>)
        requires
            old(self).wf(),
            !old(self).raw_mode(),
            old(self).pending().len() == 0,
            cap > 0,
        ensures
            final(self).wf(),
            final(self).raw_mode() == old(self).raw_mode(),
            final(self).eof_flag() == old(self).eof_flag(),
            final(self).trans().spec_dst() == old(self).trans().spec_dst(),
            final(self).trans().has_decoder(),
            old(self).src_pending().len() == 0 && !old(self).eof_flag() ==> (out@ == Seq::<
                u8,
            >::empty() && final(self).pending() == Seq::<u8>::empty() && final(self).src_pending()
                == old(self).src_pending() && final(self).done_flag() == old(self).done_flag()
                && final(self).had_repl() == old(self).had_repl() && final(self).trans() == old(
                self,
            ).trans()),
            !(old(self).src_pending().len() == 0 && !old(self).eof_flag()) ==> ({
                let s = spec_transcode(
                    old(self).trans(),
                    old(self).src_pending(),
                    Self::step_cap(cap as nat),
                    old(self).eof_flag(),
                );
                let m = vstd::math::min(cap as int, s.2.len() as int);
                &&& final(self).src_pending() == old(self).src_pending().skip(s.1 as int)
                &&& final(self).done_flag() == ((s.0 == CoderResult::InputEmpty) && old(
                    self,
                ).eof_flag())
                &&& final(self).had_repl() == (old(self).had_repl() || s.3)
                &&& out@ == (if cap > 16 {
                    s.2
                } else {
                    s.2.take(m)
                })
                &&& final(self).pending() == (if cap > 16 {
                    Seq::<u8>::empty()
                } else {
                    s.2.skip(m)
                })
            }),
    {
        if self.read_buffer.len() == 0 && !self.eof {
            return Vec::new();
        }
        let eof = self.eof;
        if cap > 16 {
            let n = self.read_buffer.len();
            let (result, num_read, produced, has_repl) = self.transcoder.transcode(
                self.read_buffer.as_slice(),
                cap,
                eof,
            );
            let rest = split_consumed(&mut self.read_buffer, num_read);
            self.read_buffer = rest;
            self.had_replacement_or_unmappable = self.had_replacement_or_unmappable || has_repl;
            self.transcode_done = (result == CoderResult::InputEmpty) && eof;
            produced
        } else {
            let (result, num_read, produced, has_repl) = self.transcoder.transcode(
                self.read_buffer.as_slice(),
                8 * 1024,
                eof,
            );
            let rest = split_consumed(&mut self.read_buffer, num_read);
            self.read_buffer = rest;
            self.had_replacement_or_unmappable = self.had_replacement_or_unmappable || has_repl;
            self.transcode_done = (result == CoderResult::InputEmpty) && eof;
            self.write_buffer = produced;
            self.copy_from_write_buffer_to(cap)
        }
    }

    /// One step of delivering the stream: pending output first, then the
    /// raw or finished states, then transcoding of the unread remainder;
    /// otherwise a fresh chunk is needed.
    pub fn read_step(&mut self, cap: usize) -> (r: ReadStep)
        requires
            old(self).wf(),
        ensures
            final(self).wf(),
            final(self).raw_mode() == old(self).raw_mode(),
            final(self).eof_flag() == old(self).eof_flag(),
            cap == 0 ==> (r matches ReadStep::Output(v) && v@ == Seq::<u8>::empty() && *final(self)
                == *old(self)),
            cap > 0 && old(self).pending().len() > 0 ==> ({
                let m = vstd::math::min(cap as int, old(self).pending().len() as int);
                &&& r matches ReadStep::Output(v) && v@ == old(self).pending().take(m)
                &&& final(self).pending() == old(self).pending().skip(m)
                &&& final(self).src_pending() == old(self).src_pending()
                &&& final(self).done_flag() == old(self).done_flag()
                &&& final(self).had_repl() == old(self).had_repl()
                &&& final(self).trans() == old(self).trans()
            }),
            cap > 0 && old(self).pending().len() == 0 && old(self).raw_mode() ==> (r matches
                ReadStep::Raw && *final(self) == *old(self)),
            cap > 0 && old(self).pending().len() == 0 && !old(self).raw_mode() && old(
                self,
            ).done_flag() ==> (r matches ReadStep::Done && *final(self) == *old(self)),
            cap > 0 && old(self).pending().len() == 0 && !old(self).raw_mode() && !old(
                self,
            ).done_flag() && old(self).src_pending().len() == 0 && !old(self).eof_flag() ==> (r
                matches ReadStep::NeedInput && *final(self) == *old(self)),
            cap > 0 && old(self).pending().len() == 0 && !old(self).raw_mode() && !old(
                self,
            ).done_flag() && !(old(self).src_pending().len() == 0 && !old(self).eof_flag()) ==> ({
                let s = spec_transcode(
                    old(self).trans(),
                    old(self).src_pending(),
                    Self::step_cap(cap as nat),
                    old(self).eof_flag(),
                );
                let m = vstd::math::min(cap as int, s.2.len() as int);
                &&& final(self).src_pending() == old(self).src_pending().skip(s.1 as int)
                &&& final(self).done_flag() == ((s.0 == CoderResult::InputEmpty) && old(
                    self,
                ).eof_flag())
                &&& final(self).had_repl() == (old(self).had_repl() || s.3)
                &&& (s.2.len() > 0 ==> (r matches ReadStep::Output(v) && v@ == (if cap > 16 {
                    s.2
                } else {
                    s.2.take(m)
                }) && final(self).pending() == (if cap > 16 {
                    Seq::<u8>::empty()
                } else {
                    s.2.skip(m)
                })))
                &&& (s.2.len() == 0 ==> (r matches ReadStep::NeedInput && final(self).pending()
                    == Seq::<u8>::empty()))
            }),
    {
        if cap == 0 {
            return ReadStep::Output(Vec::new());
        }
        if self.write_buffer.len() > 0 {
            let out = self.copy_from_write_buffer_to(cap);
            return ReadStep::Output(out);
        }
        if self.no_transcoding_needed {
            return ReadStep::Raw;
        }
        if self.transcode_done {
            return ReadStep::Done;
        }
        if self.read_buffer.len() > 0 || self.eof {
            let out = self.run_transcode(cap);
            if out.len() > 0 {
                return ReadStep::Output(out);
            }
            return ReadStep::NeedInput;
        }
        ReadStep::NeedInput
    }

    /// Accepts the next chunk of the source (empty meaning the source is
    /// exhausted) and runs one transcode step over it, returning whatever
    /// it produced. More output may follow via `read_step`.
    pub fn feed(&mut self, chunk: &[u8], cap: usize) -> (out: Vec<u8>)
        requires
            old(self).wf(),
            !old(self).raw_mode(),
            !old(self).done_flag(),
            old(self).pending().len() == 0,
            old(self).eof_flag() ==> chunk@.len() == 0,
            cap > 0,
        ensures
            final(self).wf(),
            final(self).raw_mode() == old(self).raw_mode(),
            final(self).eof_flag() == (chunk@.len() == 0),
            ({
                let last = chunk@.len() == 0;
                let s = spec_transcode(
                    old(self).trans(),
                    chunk@,
                    Self::step_cap(cap as nat),
                    last,
                );
                let m = vstd::math::min(cap as int, s.2.len() as int);
                &&& final(self).src_pending() == chunk@.skip(s.1 as int)
                &&& final(self).done_flag() == ((s.0 == CoderResult::InputEmpty) && last)
                &&& final(self).had_repl() == (old(self).had_repl() || s.3)
                &&& out@ == (if cap > 16 {
                    s.2
                } else {
                    s.2.take(m)
                })
                &&& final(self).pending() == (if cap > 16 {
                    Seq::<u8>::empty()
                } else {
                    s.2.skip(m)
                })
            }),
    {
        let n = chunk.len();
        self.read_buffer = vstd::slice::slice_to_vec(chunk);
        self.eof = n == 0;
        self.run_transcode(cap)
    }
}

impl I18nReaderEncodingDetector {
    /// Guesses the source encoding from the stream's prefix (`eof` saying
    /// whether the prefix is the whole stream) and builds the reader that
    /// delivers the stream: transcoding when the guess was accepted and
    /// the source differs from the destination; verbatim when the source
    /// already has the destination encoding (a success) or the guess was
    /// rejected (a failure the caller may report). An empty prefix means
    /// an empty stream: nothing is delivered at all.
    ///
    /// When the selected encoding equals the destination, the bytes handed
    /// out are exactly the input bytes: the prefix is kept verbatim and
    /// the remainder is copied raw, whatever the chunking.
    pub fn guess(self, prefix: &[u8], eof: bool, dst_encoding: Enc) -> (r: GuessResult)
        ensures
            (r is NoInput) == (prefix@.len() == 0),
            ({
                let chosen = chosen_encoding(prefix@, self.spec_non_ascii_to_guess(), eof);
                let cap = self.spec_buffer_size();
                let rejected = spec_guess_rejected(
                    chosen,
                    prefix@,
                    cap,
                    self.spec_non_text_threshold(),
                    eof,
                );
                &&& (prefix@.len() > 0 && rejected ==> (r matches GuessResult::Fail(rd) && rd.wf()
                    && rd.raw_mode() && rd.pending() == prefix@ && rd.src_pending() == Seq::<
                    u8,
                >::empty() && !rd.done_flag() && rd.eof_flag() == eof && !rd.had_repl()))
                &&& (prefix@.len() > 0 && !rejected && chosen == dst_encoding.spec_name() ==> (r
                    matches GuessResult::Success(rd, e) && e.spec_name() == chosen && rd.wf()
                    && rd.raw_mode() && rd.pending() == prefix@ && rd.src_pending() == Seq::<
                    u8,
                >::empty() && !rd.done_flag() && rd.eof_flag() == eof && !rd.had_repl()))
                &&& (prefix@.len() > 0 && !rejected && chosen != dst_encoding.spec_name() ==> (r
                    matches GuessResult::Success(rd, e) && e.spec_name() == chosen && rd.wf()
                    && !rd.raw_mode() && ({
                    let c = fresh_guess_commit(
                        dst_encoding.spec_name(),
                        chosen,
                        prefix@,
                        cap,
                        cap,
                        eof,
                    );
                    &&& rd.pending() == maybe_bom(
                        dst_encoding.spec_name(),
                        self.spec_add_bom_utf16(),
                        c.out,
                    ) + c.out
                    &&& rd.src_pending() == prefix@.skip(c.read as int)
                    &&& rd.done_flag() == ((c.status == CoderResult::InputEmpty) && eof)
                    &&& rd.eof_flag() == eof
                    &&& rd.had_repl() == c.replaced
                    &&& rd.trans().spec_dst() == dst_encoding.spec_name()
                })))
            }),
    {
        proof {
            use_type_invariant(&self);
        }
        if prefix.len() == 0 {
            return GuessResult::NoInput;
        }
        let buffer_size = self.buffer_size;
        let mut transcoder = Transcoder::new(None, dst_encoding).buffer_size(buffer_size);
        let (guessed, status, num_read, out, has_repl) = transcoder.guess_and_transcode(
            prefix,
            buffer_size,
            self.non_ascii_to_guess,
            self.non_text_threshold,
            eof,
        );
        let no_transcoding_needed = match &guessed {
            None => true,
            Some(e) => e.same(transcoder.dst_encoding()),
        };
        if no_transcoding_needed {
            let write_buffer = vstd::slice::slice_to_vec(prefix);
            let rd = I18nReader {
                read_buffer: Vec::new(),
                write_buffer,
                transcoder,
                had_replacement_or_unmappable: false,
                transcode_done: false,
                eof,
                no_transcoding_needed: true,
            };
            match guessed {
                Some(e) => GuessResult::Success(rd, e),
                None => GuessResult::Fail(rd),
            }
        } else {
            let e = match guessed {
                Some(e) => e,
                None => unreached(),
            };
            let transcode_done = (status == CoderResult::InputEmpty) && eof;
            let read_buffer = vstd::slice::slice_to_vec(&prefix[num_read..prefix.len()]);
            let dst_is_be = transcoder.dst_encoding().name_is("UTF-16BE");
            let dst_is_le = transcoder.dst_encoding().name_is("UTF-16LE");
            let mut write_buffer: Vec<u8> = Vec::new();
            if self.add_bom_utf16 && dst_is_be && !(out.len() >= 2 && out[0] == 0xFE && out[1]
                == 0xFF) {
                write_buffer.push(0xFE);
                write_buffer.push(0xFF);
            } else if self.add_bom_utf16 && dst_is_le && !(out.len() >= 2 && out[0] == 0xFF
                && out[1] == 0xFE) {
                write_buffer.push(0xFF);
                write_buffer.push(0xFE);
            }
            proof {
                assert(Seq::<u8>::empty().push(0xFEu8).push(0xFFu8) =~= seq![0xFEu8, 0xFFu8]);
                assert(Seq::<u8>::empty().push(0xFFu8).push(0xFEu8) =~= seq![0xFFu8, 0xFEu8]);
                assert(seq![0xFEu8, 0xFFu8] + out@ =~= Seq::<u8>::empty().push(0xFEu8).push(
                    0xFFu8,
                ) + out@);
                assert(Seq::<u8>::empty() + out@ =~= out@);
                assert(seq![0xFFu8, 0xFEu8] + out@ =~= Seq::<u8>::empty().push(
                    0xFFu8,
                ).push(0xFEu8) + out@);
            }
            let mut produced = out;
            write_buffer.append(&mut produced);
            let rd = I18nReader {
                read_buffer,
                write_buffer,
                transcoder,
                had_replacement_or_unmappable: has_repl,
                transcode_done,
                eof,
                no_transcoding_needed: false,
            };
            GuessResult::Success(rd, e)
        }
    }

    /// As `guess`, with UTF-8 as the destination.
    pub fn guess_utf8(self, prefix: &[u8], eof: bool) -> (r: GuessResult)
        ensures
            (r is NoInput) == (prefix@.len() == 0),
            ({
                let chosen = chosen_encoding(prefix@, self.spec_non_ascii_to_guess(), eof);
                let cap = self.spec_buffer_size();
                let rejected = spec_guess_rejected(
                    chosen,
                    prefix@,
                    cap,
                    self.spec_non_text_threshold(),
                    eof,
                );
                &&& (prefix@.len() > 0 && rejected ==> (r matches GuessResult::Fail(rd) && rd.wf()
                    && rd.raw_mode() && rd.pending() == prefix@ && rd.src_pending() == Seq::<
                    u8,
                >::empty() && !rd.done_flag() && rd.eof_flag() == eof && !rd.had_repl()))
                &&& (prefix@.len() > 0 && !rejected && chosen == crate::codec::utf8_name() ==> (r
                    matches GuessResult::Success(rd, e) && e.spec_name() == chosen && rd.wf()
                    && rd.raw_mode() && rd.pending() == prefix@ && rd.src_pending() == Seq::<
                    u8,
                >::empty() && !rd.done_flag() && rd.eof_flag() == eof && !rd.had_repl()))
                &&& (prefix@.len() > 0 && !rejected && chosen != crate::codec::utf8_name() ==> (r
                    matches GuessResult::Success(rd, e) && e.spec_name() == chosen && rd.wf()
                    && !rd.raw_mode() && ({
                    let c = fresh_guess_commit(
                        crate::codec::utf8_name(),
                        chosen,
                        prefix@,
                        cap,
                        cap,
                        eof,
                    );
                    &&& rd.pending() == c.out
                    &&& rd.src_pending() == prefix@.skip(c.read as int)
                    &&& rd.done_flag() == ((c.status == CoderResult::InputEmpty) && eof)
                    &&& rd.eof_flag() == eof
                    &&& rd.had_repl() == c.replaced
                })))
            }),
    {
        let r = self.guess(prefix, eof, Enc::utf8());
        proof {
            let chosen = chosen_encoding(prefix@, self.spec_non_ascii_to_guess(), eof);
            let cap = self.spec_buffer_size();
            let c = fresh_guess_commit(crate::codec::utf8_name(), chosen, prefix@, cap, cap, eof);
            assert(maybe_bom(crate::codec::utf8_name(), self.spec_add_bom_utf16(), c.out) + c.out
                =~= c.out) by {
                crate::codec::lemma_names_distinct();
            }
        }
        r
    }
}

/// Drops the consumed prefix of a chunk, keeping the unread remainder.
fn split_consumed(buf: &mut Vec<u8>, consumed: usize) -> (rest: Vec<u8>)
    requires
        consumed <= old(buf)@.len(),
    ensures
        rest@ == old(buf)@.skip(consumed as int),
{
    let rest = buf.split_off(consumed);
    rest
}

} // verus!
