use aconv::codec::Enc;
use aconv::transcoder::CoderResult;
use aconv::transcoder::Transcoder;

fn transcode_all(src_label: &str, dst_label: &str, src: &[u8]) -> Vec<u8> {
    let src_enc = Enc::for_label(src_label).unwrap();
    let dst_enc = Enc::for_label(dst_label).unwrap();
    let mut t = Transcoder::new(Some(src_enc), dst_enc);
    let mut rest: &[u8] = src;
    let mut out = Vec::new();
    loop {
        let (result, read, produced, _) = t.transcode(rest, 1024, true);
        out.extend_from_slice(&produced);
        rest = &rest[read..];
        if result == CoderResult::InputEmpty {
            break;
        }
    }
    out
}

#[test]
fn trans_same_utf8() {
    assert_eq!(transcode_all("utf-8", "utf-8", b"\xD0\x96"), b"\xD0\x96");
}

#[test]
fn trans_same_sjis() {
    assert_eq!(transcode_all("sjis", "sjis", b"\x84\x47"), b"\x84\x47");
}

#[test]
fn trans_diff_utf8_utf16le() {
    assert_eq!(transcode_all("utf-8", "utf-16le", b"\xD0\x96"), b"\x16\x04");
}

#[test]
fn trans_diff_utf16le_utf16be() {
    assert_eq!(transcode_all("utf-16le", "utf-16be", b"\x16\x04"), b"\x04\x16");
}

#[test]
fn trans_same_chinese() {
    assert_eq!(transcode_all("chinese", "chinese", b"\xA7\xA8"), b"\xA7\xA8");
}

#[test]
fn trans_diff_chinese_korean() {
    assert_eq!(transcode_all("chinese", "korean", b"\xA7\xA8"), b"\xAC\xA8");
}

#[test]
fn trans_diff_korean_big5_hkscs() {
    assert_eq!(transcode_all("korean", "big5-hkscs", b"\xAC\xA8"), b"\xC7\xFA");
}

#[test]
fn trans_diff_utf16be_chinese() {
    assert_eq!(transcode_all("utf-16be", "chinese", b"\x04\x16"), b"\xA7\xA8");
}

#[test]
fn trans_diff_sjis_eucjp() {
    assert_eq!(transcode_all("sjis", "euc-jp", b"\x84\x47"), b"\xA7\xA8");
}

#[test]
fn trans_diff_gbk_sjis() {
    assert_eq!(transcode_all("gbk", "sjis", b"\xA7\xA8"), b"\x84\x47");
}

#[test]
fn trans_diff_eucjp_latin1() {
    assert_eq!(transcode_all("euc-jp", "latin1", b"\x8F\xA2\xED"), b"\xA9");
}

#[test]
fn trans_diff_latin1_utf8() {
    assert_eq!(transcode_all("latin1", "utf-8", b"\xA9"), b"\xC2\xA9");
}

// Transcoding a text from UTF-8 to UTF-16LE and back reproduces the
// original bytes exactly.
#[test]
fn round_trip_utf8_utf16le_utf8() {
    let original = "hello Ж мир ハロー".as_bytes();
    let there = transcode_all("utf-8", "utf-16le", original);
    let back = transcode_all("utf-16le", "utf-8", &there);
    assert_eq!(back, original);
}

// For a fixed source and destination, the output does not depend on how
// the input is chunked across calls.
#[test]
fn chunk_invariance() {
    let src = b"\x83\x6E\x83\x8D\x81\x5B\x83\x8F\x81\x5B\x83\x8B\x83\x68";
    let whole = transcode_all("sjis", "utf-8", src);
    for chunk_size in 1..=src.len() {
        let src_enc = Enc::for_label("sjis").unwrap();
        let dst_enc = Enc::for_label("utf-8").unwrap();
        let mut t = Transcoder::new(Some(src_enc), dst_enc);
        let mut out = Vec::new();
        let mut pos = 0;
        while pos < src.len() {
            let end = if pos + chunk_size < src.len() { pos + chunk_size } else { src.len() };
            let mut rest = &src[pos..end];
            let last = end == src.len();
            loop {
                let (result, read, produced, _) = t.transcode(rest, 1024, last);
                out.extend_from_slice(&produced);
                rest = &rest[read..];
                if result == CoderResult::InputEmpty {
                    break;
                }
            }
            pos = end;
        }
        assert_eq!(out, whole, "chunk size {}", chunk_size);
    }
}

// Shift-JIS bytes for a katakana word, destination UTF-8, a budget of 6
// significant bytes and threshold 0: the guess is Shift-JIS and the output
// is the UTF-8 text.
#[test]
fn guess_sjis_scenario() {
    let src = b"\x83\x6E\x83\x8D\x81\x5B";
    let dst = Enc::for_label("utf-8").unwrap();
    let mut t = Transcoder::new(None, dst);
    let (guessed, _, read, out, _) = t.guess_and_transcode(src, 128, 6, 0, true);
    assert_eq!(guessed.unwrap().name(), "Shift_JIS");
    assert_eq!(read, src.len());
    assert_eq!(out, "ハロー".as_bytes());
    assert_eq!(t.src_encoding().unwrap().name(), "Shift_JIS");
    assert_eq!(t.dst_encoding().name(), "UTF-8");
}

// An input that begins with a UTF-16LE byte-order mark is never routed
// through the statistical guesser, whatever the remaining bytes suggest.
#[test]
fn bom_precedence_utf16le() {
    let mut src: Vec<u8> = vec![0xFF, 0xFE];
    // append bytes that would statistically suggest Shift-JIS
    for _ in 0..50 {
        src.extend_from_slice(b"\x83\x6E\x83\x8D\x81\x5B");
    }
    let dst = Enc::for_label("utf-8").unwrap();
    let mut t = Transcoder::new(None, dst);
    let (guessed, _, _, _, _) = t.guess_and_transcode(&src, 2048, 100, 100, true);
    assert_eq!(guessed.unwrap().name(), "UTF-16LE");
}

#[test]
fn bom_precedence_utf8() {
    let src = b"\xEF\xBB\xBFabc";
    let dst = Enc::for_label("utf-16le").unwrap();
    let mut t = Transcoder::new(None, dst);
    let (guessed, _, _, _, _) = t.guess_and_transcode(src, 128, 100, 100, true);
    assert_eq!(guessed.unwrap().name(), "UTF-8");
}

// Binary-looking data with threshold 0 is rejected: the caller falls back
// to a verbatim copy.
#[test]
fn binary_fallback() {
    let mut src: Vec<u8> = Vec::new();
    for i in 0..200u8 {
        src.push(i);
    }
    let dst = Enc::for_label("utf-8").unwrap();
    let mut t = Transcoder::new(None, dst);
    let (guessed, _, _, _, _) = t.guess_and_transcode(&src, 1024, 100, 0, false);
    assert!(guessed.is_none());
    assert!(t.src_encoding().is_none());
}

// One non-text character of two decoded is 50 percent: accepted at
// threshold 50, rejected at threshold 49.
#[test]
fn threshold_boundary_end_to_end() {
    let src = b"a\x00";
    let dst = Enc::for_label("utf-16le").unwrap();

    let mut accept = Transcoder::new(None, dst);
    let (guessed, _, _, _, _) = accept.guess_and_transcode(src, 128, 100, 50, true);
    assert!(guessed.is_some());

    let dst2 = Enc::for_label("utf-16le").unwrap();
    let mut reject = Transcoder::new(None, dst2);
    let (guessed2, _, _, _, _) = reject.guess_and_transcode(src, 128, 100, 49, true);
    assert!(guessed2.is_none());
}

// The buffer size builder ignores sizes too small for one character.
#[test]
fn transcoder_buffer_size() {
    let dst = Enc::for_label("utf-8").unwrap();
    let t = Transcoder::new(None, dst).buffer_size(3);
    let dst2 = Enc::for_label("utf-8").unwrap();
    let _ = Transcoder::new(None, dst2).buffer_size(1024);
    let mut t = t;
    let (guessed, _, _, out, _) = t.guess_and_transcode(b"hello", 128, 100, 100, true);
    assert!(guessed.is_some());
    assert_eq!(out, b"hello");
}
