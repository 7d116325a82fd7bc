use aconv::codec::Enc;
use aconv::i18n_reader::GuessResult;
use aconv::i18n_reader::I18nReader;
use aconv::i18n_reader::I18nReaderEncodingDetector;
use aconv::i18n_reader::ReadStep;
use aconv::transcoder::Transcoder;

// Drives the reader as a byte-stream read loop would: delivers one
// batch of bytes per call, taking chunks from `src` when the reader asks.
fn read_once(rd: &mut I18nReader, src: &mut &[u8], cap: usize) -> Vec<u8> {
    loop {
        match rd.read_step(cap) {
            ReadStep::Output(v) => return v,
            ReadStep::Done => return Vec::new(),
            ReadStep::Raw => {
                let n = if cap < src.len() { cap } else { src.len() };
                let out = src[..n].to_vec();
                *src = &src[n..];
                return out;
            },
            ReadStep::NeedInput => {
                let n = if 8192 < src.len() { 8192 } else { src.len() };
                let chunk = &src[..n];
                *src = &src[n..];
                let out = rd.feed(chunk, cap);
                return out;
            },
        }
    }
}

fn read_to_end(rd: &mut I18nReader, src: &mut &[u8], cap: usize) -> Vec<u8> {
    let mut all = Vec::new();
    loop {
        let out = read_once(rd, src, cap);
        if out.is_empty() && src.is_empty() {
            return all;
        }
        all.extend_from_slice(&out);
    }
}

#[test]
fn reader_small() {
    let src = b"\x83\x6E\x83\x8D\x81\x5B\x83\x8F\x81\x5B\x83\x8B\x83\x68";
    let f = I18nReaderEncodingDetector::new().buffer_size(15);
    let r = f.guess_utf8(src.as_ref(), true);
    if let GuessResult::Success(mut reader, _) = r {
        let mut rest: &[u8] = &[];
        let first = read_once(&mut reader, &mut rest, 4);
        let second = read_once(&mut reader, &mut rest, 1024);
        assert_eq!("ハローワールド".as_bytes(), [&first[..], &second[..]].concat())
    } else {
        panic!();
    }
}

#[test]
fn reader_fail() {
    let src = b"\x00\x00\x00\x00\x00\x00";
    let f = I18nReaderEncodingDetector::new().bytes_to_guess(512);
    let r = f.guess_utf8(src.as_ref(), true);
    if let GuessResult::Fail(mut reader) = r {
        let mut rest: &[u8] = &[];
        let out = read_once(&mut reader, &mut rest, 1024);
        assert_eq!(b"\x00\x00\x00\x00\x00\x00"[..], out[..])
    } else {
        panic!();
    }
}

#[test]
fn reader_empty() {
    let src = b"";
    let f = I18nReaderEncodingDetector::new();
    let r = f.guess_utf8(src.as_ref(), true);
    if let GuessResult::NoInput = r {
    } else {
        panic!();
    }
}

#[test]
fn reader_no_guess() {
    let src = b"\x83\x6E\x83\x8D\x81\x5B\x83\x8F\x81\x5B\x83\x8B\x83\x68";
    let t = Transcoder::new(Some(Enc::for_label("sjis").unwrap()), Enc::for_label("utf-8").unwrap());
    let mut reader = I18nReader::new(t);
    let mut rest: &[u8] = src;
    let out = read_once(&mut reader, &mut rest, 1024);
    assert_eq!("ハローワールド".as_bytes(), &out[..])
}

// When the guessed source equals the destination, the stream is handed
// through verbatim, whatever the chunking.
#[test]
fn same_encoding_passthrough() {
    let mut data: Vec<u8> = Vec::new();
    for _ in 0..40 {
        data.extend_from_slice("пример текста ".as_bytes());
    }
    for cap in [1usize, 3, 17, 256] {
        let prefix = &data[..100];
        let f = I18nReaderEncodingDetector::new();
        let r = f.guess_utf8(prefix, false);
        if let GuessResult::Success(mut reader, enc) = r {
            assert_eq!(enc.name(), "UTF-8");
            let mut rest: &[u8] = &data[100..];
            let delivered = read_to_end(&mut reader, &mut rest, cap);
            assert_eq!(delivered, data, "cap {}", cap);
        } else {
            panic!();
        }
    }
}

// Destination UTF-16LE with BOM injection: the output begins with the
// byte-order mark FF FE, then the code units in little-endian order.
#[test]
fn utf16le_bom_injection() {
    let src = b"\xD0\x96";
    let f = I18nReaderEncodingDetector::new().add_bom_utf16(true);
    let r = f.guess(src.as_ref(), true, Enc::for_label("utf-16le").unwrap());
    if let GuessResult::Success(mut reader, enc) = r {
        assert_eq!(enc.name(), "UTF-8");
        let mut rest: &[u8] = &[];
        let out = read_to_end(&mut reader, &mut rest, 1024);
        assert_eq!(out, b"\xFF\xFE\x16\x04");
    } else {
        panic!();
    }
}

// Without the injection flag no byte-order mark is added.
#[test]
fn utf16le_no_bom_injection() {
    let src = b"\xD0\x96";
    let f = I18nReaderEncodingDetector::new();
    let r = f.guess(src.as_ref(), true, Enc::for_label("utf-16le").unwrap());
    if let GuessResult::Success(mut reader, _) = r {
        let mut rest: &[u8] = &[];
        let out = read_to_end(&mut reader, &mut rest, 1024);
        assert_eq!(out, b"\x16\x04");
    } else {
        panic!();
    }
}

#[test]
fn reader_replacement_flag() {
    let src = b"\x83\x6E\x83\x8D\x81\x5B";
    let f = I18nReaderEncodingDetector::new();
    let r = f.guess_utf8(src.as_ref(), true);
    if let GuessResult::Success(reader, _) = r {
        assert!(!reader.had_replacement_or_unmappable());
    } else {
        panic!();
    }
}

#[test]
fn detector_builders() {
    let f = I18nReaderEncodingDetector::new()
        .buffer_size(1024)
        .bytes_to_guess(512)
        .non_ascii_to_guess(10)
        .non_text_threshold(5)
        .add_bom_utf16(true);
    let r = f.guess_utf8(b"plain ascii text", true);
    if let GuessResult::Success(_, _) = r {
    } else {
        panic!();
    }
}
