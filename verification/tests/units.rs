use aconv::constants;
use aconv::codec::Enc;
use aconv::error::Error;
use aconv::error::TranscodeError;
use aconv::option::Opt;
use aconv::transcoder::Transcoder;

#[test]
fn non_text_classification() {
    assert!(constants::is_non_text(&'\u{0000}'));
    assert!(constants::is_non_text(&'\u{0001}'));
    assert!(constants::is_non_text(&'\u{0006}'));
    assert!(constants::is_non_text(&'\u{000E}'));
    assert!(constants::is_non_text(&'\u{001A}'));
    assert!(constants::is_non_text(&'\u{001C}'));
    assert!(constants::is_non_text(&'\u{001F}'));
    assert!(constants::is_non_text(&'\u{007F}'));
    assert!(constants::is_non_text(&'\u{FFFD}'));
    // the common whitespace and format controls are text
    assert!(!constants::is_non_text(&'\u{0007}'));
    assert!(!constants::is_non_text(&'\u{0008}'));
    assert!(!constants::is_non_text(&'\t'));
    assert!(!constants::is_non_text(&'\n'));
    assert!(!constants::is_non_text(&'\u{000B}'));
    assert!(!constants::is_non_text(&'\u{000C}'));
    assert!(!constants::is_non_text(&'\r'));
    assert!(!constants::is_non_text(&'\u{001B}'));
    assert!(!constants::is_non_text(&'a'));
    assert!(!constants::is_non_text(&'ハ'));
}

#[test]
fn transcoder_is_non_text_agrees() {
    assert!(Transcoder::is_non_text(&'\u{0000}'));
    assert!(!Transcoder::is_non_text(&' '));
}

#[test]
fn threshold_boundary_exact() {
    // 5 non-text of 100 characters is 5 percent: accepted at threshold 5,
    // rejected at threshold 4.
    assert!(!constants::detection_failed(5, 100, 5));
    assert!(constants::detection_failed(5, 100, 4));
    // the ratio rounds down: 1 of 3 is 33 percent
    assert!(!constants::detection_failed(1, 3, 33));
    assert!(constants::detection_failed(1, 3, 32));
    // nothing decoded counts as failed
    assert!(constants::detection_failed(0, 0, 100));
    // all text is accepted even at threshold 0
    assert!(!constants::detection_failed(0, 7, 0));
}

#[test]
fn encoding_lookup() {
    let e = Enc::for_label("utf-8").unwrap();
    assert_eq!(e.name(), "UTF-8");
    let s = Enc::for_label("sjis").unwrap();
    assert_eq!(s.name(), "Shift_JIS");
    let l = Enc::for_label("latin1").unwrap();
    assert_eq!(l.name(), "windows-1252");
    assert!(Enc::for_label("unrecognized label").is_none());
    assert!(e.name_is("UTF-8"));
    assert!(!e.name_is("UTF-16LE"));
    let e2 = Enc::for_label("UTF-8").unwrap();
    assert!(e.same(&e2));
    assert!(!e.same(&s));
    let c = s.clone();
    assert!(c.same(&s));
}

#[test]
fn error_variants() {
    let g = Error::Guess("failed".to_string());
    assert!(g.is_guess());
    assert!(!g.is_broken_pipe());
    let b = Error::BrokenPipe;
    assert!(b.is_broken_pipe());
    assert!(!b.is_guess());
    let u = Error::Usage("bad".to_string());
    assert!(!u.is_guess());
    assert!(!u.is_broken_pipe());
    let t = TranscodeError::Guess("failed".to_string());
    assert!(matches!(t, TranscodeError::Guess(_)));
    let r = TranscodeError::Read(std::io::Error::new(std::io::ErrorKind::Other, "boom"));
    assert!(matches!(r, TranscodeError::Read(_)));
    let w = TranscodeError::Write(std::io::Error::new(std::io::ErrorKind::BrokenPipe, "gone"));
    assert!(matches!(w, TranscodeError::Write(_)));
    let io_err = Error::Io {
        source: std::io::Error::new(std::io::ErrorKind::NotFound, "missing"),
        path: std::path::PathBuf::from("somewhere"),
        message: "Error opening the file".to_string(),
    };
    assert!(!io_err.is_guess());
    assert!(!io_err.is_broken_pipe());
}

#[test]
fn opt_defaults() {
    let opt = Opt::new();
    assert_eq!(opt.to_code, "UTF-8");
    assert_eq!(opt.non_ascii_to_guess, 100);
    assert_eq!(opt.non_text_threshold, 0);
    assert!(!opt.version);
    assert!(!opt.list);
    assert!(!opt.show);
    assert!(!opt.quiet);
    assert!(opt.output.is_none());
    assert!(opt.paths.is_empty());
}
