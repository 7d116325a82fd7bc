//! The options of a run: destination encoding, output location, guess
//! budget and threshold, and the flags of the command line.

use vstd::prelude::*;

verus! {

/// Options of one invocation.
pub struct Opt {
    /// Print version information instead of converting.
    pub version: bool,
    /// The label of the destination encoding.
    pub to_code: String,
    /// Output directory, or none for standard output.
    pub output: Option<std::path::PathBuf>,
    /// Print the supported encodings instead of converting.
    pub list: bool,
    /// The non-text percentage above which a guess is rejected.
    pub non_text_threshold: u8,
    /// How many significant bytes feed the guesser.
    pub non_ascii_to_guess: usize,
    /// Only report the detected encodings, without output.
    pub show: bool,
    /// Suppress the message on a rejected guess.
    pub quiet: bool,
    /// The files or directories to process.
    pub paths: Vec<std::path::PathBuf>,
}

impl Default for Opt {
    /// All flags off, empty destination label, no paths.
    fn default() -> (r: Self)
        ensures
            !r.version && !r.list && !r.show && !r.quiet,
            r.to_code@ == Seq::<char>::empty(),
            r.output is None,
            r.non_text_threshold == 0,
            r.non_ascii_to_guess == 0,
            r.paths@ == Seq::<std::path::PathBuf>::empty(),
    {
        Opt {
            version: false,
            to_code: String::new(),
            output: None,
            list: false,
            non_text_threshold: 0,
            non_ascii_to_guess: 0,
            show: false,
            quiet: false,
            paths: Vec::new(),
        }
    }
}

impl Opt {
    /// The defaults of a conversion run: destination UTF-8, a budget of 100
    /// significant bytes for the guess, threshold zero.
    pub fn new() -> (r: Self)
        ensures
            !r.version && !r.list && !r.show && !r.quiet,
            r.to_code@ == "UTF-8"@,
            r.output is None,
            r.non_text_threshold == 0,
            r.non_ascii_to_guess == 100,
            r.paths@ == Seq::<std::path::PathBuf>::empty(),
    {
        let mut opt = Opt::default();
        opt.non_ascii_to_guess = 100;
        opt.to_code = "UTF-8".to_owned();
        return opt;
    }
}

} // verus!
