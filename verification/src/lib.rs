//! Detects the character encoding of a byte stream and transcodes it to a
//! destination encoding, falling back to a verbatim copy when the detected
//! encoding looks untrustworthy.

pub mod codec;
pub mod constants;
pub mod error;
pub mod i18n_reader;
pub mod option;
pub mod transcoder;
