//! Selection of the video encoder backend from its command-line name.

use vstd::prelude::*;

verus! {

/// The encoder backends the recorder can drive.
#[derive(Copy, Clone, Debug, PartialEq, Eq, Structural)]
pub enum EncoderBackend {
    MediaFoundation,
}

/// Parse failure for an encoder backend name; holds the message shown to
/// the user.
#[derive(Copy, Clone, Debug, PartialEq)]
pub struct ParseEncoderBackendError(pub &'static str);

/// The characters naming the Media Foundation backend, case-insensitively.
pub open spec fn is_mf_name(s: Seq<char>) -> bool {
    &&& s.len() == 2
    &&& (s[0] == 'm' || s[0] == 'M')
    &&& (s[1] == 'f' || s[1] == 'F')
}

impl EncoderBackend {
    /// Parses a backend selector: `"mf"` in any letter case names Media
    /// Foundation; every other string is rejected with a usage message.
    pub fn parse(s: &str) -> (r: Result<EncoderBackend, ParseEncoderBackendError>)
        ensures
            r is Ok <==> is_mf_name(s@),
            r matches Ok(b) ==> b == EncoderBackend::MediaFoundation,
    {
        if s.unicode_len() == 2 {
            let c0 = s.get_char(0);
            let c1 = s.get_char(1);
            if (c0 == 'm' || c0 == 'M') && (c1 == 'f' || c1 == 'F') {
                return Ok(EncoderBackend::MediaFoundation);
            }
        }
        Err(
            ParseEncoderBackendError(
                "Invalid encoder backend value! Expecting: 'mf' (MediaFoundation)",
            ),
        )
    }

    /// The backend's command-line name.
    pub fn name(&self) -> (r: String)
        ensures
            r@ == "mf"@,
    {
        "mf".to_owned()
    }
}

impl core::str::FromStr for EncoderBackend {
    type Err = ParseEncoderBackendError;

    fn from_str(s: &str) -> Result<EncoderBackend, ParseEncoderBackendError> {
        EncoderBackend::parse(s)
    }
}

impl ParseEncoderBackendError {
    /// The message to print for this parse failure.
    pub fn message(&self) -> (r: &'static str)
        ensures
            r@ == self.0@,
    {
        self.0
    }
}

} // verus!
