use crate::error::{GeyserGrpcBuilderError, GeyserGrpcBuilderResult};
use tonic::metadata::errors::InvalidMetadataValue;
use tonic::metadata::AsciiMetadataValue;
use vstd::prelude::*;

verus! {

/// A character that tonic lets into a metadata value: a tab, or any
/// character from the space upwards except DEL (including all non-ASCII).
pub open spec fn metadata_char_ok(c: char) -> bool {
    (' ' <= c && c != '\u{7f}') || c == '\t'
}

pub open spec fn metadata_value_ok(s: Seq<char>) -> bool {
    forall|i: int| 0 <= i < s.len() ==> metadata_char_ok(#[trigger] s[i])
}

/// A character that an ASCII header value may carry: a tab, or a visible
/// ASCII character (space to `~`).
pub open spec fn header_char_ok(c: char) -> bool {
    (' ' <= c && c <= '~') || c == '\t'
}

/// Every character of `s` may stand in an ASCII header value.
pub open spec fn header_value_ok(s: Seq<char>) -> bool {
    forall|i: int| 0 <= i < s.len() ==> header_char_ok(#[trigger] s[i])
}

/// A token that the builder accepts: non-empty and a valid ASCII header value.
pub open spec fn token_ok(s: Seq<char>) -> bool {
    s.len() > 0 && header_value_ok(s)
}

/// Relies on `TryFrom<&str> for AsciiMetadataValue`, which parses through
/// `http::HeaderValue::from_str`: it succeeds exactly when every byte is a tab
/// or at least 0x20 and not 0x7f (bytes of a multi-byte character are all at
/// least 0x80, so this is a condition on characters). Only the verdict is
/// kept: the value itself is rebuilt from the stored text when a request
/// carries it.
#[verifier::external_body]
pub(crate) fn ascii_metadata_value(s: &str) -> (r: Result<(), InvalidMetadataValue>)
    ensures
        r is Ok <==> metadata_value_ok(s@),
{
    AsciiMetadataValue::try_from(s).map(|_| ())
}

/// Validates an optional token the way the builder stores it: no token is
/// kept as none; a token that metadata cannot carry is a metadata error; one
/// that it can carry but that is not ASCII is refused as such; an empty one
/// is a length error.
pub fn check_x_token(x_token: Option<&str>) -> (r: GeyserGrpcBuilderResult<Option<String>>)
    ensures
        x_token is None ==> r matches Ok(None),
        x_token is Some && !metadata_value_ok(x_token->Some_0@) ==> r matches Err(
            GeyserGrpcBuilderError::MetadataValueError(_),
        ),
        x_token is Some && metadata_value_ok(x_token->Some_0@) && !header_value_ok(
            x_token->Some_0@,
        ) ==> r matches Err(GeyserGrpcBuilderError::XTokenNotAscii),
        x_token is Some && x_token->Some_0@.len() == 0 ==> r matches Err(
            GeyserGrpcBuilderError::InvalidXTokenLength(0),
        ),
        x_token is Some && token_ok(x_token->Some_0@) ==> (r matches Ok(Some(v)) && v@
            == x_token->Some_0@),
        r matches Ok(Some(v)) ==> token_ok(v@),
{
    match x_token {
        None => Ok(None),
        Some(t) => {
            match ascii_metadata_value(t) {
                Err(e) => Err(GeyserGrpcBuilderError::MetadataValueError(e)),
                Ok(_) => {
                    if !t.is_ascii() {
                        proof {
                            assert(!vstd::utf8::is_ascii_chars(t@));
                            let k = choose|i: int|
                                0 <= i < t@.len() && !('\0' <= #[trigger] t@[i] <= '\u{7f}');
                            assert(!header_char_ok(t@[k]));
                        }
                        return Err(GeyserGrpcBuilderError::XTokenNotAscii);
                    }
                    assert(header_value_ok(t@)) by {
                        assert forall|i: int| 0 <= i < t@.len() implies header_char_ok(#[trigger] t@[i]) by {
                            assert(metadata_char_ok(t@[i]));
                            assert('\0' <= t@[i] <= '\u{7f}');
                        }
                    }
                    let n = t.unicode_len();
                    if n == 0 {
                        Err(GeyserGrpcBuilderError::InvalidXTokenLength(n))
                    } else {
                        Ok(Some(t.to_string()))
                    }
                },
            }
        },
    }
}

} // verus!
