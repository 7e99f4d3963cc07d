//! The character name: a run of ASCII letters closed by a zero byte.

use vstd::prelude::*;
use vstd::utf8::*;
use vstd::string::StringSliceAdditionalSpecFns;
use crate::error::{DecodeError, Invalid};
use crate::stream::{alpha1, alpha_run, is_alpha, tag, Needed};

verus! {

/// The text that ASCII bytes spell: each byte is one character.
pub open spec fn ascii_text(bytes: Seq<u8>) -> Seq<char> {
    Seq::new(bytes.len(), |k: int| bytes[k] as char)
}

/// A letter of the ASCII alphabet, as a character.
pub open spec fn is_letter(c: char) -> bool {
    ('A' <= c <= 'Z') || ('a' <= c <= 'z')
}

/// The character name at the front of `i`: the longest run of ASCII letters,
/// which must not be empty, and one zero byte behind it. While no byte other
/// than a letter has arrived the name may go on, and one more byte is asked
/// for.
pub open spec fn spec_character_name(i: Seq<u8>) -> Result<(Seq<u8>, Seq<char>), DecodeError> {
    let n: int = alpha_run(i) as int;
    if n == i.len() {
        Err(DecodeError::Incomplete(Needed::Size(1)))
    } else if n == 0 {
        Err(DecodeError::Invalid(Invalid::CharacterName))
    } else if i[n] != 0 {
        Err(DecodeError::Invalid(Invalid::Terminator(i[n])))
    } else {
        Ok((i.skip(n + 1), ascii_text(i.take(n))))
    }
}

/// A name parser's result with the slice replaced by the bytes it holds and
/// the name by its characters.
pub open spec fn named(r: Result<(&[u8], &str), DecodeError>) -> Result<
    (Seq<u8>, Seq<char>),
    DecodeError,
> {
    match r {
        Ok((rest, name)) => Ok((rest@, name@)),
        Err(error) => Err(error),
    }
}

/// The run of letters at the front of `s` has length `n` exactly when the
/// first `n` bytes are letters and the byte behind them, if there is one, is
/// not.
pub proof fn lemma_alpha_run(s: Seq<u8>, n: int)
    requires
        0 <= n <= s.len(),
    ensures
        alpha_run(s) == n <==> (forall|k: int| 0 <= k < n ==> is_alpha(#[trigger] s[k])) && (n
            == s.len() || !is_alpha(s[n])),
    decreases s.len(),
{
    if s.len() == 0 || !is_alpha(s[0]) {
    } else {
        let tail = s.drop_first();
        if n > 0 {
            lemma_alpha_run(tail, n - 1);
            if alpha_run(s) == n {
                assert forall|k: int| 0 <= k < n implies is_alpha(#[trigger] s[k]) by {
                    if k > 0 {
                        assert(s[k] == tail[k - 1]);
                    }
                }
            }
        }
    }
}

/// The run of letters at the front of `s` lies within `s`, holds letters
/// only, and ends at the end of `s` or before a byte that is no letter.
pub proof fn lemma_alpha_run_bounds(s: Seq<u8>)
    ensures
        alpha_run(s) <= s.len(),
        forall|k: int| 0 <= k < alpha_run(s) ==> is_alpha(#[trigger] s[k]),
        alpha_run(s) < s.len() ==> !is_alpha(s[alpha_run(s) as int]),
    decreases s.len(),
{
    if s.len() == 0 || !is_alpha(s[0]) {
    } else {
        let tail = s.drop_first();
        lemma_alpha_run_bounds(tail);
        assert forall|k: int| 0 <= k < alpha_run(s) implies is_alpha(#[trigger] s[k]) by {
            if k > 0 {
                assert(s[k] == tail[k - 1]);
            }
        }
    }
}

/// ASCII bytes are UTF-8, and the text they encode has one character for
/// each byte.
pub proof fn lemma_ascii_text(bytes: Seq<u8>)
    requires
        forall|k: int| 0 <= k < bytes.len() ==> #[trigger] bytes[k] < 128,
    ensures
        encode_utf8(ascii_text(bytes)) == bytes,
        valid_utf8(bytes),
        decode_utf8(bytes) == ascii_text(bytes),
        forall|text: Seq<char>| encode_utf8(text) == bytes ==> text == ascii_text(bytes),
{
    let text = ascii_text(bytes);
    is_ascii_chars_encode_utf8(text);
    assert(encode_utf8(text) =~= bytes);
    encode_utf8_valid_utf8(text);
    encode_utf8_decode_utf8(text);
    assert forall|other: Seq<char>| encode_utf8(other) == bytes implies other == text by {
        encode_utf8_decode_utf8(other);
    }
}

/// The UTF-8 bytes of a name made of ASCII letters: one letter byte for each
/// character.
pub proof fn lemma_name_bytes(name: Seq<char>)
    requires
        forall|k: int| 0 <= k < name.len() ==> is_letter(#[trigger] name[k]),
    ensures
        encode_utf8(name).len() == name.len(),
        forall|k: int| 0 <= k < name.len() ==> is_alpha(#[trigger] encode_utf8(name)[k]),
        ascii_text(encode_utf8(name)) == name,
{
    assert(is_ascii_chars(name));
    is_ascii_chars_encode_utf8(name);
    let bytes = encode_utf8(name);
    lemma_ascii_text(bytes);
}

/// `core::str::from_utf8`. Trusted: it gives a string exactly when the bytes
/// are UTF-8, and that string is made of these bytes.
#[verifier::external_body]
pub(crate) fn utf8_str<'a>(bytes: &'a [u8]) -> (text: Option<&'a str>)
    ensures
        text is Some <==> valid_utf8(bytes@),
        text matches Some(s) ==> s.spec_bytes() == bytes@,
{
    match core::str::from_utf8(bytes) {
        Ok(text) => Some(text),
        Err(_) => None,
    }
}

/// Reads the character name at the front of `i` and returns it with the bytes
/// that follow its terminator. The name is the longest run of ASCII letters;
/// it is invalid if it is empty or if the byte behind it is not zero, and
/// incomplete if the input ends before a byte that is no letter.
pub fn parse_character_name(i: &[u8]) -> (r: Result<(&[u8], &str), DecodeError>)
    ensures
        named(r) == spec_character_name(i@),
{
    let (after_name, letters) = match alpha1(i) {
        Ok(split) => split,
        Err(stop) => {
            return Err(DecodeError::from_stop(stop, Invalid::CharacterName));
        },
    };
    proof {
        lemma_alpha_run_bounds(i@);
        lemma_ascii_text(letters@);
    }
    let terminator: [u8; 1] = [0];
    let rest = match tag(terminator.as_slice(), after_name) {
        Ok((rest, _)) => rest,
        Err(stop) => {
            return Err(DecodeError::from_stop(stop, Invalid::Terminator(after_name[0])));
        },
    };
    let name = utf8_str(letters).unwrap();
    assert(rest@ =~= i@.skip(alpha_run(i@) as int + 1));
    Ok((rest, name))
}

} // verus!
