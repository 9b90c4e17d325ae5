//! The two base64 alphabets and the text that base64 makes of a byte buffer.

use vstd::prelude::*;

verus! {

/// Which sixty-four symbols the text is written in.
#[derive(Clone, Copy, Debug, PartialEq, Eq, Structural)]
pub enum Alphabet {
    /// Letters, digits, `+` and `/`.
    Standard,
    /// Letters, digits, `-` and `_`: safe inside a URL.
    UrlSafe,
}

impl Alphabet {
    /// Whether `c` is one of the alphabet's sixty-four symbols. The padding
    /// sign `=` and line breaks belong to neither alphabet.
    pub open spec fn has(self, c: char) -> bool {
        ||| 'A' <= c <= 'Z'
        ||| 'a' <= c <= 'z'
        ||| '0' <= c <= '9'
        ||| match self {
            Alphabet::Standard => c == '+' || c == '/',
            Alphabet::UrlSafe => c == '-' || c == '_',
        }
    }

    /// Whether every character of `text` is a symbol of the alphabet.
    pub open spec fn spells(self, text: Seq<char>) -> bool {
        forall|i: int| 0 <= i < text.len() ==> self.has(#[trigger] text[i])
    }
}

/// How many characters base64 makes of `n` bytes: four for every whole group
/// of three bytes, and for a last group of one or two bytes either four with
/// padding or one more than it has bytes without.
pub open spec fn encoded_len(n: nat, padded: bool) -> nat {
    let whole = n / 3 * 4;
    if n % 3 == 0 {
        whole
    } else if padded {
        whole + 4
    } else {
        whole + n % 3 + 1
    }
}

/// The base64 text of `bytes` in `alphabet`, with or without padding, as the
/// base64 crate computes it.
pub uninterp spec fn base64_text(bytes: Seq<u8>, alphabet: Alphabet, padded: bool) -> Seq<char>;

/// Trusted: `base64::encode_config`, with a configuration made by
/// `base64::Config::new` from the alphabet and the padding flag. The contract
/// names the text and claims of it what the encoder's source shows:
/// - its length, as `base64::encoded_size` computes it;
/// - that every character before the padding is looked up in the alphabet's
///   table;
/// - that padding is written only behind a last group of one or two bytes, so
///   that on whole groups the flag makes no difference;
/// - that each whole group of three bytes is encoded by itself, so that the
///   text of a prefix of whole groups is a prefix of the text, and what
///   follows it is the text of the bytes that are left;
/// - that the table's sixty-four symbols differ from each other, so that on
///   whole groups four characters settle their three bytes, and the text
///   settles the bytes.
///
/// The encoder panics when the length of the text does not fit in `usize`,
/// which the precondition rules out.
#[verifier::external_body]
pub(crate) fn encode(bytes: &Vec<u8>, alphabet: Alphabet, padded: bool) -> (text: String)
    requires
        encoded_len(bytes@.len(), padded) <= usize::MAX,
    ensures
        text@ == base64_text(bytes@, alphabet, padded),
        text@.len() == encoded_len(bytes@.len(), padded),
        forall|i: int|
            0 <= i < encoded_len(bytes@.len(), false) ==> alphabet.has(#[trigger] text@[i]),
        bytes@.len() % 3 == 0 ==> text@ == base64_text(bytes@, alphabet, !padded),
        forall|k: int|
            0 <= k <= bytes@.len() && k % 3 == 0 ==> text@.subrange(0, k / 3 * 4) == base64_text(
                #[trigger] bytes@.subrange(0, k),
                alphabet,
                padded,
            ),
        forall|k: int|
            0 <= k <= bytes@.len() && k % 3 == 0 ==> text@.subrange(k / 3 * 4, text@.len() as int)
                == base64_text(
                #[trigger] bytes@.subrange(k, bytes@.len() as int),
                alphabet,
                padded,
            ),
        bytes@.len() % 3 == 0 ==> forall|other: Seq<u8>|
            #![trigger base64_text(other, alphabet, padded)]
            other.len() % 3 == 0 && base64_text(other, alphabet, padded) == text@ ==> other
                == bytes@,
{
    let set = match alphabet {
        Alphabet::Standard => base64::CharacterSet::Standard,
        Alphabet::UrlSafe => base64::CharacterSet::UrlSafe,
    };
    base64::encode_config(bytes, base64::Config::new(set, padded))
}

} // verus!
