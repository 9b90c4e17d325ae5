//! The nonce itself: how long it may be, what it is made of, and the
//! functions that make one.

use crate::alphabet::{base64_text, encode, encoded_len, Alphabet};
use crate::clock::now;
use crate::entropy::random_bytes;
use crate::layout::{
    lemma_raw_bytes_settle_parts, lemma_time_prefix_len, time_prefix, time_prefix_bytes,
    Timestamp, TIME_PREFIX_BYTES,
};
use vstd::prelude::*;
use vstd::std_specs::cmp::PartialEqSpecImpl;

verus! {

/// The shortest text a nonce can have: the sixteen characters of the time
/// prefix.
pub const MIN_LENGTH: usize = 16;

/// The length of the text that `TextNonce::new` makes.
pub const DEFAULT_LENGTH: usize = 32;

/// Why a requested length was turned down.
#[derive(Clone, Copy, Debug, PartialEq, Eq, Structural)]
pub enum ConfigError {
    /// The length is below sixteen.
    TooShort,
    /// The length is not a multiple of four.
    NotAligned,
}

impl ConfigError {
    /// Says in words what is wrong with the length.
    pub fn message(&self) -> (text: &'static str)
        ensures
            text@ == match self {
                ConfigError::TooShort => "length must be >= 16"@,
                ConfigError::NotAligned => "length must be divisible by 4"@,
            },
    {
        match self {
            ConfigError::TooShort => "length must be >= 16",
            ConfigError::NotAligned => "length must be divisible by 4",
        }
    }
}

/// A nonce: text that is not meant to be used twice. The first sixteen
/// characters stand for the instant at which it was made, the rest for random
/// bytes.
#[derive(Debug)]
pub struct TextNonce(pub String);

impl View for TextNonce {
    type V = Seq<char>;

    open spec fn view(&self) -> Seq<char> {
        self.0@
    }
}

impl Clone for TextNonce {
    /// A second nonce with the same text.
    fn clone(&self) -> (copy: TextNonce)
        ensures
            copy == *self,
    {
        TextNonce(self.0.clone())
    }
}

impl PartialEq for TextNonce {
    /// Two nonces are equal when their texts are.
    fn eq(&self, other: &TextNonce) -> (same: bool) {
        self.0 == other.0
    }
}

impl PartialEqSpecImpl for TextNonce {
    open spec fn obeys_eq_spec() -> bool {
        true
    }

    open spec fn eq_spec(&self, other: &TextNonce) -> bool {
        self@ == other@
    }
}

impl Eq for TextNonce {

}

impl Default for TextNonce {
    /// The nonce without text, which no generator makes.
    fn default() -> (nonce: TextNonce)
        ensures
            nonce@ == Seq::<char>::empty(),
    {
        TextNonce(String::new())
    }
}

impl core::ops::Deref for TextNonce {
    type Target = str;

    /// The text of the nonce.
    fn deref(&self) -> (text: &str)
        ensures
            text@ == self@,
    {
        self.0.as_str()
    }
}

/// What is wrong with `length` as the length of a nonce's text, if anything.
/// Shortness is looked at first.
pub open spec fn length_error(length: nat) -> Option<ConfigError> {
    if length < MIN_LENGTH {
        Some(ConfigError::TooShort)
    } else if length % 4 != 0 {
        Some(ConfigError::NotAligned)
    } else {
        None
    }
}

/// How many raw bytes stand behind a text of `length` characters.
pub open spec fn byte_length(length: nat) -> nat {
    length / 4 * 3
}

/// The text of the nonce made at `stamp` with `random` as its random bytes.
pub open spec fn nonce_text(
    stamp: Timestamp,
    random: Seq<u8>,
    alphabet: Alphabet,
    padded: bool,
) -> Seq<char> {
    base64_text(time_prefix(stamp) + random, alphabet, padded)
}

/// The sixteen characters that every nonce made at `stamp` starts with.
pub open spec fn stamp_text(stamp: Timestamp, alphabet: Alphabet, padded: bool) -> Seq<char> {
    base64_text(time_prefix(stamp), alphabet, padded)
}

/// The characters that follow the first sixteen in every nonce made with
/// `random` as its random bytes.
pub open spec fn random_text(random: Seq<u8>, alphabet: Alphabet, padded: bool) -> Seq<char> {
    base64_text(random, alphabet, padded)
}

/// Whether `text` is the nonce made at `stamp` with `random`: it is their
/// text, with or without the padding flag; its first sixteen characters stand
/// for the instant alone and the rest for the random bytes alone; and no
/// other instant or other random bytes in whole groups give the same text.
pub open spec fn made_of(
    text: Seq<char>,
    stamp: Timestamp,
    random: Seq<u8>,
    alphabet: Alphabet,
    padded: bool,
) -> bool {
    &&& text == nonce_text(stamp, random, alphabet, padded)
    &&& text == nonce_text(stamp, random, alphabet, !padded)
    &&& text.subrange(0, MIN_LENGTH as int) == stamp_text(stamp, alphabet, padded)
    &&& text.subrange(MIN_LENGTH as int, text.len() as int) == random_text(
        random,
        alphabet,
        padded,
    )
    &&& forall|other_stamp: Timestamp, other_random: Seq<u8>|
        #![trigger nonce_text(other_stamp, other_random, alphabet, padded)]
        other_random.len() % 3 == 0 && nonce_text(other_stamp, other_random, alphabet, padded)
            == text ==> other_stamp == stamp && other_random == random
}

/// Whether `text` is the nonce of `length` characters made at some instant
/// with some random bytes.
pub open spec fn generated(text: Seq<char>, length: nat, alphabet: Alphabet, padded: bool) -> bool {
    exists|stamp: Timestamp, random: Seq<u8>|
        {
            &&& random.len() + TIME_PREFIX_BYTES == byte_length(length)
            &&& #[trigger] made_of(text, stamp, random, alphabet, padded)
        }
}

/// Whether `text` has the shape of a nonce: at least sixteen characters, a
/// whole number of groups of four, and nothing but symbols of `alphabet`.
pub open spec fn well_formed(text: Seq<char>, alphabet: Alphabet) -> bool {
    &&& text.len() >= MIN_LENGTH
    &&& text.len() % 4 == 0
    &&& alphabet.spells(text)
}

/// A length that is accepted stands for at least the twelve bytes of the time
/// prefix and for whole groups of three bytes, which take no padding and give
/// back exactly that many characters.
pub proof fn lemma_byte_length(length: nat)
    requires
        length_error(length) is None,
    ensures
        byte_length(length) >= TIME_PREFIX_BYTES,
        byte_length(length) % 3 == 0,
        (byte_length(length) - TIME_PREFIX_BYTES) % 3 == 0,
        MIN_LENGTH + (byte_length(length) - TIME_PREFIX_BYTES) / 3 * 4 == length,
        encoded_len(byte_length(length), true) == length,
        encoded_len(byte_length(length), false) == length,
{
}

/// A length is turned down as too short exactly when it is below sixteen, as
/// not aligned exactly when it is sixteen or more and four does not divide
/// it, and accepted otherwise.
pub proof fn lemma_length_error(length: nat)
    ensures
        length_error(length) == Some(ConfigError::TooShort) <==> length < 16,
        length_error(length) == Some(ConfigError::NotAligned) <==> length >= 16 && length % 4 != 0,
        length_error(length) is None <==> length >= 16 && length % 4 == 0,
{
}

/// Text in either alphabet holds no padding sign, no line break and no
/// blank; URL-safe text holds no `+` and no `/` either.
pub proof fn lemma_alphabet_is_plain(alphabet: Alphabet, text: Seq<char>, i: int)
    requires
        alphabet.spells(text),
        0 <= i < text.len(),
    ensures
        text[i] != '=',
        text[i] != '\n',
        text[i] != '\r',
        text[i] != ' ',
        alphabet == Alphabet::UrlSafe ==> text[i] != '+' && text[i] != '/',
        alphabet == Alphabet::Standard ==> text[i] != '-' && text[i] != '_',
{
}

/// Taking the text out of a nonce and wrapping it again gives the nonce back.
pub proof fn lemma_text_round_trip(nonce: TextNonce)
    ensures
        TextNonce(nonce.0) == nonce,
        TextNonce(nonce.0)@ == nonce@,
{
}

/// The text is settled by the instant, the random bytes, the alphabet and the
/// padding flag: two nonces made of the same four carry the same text.
pub proof fn lemma_same_parts_same_text(
    first: TextNonce,
    second: TextNonce,
    stamp: Timestamp,
    random: Seq<u8>,
    alphabet: Alphabet,
    padded: bool,
)
    requires
        first@ == nonce_text(stamp, random, alphabet, padded),
        second@ == nonce_text(stamp, random, alphabet, padded),
    ensures
        first@ == second@,
{
}

/// Two nonces made of different parts carry different texts: they collide
/// only where the instant and every random byte coincide.
pub proof fn lemma_distinct_parts_distinct_text(
    first: Seq<char>,
    first_stamp: Timestamp,
    first_random: Seq<u8>,
    second: Seq<char>,
    second_stamp: Timestamp,
    second_random: Seq<u8>,
    alphabet: Alphabet,
    padded: bool,
)
    requires
        first_random.len() % 3 == 0,
        second_random.len() % 3 == 0,
        made_of(first, first_stamp, first_random, alphabet, padded),
        made_of(second, second_stamp, second_random, alphabet, padded),
        first_stamp != second_stamp || first_random != second_random,
    ensures
        first != second,
{
    if first == second {
        assert(nonce_text(second_stamp, second_random, alphabet, padded) == first);
    }
}

/// Two texts that start with the sixteen characters of one instant agree on
/// those sixteen characters, whatever follows them.
pub proof fn lemma_same_instant_same_prefix(
    first: Seq<char>,
    second: Seq<char>,
    stamp: Timestamp,
    alphabet: Alphabet,
    padded: bool,
)
    requires
        first.len() >= MIN_LENGTH,
        second.len() >= MIN_LENGTH,
        first.subrange(0, MIN_LENGTH as int) == stamp_text(stamp, alphabet, padded),
        second.subrange(0, MIN_LENGTH as int) == stamp_text(stamp, alphabet, padded),
    ensures
        forall|i: int| 0 <= i < MIN_LENGTH ==> first[i] == second[i],
{
    assert forall|i: int| 0 <= i < MIN_LENGTH implies first[i] == second[i] by {
        assert(first[i] == first.subrange(0, MIN_LENGTH as int)[i]);
        assert(second[i] == second.subrange(0, MIN_LENGTH as int)[i]);
    }
}

impl TextNonce {
    /// Makes the nonce for a given instant and given random bytes: the text
    /// that `sized_configured` makes when the clock reads `stamp` and the
    /// random source yields `random`. Random bytes that do not fill whole
    /// groups of three are turned down as not aligned, since their text would
    /// not be a whole number of groups of four. The text settles both parts:
    /// no other instant and no other random bytes give it. The one demand on
    /// the caller is that the length of the text fits in `usize`.
    pub fn from_parts(stamp: Timestamp, random: &[u8], alphabet: Alphabet, padded: bool) -> (made:
        Result<TextNonce, ConfigError>)
        requires
            MIN_LENGTH + random@.len() / 3 * 4 <= usize::MAX,
        ensures
            random@.len() % 3 != 0 ==> made == Err::<TextNonce, ConfigError>(
                ConfigError::NotAligned,
            ),
            random@.len() % 3 == 0 ==> (made matches Ok(nonce) && {
                &&& made_of(nonce@, stamp, random@, alphabet, padded)
                &&& nonce@.len() == MIN_LENGTH + random@.len() / 3 * 4
                &&& well_formed(nonce@, alphabet)
            }),
    {
        if random.len() % 3 != 0 {
            return Err(ConfigError::NotAligned);
        }
        let mut raw = time_prefix_bytes(stamp);
        raw.extend_from_slice(random);
        assert(raw@ == time_prefix(stamp) + random@);
        assert(raw@.subrange(0, TIME_PREFIX_BYTES as int) == time_prefix(stamp));
        assert(raw@.subrange(TIME_PREFIX_BYTES as int, raw@.len() as int) == random@);
        let text = encode(&raw, alphabet, padded);
        assert forall|other_stamp: Timestamp, other_random: Seq<u8>|
            other_random.len() % 3 == 0 && #[trigger] nonce_text(
                other_stamp,
                other_random,
                alphabet,
                padded,
            ) == text@ implies other_stamp == stamp && other_random == random@ by {
            lemma_time_prefix_len(other_stamp);
            let other = time_prefix(other_stamp) + other_random;
            assert(other == raw@);
            lemma_raw_bytes_settle_parts(other_stamp, other_random, stamp, random@);
        }
        Ok(TextNonce::from_string(text))
    }

    /// Makes a nonce of `length` characters in `alphabet`, from the clock and
    /// from fresh random bytes. With `padded` the encoder is asked to pad,
    /// which it never has to: the raw bytes fill whole groups.
    pub fn sized_configured(length: usize, alphabet: Alphabet, padded: bool) -> (made: Result<
        TextNonce,
        ConfigError,
    >)
        ensures
            match length_error(length as nat) {
                Some(error) => made == Err::<TextNonce, ConfigError>(error),
                None => made matches Ok(nonce) && {
                    &&& nonce@.len() == length
                    &&& well_formed(nonce@, alphabet)
                    &&& generated(nonce@, length as nat, alphabet, padded)
                },
            },
    {
        if length < MIN_LENGTH {
            return Err(ConfigError::TooShort);
        }
        if length % 4 != 0 {
            return Err(ConfigError::NotAligned);
        }
        let bytelength: usize = (length / 4) * 3;
        proof {
            lemma_byte_length(length as nat);
        }
        let stamp = now();
        let random = random_bytes(bytelength - TIME_PREFIX_BYTES);
        let made = TextNonce::from_parts(stamp, random.as_slice(), alphabet, padded);
        // `stamp` and `random@` are the instant and the bytes that `generated` asks for.
        assert(made matches Ok(nonce) && made_of(nonce@, stamp, random@, alphabet, padded));
        made
    }

    /// Makes a nonce of `length` characters in the standard alphabet.
    pub fn sized(length: usize) -> (made: Result<TextNonce, ConfigError>)
        ensures
            match length_error(length as nat) {
                Some(error) => made == Err::<TextNonce, ConfigError>(error),
                None => made matches Ok(nonce) && {
                    &&& nonce@.len() == length
                    &&& well_formed(nonce@, Alphabet::Standard)
                    &&& generated(nonce@, length as nat, Alphabet::Standard, false)
                },
            },
    {
        TextNonce::sized_configured(length, Alphabet::Standard, false)
    }

    /// Makes a nonce of `length` characters in the URL-safe alphabet.
    pub fn sized_urlsafe(length: usize) -> (made: Result<TextNonce, ConfigError>)
        ensures
            match length_error(length as nat) {
                Some(error) => made == Err::<TextNonce, ConfigError>(error),
                None => made matches Ok(nonce) && {
                    &&& nonce@.len() == length
                    &&& well_formed(nonce@, Alphabet::UrlSafe)
                    &&& generated(nonce@, length as nat, Alphabet::UrlSafe, false)
                },
            },
    {
        TextNonce::sized_configured(length, Alphabet::UrlSafe, false)
    }

    /// Makes a nonce of thirty-two characters in the standard alphabet:
    /// sixteen of time and sixteen of randomness.
    pub fn new() -> (nonce: TextNonce)
        ensures
            nonce@.len() == DEFAULT_LENGTH,
            well_formed(nonce@, Alphabet::Standard),
            generated(nonce@, DEFAULT_LENGTH as nat, Alphabet::Standard, false),
    {
        TextNonce::sized(DEFAULT_LENGTH).unwrap()
    }

    /// Wraps text that was taken out of a nonce before, such as text that
    /// came back from storage. The text is taken as it is.
    pub fn from_string(text: String) -> (nonce: TextNonce)
        ensures
            nonce == TextNonce(text),
    {
        TextNonce(text)
    }

    /// The text of the nonce.
    pub fn as_str(&self) -> (text: &str)
        ensures
            text@ == self@,
    {
        self.0.as_str()
    }

    /// Gives up the nonce for its text.
    pub fn into_string(self) -> (text: String)
        ensures
            text == self.0,
    {
        let TextNonce(s) = self;
        s
    }
}

} // verus!
