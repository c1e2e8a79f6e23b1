//! The two identity formats of the registry: validator keys and payout
//! addresses. Both are fixed-length `0x`-prefixed strings, normalized to
//! lowercase on construction.

use vstd::prelude::*;

verus! {

/// Character count of a well-formed validator key.
pub const KEY_LEN: usize = 98;

/// Character count of a well-formed payout address.
pub const ADDRESS_LEN: usize = 40;

/// The lowercase form of one character: an ASCII uppercase letter folds to
/// its lowercase counterpart, every other character is unchanged.
pub open spec fn lower_char(c: char) -> char {
    if 'A' <= c && c <= 'Z' {
        ((c as u32) + 32) as char
    } else {
        c
    }
}

/// The lowercase form of a whole string.
pub open spec fn lower_seq(s: Seq<char>) -> Seq<char> {
    Seq::new(s.len(), |i: int| lower_char(s[i]))
}

/// A string starts with the two characters `0x`.
pub open spec fn has_hex_prefix(s: Seq<char>) -> bool {
    &&& s.len() >= 2
    &&& s[0] == '0'
    &&& s[1] == 'x'
}

/// A string is well-formed for a given length when it has exactly that many
/// characters and starts with the two characters `0x`.
pub open spec fn well_formed(s: Seq<char>, len: int) -> bool {
    &&& s.len() == len
    &&& has_hex_prefix(s)
}

/// Why a raw identity string was rejected.
#[derive(Clone, Copy, Debug, PartialEq, Eq)]
pub enum ValidationError {
    /// The string did not have the expected character count.
    LengthError { expected: usize },
    /// The string did not begin with `0x`.
    PrefixError,
}

impl ValidationError {
    /// The client-facing message for each rejection.
    pub open spec fn message_spec(self) -> Seq<char> {
        match self {
            ValidationError::LengthError { expected } => {
                if expected == 98 {
                    "The length of pubkey should be 98"@
                } else if expected == 40 {
                    "The length of pubkey should be 40"@
                } else {
                    "The length of the value is wrong"@
                }
            },
            ValidationError::PrefixError => "Pubkey should start from '0x'"@,
        }
    }

    /// The message reported to the client for this rejection.
    pub fn message(&self) -> (m: &'static str)
        ensures
            m@ == self.message_spec(),
    {
        match self {
            ValidationError::LengthError { expected } => {
                if *expected == 98 {
                    "The length of pubkey should be 98"
                } else if *expected == 40 {
                    "The length of pubkey should be 40"
                } else {
                    "The length of the value is wrong"
                }
            },
            ValidationError::PrefixError => "Pubkey should start from '0x'",
        }
    }
}

fn lower_char_exec(c: char) -> (r: char)
    ensures
        r == lower_char(c),
{
    match c {
        'A' => 'a',
        'B' => 'b',
        'C' => 'c',
        'D' => 'd',
        'E' => 'e',
        'F' => 'f',
        'G' => 'g',
        'H' => 'h',
        'I' => 'i',
        'J' => 'j',
        'K' => 'k',
        'L' => 'l',
        'M' => 'm',
        'N' => 'n',
        'O' => 'o',
        'P' => 'p',
        'Q' => 'q',
        'R' => 'r',
        'S' => 's',
        'T' => 't',
        'U' => 'u',
        'V' => 'v',
        'W' => 'w',
        'X' => 'x',
        'Y' => 'y',
        'Z' => 'z',
        _ => c,
    }
}

/// Relies on `String`'s `FromIterator<char>` impl: collecting a sequence of
/// characters yields the string of exactly those characters, in order.
#[verifier::external_body]
fn string_from_chars(v: Vec<char>) -> (r: String)
    ensures
        r@ == v@,
{
    v.into_iter().collect()
}

/// Builds the lowercase form of a string.
pub fn lower_str(s: &str) -> (r: String)
    ensures
        r@ == lower_seq(s@),
{
    let n = s.unicode_len();
    let mut v: Vec<char> = Vec::new();
    let mut i: usize = 0;
    while i < n
        invariant
            n == s@.len(),
            i <= n,
            v@ == lower_seq(s@).take(i as int),
        decreases n - i,
    {
        let c = s.get_char(i);
        v.push(lower_char_exec(c));
        i = i + 1;
        proof {
            assert(v@ =~= lower_seq(s@).take(i as int));
        }
    }
    proof {
        assert(lower_seq(s@).take(n as int) =~= lower_seq(s@));
    }
    string_from_chars(v)
}

/// Lowercasing one character twice gives the same result as once.
pub proof fn lemma_lower_char_idempotent(c: char)
    ensures
        lower_char(lower_char(c)) == lower_char(c),
{
}

/// Lowercasing a string twice gives the same result as once.
pub proof fn lemma_lower_seq_idempotent(s: Seq<char>)
    ensures
        lower_seq(lower_seq(s)) == lower_seq(s),
{
    assert forall|i: int| 0 <= i < s.len() implies lower_seq(lower_seq(s))[i] == lower_seq(s)[i] by {
        lemma_lower_char_idempotent(s[i]);
    }
    assert(lower_seq(lower_seq(s)) =~= lower_seq(s));
}

/// Law: normalization is idempotent and case-insensitive. A well-formed raw
/// string and its lowercase form are both accepted at the same length, and
/// both normalize to the same value.
pub proof fn lemma_normalization_idempotent(s: Seq<char>, len: int)
    requires
        well_formed(s, len),
    ensures
        well_formed(lower_seq(s), len),
        lower_seq(lower_seq(s)) == lower_seq(s),
{
    lemma_lower_seq_idempotent(s);
}

/// Shared validation: exact length first, then the `0x` prefix, then
/// lowercase normalization of the accepted value.
fn parse_identity(value: &str, expected: usize) -> (r: Result<String, ValidationError>)
    requires
        2 <= expected,
    ensures
        value@.len() != expected ==> r == Err::<String, ValidationError>(
            ValidationError::LengthError { expected },
        ),
        value@.len() == expected && !has_hex_prefix(value@) ==> r == Err::<String, ValidationError>(
            ValidationError::PrefixError,
        ),
        well_formed(value@, expected as int) ==> (match r {
            Ok(s) => s@ == lower_seq(value@),
            Err(_) => false,
        }),
{
    let n = value.unicode_len();
    if n != expected {
        Err(ValidationError::LengthError { expected })
    } else if value.get_char(0) != '0' || value.get_char(1) != 'x' {
        Err(ValidationError::PrefixError)
    } else {
        Ok(lower_str(value))
    }
}

/// A validator identity: the lowercase form of a 98-character `0x`-prefixed
/// string. Immutable once constructed; the registry's unique key.
#[derive(Clone, Debug, PartialEq, Eq, Hash)]
pub struct BLSPubkey {
    value: String,
}

impl View for BLSPubkey {
    type V = Seq<char>;

    closed spec fn view(&self) -> Seq<char> {
        self.value@
    }
}

impl BLSPubkey {
    /// A constructed key is well-formed and already in lowercase form.
    pub open spec fn wf(self) -> bool {
        &&& well_formed(self@, KEY_LEN as int)
        &&& self@ == lower_seq(self@)
    }

    /// Validates a raw string as a validator key: length 98 first, then the
    /// `0x` prefix; an accepted value is normalized to lowercase.
    pub fn try_from(value: &str) -> (r: Result<BLSPubkey, ValidationError>)
        ensures
            value@.len() != KEY_LEN ==> r == Err::<BLSPubkey, ValidationError>(
                ValidationError::LengthError { expected: KEY_LEN },
            ),
            value@.len() == KEY_LEN && !has_hex_prefix(value@) ==> r == Err::<
                BLSPubkey,
                ValidationError,
            >(ValidationError::PrefixError),
            well_formed(value@, KEY_LEN as int) ==> (match r {
                Ok(k) => k@ == lower_seq(value@) && k.wf(),
                Err(_) => false,
            }),
    {
        match parse_identity(value, KEY_LEN) {
            Ok(s) => {
                proof {
                    if well_formed(value@, KEY_LEN as int) {
                        lemma_normalization_idempotent(value@, KEY_LEN as int);
                    }
                }
                Ok(BLSPubkey { value: s })
            },
            Err(e) => Err(e),
        }
    }

    /// The normalized string content of this key.
    pub fn as_str(&self) -> (r: &str)
        ensures
            r@ == self@,
    {
        self.value.as_str()
    }

    /// Content equality of two keys.
    pub fn key_eq(&self, other: &BLSPubkey) -> (r: bool)
        ensures
            r == (self@ == other@),
    {
        self.value == other.value
    }
}

/// A payout destination: the lowercase form of a 40-character `0x`-prefixed
/// string. Immutable once constructed; the registry's value type.
#[derive(Clone, Debug, PartialEq, Eq, Hash)]
pub struct Eth1Address {
    value: String,
}

impl View for Eth1Address {
    type V = Seq<char>;

    closed spec fn view(&self) -> Seq<char> {
        self.value@
    }
}

impl Eth1Address {
    /// A constructed address is well-formed and already in lowercase form.
    pub open spec fn wf(self) -> bool {
        &&& well_formed(self@, ADDRESS_LEN as int)
        &&& self@ == lower_seq(self@)
    }

    /// Validates a raw string as a payout address: length 40 first, then the
    /// `0x` prefix; an accepted value is normalized to lowercase.
    pub fn try_from(value: &str) -> (r: Result<Eth1Address, ValidationError>)
        ensures
            value@.len() != ADDRESS_LEN ==> r == Err::<Eth1Address, ValidationError>(
                ValidationError::LengthError { expected: ADDRESS_LEN },
            ),
            value@.len() == ADDRESS_LEN && !has_hex_prefix(value@) ==> r == Err::<
                Eth1Address,
                ValidationError,
            >(ValidationError::PrefixError),
            well_formed(value@, ADDRESS_LEN as int) ==> (match r {
                Ok(a) => a@ == lower_seq(value@) && a.wf(),
                Err(_) => false,
            }),
    {
        match parse_identity(value, ADDRESS_LEN) {
            Ok(s) => {
                proof {
                    if well_formed(value@, ADDRESS_LEN as int) {
                        lemma_normalization_idempotent(value@, ADDRESS_LEN as int);
                    }
                }
                Ok(Eth1Address { value: s })
            },
            Err(e) => Err(e),
        }
    }

    /// The normalized string content of this address.
    pub fn as_str(&self) -> (r: &str)
        ensures
            r@ == self@,
    {
        self.value.as_str()
    }
}

} // verus!
