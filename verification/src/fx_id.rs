//! Identifiers for managed effects.
//!
//! An [`FxId`] is the stable identity used to refer to a managed
//! function/effect instance across engine, metadata, storage and provider
//! boundaries.
use vstd::prelude::*;

use crate::number::bounded_number_of;
use crate::number::decimal;
use crate::number::decimal_text;
use crate::number::lemma_decimal;
use crate::number::lemma_decimal_len;
use crate::number::number_of;
use crate::number::parse_u64;

verus! {

/// A unique identifier for a managed function/effect instance.
///
/// - UUID strings parse as [`FxId::UuidV4`].
/// - Unsigned integer strings parse as [`FxId::U64`].
/// - Any other string is preserved as [`FxId::String`].
#[derive(Debug, PartialEq, Eq, Hash, PartialOrd, Ord)]
pub enum FxId {
    /// A generated or externally supplied UUID v4 identifier, by its 128 bits.
    UuidV4(u128),
    /// A provider-specific or caller-defined textual identifier.
    String(String),
    /// A numeric identifier.
    U64(u64),
}

/// The model of an identifier.
pub enum FxIdModel {
    UuidV4(u128),
    String(Seq<char>),
    U64(u64),
}

impl View for FxId {
    type V = FxIdModel;

    open spec fn view(&self) -> FxIdModel {
        match self {
            FxId::UuidV4(bits) => FxIdModel::UuidV4(*bits),
            FxId::String(s) => FxIdModel::String(s@),
            FxId::U64(n) => FxIdModel::U64(*n),
        }
    }
}

impl Clone for FxId {
    fn clone(&self) -> (r: Self)
        ensures
            r == *self,
    {
        match self {
            FxId::UuidV4(bits) => FxId::UuidV4(*bits),
            FxId::String(s) => FxId::String(s.clone()),
            FxId::U64(n) => FxId::U64(*n),
        }
    }
}

/// The lower-case hexadecimal digit for a number below sixteen.
pub open spec fn hex_digit(n: nat) -> char {
    if n < 10 {
        (48 + n) as char
    } else {
        (87 + n) as char
    }
}

/// The `i`-th of the 32 hexadecimal digits of 128 bits.
pub open spec fn uuid_digit(bits: u128, i: int) -> char {
    hex_digit((bits as nat / vstd::arithmetic::power::pow(16, (31 - i) as nat) as nat) % 16)
}

/// The text of a UUID: its 32 hexadecimal digits in groups of 8, 4, 4, 4 and
/// 12, with hyphens between the groups.
pub open spec fn uuid_text(bits: u128) -> Seq<char> {
    Seq::new(
        36,
        |i: int|
            if i == 8 || i == 13 || i == 18 || i == 23 {
                '-'
            } else if i < 8 {
                uuid_digit(bits, i)
            } else if i < 13 {
                uuid_digit(bits, i - 1)
            } else if i < 18 {
                uuid_digit(bits, i - 2)
            } else if i < 23 {
                uuid_digit(bits, i - 3)
            } else {
                uuid_digit(bits, i - 4)
            },
    )
}

/// The UUID that `uuid::Uuid::from_str` reads from a text, if it reads one.
pub uninterp spec fn uuid_value(s: Seq<char>) -> Option<u128>;

/// `uuid::Uuid::from_str` reads a UUID in one of several notations.
///
/// The shortest of them has 32 characters, and the hyphenated text of a UUID
/// is read as that UUID.
#[verifier::external_body]
fn uuid_from_str(s: &str) -> (r: Option<u128>)
    ensures
        r == uuid_value(s@),
        s@.len() < 32 ==> r is None,
        forall|bits: u128| s@ == #[trigger] uuid_text(bits) ==> r == Some(bits),
{
    <uuid::Uuid as core::str::FromStr>::from_str(s).ok().map(|u| u.as_u128())
}

/// `uuid::Uuid`'s `to_string` writes the lower-case hyphenated text.
#[verifier::external_body]
fn uuid_to_string(bits: u128) -> (r: String)
    ensures
        r@ == uuid_text(bits),
{
    uuid::Uuid::from_u128(bits).to_string()
}

/// `uuid::Uuid::new_v4` makes a random UUID of version 4 in the standard variant.
#[verifier::external_body]
fn uuid_new_v4() -> (r: u128)
    ensures
        (r / 0x1000_0000_0000_0000_0000) % 16 == 4,
        (r / 0x4000_0000_0000_0000) % 4 == 2,
{
    uuid::Uuid::new_v4().as_u128()
}

/// The identifier that a text stands for.
pub open spec fn fx_id_of(s: Seq<char>) -> FxIdModel {
    match uuid_value(s) {
        Some(bits) => FxIdModel::UuidV4(bits),
        None => match bounded_number_of(s, u64::MAX as nat) {
            Some(n) => FxIdModel::U64(n as u64),
            None => FxIdModel::String(s),
        },
    }
}

/// The text of an identifier.
pub open spec fn fx_id_text(id: FxIdModel) -> Seq<char> {
    match id {
        FxIdModel::UuidV4(bits) => uuid_text(bits),
        FxIdModel::String(s) => s,
        FxIdModel::U64(n) => decimal(n as nat),
    }
}

/// Whether a text is kept as it is: it is neither a UUID nor a number.
pub open spec fn is_plain_name(s: Seq<char>) -> bool {
    uuid_value(s) is None && bounded_number_of(s, u64::MAX as nat) is None
}

impl FxId {
    /// Generates a new random UUID v4 effect identifier.
    pub fn new_uuid_v4() -> (r: Self)
        ensures
            r matches FxId::UuidV4(bits) && (bits / 0x1000_0000_0000_0000_0000) % 16 == 4 && (bits
                / 0x4000_0000_0000_0000) % 4 == 2,
    {
        FxId::UuidV4(uuid_new_v4())
    }

    /// What remains once the UUID reader has answered: a UUID wins, then a
    /// number, and any other text is kept.
    pub fn from_uuid_or_text(uuid: Option<u128>, s: &str) -> (r: Self)
        ensures
            uuid is Some ==> r@ == FxIdModel::UuidV4(uuid->0),
            uuid is None ==> r@ == (match bounded_number_of(s@, u64::MAX as nat) {
                Some(n) => FxIdModel::U64(n as u64),
                None => FxIdModel::String(s@),
            }),
    {
        match uuid {
            Some(bits) => FxId::UuidV4(bits),
            None => match parse_u64(s) {
                Some(n) => FxId::U64(n),
                None => FxId::String(s.to_owned()),
            },
        }
    }

    /// The identifier that a text stands for.
    ///
    /// Reading the text of an identifier gives the identifier back, except
    /// where a textual identifier has the shape of a UUID or a number.
    pub fn parse(s: &str) -> (r: Self)
        ensures
            r@ == fx_id_of(s@),
            forall|id: FxIdModel|
                s@ == #[trigger] fx_id_text(id) && (id matches FxIdModel::String(t) ==> is_plain_name(t))
                    ==> r@ == id,
    {
        let uuid = uuid_from_str(s);
        proof {
            assert forall|id: FxIdModel|
                s@ == #[trigger] fx_id_text(id) && (id matches FxIdModel::String(t) ==> is_plain_name(
                    t,
                )) implies fx_id_of(s@) == id by {
                if let FxIdModel::U64(n) = id {
                    lemma_decimal(n as nat);
                    assert(vstd::arithmetic::power::pow(10, 20) == 100_000_000_000_000_000_000) by {
                        reveal_with_fuel(vstd::arithmetic::power::pow, 21);
                    }
                    lemma_decimal_len(n as nat, 20);
                }
            }
        }
        Self::from_uuid_or_text(uuid, s)
    }

    /// The text of the identifier, for paths, logs and metadata keys.
    pub fn to_string(&self) -> (r: String)
        ensures
            r@ == fx_id_text(self@),
    {
        match self {
            FxId::UuidV4(bits) => uuid_to_string(*bits),
            FxId::String(s) => s.clone(),
            FxId::U64(n) => decimal_text(*n),
        }
    }
}

impl core::str::FromStr for FxId {
    type Err = core::convert::Infallible;

    fn from_str(s: &str) -> (r: Result<Self, Self::Err>)
        ensures
            r is Ok,
            r->Ok_0@ == fx_id_of(s@),
    {
        Ok(FxId::parse(s))
    }
}

/// The text of an identifier: a name is kept, a number is written in decimal,
/// and of a UUID every hexadecimal digit is written, from the highest to the
/// lowest, with hyphens behind the eighth, the twelfth, the sixteenth and the
/// twentieth.
pub proof fn law_fx_id_texts(bits: u128, s: Seq<char>, n: u64, k: int)
    requires
        0 <= k < 32,
    ensures
        fx_id_text(FxIdModel::String(s)) == s,
        fx_id_text(FxIdModel::U64(n)) == decimal(n as nat),
        ({
            let text = fx_id_text(FxIdModel::UuidV4(bits));
            let at = if k < 8 {
                k
            } else if k < 12 {
                k + 1
            } else if k < 16 {
                k + 2
            } else if k < 20 {
                k + 3
            } else {
                k + 4
            };
            let value = (bits as nat / vstd::arithmetic::power::pow(16, (31 - k) as nat) as nat) % 16;
            &&& text.len() == 36
            &&& text[8] == '-' && text[13] == '-' && text[18] == '-' && text[23] == '-'
            &&& text[at] == "0123456789abcdef"@[value as int]
        }),
{
    reveal_strlit("0123456789abcdef");
    let value = (bits as nat / vstd::arithmetic::power::pow(16, (31 - k) as nat) as nat) % 16;
    assert(value < 16);
    assert(hex_digit(value) == "0123456789abcdef"@[value as int]);
}

/// A text is read as a UUID where it is one, else as a number that fits, and
/// else it is kept as it is.
pub proof fn law_fx_id_of(s: Seq<char>, n: u64)
    ensures
        uuid_value(s) is Some ==> fx_id_of(s) == FxIdModel::UuidV4(uuid_value(s)->0),
        uuid_value(s) is None && number_of(s) == Some(n as nat) ==> fx_id_of(s) == FxIdModel::U64(
            n,
        ),
        uuid_value(s) is None && (number_of(s) is None || number_of(s)->0 > u64::MAX) ==> fx_id_of(s)
            == FxIdModel::String(s),
{
}

} // verus!
