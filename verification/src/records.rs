//! Ownership records of the collectible game.
//!
//! A `LuckymonHistory` is one unit of ownership of an item by a user, as the
//! backing store hands it out: a 128-bit record identifier, the owner, the
//! item number, its rarity flag, the day it was obtained and a `traded`
//! flag. The store writes identifiers as canonical hyphenated UUID strings
//! and days as "year-month-day" strings; the library holds both as plain
//! values so that every function reading them can be verified.

use vstd::prelude::*;
use crate::dates::{Date, parse_date, spec_is_canonical_date, spec_canonical_date_value};
use crate::text::{spec_is_hex_digit, spec_hex_value};

verus! {

/// `i` holds one of the four dashes of a hyphenated UUID.
pub open spec fn spec_uuid_dash_position(i: int) -> bool {
    i == 8 || i == 13 || i == 18 || i == 23
}

/// `s` is a canonical hyphenated UUID: 32 hexadecimal digits in groups of
/// 8, 4, 4, 4 and 12, separated by dashes.
pub open spec fn spec_is_canonical_uuid(s: Seq<char>) -> bool {
    &&& s.len() == 36
    &&& forall|i: int|
        0 <= i < 36 && spec_uuid_dash_position(i) ==> #[trigger] s[i] == '-'
    &&& forall|i: int|
        0 <= i < 36 && !spec_uuid_dash_position(i) ==> spec_is_hex_digit(#[trigger] s[i])
}

/// The 32 hexadecimal digits of a canonical UUID string, dashes dropped.
pub open spec fn spec_uuid_digit_chars(s: Seq<char>) -> Seq<char> {
    s.subrange(0, 8) + s.subrange(9, 13) + s.subrange(14, 18) + s.subrange(19, 23) + s.subrange(
        24,
        36,
    )
}

/// The 128-bit value a canonical UUID string names: its hexadecimal digits
/// read left to right, most significant first.
pub open spec fn spec_uuid_value(s: Seq<char>) -> int {
    spec_hex_value(spec_uuid_digit_chars(s))
}

/// Decides the canonical hyphenated UUID shape.
pub fn is_canonical_uuid_str(s: &str) -> (r: bool)
    ensures
        r == spec_is_canonical_uuid(s@),
{
    if !s.is_ascii() {
        assert(!spec_is_canonical_uuid(s@)) by {
            if spec_is_canonical_uuid(s@) {
                assert forall|j: int| 0 <= j < s@.len() implies '\0' <= #[trigger] s@[j]
                    && s@[j] <= '\u{7f}' by {
                    if spec_uuid_dash_position(j) {
                        assert(s@[j] == '-');
                    } else {
                        assert(spec_is_hex_digit(s@[j]));
                    }
                }
                assert(vstd::utf8::is_ascii_chars(s@));
            }
        }
        return false;
    }
    let b = s.as_bytes();
    let n = b.len();
    proof {
        vstd::string::is_ascii_spec_bytes(s);
    }
    if n != 36 {
        return false;
    }
    let mut i: usize = 0;
    while i < 36
        invariant
            0 <= i <= 36,
            s@.len() == 36,
            forall|k: int|
                0 <= k < i && spec_uuid_dash_position(k) ==> #[trigger] s@[k] == '-',
            forall|k: int|
                0 <= k < i && !spec_uuid_dash_position(k) ==> spec_is_hex_digit(#[trigger] s@[k]),
        decreases 36 - i,
    {
        let c = s.get_char(i);
        if i == 8 || i == 13 || i == 18 || i == 23 {
            if c != '-' {
                return false;
            }
        } else {
            let code = c as u32;
            let is_digit = 48 <= code && code <= 57;
            let is_lower = 97 <= code && code <= 102;
            let is_upper = 65 <= code && code <= 70;
            if !(is_digit || is_lower || is_upper) {
                assert(!spec_is_hex_digit(s@[i as int]));
                return false;
            }
        }
        i += 1;
    }
    true
}

/// Relies on `uuid::Uuid::parse_str` and `Uuid::as_u128`: a canonical
/// hyphenated UUID string parses successfully, and its 128-bit value is the
/// 32 hexadecimal digits read left to right, most significant first.
#[verifier::external_body]
pub(crate) fn parse_uuid_str(s: &str) -> (r: Option<u128>)
    ensures
        spec_is_canonical_uuid(s@) ==> r == Some((spec_uuid_value(s@) as u128)),
{
    match uuid::Uuid::parse_str(s) {
        Ok(u) => Some(u.as_u128()),
        Err(_) => None,
    }
}

/// Parses a record identifier in the store's canonical hyphenated UUID
/// form. Returns its 128-bit value exactly when the string has that shape.
pub fn parse_record_id(s: &str) -> (r: Option<u128>)
    ensures
        r is Some <==> spec_is_canonical_uuid(s@),
        r matches Some(v) ==> v == spec_uuid_value(s@) as u128,
{
    if !is_canonical_uuid_str(s) {
        return None;
    }
    parse_uuid_str(s)
}

/// One unit of ownership of an item: what the store's ledger holds about a
/// single acquisition.
#[derive(Clone, Debug, PartialEq, Eq)]
pub struct LuckymonHistory {
    pub id: u128,
    pub user_id: i64,
    pub date_obtained: Date,
    pub pokemon_id: i64,
    pub shiny: bool,
    pub pokemon_name: String,
    pub traded: bool,
}

impl LuckymonHistory {
    /// The day of acquisition obeys the calendar rules.
    pub open spec fn well_formed(self) -> bool {
        self.date_obtained.well_formed()
    }

    /// Builds a record from the store's wire form: the identifier as a
    /// canonical hyphenated UUID string and the day as "year-month-day".
    /// Returns nothing when either string is malformed or the day does not
    /// exist in the calendar.
    pub fn try_new(
        id: &str,
        user_id: i64,
        date_obtained: &str,
        pokemon_id: i64,
        shiny: bool,
        pokemon_name: String,
        traded: bool,
    ) -> (r: Option<LuckymonHistory>)
        ensures
            r is Some <==> spec_is_canonical_uuid(id@) && spec_is_canonical_date(date_obtained@)
                && spec_canonical_date_value(date_obtained@).well_formed(),
            r matches Some(h) ==> h == (LuckymonHistory {
                id: spec_uuid_value(id@) as u128,
                user_id,
                date_obtained: spec_canonical_date_value(date_obtained@),
                pokemon_id,
                shiny,
                pokemon_name,
                traded,
            }),
            r matches Some(h) ==> h.well_formed(),
    {
        let rec_id = match parse_record_id(id) {
            Some(v) => v,
            None => {
                return None;
            },
        };
        let day = match parse_date(date_obtained) {
            Some(d) => d,
            None => {
                return None;
            },
        };
        Some(
            LuckymonHistory {
                id: rec_id,
                user_id,
                date_obtained: day,
                pokemon_id,
                shiny,
                pokemon_name,
                traded,
            },
        )
    }

    /// Builds a record from the store's wire form, with the two strings
    /// already known well formed.
    pub fn new(
        id: &str,
        user_id: i64,
        date_obtained: &str,
        pokemon_id: i64,
        shiny: bool,
        pokemon_name: String,
        traded: bool,
    ) -> (r: LuckymonHistory)
        requires
            spec_is_canonical_uuid(id@),
            spec_is_canonical_date(date_obtained@),
            spec_canonical_date_value(date_obtained@).well_formed(),
        ensures
            r == (LuckymonHistory {
                id: spec_uuid_value(id@) as u128,
                user_id,
                date_obtained: spec_canonical_date_value(date_obtained@),
                pokemon_id,
                shiny,
                pokemon_name,
                traded,
            }),
    {
        match Self::try_new(id, user_id, date_obtained, pokemon_id, shiny, pokemon_name, traded) {
            Some(h) => h,
            None => vstd::pervasive::unreached(),
        }
    }
}

/// A record as sent to the store to create a new ledger entry: everything
/// but the identifier, which the store assigns.
#[derive(Clone, Debug, PartialEq, Eq)]
pub struct NewLuckymonHistory {
    pub user_id: i64,
    pub date_obtained: Date,
    pub pokemon_id: i64,
    pub shiny: bool,
    pub pokemon_name: String,
    pub traded: bool,
}

impl NewLuckymonHistory {
    /// Builds a creation request carrying exactly the given fields.
    pub fn new(
        user_id: i64,
        date_obtained: Date,
        pokemon_id: i64,
        shiny: bool,
        pokemon_name: &String,
        traded: bool,
    ) -> (r: NewLuckymonHistory)
        ensures
            r == (NewLuckymonHistory {
                user_id,
                date_obtained,
                pokemon_id,
                shiny,
                pokemon_name: *pokemon_name,
                traded,
            }),
    {
        NewLuckymonHistory {
            user_id,
            date_obtained,
            pokemon_id,
            shiny,
            pokemon_name: pokemon_name.clone(),
            traded,
        }
    }
}

} // verus!
