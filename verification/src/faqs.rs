//! Frequently asked questions shared by a guild.

use vstd::prelude::*;
use crate::records::{spec_is_canonical_uuid, spec_uuid_value, parse_record_id};

verus! {

/// One question-and-answer entry as the store holds it.
#[derive(Clone, Debug, PartialEq, Eq)]
pub struct Faq {
    pub id: u128,
    pub guild_id: i64,
    pub question: String,
    pub answer: String,
}

impl Faq {
    /// Builds an entry from the store's wire form, the identifier as a
    /// canonical hyphenated UUID string.
    pub fn new(id: &str, guild_id: i64, question: String, answer: String) -> (r: Faq)
        requires
            spec_is_canonical_uuid(id@),
        ensures
            r == (Faq { id: spec_uuid_value(id@) as u128, guild_id, question, answer }),
    {
        let rec_id = match parse_record_id(id) {
            Some(v) => v,
            None => vstd::pervasive::unreached(),
        };
        Faq { id: rec_id, guild_id, question, answer }
    }
}

/// An entry as sent to the store to create it: everything but the
/// identifier.
#[derive(Clone, Debug, PartialEq, Eq)]
pub struct NewFaq {
    pub guild_id: i64,
    pub question: String,
    pub answer: String,
}

impl NewFaq {
    /// Builds a creation request carrying exactly the given fields.
    pub fn new(guild_id: i64, question: String, answer: String) -> (r: NewFaq)
        ensures
            r == (NewFaq { guild_id, question, answer }),
    {
        NewFaq { guild_id, question, answer }
    }
}

} // verus!
