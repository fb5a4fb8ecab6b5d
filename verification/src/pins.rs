//! Pinned links shared by a guild.
//!
//! A pin is one entry of the community's shared link board: a title, a URL
//! and a description, keyed by the guild and a store-assigned identifier.

use vstd::prelude::*;
use crate::records::{spec_is_canonical_uuid, spec_uuid_value, parse_record_id};

verus! {

/// One pinned link as the store holds it.
#[derive(Clone, Debug, PartialEq, Eq)]
pub struct Pin {
    pub id: u128,
    pub guild_id: i64,
    pub title: String,
    pub url: String,
    pub description: String,
}

impl Pin {
    /// Builds a pin from the store's wire form, the identifier as a
    /// canonical hyphenated UUID string.
    pub fn new(id: &str, guild_id: i64, title: String, url: String, description: String) -> (r:
        Pin)
        requires
            spec_is_canonical_uuid(id@),
        ensures
            r == (Pin { id: spec_uuid_value(id@) as u128, guild_id, title, url, description }),
    {
        let rec_id = match parse_record_id(id) {
            Some(v) => v,
            None => vstd::pervasive::unreached(),
        };
        Pin { id: rec_id, guild_id, title, url, description }
    }
}

/// A pin as sent to the store to create it: everything but the identifier.
#[derive(Clone, Debug, PartialEq, Eq)]
pub struct NewPin {
    pub guild_id: i64,
    pub title: String,
    pub url: String,
    pub description: String,
}

impl NewPin {
    /// Builds a creation request carrying exactly the given fields.
    pub fn new(guild_id: i64, title: String, url: String, description: String) -> (r: NewPin)
        ensures
            r == (NewPin { guild_id, title, url, description }),
    {
        NewPin { guild_id, title, url, description }
    }
}

} // verus!
