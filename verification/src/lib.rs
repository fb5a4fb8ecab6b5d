//! Verified core of a community chat bot built around shared lists and a
//! collectible-allocation game.
//!
//! The library covers the parts of the bot whose behaviour is worth pinning
//! down precisely: the deterministic daily item allocator, the paginated
//! browsing session bound to a single message, and the two-party trade
//! negotiation protocol with its anti-duplication re-check. Network I/O,
//! platform callbacks and image rendering live outside the library and hand
//! it plain values.

pub mod allocator;
pub mod dates;
pub mod faqs;
pub mod listing;
pub mod pagination;
pub mod pins;
pub mod records;
pub mod text;
pub mod trade;
pub mod validation;
