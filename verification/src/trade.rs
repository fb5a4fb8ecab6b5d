//! Two-party trade negotiation protocol.
//!
//! A trade starts as a `Proposed` offer between an initiator and a
//! counterparty, naming up to two ownership records (one side may be a
//! gift, both may not). The offer lives only in memory until a terminal
//! state: `Accepted`, `Cancelled`, `Aborted` (stale data) or `Expired`.
//!
//! The store mutations needed to settle an accepted trade are not atomic:
//! up to four independent calls, with no rollback. The protocol therefore
//! re-fetches every snapshotted record at acceptance time and aborts if any
//! has been traded meanwhile, so that no record is ever spent twice; and a
//! partial settlement is reported as such rather than papered over.

use vstd::prelude::*;
use crate::records::{LuckymonHistory, NewLuckymonHistory};
use crate::text::{spec_is_digits, spec_digits_value, parse_decimal};

verus! {

/// One trade argument as the command grammar allows it: an item number, an
/// item number with the rare-variant suffix, or "n/a" for a gift side.
#[derive(Clone, Copy, PartialEq, Eq, Structural, Debug)]
pub enum TradeArg {
    /// No item on this side: the other side is a gift.
    NotApplicable,
    /// An item the claiming party says it owns.
    Item { pokemon_id: i64, shiny: bool },
}

/// `s` is the gift marker "n/a", case-insensitive.
pub open spec fn spec_arg_is_na(s: Seq<char>) -> bool {
    &&& s.len() == 3
    &&& (s[0] == 'n' || s[0] == 'N')
    &&& s[1] == '/'
    &&& (s[2] == 'a' || s[2] == 'A')
}

/// `s` is a plain item number within the command surface's range.
pub open spec fn spec_arg_is_plain(s: Seq<char>) -> bool {
    spec_is_digits(s) && spec_digits_value(s) <= i32::MAX
}

/// `s` is an item number with the rare-variant suffix.
pub open spec fn spec_arg_is_shiny(s: Seq<char>) -> bool {
    &&& s.len() >= 2
    &&& s.last() == 's'
    &&& spec_is_digits(s.drop_last())
    &&& spec_digits_value(s.drop_last()) <= i32::MAX
}

/// The trade-argument grammar: a number, a number plus 's', or "n/a".
pub open spec fn spec_valid_trade_arg(s: Seq<char>) -> bool {
    spec_arg_is_na(s) || spec_arg_is_plain(s) || spec_arg_is_shiny(s)
}

/// What a trade argument names, when it is grammatical.
pub open spec fn spec_parse_trade_arg(s: Seq<char>) -> Option<TradeArg> {
    if spec_arg_is_na(s) {
        Some(TradeArg::NotApplicable)
    } else if spec_arg_is_plain(s) {
        Some(TradeArg::Item { pokemon_id: spec_digits_value(s) as i64, shiny: false })
    } else if spec_arg_is_shiny(s) {
        Some(TradeArg::Item { pokemon_id: spec_digits_value(s.drop_last()) as i64, shiny: true })
    } else {
        None
    }
}

/// Parses one trade argument per the command grammar.
pub fn parse_trade_arg(arg: &str) -> (r: Option<TradeArg>)
    ensures
        r == spec_parse_trade_arg(arg@),
{
    if !is_all_ascii(arg) {
        return None;
    }
    let b = arg.as_bytes();
    let n = b.len();
    proof {
        vstd::string::is_ascii_spec_bytes(arg);
    }
    if n == 3 {
        let c0 = arg.get_char(0);
        let c1 = arg.get_char(1);
        let c2 = arg.get_char(2);
        if (c0 == 'n' || c0 == 'N') && c1 == '/' && (c2 == 'a' || c2 == 'A') {
            return Some(TradeArg::NotApplicable);
        }
    }
    match parse_decimal(arg) {
        Some(v) => {
            if v <= 2147483647 {
                return Some(TradeArg::Item { pokemon_id: v as i64, shiny: false });
            } else {
                // A plain numeral too large for the command surface; it is
                // not "n/a" and, ending in a digit, not the shiny form.
                assert(arg@.last() != 's');
                return None;
            }
        },
        None => {},
    }
    if n >= 2 {
        let clast = arg.get_char(n - 1);
        if clast == 's' {
            let digits = arg.substring_ascii(0, n - 1);
            assert(digits@ =~= arg@.drop_last());
            match parse_decimal(digits) {
                Some(v) => {
                    if v <= 2147483647 {
                        return Some(TradeArg::Item { pokemon_id: v as i64, shiny: true });
                    } else {
                        return None;
                    }
                },
                None => {
                    return None;
                },
            }
        }
    }
    None
}

/// Decides the trade-argument grammar.
pub fn validate_trade_arg(arg: &str) -> (r: bool)
    ensures
        r == spec_valid_trade_arg(arg@),
{
    match parse_trade_arg(arg) {
        Some(_) => true,
        None => false,
    }
}

/// Returns whether `s` is all ASCII; a non-ASCII string matches none of
/// this module's grammars.
fn is_all_ascii(s: &str) -> (r: bool)
    ensures
        r == vstd::utf8::is_ascii_chars(s@),
        !r ==> !spec_valid_trade_arg(s@) && !spec_is_user_mention(s@),
{
    let ok = s.is_ascii();
    proof {
        if !ok {
            assert(!spec_valid_trade_arg(s@) && !spec_is_user_mention(s@)) by {
                if spec_valid_trade_arg(s@) || spec_is_user_mention(s@) {
                    assert forall|j: int| 0 <= j < s@.len() implies '\0' <= #[trigger] s@[j]
                        && s@[j] <= '\u{7f}' by {
                        lemma_grammar_chars_ascii(s@, j);
                    }
                    assert(vstd::utf8::is_ascii_chars(s@));
                }
            }
        }
    }
    ok
}

/// Every character a trade argument or a user mention can hold is ASCII.
proof fn lemma_grammar_chars_ascii(s: Seq<char>, j: int)
    requires
        spec_valid_trade_arg(s) || spec_is_user_mention(s),
        0 <= j < s.len(),
    ensures
        '\0' <= s[j] && s[j] <= '\u{7f}',
{
    if spec_arg_is_na(s) {
    } else if spec_arg_is_plain(s) {
        assert(crate::text::spec_is_ascii_digit(s[j]));
    } else if spec_arg_is_shiny(s) {
        if j < s.len() - 1 {
            assert(s.drop_last()[j] == s[j]);
            assert(crate::text::spec_is_ascii_digit(s.drop_last()[j]));
        } else {
            assert(s[j] == 's');
        }
    } else {
        // A user mention: angle brackets, '@', an optional '!', digits, '>'.
        let d = spec_mention_digits(s);
        if j == 0 || j == 1 || j == s.len() - 1 {
        } else if s[2] == '!' && j == 2 {
        } else if s[2] == '!' {
            assert(d[j - 3] == s[j]);
            assert(crate::text::spec_is_ascii_digit(d[j - 3]));
        } else {
            assert(d[j - 2] == s[j]);
            assert(crate::text::spec_is_ascii_digit(d[j - 2]));
        }
    }
}

/// The digits inside a user mention, between "<@" or "<@!" and ">".
pub open spec fn spec_mention_digits(s: Seq<char>) -> Seq<char> {
    if s.len() >= 4 && s[2] == '!' {
        s.subrange(3, s.len() - 1)
    } else {
        s.subrange(2, s.len() - 1)
    }
}

/// `s` is a user mention: "<@" then an optional '!', one or more digits
/// whose value fits the platform's 64-bit identifiers, and a closing '>'.
pub open spec fn spec_is_user_mention(s: Seq<char>) -> bool {
    &&& s.len() >= 4
    &&& s[0] == '<'
    &&& s[1] == '@'
    &&& s.last() == '>'
    &&& spec_is_digits(spec_mention_digits(s))
    &&& spec_digits_value(spec_mention_digits(s)) <= u64::MAX
}

/// Parses a user mention to the identifier the store keys users by: the
/// platform's unsigned 64-bit identifier reinterpreted as a signed one.
pub fn parse_user_mention(s: &str) -> (r: Option<i64>)
    ensures
        r is Some <==> spec_is_user_mention(s@),
        r matches Some(v) ==> v == (spec_digits_value(spec_mention_digits(s@)) as u64) as i64,
{
    if !is_all_ascii(s) {
        return None;
    }
    let b = s.as_bytes();
    let n = b.len();
    proof {
        vstd::string::is_ascii_spec_bytes(s);
    }
    if n < 4 {
        return None;
    }
    let c0 = s.get_char(0);
    let c1 = s.get_char(1);
    let clast = s.get_char(n - 1);
    if !(c0 == '<' && c1 == '@' && clast == '>') {
        return None;
    }
    let c2 = s.get_char(2);
    let start: usize = if c2 == '!' {
        3
    } else {
        2
    };
    let digits = s.substring_ascii(start, n - 1);
    assert(digits@ =~= spec_mention_digits(s@));
    match parse_decimal(digits) {
        Some(v) => Some(v as i64),
        None => None,
    }
}

/// A record is usable for a trade side: owned by the claiming party, not
/// yet traded, carrying the named item, and rare if the claim said so.
pub open spec fn spec_match(h: LuckymonHistory, owner: i64, pokemon_id: i64, shiny: bool) -> bool {
    &&& h.user_id == owner
    &&& !h.traded
    &&& h.pokemon_id == pokemon_id
    &&& (shiny ==> h.shiny)
}

/// The position of the first usable record, if any.
pub open spec fn spec_find_match(
    records: Seq<LuckymonHistory>,
    owner: i64,
    pokemon_id: i64,
    shiny: bool,
) -> Option<int>
    decreases records.len(),
{
    if records.len() == 0 {
        None
    } else if spec_match(records[0], owner, pokemon_id, shiny) {
        Some(0)
    } else {
        match spec_find_match(records.drop_first(), owner, pokemon_id, shiny) {
            Some(i) => Some(i + 1),
            None => None,
        }
    }
}

/// Searching from position `i` onward finds what searching the whole list
/// finds, once everything before `i` is known unusable.
proof fn lemma_find_match_skip(
    records: Seq<LuckymonHistory>,
    owner: i64,
    pokemon_id: i64,
    shiny: bool,
    i: int,
)
    requires
        0 <= i <= records.len(),
        forall|k: int| 0 <= k < i ==> !spec_match(#[trigger] records[k], owner, pokemon_id, shiny),
    ensures
        spec_find_match(records, owner, pokemon_id, shiny) == (match spec_find_match(
            records.skip(i),
            owner,
            pokemon_id,
            shiny,
        ) {
            Some(j) => Some(j + i),
            None => None::<int>,
        }),
    decreases i,
{
    if i == 0 {
        assert(records.skip(0) =~= records);
    } else {
        lemma_find_match_skip(records, owner, pokemon_id, shiny, i - 1);
        assert(records.skip(i - 1).drop_first() =~= records.skip(i));
        assert(records.skip(i - 1)[0] == records[i - 1]);
    }
}

/// Finds the first usable record for a trade side.
fn find_matching_record(
    records: &Vec<LuckymonHistory>,
    owner: i64,
    pokemon_id: i64,
    shiny: bool,
) -> (r: Option<usize>)
    ensures
        r matches Some(i) ==> i < records@.len() && spec_find_match(
            records@,
            owner,
            pokemon_id,
            shiny,
        ) == Some(i as int) && spec_match(records@[i as int], owner, pokemon_id, shiny),
        r is None ==> spec_find_match(records@, owner, pokemon_id, shiny) is None,
{
    let n = records.len();
    let mut i: usize = 0;
    while i < n
        invariant
            0 <= i <= n,
            n == records@.len(),
            forall|k: int| 0 <= k < i ==> !spec_match(#[trigger] records@[k], owner, pokemon_id, shiny),
        decreases n - i,
    {
        let h = &records[i];
        if h.user_id == owner && !h.traded && h.pokemon_id == pokemon_id && (!shiny || h.shiny) {
            proof {
                lemma_find_match_skip(records@, owner, pokemon_id, shiny, i as int);
                assert(records@.skip(i as int)[0] == records@[i as int]);
            }
            return Some(i);
        }
        i += 1;
    }
    proof {
        lemma_find_match_skip(records@, owner, pokemon_id, shiny, n as int);
        assert(records@.skip(n as int) =~= Seq::<LuckymonHistory>::empty());
    }
    None
}

/// What an offer remembers of a matched record at proposal time: the
/// record's identity, not just its item, so that acceptance can re-fetch
/// exactly the record that was promised.
#[derive(Clone, Copy, PartialEq, Eq, Structural, Debug)]
pub struct TradeSnapshot {
    pub record_id: u128,
    pub pokemon_id: i64,
    pub shiny: bool,
}

/// The states of a trade negotiation. All but `Proposed` are terminal.
#[derive(Clone, Copy, PartialEq, Eq, Structural, Debug)]
pub enum TradeState {
    /// Created and waiting for the counterparty.
    Proposed,
    /// Settled; the store calls were handed to the caller.
    Accepted,
    /// Withdrawn by either party before settlement.
    Cancelled,
    /// The re-check found stale data; nothing was mutated.
    Aborted,
    /// No interaction arrived within the time-to-live.
    Expired,
}

/// Why a trade command or interaction was refused.
#[derive(Clone, Copy, PartialEq, Eq, Structural, Debug)]
pub enum TradeError {
    /// The initiator named themselves as the counterparty.
    SelfTrade,
    /// The first trade argument does not fit the grammar.
    InvalidFirstArg,
    /// The second trade argument does not fit the grammar.
    InvalidSecondArg,
    /// Both sides were "n/a": there is nothing to trade.
    BothNotApplicable,
    /// The claiming party owns no untraded record of the named item.
    NotFound { owner: i64, pokemon_id: i64, shiny: bool },
    /// The actor may not perform this transition.
    Unauthorized,
    /// The offer is no longer open.
    InvalidState,
    /// A snapshotted record changed between proposal and acceptance.
    Conflict,
}

/// One mutation of the store that settling a trade requires.
#[derive(Clone, Debug, PartialEq, Eq)]
pub enum StoreCall {
    /// Create a new ledger entry for the receiving user.
    Create(NewLuckymonHistory),
    /// Flag the given record as spent.
    MarkTraded { record_id: u128 },
}

/// A proposed exchange of up to two records between two users.
#[derive(Clone, Copy, Debug)]
pub struct TradeOffer {
    pub initiator: i64,
    pub counterparty: i64,
    /// The initiator's snapshotted record, absent for a gift request.
    pub offered: Option<TradeSnapshot>,
    /// The counterparty's snapshotted record, absent for a pure gift.
    pub requested: Option<TradeSnapshot>,
    pub created_at: u64,
    pub ttl: u64,
    pub state: TradeState,
}

/// What the snapshot of one side demands of the record re-fetched at
/// acceptance time: the very record promised, still untraded. A gift side
/// demands nothing.
pub open spec fn spec_recheck_ok(
    snap: Option<TradeSnapshot>,
    refetched: Option<LuckymonHistory>,
) -> bool {
    match snap {
        None => true,
        Some(s) => match refetched {
            Some(h) => h.id == s.record_id && !h.traded,
            None => false,
        },
    }
}

/// The store calls settling one side of a trade: create a copy of the
/// re-fetched record for the receiver, untraded, then flag the original as
/// spent. A gift side needs none.
pub open spec fn spec_side_calls(
    receiver: i64,
    snap: Option<TradeSnapshot>,
    refetched: Option<LuckymonHistory>,
) -> Seq<StoreCall> {
    match snap {
        None => seq![],
        Some(s) => match refetched {
            Some(h) => seq![
                StoreCall::Create(
                    NewLuckymonHistory {
                        user_id: receiver,
                        date_obtained: h.date_obtained,
                        pokemon_id: h.pokemon_id,
                        shiny: h.shiny,
                        pokemon_name: h.pokemon_name,
                        traded: false,
                    },
                ),
                StoreCall::MarkTraded { record_id: s.record_id },
            ],
            None => seq![],
        },
    }
}

/// The snapshot one side of a proposal takes, or the error refusing it.
pub open spec fn spec_side_snapshot(
    arg: TradeArg,
    records: Seq<LuckymonHistory>,
    owner: i64,
) -> Result<Option<TradeSnapshot>, TradeError> {
    match arg {
        TradeArg::NotApplicable => Ok(None),
        TradeArg::Item { pokemon_id, shiny } => match spec_find_match(
            records,
            owner,
            pokemon_id,
            shiny,
        ) {
            Some(i) => Ok(
                Some(
                    TradeSnapshot {
                        record_id: records[i].id,
                        pokemon_id: records[i].pokemon_id,
                        shiny: records[i].shiny,
                    },
                ),
            ),
            None => Err(TradeError::NotFound { owner, pokemon_id, shiny }),
        },
    }
}

/// The offer a trade command creates, or the error refusing it, as a pure
/// function of the command's inputs and both parties' current records.
pub open spec fn spec_propose(
    initiator: i64,
    counterparty: i64,
    offered_arg: Seq<char>,
    requested_arg: Seq<char>,
    initiator_records: Seq<LuckymonHistory>,
    counterparty_records: Seq<LuckymonHistory>,
    created_at: u64,
    ttl: u64,
) -> Result<TradeOffer, TradeError> {
    if initiator == counterparty {
        Err(TradeError::SelfTrade)
    } else {
        match spec_parse_trade_arg(offered_arg) {
            None => Err(TradeError::InvalidFirstArg),
            Some(oa) => match spec_parse_trade_arg(requested_arg) {
                None => Err(TradeError::InvalidSecondArg),
                Some(ra) => if oa is NotApplicable && ra is NotApplicable {
                    Err(TradeError::BothNotApplicable)
                } else {
                    match spec_side_snapshot(oa, initiator_records, initiator) {
                        Err(e) => Err(e),
                        Ok(offered) => match spec_side_snapshot(
                            ra,
                            counterparty_records,
                            counterparty,
                        ) {
                            Err(e) => Err(e),
                            Ok(requested) => Ok(
                                TradeOffer {
                                    initiator,
                                    counterparty,
                                    offered,
                                    requested,
                                    created_at,
                                    ttl,
                                    state: TradeState::Proposed,
                                },
                            ),
                        },
                    }
                },
            },
        }
    }
}

impl TradeOffer {
    /// At most one side may be a gift, never both.
    pub open spec fn well_formed(self) -> bool {
        self.offered is Some || self.requested is Some
    }

    /// The offer `accept` leaves behind and the store calls or error it
    /// hands back, as a pure function of the old offer, the actor and the
    /// two re-fetched records.
    pub open spec fn spec_accept(
        self,
        actor: i64,
        refetched_offered: Option<LuckymonHistory>,
        refetched_requested: Option<LuckymonHistory>,
    ) -> (TradeOffer, Result<Seq<StoreCall>, TradeError>) {
        if !(self.state is Proposed) {
            (self, Err(TradeError::InvalidState))
        } else if actor != self.counterparty {
            (self, Err(TradeError::Unauthorized))
        } else if !spec_recheck_ok(self.offered, refetched_offered) || !spec_recheck_ok(
            self.requested,
            refetched_requested,
        ) {
            (TradeOffer { state: TradeState::Aborted, ..self }, Err(TradeError::Conflict))
        } else {
            (
                TradeOffer { state: TradeState::Accepted, ..self },
                Ok(
                    spec_side_calls(self.initiator, self.requested, refetched_requested)
                        + spec_side_calls(self.counterparty, self.offered, refetched_offered),
                ),
            )
        }
    }

    /// The offer `cancel` leaves behind and what it answers.
    pub open spec fn spec_cancel(self, actor: i64) -> (TradeOffer, Result<(), TradeError>) {
        if !(self.state is Proposed) {
            (self, Err(TradeError::InvalidState))
        } else if actor != self.initiator && actor != self.counterparty {
            (self, Err(TradeError::Unauthorized))
        } else {
            (TradeOffer { state: TradeState::Cancelled, ..self }, Ok(()))
        }
    }

    /// The offer `expire` leaves behind: expired exactly when it was still
    /// open and its time-to-live had run out.
    pub open spec fn spec_expire(self, now: u64) -> TradeOffer {
        if self.state is Proposed && now >= self.created_at + self.ttl {
            TradeOffer { state: TradeState::Expired, ..self }
        } else {
            self
        }
    }

    /// Whether `actor` is one of the two parties; anyone else's
    /// interactions are acknowledged and ignored.
    pub fn may_act(&self, actor: i64) -> (r: bool)
        ensures
            r == (actor == self.initiator || actor == self.counterparty),
    {
        actor == self.initiator || actor == self.counterparty
    }

    /// Whether the offer's time-to-live has run out at instant `now`.
    pub fn is_expired(&self, now: u64) -> (r: bool)
        ensures
            r == (now >= self.created_at + self.ttl),
    {
        now >= self.created_at && now - self.created_at >= self.ttl
    }

    /// Accepts the offer. Only the counterparty can accept, only while the
    /// offer is `Proposed`. Every snapshotted record must have been
    /// re-fetched by the caller and handed in here; if any is missing,
    /// another record, or already traded, the offer aborts with `Conflict`
    /// and no store call is returned. On success the offer is `Accepted`
    /// and the returned calls, applied in order, settle the trade.
    pub fn accept(
        &mut self,
        actor: i64,
        refetched_offered: Option<LuckymonHistory>,
        refetched_requested: Option<LuckymonHistory>,
    ) -> (r: Result<Vec<StoreCall>, TradeError>)
        ensures
            ({
                let (o2, res) = old(self).spec_accept(actor, refetched_offered, refetched_requested);
                &&& *final(self) == o2
                &&& (match (r, res) {
                    (Ok(v), Ok(calls)) => v@ == calls,
                    (Err(e1), Err(e2)) => e1 == e2,
                    _ => false,
                })
            }),
            !(old(self).state is Proposed) ==> *final(self) == *old(self) && r == Err::<
                Vec<StoreCall>,
                _,
            >(TradeError::InvalidState),
            r is Ok ==> final(self).state is Accepted,
            r == Err::<Vec<StoreCall>, _>(TradeError::Conflict) ==> final(self).state is Aborted,
    {
        if !matches!(self.state, TradeState::Proposed) {
            return Err(TradeError::InvalidState);
        }
        if actor != self.counterparty {
            return Err(TradeError::Unauthorized);
        }
        if !recheck_side(&self.offered, &refetched_offered) || !recheck_side(
            &self.requested,
            &refetched_requested,
        ) {
            self.state = TradeState::Aborted;
            return Err(TradeError::Conflict);
        }
        self.state = TradeState::Accepted;
        let mut calls: Vec<StoreCall> = Vec::new();
        // The requested record moves to the initiator first, then the
        // offered record to the counterparty, as the store expects.
        match self.requested {
            Some(s) => {
                match refetched_requested {
                    Some(h) => {
                        calls.push(
                            StoreCall::Create(
                                NewLuckymonHistory {
                                    user_id: self.initiator,
                                    date_obtained: h.date_obtained,
                                    pokemon_id: h.pokemon_id,
                                    shiny: h.shiny,
                                    pokemon_name: h.pokemon_name,
                                    traded: false,
                                },
                            ),
                        );
                        calls.push(StoreCall::MarkTraded { record_id: s.record_id });
                    },
                    None => {},
                }
            },
            None => {},
        }
        match self.offered {
            Some(s) => {
                match refetched_offered {
                    Some(h) => {
                        calls.push(
                            StoreCall::Create(
                                NewLuckymonHistory {
                                    user_id: self.counterparty,
                                    date_obtained: h.date_obtained,
                                    pokemon_id: h.pokemon_id,
                                    shiny: h.shiny,
                                    pokemon_name: h.pokemon_name,
                                    traded: false,
                                },
                            ),
                        );
                        calls.push(StoreCall::MarkTraded { record_id: s.record_id });
                    },
                    None => {},
                }
            },
            None => {},
        }
        Ok(calls)
    }

    /// Cancels the offer. Either party can cancel, only while the offer is
    /// `Proposed`; no store mutation ever follows a cancellation.
    pub fn cancel(&mut self, actor: i64) -> (r: Result<(), TradeError>)
        ensures
            ({
                let (o2, res) = old(self).spec_cancel(actor);
                *final(self) == o2 && r == res
            }),
    {
        if !matches!(self.state, TradeState::Proposed) {
            return Err(TradeError::InvalidState);
        }
        if actor != self.initiator && actor != self.counterparty {
            return Err(TradeError::Unauthorized);
        }
        self.state = TradeState::Cancelled;
        Ok(())
    }

    /// Expires the offer if it is still open and its time-to-live has run
    /// out at instant `now`; otherwise changes nothing. Equivalent to an
    /// implicit cancellation: no store mutation.
    pub fn expire(&mut self, now: u64)
        ensures
            *final(self) == old(self).spec_expire(now),
    {
        if matches!(self.state, TradeState::Proposed) && self.is_expired(now) {
            self.state = TradeState::Expired;
        }
    }
}

/// Executable counterpart of `spec_recheck_ok`.
fn recheck_side(snap: &Option<TradeSnapshot>, refetched: &Option<LuckymonHistory>) -> (r: bool)
    ensures
        r == spec_recheck_ok(*snap, *refetched),
{
    match snap {
        None => true,
        Some(s) => match refetched {
            Some(h) => h.id == s.record_id && !h.traded,
            None => false,
        },
    }
}

/// Executable counterpart of `spec_side_snapshot`.
fn side_snapshot(arg: TradeArg, records: &Vec<LuckymonHistory>, owner: i64) -> (r: Result<
    Option<TradeSnapshot>,
    TradeError,
>)
    ensures
        r == spec_side_snapshot(arg, records@, owner),
{
    match arg {
        TradeArg::NotApplicable => Ok(None),
        TradeArg::Item { pokemon_id, shiny } => match find_matching_record(
            records,
            owner,
            pokemon_id,
            shiny,
        ) {
            Some(i) => {
                let h = &records[i];
                Ok(Some(TradeSnapshot { record_id: h.id, pokemon_id: h.pokemon_id, shiny: h.shiny }))
            },
            None => Err(TradeError::NotFound { owner, pokemon_id, shiny }),
        },
    }
}

/// Validates a trade command and creates the offer. The claiming party of
/// each non-gift side must own an untraded record of the named item among
/// the records handed in (fetched from the store moments before); the
/// first such record's identity is snapshotted into the offer.
pub fn propose_trade(
    initiator: i64,
    counterparty: i64,
    offered_arg: &str,
    requested_arg: &str,
    initiator_records: &Vec<LuckymonHistory>,
    counterparty_records: &Vec<LuckymonHistory>,
    created_at: u64,
    ttl: u64,
) -> (r: Result<TradeOffer, TradeError>)
    ensures
        r == spec_propose(
            initiator,
            counterparty,
            offered_arg@,
            requested_arg@,
            initiator_records@,
            counterparty_records@,
            created_at,
            ttl,
        ),
        r matches Ok(o) ==> o.state is Proposed && o.well_formed(),
{
    if initiator == counterparty {
        return Err(TradeError::SelfTrade);
    }
    let oa = match parse_trade_arg(offered_arg) {
        Some(a) => a,
        None => {
            return Err(TradeError::InvalidFirstArg);
        },
    };
    let ra = match parse_trade_arg(requested_arg) {
        Some(a) => a,
        None => {
            return Err(TradeError::InvalidSecondArg);
        },
    };
    if matches!(oa, TradeArg::NotApplicable) && matches!(ra, TradeArg::NotApplicable) {
        return Err(TradeError::BothNotApplicable);
    }
    let offered = match side_snapshot(oa, initiator_records, initiator) {
        Ok(x) => x,
        Err(e) => {
            return Err(e);
        },
    };
    let requested = match side_snapshot(ra, counterparty_records, counterparty) {
        Ok(x) => x,
        Err(e) => {
            return Err(e);
        },
    };
    Ok(
        TradeOffer {
            initiator,
            counterparty,
            offered,
            requested,
            created_at,
            ttl,
            state: TradeState::Proposed,
        },
    )
}

/// How the settlement of an accepted trade went: the caller reports how
/// many of the returned store calls were applied, in order, before the
/// first failure if any.
#[derive(Clone, Copy, PartialEq, Eq, Structural, Debug)]
pub enum SettlementOutcome {
    /// Every call went through: the trade is fully settled.
    AllApplied,
    /// The first call already failed: the store is unchanged.
    NothingApplied,
    /// A later call failed after earlier ones succeeded. The store holds a
    /// partial settlement that this protocol cannot roll back; this is an
    /// operational alert, never a silent success.
    PartialFailure { applied: usize },
}

/// Classifies a settlement attempt: `applied` of `total` calls succeeded
/// before the attempt stopped.
pub fn settlement_report(applied: usize, total: usize) -> (r: SettlementOutcome)
    requires
        applied <= total,
    ensures
        r == SettlementOutcome::AllApplied <==> applied == total,
        r == SettlementOutcome::NothingApplied <==> applied == 0 && total > 0,
        r == (SettlementOutcome::PartialFailure { applied }) <==> 0 < applied < total,
{
    if applied == total {
        SettlementOutcome::AllApplied
    } else if applied == 0 {
        SettlementOutcome::NothingApplied
    } else {
        SettlementOutcome::PartialFailure { applied }
    }
}

/// Law: an offer is accepted at most once. A successful accept leaves the
/// offer `Accepted`, and a second accept, whoever attempts it and whatever
/// records it presents, is refused with `InvalidState` and changes
/// nothing.
pub proof fn lemma_no_double_accept(
    o: TradeOffer,
    a1: i64,
    ro1: Option<LuckymonHistory>,
    rr1: Option<LuckymonHistory>,
    a2: i64,
    ro2: Option<LuckymonHistory>,
    rr2: Option<LuckymonHistory>,
)
    ensures
        ({
            let (o1, r1) = o.spec_accept(a1, ro1, rr1);
            let (o2, r2) = o1.spec_accept(a2, ro2, rr2);
            r1 is Ok ==> o1.state is Accepted && o2 == o1 && r2 == Err::<Seq<StoreCall>, _>(
                TradeError::InvalidState,
            )
        }),
{
}

/// Law: after a cancel, an accept is refused with `InvalidState` and
/// changes nothing, whoever attempts it and whatever records it presents.
pub proof fn lemma_no_accept_after_cancel(
    o: TradeOffer,
    a1: i64,
    a2: i64,
    ro: Option<LuckymonHistory>,
    rr: Option<LuckymonHistory>,
)
    ensures
        ({
            let (o1, r1) = o.spec_cancel(a1);
            let (o2, r2) = o1.spec_accept(a2, ro, rr);
            r1 is Ok ==> o1.state is Cancelled && o2 == o1 && r2 == Err::<Seq<StoreCall>, _>(
                TradeError::InvalidState,
            )
        }),
{
}

/// Law: every state but `Proposed` is terminal. No accept, cancel or
/// expiry moves an offer that has already been accepted, cancelled,
/// aborted or expired.
pub proof fn lemma_terminal_states_stable(
    o: TradeOffer,
    actor: i64,
    ro: Option<LuckymonHistory>,
    rr: Option<LuckymonHistory>,
    now: u64,
)
    requires
        !(o.state is Proposed),
    ensures
        o.spec_accept(actor, ro, rr).0 == o,
        o.spec_cancel(actor).0 == o,
        o.spec_expire(now) == o,
{
}

/// Law: if any snapshotted record, re-fetched at acceptance time, is
/// already marked traded, acceptance aborts with `Conflict` and returns no
/// store call at all: zero mutations.
pub proof fn lemma_stale_snapshot_aborts(
    o: TradeOffer,
    actor: i64,
    ro: Option<LuckymonHistory>,
    rr: Option<LuckymonHistory>,
)
    requires
        o.state is Proposed,
        actor == o.counterparty,
        (match (o.offered, ro) {
            (Some(s), Some(h)) => h.id == s.record_id && h.traded,
            _ => false,
        }) || (match (o.requested, rr) {
            (Some(s), Some(h)) => h.id == s.record_id && h.traded,
            _ => false,
        }),
    ensures
        o.spec_accept(actor, ro, rr) == (
            TradeOffer { state: TradeState::Aborted, ..o },
            Err::<Seq<StoreCall>, TradeError>(TradeError::Conflict),
        ),
{
}

} // verus!
