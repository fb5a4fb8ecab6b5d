//! Paginated browsing session bound to a single message.
//!
//! A session owns the navigation state of one interactive message: the
//! ordered items being browsed, the page size, and the current page. Only
//! the session's owner can move between pages; anyone else's click is
//! acknowledged but changes nothing and owes no render. A session ends only
//! by its time-to-live running out, silently.

use vstd::prelude::*;

verus! {

/// A navigation interaction: one of the two buttons under the message.
#[derive(Clone, Copy, PartialEq, Eq, Structural, Debug)]
pub enum NavAction {
    Previous,
    Next,
}

/// What an interaction obliges the caller to do with the message.
#[derive(Clone, Copy, PartialEq, Eq, Structural, Debug)]
pub enum InteractionOutcome {
    /// Acknowledge only: the actor was not the owner, nothing changed.
    Ignored,
    /// Re-render the current page and edit the message once.
    Rerender,
}

/// Pages needed to show `len` items at `page_size` a page: the ceiling of
/// their quotient, and at least one even for an empty list, so that the
/// navigation buttons always have a well-defined disabled state.
pub open spec fn spec_total_pages(len: int, page_size: int) -> int
    recommends
        page_size >= 1,
        len >= 0,
{
    let pages = (len + page_size - 1) / page_size;
    if pages <= 0 {
        1
    } else {
        pages
    }
}

/// The navigation state of one interactive message.
pub struct PaginationSession<T> {
    /// The only user whose interactions move pages.
    pub owner: i64,
    /// The ordered items being browsed.
    pub items: Vec<T>,
    /// Items shown per page; always at least one.
    pub page_size: usize,
    /// The page on show, counted from zero.
    pub current_page: usize,
    /// The platform message this session is bound to.
    pub message_ref: u64,
    /// When the session opened.
    pub created_at: u64,
    /// Seconds of inactivity after which the session silently ends.
    pub ttl: u64,
}

impl<T> PaginationSession<T> {
    /// The page size is usable and the current page exists.
    pub open spec fn well_formed(self) -> bool {
        &&& self.page_size >= 1
        &&& 0 <= self.current_page < spec_total_pages(
            self.items@.len() as int,
            self.page_size as int,
        )
    }

    /// The session `handle_interaction` leaves behind: unchanged unless the
    /// actor is the owner, one page back or forward otherwise, clamped at
    /// the first and last page.
    pub open spec fn spec_step(self, actor: i64, action: NavAction) -> PaginationSession<T> {
        if actor != self.owner {
            self
        } else {
            match action {
                NavAction::Previous => if self.current_page > 0 {
                    PaginationSession { current_page: (self.current_page - 1) as usize, ..self }
                } else {
                    self
                },
                NavAction::Next => if self.current_page + 1 < spec_total_pages(
                    self.items@.len() as int,
                    self.page_size as int,
                ) {
                    PaginationSession { current_page: (self.current_page + 1) as usize, ..self }
                } else {
                    self
                },
            }
        }
    }

    /// Whether an interaction owes a render: exactly the owner's clicks do.
    pub open spec fn spec_renders(self, actor: i64) -> bool {
        actor == self.owner
    }

    /// Opens a session on page zero.
    pub fn open(
        owner: i64,
        items: Vec<T>,
        page_size: usize,
        message_ref: u64,
        created_at: u64,
        ttl: u64,
    ) -> (r: PaginationSession<T>)
        requires
            page_size >= 1,
        ensures
            r == (PaginationSession {
                owner,
                items,
                page_size,
                current_page: 0usize,
                message_ref,
                created_at,
                ttl,
            }),
            r.well_formed(),
    {
        PaginationSession { owner, items, page_size, current_page: 0, message_ref, created_at, ttl }
    }

    /// The number of pages this session navigates over.
    pub fn total_pages(&self) -> (r: usize)
        requires
            self.well_formed(),
        ensures
            r == spec_total_pages(self.items@.len() as int, self.page_size as int),
    {
        let len = self.items.len();
        let whole = len / self.page_size;
        let rem = len % self.page_size;
        proof {
            vstd::arithmetic::div_mod::lemma_fundamental_div_mod(
                len as int,
                self.page_size as int,
            );
            if rem != 0 {
                assert(whole < len) by (nonlinear_arith)
                    requires
                        len as int == (self.page_size as int) * (whole as int) + (rem as int),
                        0 < rem as int,
                        (rem as int) < (self.page_size as int),
                        self.page_size as int >= 1,
                        whole as int >= 0,
                ;
            }
        }
        let pages = if rem == 0 {
            whole
        } else {
            whole + 1
        };
        proof {
            vstd::arithmetic::div_mod::lemma_fundamental_div_mod(
                len as int + self.page_size as int - 1,
                self.page_size as int,
            );
            assert(pages as int == (len as int + self.page_size as int - 1) / (
            self.page_size as int)) by (nonlinear_arith)
                requires
                    self.page_size as int >= 1,
                    len as int >= 0,
                    pages as int == if len as int % self.page_size as int == 0 {
                        len as int / self.page_size as int
                    } else {
                        len as int / self.page_size as int + 1
                    },
            ;
        }
        if pages == 0 {
            1
        } else {
            pages
        }
    }

    /// Handles one button click. Only the owner's click changes the page,
    /// and only the owner's click asks for a re-render; everyone else is
    /// acknowledged and ignored, leaving the session exactly as it was.
    pub fn handle_interaction(&mut self, actor: i64, action: NavAction) -> (r: InteractionOutcome)
        requires
            old(self).well_formed(),
        ensures
            *final(self) == old(self).spec_step(actor, action),
            final(self).well_formed(),
            r == (if old(self).spec_renders(actor) {
                InteractionOutcome::Rerender
            } else {
                InteractionOutcome::Ignored
            }),
            actor != old(self).owner ==> *final(self) == *old(self) && r
                == InteractionOutcome::Ignored,
    {
        if actor != self.owner {
            return InteractionOutcome::Ignored;
        }
        match action {
            NavAction::Previous => {
                if self.current_page > 0 {
                    self.current_page = self.current_page - 1;
                }
            },
            NavAction::Next => {
                let tp = self.total_pages();
                if self.current_page + 1 < tp {
                    self.current_page = self.current_page + 1;
                }
            },
        }
        InteractionOutcome::Rerender
    }

    /// The half-open range of item positions on the current page.
    pub fn page_bounds(&self) -> (r: (usize, usize))
        requires
            self.well_formed(),
        ensures
            r.0 == self.current_page * self.page_size,
            r.1 == if r.0 + self.page_size <= self.items@.len() {
                r.0 + self.page_size
            } else {
                self.items@.len() as int
            },
            r.0 <= r.1 <= self.items@.len(),
            self.items@.len() > 0 ==> r.0 < r.1,
    {
        let len = self.items.len();
        proof {
            let l = len as int;
            let ps = self.page_size as int;
            let cp = self.current_page as int;
            let q = (l + ps - 1) / ps;
            let m = (l + ps - 1) % ps;
            vstd::arithmetic::div_mod::lemma_fundamental_div_mod(l + ps - 1, ps);
            if l > 0 {
                assert(q >= 1) by (nonlinear_arith)
                    requires
                        l + ps - 1 == ps * q + m,
                        0 <= m < ps,
                        ps >= 1,
                        l >= 1,
                ;
                assert(cp <= q - 1);
                assert(cp * ps <= l - 1) by (nonlinear_arith)
                    requires
                        ps >= 1,
                        l >= 1,
                        0 <= cp <= q - 1,
                        l + ps - 1 == ps * q + m,
                        0 <= m < ps,
                ;
            } else {
                assert(q <= 0) by (nonlinear_arith)
                    requires
                        l == 0,
                        l + ps - 1 == ps * q + m,
                        0 <= m < ps,
                        ps >= 1,
                ;
                assert(cp == 0);
                assert(cp * ps == 0) by (nonlinear_arith)
                    requires
                        cp == 0,
                ;
            }
            assert(cp * ps <= l);
        }
        let start = self.current_page * self.page_size;
        let end = if len - start > self.page_size {
            start + self.page_size
        } else {
            len
        };
        (start, end)
    }

    /// Whether the session's time-to-live has run out at instant `now`.
    pub fn is_expired(&self, now: u64) -> (r: bool)
        ensures
            r == (now >= self.created_at + self.ttl),
    {
        now >= self.created_at && now - self.created_at >= self.ttl
    }
}

/// The session left behind by a whole sequence of interactions, each a pair
/// of the actor and the button clicked.
pub open spec fn spec_run<T>(
    s: PaginationSession<T>,
    events: Seq<(i64, NavAction)>,
) -> PaginationSession<T>
    decreases events.len(),
{
    if events.len() == 0 {
        s
    } else {
        spec_run(s, events.drop_last()).spec_step(events.last().0, events.last().1)
    }
}

/// Law: after any sequence of previous/next interactions, from whatever
/// actors, the current page stays within the pages that exist, and the
/// items, page size and owner never change.
pub proof fn lemma_navigation_stays_in_bounds<T>(
    s: PaginationSession<T>,
    events: Seq<(i64, NavAction)>,
)
    requires
        s.well_formed(),
    ensures
        spec_run(s, events).well_formed(),
        0 <= spec_run(s, events).current_page < spec_total_pages(
            s.items@.len() as int,
            s.page_size as int,
        ),
        spec_run(s, events).items == s.items,
        spec_run(s, events).page_size == s.page_size,
        spec_run(s, events).owner == s.owner,
    decreases events.len(),
{
    if events.len() > 0 {
        lemma_navigation_stays_in_bounds(s, events.drop_last());
    }
}

/// Law: an interaction from anyone but the owner leaves the session exactly
/// as it was and owes no render.
pub proof fn lemma_unauthorized_interaction_ignored<T>(
    s: PaginationSession<T>,
    actor: i64,
    action: NavAction,
)
    requires
        actor != s.owner,
    ensures
        s.spec_step(actor, action) == s,
        !s.spec_renders(actor),
{
}

} // verus!
