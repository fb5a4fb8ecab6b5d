use corkbot::pagination::{InteractionOutcome, NavAction, PaginationSession};

fn session_of(owner: i64, count: usize, page_size: usize) -> PaginationSession<u32> {
    let items: Vec<u32> = (0..count as u32).collect();
    PaginationSession::open(owner, items, page_size, 555, 1_000, 120)
}

#[test]
fn twenty_five_items_page_size_ten_makes_three_pages() {
    let s = session_of(1, 25, 10);
    assert_eq!(s.total_pages(), 3);
    assert_eq!(s.current_page, 0);
}

#[test]
fn next_from_last_page_is_a_no_op() {
    let mut s = session_of(1, 25, 10);
    assert_eq!(s.handle_interaction(1, NavAction::Next), InteractionOutcome::Rerender);
    assert_eq!(s.handle_interaction(1, NavAction::Next), InteractionOutcome::Rerender);
    assert_eq!(s.current_page, 2);
    assert_eq!(s.handle_interaction(1, NavAction::Next), InteractionOutcome::Rerender);
    assert_eq!(s.current_page, 2);
}

#[test]
fn previous_from_first_page_is_a_no_op() {
    let mut s = session_of(1, 25, 10);
    assert_eq!(
        s.handle_interaction(1, NavAction::Previous),
        InteractionOutcome::Rerender
    );
    assert_eq!(s.current_page, 0);
}

#[test]
fn unauthorized_actor_changes_nothing_and_owes_no_render() {
    let mut s = session_of(1, 25, 10);
    s.handle_interaction(1, NavAction::Next);
    let before = s.current_page;
    assert_eq!(s.handle_interaction(2, NavAction::Next), InteractionOutcome::Ignored);
    assert_eq!(
        s.handle_interaction(2, NavAction::Previous),
        InteractionOutcome::Ignored
    );
    assert_eq!(s.current_page, before);
}

#[test]
fn any_action_sequence_stays_in_bounds() {
    let mut s = session_of(1, 23, 5);
    let tp = s.total_pages();
    let actions = [
        NavAction::Next,
        NavAction::Next,
        NavAction::Previous,
        NavAction::Next,
        NavAction::Next,
        NavAction::Next,
        NavAction::Next,
        NavAction::Next,
        NavAction::Previous,
        NavAction::Previous,
        NavAction::Previous,
        NavAction::Previous,
        NavAction::Previous,
    ];
    for (k, a) in actions.iter().enumerate() {
        let actor = if k % 3 == 2 { 99 } else { 1 };
        s.handle_interaction(actor, *a);
        assert!(s.current_page < tp);
    }
}

#[test]
fn empty_list_still_has_one_page() {
    let s = session_of(1, 0, 10);
    assert_eq!(s.total_pages(), 1);
    assert_eq!(s.page_bounds(), (0, 0));
}

#[test]
fn page_bounds_cover_the_current_page() {
    let mut s = session_of(1, 25, 10);
    assert_eq!(s.page_bounds(), (0, 10));
    s.handle_interaction(1, NavAction::Next);
    assert_eq!(s.page_bounds(), (10, 20));
    s.handle_interaction(1, NavAction::Next);
    assert_eq!(s.page_bounds(), (20, 25));
}

#[test]
fn expiry_is_reached_exactly_at_the_ttl() {
    let s = session_of(1, 5, 10);
    assert!(!s.is_expired(1_000));
    assert!(!s.is_expired(1_119));
    assert!(s.is_expired(1_120));
    assert!(s.is_expired(2_000));
    assert!(!s.is_expired(0));
}
