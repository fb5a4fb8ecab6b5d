use corkbot::faqs::{Faq, NewFaq};
use corkbot::listing::resolve_position;
use corkbot::pins::{NewPin, Pin};
use corkbot::validation::{find_named_role, has_correct_arg_count};

#[test]
fn positions_are_numbered_from_one() {
    assert_eq!(resolve_position(5, "1"), Some(0));
    assert_eq!(resolve_position(5, "3"), Some(2));
    assert_eq!(resolve_position(5, "5"), Some(4));
}

#[test]
fn positions_outside_the_list_are_refused() {
    assert_eq!(resolve_position(5, "0"), None);
    assert_eq!(resolve_position(5, "6"), None);
    assert_eq!(resolve_position(0, "1"), None);
}

#[test]
fn non_numerals_are_refused() {
    assert_eq!(resolve_position(5, ""), None);
    assert_eq!(resolve_position(5, "abc"), None);
    assert_eq!(resolve_position(5, "-1"), None);
    assert_eq!(resolve_position(5, "2x"), None);
    assert_eq!(resolve_position(5, "99999999999999999999999"), None);
}

#[test]
fn arg_count_check() {
    assert!(has_correct_arg_count(3, 3));
    assert!(!has_correct_arg_count(3, 2));
    assert!(!has_correct_arg_count(3, 4));
}

#[test]
fn role_lookup_finds_the_first_match() {
    let names = vec![
        String::from("admin"),
        String::from("corkboard"),
        String::from("corkboard"),
    ];
    assert_eq!(find_named_role(&names, &String::from("corkboard")), Some(1));
    assert_eq!(find_named_role(&names, &String::from("nobody")), None);
    assert_eq!(find_named_role(&vec![], &String::from("corkboard")), None);
}

#[test]
fn pin_from_wire_form() {
    let p = Pin::new(
        "67e55044-10b1-426f-9247-bb680e5fe0c8",
        5,
        String::from("rules"),
        String::from("https://example.test/rules"),
        String::from("the server rules"),
    );
    assert_eq!(p.id, 0x67e5504410b1426f9247bb680e5fe0c8u128);
    assert_eq!(p.guild_id, 5);
    assert_eq!(p.title, "rules");
    let n = NewPin::new(
        5,
        String::from("rules"),
        String::from("https://example.test/rules"),
        String::from("the server rules"),
    );
    assert_eq!(n.title, "rules");
    assert_eq!(n.guild_id, 5);
}

#[test]
fn faq_from_wire_form() {
    let f = Faq::new(
        "00000000-0000-0000-0000-000000000001",
        5,
        String::from("how do trades work?"),
        String::from("propose, then the other side accepts"),
    );
    assert_eq!(f.id, 1);
    assert_eq!(f.guild_id, 5);
    let n = NewFaq::new(5, String::from("q"), String::from("a"));
    assert_eq!(n.question, "q");
}
