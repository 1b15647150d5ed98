use announcer::announcements::AnnouncementList;
use announcer::category::{parse_category, Category};
use announcer::replies::{
    add_message, list_reply, remove_message, INVALID_CATEGORY_REPLY, NOT_INTEGER_REPLY,
};
use announcer::text::{parse_index, push_decimal, same_text};

fn list_of(texts: &[&str]) -> AnnouncementList {
    AnnouncementList::from_texts(texts.iter().map(|t| t.to_string()).collect())
}

#[test]
fn category_names_match_exactly() {
    assert_eq!(parse_category("morning"), Some(Category::Morning));
    assert_eq!(parse_category("curfew"), Some(Category::Curfew));
    assert_eq!(parse_category("Morning"), None);
    assert_eq!(parse_category("morning "), None);
    assert_eq!(parse_category(""), None);
    assert_eq!(Category::Curfew.name(), "curfew");
}

#[test]
fn same_text_compares_characters() {
    assert!(same_text("abc", "abc"));
    assert!(!same_text("abc", "abd"));
    assert!(!same_text("ab", "abc"));
    assert!(same_text("", ""));
}

#[test]
fn index_parsing() {
    assert_eq!(parse_index("0"), Some(0));
    assert_eq!(parse_index("42"), Some(42));
    assert_eq!(parse_index("+7"), Some(7));
    assert_eq!(parse_index("007"), Some(7));
    assert_eq!(parse_index(""), None);
    assert_eq!(parse_index("+"), None);
    assert_eq!(parse_index("-1"), None);
    assert_eq!(parse_index("1.5"), None);
    assert_eq!(parse_index(" 1"), None);
    assert_eq!(parse_index("abc"), None);
    assert_eq!(parse_index(&usize::MAX.to_string()), Some(usize::MAX));
    assert_eq!(parse_index(&format!("{}0", usize::MAX)), None);
    for s in ["0", "+3", "12", "-4", "x", "", "99999999999999999999999"] {
        assert_eq!(parse_index(s), s.parse::<usize>().ok());
    }
}

#[test]
fn decimal_rendering() {
    for n in [0usize, 7, 10, 12345, usize::MAX] {
        let mut out = String::from("n=");
        push_decimal(&mut out, n);
        assert_eq!(out, format!("n={}", n));
    }
}

#[test]
fn add_message_reply() {
    let mut list = AnnouncementList::new();
    let reply = add_message(&mut list, Category::Morning, "Good morning!".to_string());
    assert_eq!(reply, "Ok, got it! I'll say \"Good morning!\" during my morning announcements.");
    assert_eq!(list.entries(), vec![(0, "Good morning!".to_string())]);
}

#[test]
fn remove_message_replies() {
    let mut list = list_of(&["a", "Bedtime"]);
    assert_eq!(
        remove_message(&mut list, Category::Curfew, 1),
        "Index 1 of curfew announcements, \"Bedtime\" removed."
    );
    assert_eq!(
        remove_message(&mut list, Category::Curfew, 5),
        "Index 5 out of bounds! Must be between 0 and 1"
    );
    assert_eq!(list.len(), 1);
}

#[test]
fn fixed_replies() {
    assert_eq!(
        INVALID_CATEGORY_REPLY,
        "I don't understand what time you want me to say that, speak properly next time."
    );
    assert_eq!(NOT_INTEGER_REPLY, "You did not give me an integer!");
}

#[test]
fn list_replies() {
    let morning = list_of(&["Good morning!", "Eat up"]);
    let curfew = AnnouncementList::new();
    assert_eq!(
        list_reply(Some(Category::Morning), &morning, &curfew),
        "Morning Announcements:\n    Message at index 0 is Good morning!\n    Message at index 1 is Eat up"
    );
    assert_eq!(
        list_reply(Some(Category::Curfew), &morning, &curfew),
        "There are no curfew announcements added for me to say"
    );
    assert_eq!(
        list_reply(Some(Category::Morning), &curfew, &curfew),
        "There are no morning announcements added for me to say"
    );
    assert_eq!(
        list_reply(Some(Category::Curfew), &curfew, &list_of(&["Sleep"])),
        "Curfew Announcements:\n    Message at index 0 is Sleep"
    );
    assert_eq!(
        list_reply(None, &morning, &list_of(&["Sleep"])),
        "Morning Announcements: \n    Message at index 0 is Good morning!\n    Message at index 1 is Eat up\nCurfew Announcements:\n    Message at index 0 is Sleep"
    );
}
