use announcer::announcements::{AnnouncementList, FALLBACK_ANNOUNCEMENT};
use announcer::category::Category;
use announcer::schedule::{due_category, start_reply, tick, tick_at, Scheduler, StartOutcome};

fn list_of(texts: &[&str]) -> AnnouncementList {
    AnnouncementList::from_texts(texts.iter().map(|t| t.to_string()).collect())
}

#[test]
fn trigger_times() {
    assert_eq!(due_category(8, 45), Some(Category::Morning));
    assert_eq!(due_category(23, 0), Some(Category::Curfew));
    assert_eq!(due_category(8, 46), None);
    assert_eq!(due_category(8, 44), None);
    assert_eq!(due_category(23, 1), None);
    assert_eq!(due_category(11, 0), None);
    assert_eq!(due_category(20, 45), None);
}

#[test]
fn tick_at_morning_time_broadcasts_once() {
    let morning = list_of(&["Good morning!"]);
    let curfew = list_of(&["Lights out"]);
    assert_eq!(tick_at(8, 45, &morning, &curfew), Some("Good morning!".to_string()));
    assert_eq!(tick_at(8, 46, &morning, &curfew), None);
}

#[test]
fn tick_at_curfew_time_broadcasts_curfew() {
    let morning = list_of(&["Good morning!"]);
    let curfew = list_of(&["Lights out"]);
    assert_eq!(tick_at(23, 0, &morning, &curfew), Some("Lights out".to_string()));
}

#[test]
fn tick_on_empty_category_broadcasts_fallback() {
    let empty = AnnouncementList::new();
    assert_eq!(tick_at(8, 45, &empty, &empty), Some(FALLBACK_ANNOUNCEMENT.to_string()));
    assert_eq!(tick_at(23, 0, &empty, &empty), Some(FALLBACK_ANNOUNCEMENT.to_string()));
}

#[test]
fn tick_on_the_clock_broadcasts_only_known_texts() {
    let morning = list_of(&["m"]);
    let curfew = list_of(&["c"]);
    match tick(&morning, &curfew) {
        None => {}
        Some(t) => assert!(t == "m" || t == "c"),
    }
}

#[test]
fn start_twice_launches_one_loop() {
    let mut scheduler = Scheduler::new();
    assert!(!scheduler.is_running());
    let mut launched = 0;
    for _ in 0..2 {
        if scheduler.start() == StartOutcome::Started {
            launched += 1;
        }
    }
    assert_eq!(launched, 1);
    assert!(scheduler.is_running());
    assert_eq!(scheduler.start(), StartOutcome::AlreadyRunning);
}

#[test]
fn start_replies() {
    assert_eq!(start_reply(StartOutcome::Started), "loop should've started!");
    assert_eq!(start_reply(StartOutcome::AlreadyRunning), "loop already running!");
}
