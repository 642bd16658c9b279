use renovate_metadashboard::walk::{Paging, Phase, Walk, WalkAction, WalkEvent};

fn page(items: usize, is_last_page: bool) -> WalkEvent {
    WalkEvent::Page { items, is_last_page }
}

#[test]
fn walk_starts_by_fetching_its_first_page() {
    let (w, a) = Walk::start(Paging::Offset, 0);
    assert_eq!(a, WalkAction::FetchPage(0));
    assert_eq!(w.phase, Phase::AwaitPage);
    assert_eq!(w.position, 0);
}

#[test]
fn walk_looks_up_each_item_then_fetches_next_offset() {
    let (w, _) = Walk::start(Paging::Offset, 0);
    assert!(w.allows(page(2, false)));
    let (w, a) = w.step(page(2, false));
    assert_eq!(a, WalkAction::LookUp(0));
    let (w, a) = w.step(WalkEvent::ItemDone);
    assert_eq!(a, WalkAction::LookUp(1));
    let (w, a) = w.step(WalkEvent::ItemDone);
    assert_eq!(a, WalkAction::FetchPage(2));
    assert_eq!(w.phase, Phase::AwaitPage);
    let (w, a) = w.step(page(1, true));
    assert_eq!(a, WalkAction::LookUp(0));
    let (_, a) = w.step(WalkEvent::ItemDone);
    assert_eq!(a, WalkAction::Finish);
}

#[test]
fn walk_numbers_pages_one_after_another() {
    let (w, a) = Walk::start(Paging::Number, 1);
    assert_eq!(a, WalkAction::FetchPage(1));
    let (w, _) = w.step(page(3, false));
    let (w, _) = w.step(WalkEvent::ItemDone);
    let (w, _) = w.step(WalkEvent::ItemDone);
    let (w, a) = w.step(WalkEvent::ItemDone);
    assert_eq!(a, WalkAction::FetchPage(2));
    let (_, a) = w.step(page(0, false));
    assert_eq!(a, WalkAction::Finish);
}

#[test]
fn walk_ends_on_failure_or_missing_listing() {
    let (w, _) = Walk::start(Paging::Offset, 25);
    assert_eq!(w.step(WalkEvent::ListingFailed).1, WalkAction::Abort);
    assert_eq!(w.step(WalkEvent::ListingMissing).1, WalkAction::Finish);
    assert_eq!(w.step(page(0, true)).1, WalkAction::Finish);
}

#[test]
fn walk_refuses_events_out_of_turn_and_overflowing_pages() {
    let (w, _) = Walk::start(Paging::Offset, 0);
    assert!(!w.allows(WalkEvent::ItemDone));
    let (w, _) = w.step(page(1, false));
    assert!(w.allows(WalkEvent::ItemDone));
    assert!(!w.allows(WalkEvent::ListingFailed));

    let (w, _) = Walk::start(Paging::Offset, u32::MAX - 1);
    let (w, _) = w.step(page(2, false));
    let (w, _) = w.step(WalkEvent::ItemDone);
    assert!(!w.allows(WalkEvent::ItemDone));

    let (w, _) = Walk::start(Paging::Number, u32::MAX);
    let (w, _) = w.step(page(1, true));
    assert!(w.allows(WalkEvent::ItemDone));
    let (w, _) = Walk::start(Paging::Number, u32::MAX);
    let (w, _) = w.step(page(1, false));
    assert!(!w.allows(WalkEvent::ItemDone));
}
