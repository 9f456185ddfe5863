use opinion::card::{Card, CardImage, CardType, UidSource};
use opinion::edge::ResizeEdge;
use opinion::geometry::Rect;
use opinion::mouse::{Action, Mouse, MouseContex, MouseTracker, Obj};

fn card_at(uids: &mut UidSource, name: &str, rect: Rect) -> Card {
    Card::new(uids, CardImage::new(10, 10), name, "", 0, CardType::Magic, rect)
}

fn two_stacked_cards() -> Vec<Card> {
    let mut uids = UidSource::new();
    vec![
        card_at(&mut uids, "A", Rect::new(0, 0, 100, 100)),
        card_at(&mut uids, "B", Rect::new(20, 20, 100, 100)),
    ]
}

#[test]
fn a_new_mouse_is_idle() {
    let mouse = Mouse::new((3, 4));
    assert_eq!(mouse.grab(), None);
    assert_eq!(mouse.last_pos(), (3, 4));
}

#[test]
fn only_the_first_request_is_granted() {
    let mut mouse = Mouse::new((0, 0));
    assert!(mouse.grab_it(Obj::Card(0), Action::Move));
    let held = mouse.grab();
    assert_eq!(held, Some((Obj::Card(0), Action::Move)));
    for ind in 0..20 {
        assert!(!mouse.grab_it(Obj::Card(ind), Action::Resize(ResizeEdge::Left)));
        assert!(!mouse.grab_it(Obj::Card(ind), Action::Move));
        assert_eq!(mouse.grab(), held);
        assert_eq!(mouse.last_pos(), (0, 0));
    }
}

#[test]
fn second_grab_in_one_hold_is_turned_down() {
    let mut cards = two_stacked_cards();
    let mut mouse = Mouse::new((0, 0));
    assert!(mouse.grab_it(Obj::Card(0), Action::Move));
    assert!(!mouse.grab_it(Obj::Card(1), Action::Move));
    mouse.update(MouseContex { cards: Some(&mut cards) }, (40, 50), false);
    assert_eq!(cards[0].rect(), Rect::new(40, 50, 100, 100));
    assert_eq!(cards[1].rect(), Rect::new(20, 20, 100, 100));
    assert_eq!(mouse.grab(), Some((Obj::Card(0), Action::Move)));
}

#[test]
fn press_grabs_the_card_registered_first() {
    let mut cards = two_stacked_cards();
    let mut mouse = Mouse::new((0, 0));
    mouse.grab_first(&mut cards, (50, 50), true);
    assert_eq!(mouse.grab(), Some((Obj::Card(0), Action::Move)));
    assert_eq!(cards[0].rect(), Rect::new(0, 0, 100, 100));
    assert_eq!(cards[1].rect(), Rect::new(20, 20, 100, 100));
}

#[test]
fn press_skips_cards_the_pointer_misses() {
    let mut cards = two_stacked_cards();
    let mut mouse = Mouse::new((0, 0));
    mouse.grab_first(&mut cards, (115, 70), true);
    assert_eq!(mouse.grab(), Some((Obj::Card(1), Action::Resize(ResizeEdge::Right))));
}

#[test]
fn press_on_empty_ground_grabs_nothing() {
    let mut cards = two_stacked_cards();
    let mut mouse = Mouse::new((0, 0));
    mouse.grab_first(&mut cards, (500, 500), true);
    assert_eq!(mouse.grab(), None);
    let mut none: Vec<Card> = Vec::new();
    mouse.grab_first(&mut none, (50, 50), true);
    assert_eq!(mouse.grab(), None);
}

#[test]
fn no_press_no_grab() {
    let mut cards = two_stacked_cards();
    let mut mouse = Mouse::new((0, 0));
    mouse.grab_first(&mut cards, (50, 50), false);
    assert_eq!(mouse.grab(), None);
}

#[test]
fn a_border_within_reach_asks_for_a_resize() {
    let mut cards = two_stacked_cards();
    let mut mouse = Mouse::new((0, 0));
    cards[0].update(&mut mouse, 0, (2, 2), true);
    assert_eq!(mouse.grab(), Some((Obj::Card(0), Action::Resize(ResizeEdge::TopLeft))));
    assert_eq!(cards[0].hit((2, 2)), Some(Action::Resize(ResizeEdge::TopLeft)));
    assert_eq!(cards[0].hit((50, 50)), Some(Action::Move));
    assert_eq!(cards[0].hit((150, 150)), None);
    // Just outside the rectangle, but within reach of its border.
    assert_eq!(cards[0].hit((105, 50)), Some(Action::Resize(ResizeEdge::Right)));
}

#[test]
fn card_update_leaves_an_active_grab_alone() {
    let mut cards = two_stacked_cards();
    let mut mouse = Mouse::new((0, 0));
    assert!(mouse.grab_it(Obj::Card(1), Action::Move));
    cards[0].update(&mut mouse, 0, (50, 50), true);
    assert_eq!(mouse.grab(), Some((Obj::Card(1), Action::Move)));
}

#[test]
fn move_puts_the_corner_at_the_pointer() {
    let mut cards = two_stacked_cards();
    let mut mouse = Mouse::new((90, 90));
    mouse.advance(MouseContex { cards: Some(&mut cards) }, (90, 90), true, false);
    assert_eq!(mouse.grab(), Some((Obj::Card(0), Action::Move)));
    // Grabbed at (90, 90), far from the corner: the corner jumps to the pointer.
    assert_eq!(cards[0].rect(), Rect::new(90, 90, 100, 100));
    mouse.advance(MouseContex { cards: Some(&mut cards) }, (-5, 300), false, false);
    assert_eq!(cards[0].rect(), Rect::new(-5, 300, 100, 100));
    assert_eq!(cards[1].rect(), Rect::new(20, 20, 100, 100));
    assert_eq!(mouse.last_pos(), (-5, 300));
}

#[test]
fn resize_follows_the_pointer_delta_with_the_edge_it_started_on() {
    let mut cards = two_stacked_cards();
    let mut mouse = Mouse::new((100, 50));
    mouse.advance(MouseContex { cards: Some(&mut cards) }, (100, 50), true, false);
    assert_eq!(mouse.grab(), Some((Obj::Card(0), Action::Resize(ResizeEdge::Right))));
    assert_eq!(cards[0].rect(), Rect::new(0, 0, 100, 100));
    mouse.advance(MouseContex { cards: Some(&mut cards) }, (130, 2), false, false);
    // The pointer is now near the top border too; the edge stays `Right`.
    assert_eq!(mouse.grab(), Some((Obj::Card(0), Action::Resize(ResizeEdge::Right))));
    assert_eq!(cards[0].rect(), Rect::new(0, 0, 130, 100));
    mouse.advance(MouseContex { cards: Some(&mut cards) }, (0, 0), false, false);
    assert_eq!(cards[0].rect(), Rect::new(0, 0, 10, 100));
}

#[test]
fn release_ends_the_grab_after_a_last_dispatch() {
    let mut cards = two_stacked_cards();
    let mut mouse = Mouse::new((0, 0));
    assert!(mouse.grab_it(Obj::Card(1), Action::Move));
    mouse.update(MouseContex { cards: Some(&mut cards) }, (7, 8), true);
    assert_eq!(mouse.grab(), None);
    assert_eq!(cards[1].rect(), Rect::new(7, 8, 100, 100));
    assert!(mouse.grab_it(Obj::Card(0), Action::Move));
}

#[test]
fn release_without_a_grab_changes_nothing() {
    let mut cards = two_stacked_cards();
    let mut mouse = Mouse::new((1, 1));
    mouse.update(MouseContex { cards: Some(&mut cards) }, (60, 60), true);
    assert_eq!(mouse.grab(), None);
    assert_eq!(mouse.last_pos(), (60, 60));
    mouse.update(MouseContex { cards: Some(&mut cards) }, (61, 61), true);
    assert_eq!(mouse.grab(), None);
    assert_eq!(cards[0].rect(), Rect::new(0, 0, 100, 100));
    assert_eq!(cards[1].rect(), Rect::new(20, 20, 100, 100));
}

#[test]
fn a_grab_on_a_missing_card_is_dropped() {
    let mut cards = two_stacked_cards();
    let mut mouse = Mouse::new((0, 0));
    assert!(mouse.grab_it(Obj::Card(2), Action::Move));
    mouse.update(MouseContex { cards: Some(&mut cards) }, (5, 5), false);
    assert_eq!(mouse.grab(), None);
    assert_eq!(cards[0].rect(), Rect::new(0, 0, 100, 100));
    assert_eq!(cards[1].rect(), Rect::new(20, 20, 100, 100));
    assert_eq!(mouse.last_pos(), (5, 5));

    assert!(mouse.grab_it(Obj::Card(1), Action::Move));
    cards.pop();
    mouse.update(MouseContex { cards: Some(&mut cards) }, (6, 6), false);
    assert_eq!(mouse.grab(), None);
    assert_eq!(cards[0].rect(), Rect::new(0, 0, 100, 100));
}

#[test]
fn a_frame_without_a_registry_keeps_the_grab() {
    let mut mouse = Mouse::new((0, 0));
    assert!(mouse.grab_it(Obj::Card(9), Action::Move));
    mouse.update(MouseContex { cards: None }, (5, 5), false);
    assert_eq!(mouse.grab(), Some((Obj::Card(9), Action::Move)));
    assert_eq!(mouse.last_pos(), (5, 5));
    mouse.advance(MouseContex { cards: None }, (6, 6), true, true);
    assert_eq!(mouse.grab(), None);
    assert_eq!(mouse.last_pos(), (6, 6));
}

#[test]
fn delta_is_measured_from_the_last_frame() {
    let mut mouse = Mouse::new((10, 20));
    assert_eq!(mouse.delta((13, 15)), (3, -5));
    // Asking does not move the reference point.
    assert_eq!(mouse.delta((13, 15)), (3, -5));
    assert_eq!(mouse.last_pos(), (10, 20));
    let mut far = Mouse::new((i32::MIN, i32::MAX));
    assert_eq!(far.delta((i32::MAX, i32::MIN)), (i32::MAX, i32::MIN));
}

#[test]
fn tracker_delta_moves_its_reference_point() {
    let mut tracker = MouseTracker::new((10, 20));
    assert_eq!(tracker.delta((13, 15)), (3, -5));
    assert_eq!(tracker.delta((13, 15)), (0, 0));
    tracker.update((0, 0));
    assert_eq!(tracker.delta((1, 1)), (1, 1));
    tracker.update((i32::MAX, 0));
    assert_eq!(tracker.delta((i32::MIN, 0)), (i32::MIN, 0));
}

#[test]
fn tracked_update_resizes_while_the_button_is_down_near_a_border() {
    let mut uids = UidSource::new();
    let mut card = card_at(&mut uids, "A", Rect::new(0, 0, 100, 100));
    let mut tracker = MouseTracker::new((100, 50));
    card.update_tracked(&mut tracker, (104, 50), true);
    assert_eq!(card.rect(), Rect::new(0, 0, 104, 100));
    // Button up: nothing moves, and the tracker keeps its reference point.
    card.update_tracked(&mut tracker, (108, 50), false);
    assert_eq!(card.rect(), Rect::new(0, 0, 104, 100));
    card.update_tracked(&mut tracker, (108, 50), true);
    assert_eq!(card.rect(), Rect::new(0, 0, 108, 100));
    // Away from every border: nothing moves, and the tracker is not asked.
    card.update_tracked(&mut tracker, (50, 50), true);
    assert_eq!(card.rect(), Rect::new(0, 0, 108, 100));
    card.update_tracked(&mut tracker, (50, 95), true);
    assert_eq!(card.rect(), Rect::new(0, 0, 108, 145));
}
