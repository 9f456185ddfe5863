use opinion::card::{Card, CardImage, CardType, UidSource, EDGE_MARGIN};
use opinion::edge::ResizeEdge;
use opinion::geometry::Rect;

#[test]
fn image_starts_blank() {
    let img = CardImage::new(3, 4);
    assert_eq!(img.rows(), 3);
    assert_eq!(img.cols(), 4);
    assert_eq!(img.cell_size(), 20);
    assert_eq!(img.cells(), &vec![false; 20]);
    let copy = img.clone();
    assert_eq!(copy.rows(), 3);
    assert_eq!(copy.cols(), 4);
    assert_eq!(copy.cells(), img.cells());
}

#[test]
fn identifiers_count_up_from_one() {
    let mut uids = UidSource::new();
    assert_eq!(uids.last(), 0);
    assert_eq!(uids.new_uid(), 1);
    assert_eq!(uids.new_uid(), 2);
    assert_eq!(uids.last(), 2);
}

#[test]
fn new_card_keeps_what_it_is_given() {
    let mut uids = UidSource::new();
    let rect = Rect::new(1, 2, 3, 4);
    let a = Card::new(&mut uids, CardImage::new(10, 10), "Fireball", "Deals fire damage to enemies.", 50, CardType::Magic, rect);
    let b = Card::new(&mut uids, CardImage::new(2, 2), "Wall", "", 0, CardType::Defense, rect);
    assert_eq!(a.id(), 1);
    assert_eq!(b.id(), 2);
    assert_eq!(a.name, "Fireball");
    assert_eq!(a.desc, "Deals fire damage to enemies.");
    assert_eq!(a.power, 50);
    assert_eq!(a.card_type, CardType::Magic);
    assert_eq!(a.rect(), rect);
    assert_eq!(a.img().rows(), 10);
    assert_eq!(b.img().cols(), 2);
}

#[test]
fn clone_is_a_full_copy() {
    let mut uids = UidSource::new();
    let a = Card::new(&mut uids, CardImage::new(10, 10), "Fireball", "Burns.", 50, CardType::Magic, Rect::new(1, 2, 3, 4));
    let b = a.clone();
    assert_eq!(b.id(), a.id());
    assert_eq!(b.name, "Fireball");
    assert_eq!(b.desc, "Burns.");
    assert_eq!(b.power, 50);
    assert_eq!(b.card_type, CardType::Magic);
    assert_eq!(b.rect(), Rect::new(1, 2, 3, 4));
    assert_eq!(b.img().cells(), a.img().cells());
}

#[test]
fn geometry_changes_leave_the_rest_of_the_card() {
    let mut uids = UidSource::new();
    let mut card = Card::new(&mut uids, CardImage::new(10, 10), "Fireball", "Burns.", 50, CardType::Magic, Rect::new(0, 0, 100, 100));
    card.move_to((30, 40));
    assert_eq!(card.rect(), Rect::new(30, 40, 100, 100));
    card.resize((5, 6), ResizeEdge::BottomRight);
    assert_eq!(card.rect(), Rect::new(30, 40, 105, 106));
    card.resize((200, 0), ResizeEdge::Left);
    assert_eq!(card.rect(), Rect::new(230, 40, 10, 106));
    card.place(Rect::new(1, 1, 1, 1));
    assert_eq!(card.rect(), Rect::new(1, 1, 1, 1));
    assert_eq!(card.id(), 1);
    assert_eq!(card.name, "Fireball");
    assert_eq!(card.power, 50);
}

#[test]
fn margin_is_ten_units() {
    assert_eq!(EDGE_MARGIN, 10);
}
