//! Cards: what the table shows and the pointer moves around.

use vstd::prelude::*;
use crate::edge::{classify, mouse_near_edge, resize_rect, resized, ResizeEdge};
use crate::geometry::Rect;
use crate::mouse::{pointer_delta, Action, Mouse, MouseTracker, Obj};

verus! {

/// How close, in units, the pointer must come to a border to take hold of it.
pub const EDGE_MARGIN: i32 = 10;

/// Hands out card identifiers, each one larger than the last.
pub struct UidSource {
    last: u32,
}

impl UidSource {
    /// The identifier handed out most recently; `0` before the first.
    pub closed spec fn issued(&self) -> u32 {
        self.last
    }

    pub fn new() -> (s: UidSource)
        ensures
            s.issued() == 0,
    {
        UidSource { last: 0 }
    }

    /// The identifier handed out most recently.
    pub fn last(&self) -> (id: u32)
        ensures
            id == self.issued(),
    {
        self.last
    }

    /// The next identifier.
    pub fn new_uid(&mut self) -> (id: u32)
        requires
            old(self).issued() < u32::MAX,
        ensures
            id == old(self).issued() + 1,
            final(self).issued() == id,
    {
        self.last = self.last + 1;
        self.last
    }
}

/// What a card is for.
#[derive(Debug, Clone, Copy, PartialEq, Eq, Structural)]
pub enum CardType {
    Attack,
    Defense,
    Magic,
    Support,
}

/// A card's picture: a grid of cells that are either set or clear.
pub struct CardImage {
    rows: u16,
    cols: u16,
    img: Vec<bool>,
    cell_size: u16,
}

/// A picture as contracts see it.
pub struct CardImageView {
    pub rows: u16,
    pub cols: u16,
    pub img: Seq<bool>,
    pub cell_size: u16,
}

/// Number of cells a fresh picture holds.
pub const IMAGE_CELLS: usize = 20;

/// Edge length of one cell of a fresh picture.
pub const CELL_SIZE: u16 = 20;

impl View for CardImage {
    type V = CardImageView;

    closed spec fn view(&self) -> CardImageView {
        CardImageView {
            rows: self.rows,
            cols: self.cols,
            img: self.img@,
            cell_size: self.cell_size,
        }
    }
}

impl CardImage {
    /// A blank picture of the given grid dimensions.
    pub fn new(rows: u16, cols: u16) -> (image: CardImage)
        ensures
            image@ == (CardImageView {
                rows,
                cols,
                img: Seq::new(IMAGE_CELLS as nat, |i: int| false),
                cell_size: CELL_SIZE,
            }),
    {
        let mut img: Vec<bool> = Vec::new();
        while img.len() < IMAGE_CELLS
            invariant
                img.len() <= IMAGE_CELLS,
                forall|i: int| 0 <= i < img.len() ==> !img@[i],
            decreases IMAGE_CELLS - img.len(),
        {
            img.push(false);
        }
        assert(img@ =~= Seq::new(IMAGE_CELLS as nat, |i: int| false));
        CardImage { rows, cols, img, cell_size: CELL_SIZE }
    }

    pub fn rows(&self) -> (rows: u16)
        ensures
            rows == self@.rows,
    {
        self.rows
    }

    pub fn cols(&self) -> (cols: u16)
        ensures
            cols == self@.cols,
    {
        self.cols
    }

    pub fn cell_size(&self) -> (cell_size: u16)
        ensures
            cell_size == self@.cell_size,
    {
        self.cell_size
    }

    pub fn cells(&self) -> (cells: &Vec<bool>)
        ensures
            cells@ == self@.img,
    {
        &self.img
    }
}

impl Clone for CardImage {
    fn clone(&self) -> (copy: CardImage)
        ensures
            copy@ == self@,
    {
        let img = self.img.clone();
        assert(img@ =~= self.img@);
        CardImage { rows: self.rows, cols: self.cols, img, cell_size: self.cell_size }
    }
}

/// A card on the table.
pub struct Card {
    id: u32,
    img: CardImage,
    pub name: String,
    pub desc: String,
    pub power: u32,
    pub card_type: CardType,
    rect: Rect,
}

/// A card as contracts see it.
pub struct CardView {
    pub id: u32,
    pub img: CardImageView,
    pub name: Seq<char>,
    pub desc: Seq<char>,
    pub power: u32,
    pub card_type: CardType,
    pub rect: Rect,
}

impl View for Card {
    type V = CardView;

    closed spec fn view(&self) -> CardView {
        CardView {
            id: self.id,
            img: self.img@,
            name: self.name@,
            desc: self.desc@,
            power: self.power,
            card_type: self.card_type,
            rect: self.rect,
        }
    }
}

/// The cards of a sequence, each by its view.
pub open spec fn views(cards: Seq<Card>) -> Seq<CardView> {
    cards.map_values(|c: Card| c@)
}

/// What a press at `(px, py)` asks of a card with this rectangle: a resize
/// by the border within reach, else a move if the point is inside, else
/// nothing.
pub open spec fn grab_request(rect: Rect, px: int, py: int) -> Option<Action> {
    let edge = classify(rect, px, py, EDGE_MARGIN as int);
    if edge != ResizeEdge::NoEdge {
        Some(Action::Resize(edge))
    } else if rect.covers(px, py) {
        Some(Action::Move)
    } else {
        None
    }
}

impl Card {
    /// A card with a fresh identifier.
    pub fn new(
        uids: &mut UidSource,
        img: CardImage,
        name: &str,
        desc: &str,
        power: u32,
        card_type: CardType,
        rect: Rect,
    ) -> (card: Card)
        requires
            old(uids).issued() < u32::MAX,
        ensures
            final(uids).issued() == old(uids).issued() + 1,
            card@ == (CardView {
                id: final(uids).issued(),
                img: img@,
                name: name@,
                desc: desc@,
                power,
                card_type,
                rect,
            }),
    {
        Card {
            id: uids.new_uid(),
            img,
            rect,
            power,
            card_type,
            name: name.to_owned(),
            desc: desc.to_owned(),
        }
    }

    pub fn id(&self) -> (id: u32)
        ensures
            id == self@.id,
    {
        self.id
    }

    pub fn img(&self) -> (img: &CardImage)
        ensures
            img@ == self@.img,
    {
        &self.img
    }

    pub fn rect(&self) -> (rect: Rect)
        ensures
            rect == self@.rect,
    {
        self.rect
    }

    /// What a press at the pointer position asks of this card.
    pub fn hit(&self, pointer: (i32, i32)) -> (request: Option<Action>)
        ensures
            request == grab_request(self@.rect, pointer.0 as int, pointer.1 as int),
    {
        let edge = mouse_near_edge(self.rect, pointer.0, pointer.1, EDGE_MARGIN);
        if edge != ResizeEdge::NoEdge {
            Some(Action::Resize(edge))
        } else if self.rect.contains(pointer.0, pointer.1) {
            Some(Action::Move)
        } else {
            None
        }
    }

    /// One frame of grab acquisition for this card, known to its registry
    /// as number `ind`: on the frame the button goes down, asks `mouse` for
    /// the grab that the pointer position calls for. The card itself is left
    /// as it was.
    pub fn update(&mut self, mouse: &mut Mouse, ind: usize, pointer: (i32, i32), pressed: bool)
        ensures
            final(self)@ == old(self)@,
            final(mouse)@ == if pressed {
                match grab_request(old(self)@.rect, pointer.0 as int, pointer.1 as int) {
                    Some(act) => old(mouse)@.try_grab(Obj::Card(ind), act),
                    None => old(mouse)@,
                }
            } else {
                old(mouse)@
            },
    {
        if pressed {
            if let Some(act) = self.hit(pointer) {
                mouse.grab_it(Obj::Card(ind), act);
            }
        }
    }

    /// Grab-free resizing: on every frame with the button down and the
    /// pointer within reach of a border, drags that border by what the pointer
    /// moved since the tracker last looked. The border is looked up afresh each
    /// frame. On any other frame neither the card nor the tracker changes.
    pub fn update_tracked(&mut self, mouse: &mut MouseTracker, pointer: (i32, i32), down: bool)
        ensures
            ({
                let edge = classify(
                    old(self)@.rect,
                    pointer.0 as int,
                    pointer.1 as int,
                    EDGE_MARGIN as int,
                );
                let delta = pointer_delta(old(mouse)@, pointer);
                if down && edge != ResizeEdge::NoEdge {
                    &&& final(mouse)@ == pointer
                    &&& final(self)@ == (CardView {
                        rect: resized(old(self)@.rect, edge, delta.0 as int, delta.1 as int),
                        ..old(self)@
                    })
                } else {
                    &&& final(mouse)@ == old(mouse)@
                    &&& final(self)@ == old(self)@
                }
            }),
    {
        if down {
            let resize_edge = mouse_near_edge(self.rect, pointer.0, pointer.1, EDGE_MARGIN);
            if resize_edge != ResizeEdge::NoEdge {
                let (dx, dy) = mouse.delta(pointer);
                resize_rect(&mut self.rect, resize_edge, dx, dy);
            }
        }
    }

    /// Initial placement: gives the card the rectangle `rect`.
    pub fn place(&mut self, rect: Rect)
        ensures
            final(self)@ == (CardView { rect, ..old(self)@ }),
    {
        self.rect = rect;
    }

    /// Drags the held border by `delta`.
    pub fn resize(&mut self, delta: (i32, i32), edge: ResizeEdge)
        ensures
            final(self)@ == (CardView {
                rect: resized(old(self)@.rect, edge, delta.0 as int, delta.1 as int),
                ..old(self)@
            }),
    {
        resize_rect(&mut self.rect, edge, delta.0, delta.1);
    }

    /// Puts the top-left corner at `pos`.
    pub fn move_to(&mut self, pos: (i32, i32))
        ensures
            final(self)@ == (CardView {
                rect: Rect { x: pos.0, y: pos.1, ..old(self)@.rect },
                ..old(self)@
            }),
    {
        self.rect.move_to(pos.0, pos.1);
    }
}

impl Clone for Card {
    fn clone(&self) -> (copy: Card)
        ensures
            copy@ == self@,
    {
        Card {
            id: self.id,
            img: self.img.clone(),
            name: self.name.clone(),
            desc: self.desc.clone(),
            power: self.power,
            card_type: self.card_type,
            rect: self.rect,
        }
    }
}

} // verus!
