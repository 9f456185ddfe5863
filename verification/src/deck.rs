//! The card collection and draws from it.

use rand::Rng;
use vstd::prelude::*;
use crate::card::{views, Card, CardImage, CardImageView, CardType, CardView, UidSource};
use crate::geometry::Rect;

verus! {

/// Draws one index from `rand`'s thread-local generator through
/// `Uniform::new_inclusive(low, high)`. The sampler adds to `low` an offset
/// below the size of the range, so the index lies within the bounds, both
/// included; which index it is differs from call to call. An empty range is
/// an error of the sampler and is kept out.
#[verifier::external_body]
fn sample_index(low: usize, high: usize) -> (ind: usize)
    requires
        low <= high,
    ensures
        low <= ind <= high,
{
    rand::rng().sample(rand::distr::Uniform::new_inclusive(low, high).unwrap())
}

/// The cards a game can draw from.
pub struct CardCollection {
    col: Vec<Card>,
}

impl View for CardCollection {
    type V = Seq<CardView>;

    closed spec fn view(&self) -> Seq<CardView> {
        views(self.col@)
    }
}

/// The starter card number `n` (from 0) of a collection made when `issued`
/// identifiers had been handed out.
pub open spec fn starter_card(n: int, issued: u32, rect: Rect) -> CardView {
    CardView {
        id: (issued + 1 + n) as u32,
        img: CardImageView {
            rows: 10,
            cols: 10,
            img: Seq::new(crate::card::IMAGE_CELLS as nat, |i: int| false),
            cell_size: crate::card::CELL_SIZE,
        },
        name: if n == 0 {
            "Smithy"@
        } else if n == 1 {
            "Smithy2"@
        } else {
            "Smithy3"@
        },
        desc: if n == 0 {
            "Card draw 1"@
        } else if n == 1 {
            "Card draw 2"@
        } else {
            "Card draw 3"@
        },
        power: 0,
        card_type: CardType::Support,
        rect,
    }
}

/// The three starter cards, all of the given size and placed at the origin.
pub fn generate_card_collection(uids: &mut UidSource, card_width: i32, card_height: i32) -> (col:
    Vec<Card>)
    requires
        old(uids).issued() + 3 <= u32::MAX,
    ensures
        final(uids).issued() == old(uids).issued() + 3,
        views(col@) == Seq::new(
            3,
            |n: int|
                starter_card(
                    n,
                    old(uids).issued(),
                    Rect { x: 0, y: 0, w: card_width, h: card_height },
                ),
        ),
{
    let mut col: Vec<Card> = Vec::new();

    let def_rect = Rect::new(0, 0, card_width, card_height);

    let img = CardImage::new(10, 10);

    col.push(Card::new(uids, img.clone(), "Smithy", "Card draw 1", 0, CardType::Support, def_rect));

    col.push(
        Card::new(uids, img.clone(), "Smithy2", "Card draw 2", 0, CardType::Support, def_rect),
    );

    col.push(
        Card::new(uids, img.clone(), "Smithy3", "Card draw 3", 0, CardType::Support, def_rect),
    );

    assert(views(col@) =~= Seq::new(
        3,
        |n: int| starter_card(n, old(uids).issued(), Rect { x: 0, y: 0, w: card_width, h: card_height }),
    ));
    col
}

impl CardCollection {
    /// The starter collection.
    pub fn generate(uids: &mut UidSource, card_width: i32, card_height: i32) -> (collection: Self)
        requires
            old(uids).issued() + 3 <= u32::MAX,
        ensures
            final(uids).issued() == old(uids).issued() + 3,
            collection@ == Seq::new(
                3,
                |n: int|
                    starter_card(
                        n,
                        old(uids).issued(),
                        Rect { x: 0, y: 0, w: card_width, h: card_height },
                    ),
            ),
    {
        Self { col: generate_card_collection(uids, card_width, card_height) }
    }

    /// A collection of the given cards.
    pub fn from_cards(col: Vec<Card>) -> (collection: Self)
        ensures
            collection@ == views(col@),
    {
        Self { col }
    }

    pub fn cards(&self) -> (cards: &Vec<Card>)
        ensures
            views(cards@) == self@,
    {
        &self.col
    }

    pub fn len(&self) -> (n: usize)
        ensures
            n == self@.len(),
    {
        self.col.len()
    }

    /// Copies of the cards at `indices`, in that order.
    pub fn pick(&self, indices: &Vec<usize>) -> (picked: Vec<Card>)
        requires
            forall|i: int| 0 <= i < indices@.len() ==> indices@[i] < self@.len(),
        ensures
            views(picked@) == indices@.map_values(|ind: usize| self@[ind as int]),
    {
        let mut picked: Vec<Card> = Vec::new();
        let mut i: usize = 0;
        while i < indices.len()
            invariant
                i <= indices@.len(),
                picked@.len() == i,
                forall|k: int| 0 <= k < indices@.len() ==> indices@[k] < self@.len(),
                views(picked@) == indices@.take(i as int).map_values(
                    |ind: usize| self@[ind as int],
                ),
            decreases indices@.len() - i,
        {
            let ghost so_far = picked@;
            let ghost target = indices@.take(i + 1).map_values(|ind: usize| self@[ind as int]);
            picked.push(self.col[indices[i]].clone());
            assert forall|k: int| 0 <= k < i + 1 implies views(picked@)[k] == target[k] by {
                if k < i {
                    assert(picked@[k] == so_far[k]);
                    assert(views(so_far)[k] == self@[indices@.take(i as int)[k] as int]);
                } else {
                    assert(picked@[k]@ == self.col@[indices@[k] as int]@);
                    assert(self@[indices@[k] as int] == self.col@[indices@[k] as int]@);
                }
            }
            assert(views(picked@) =~= target);
            i += 1;
        }
        assert(indices@.take(i as int) =~= indices@);
        picked
    }

    /// `count` cards drawn at random, with repetition: each is a copy of some
    /// card of the collection.
    pub fn get_random(&self, count: usize) -> (drawn: Vec<Card>)
        requires
            self@.len() > 0,
        ensures
            drawn@.len() == count,
            forall|i: int| 0 <= i < count ==> self@.contains(#[trigger] views(drawn@)[i]),
    {
        let high = self.col.len() - 1;
        let mut indices: Vec<usize> = Vec::new();
        while indices.len() < count
            invariant
                indices@.len() <= count,
                high < self@.len(),
                forall|i: int| 0 <= i < indices@.len() ==> indices@[i] <= high,
            decreases count - indices@.len(),
        {
            indices.push(sample_index(0, high));
        }
        let drawn = self.pick(&indices);
        assert(views(drawn@).len() == count);
        assert forall|i: int| 0 <= i < count implies self@.contains(
            #[trigger] views(drawn@)[i],
        ) by {
            assert(views(drawn@)[i] == self@[indices@[i] as int]);
        }
        drawn
    }
}

} // verus!
