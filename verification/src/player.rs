//! A player's piles and the row in which the hand is laid out.

use vstd::prelude::*;
use crate::card::{views, Card, CardView};
use crate::deck::CardCollection;
use crate::geometry::{clamp_coord, saturate_wide, Rect};

verus! {

/// Cards drawn into a new player's library, the opening hand included.
pub const LIBRARY_DRAW: usize = 20;

/// Cards that go from the end of the draw into the opening hand.
pub const OPENING_HAND: usize = 3;

/// Card widths that fit side by side across the hand area.
pub const HAND_SLOTS: i32 = 7;

/// Horizontal gap between neighbouring cards of the hand.
pub const HAND_GAP: i32 = 2;

/// Whose turn it is.
#[derive(Debug, Clone, Copy, PartialEq, Eq, Structural)]
pub enum Turn {
    Player1,
    Player2,
}

/// A player: three piles of cards and the areas they are shown in.
pub struct Player {
    hand: Vec<Card>,
    library: Vec<Card>,
    graveyard: Vec<Card>,
    arena_rect: Rect,
    hand_rect: Rect,
    def_card_size: (i32, i32),
}

/// A player as contracts see it.
pub struct PlayerView {
    pub hand: Seq<CardView>,
    pub library: Seq<CardView>,
    pub graveyard: Seq<CardView>,
    pub arena_rect: Rect,
    pub hand_rect: Rect,
    pub def_card_size: (i32, i32),
}

/// A game between two players.
pub struct Game {
    pub player1: Player,
    pub player2: Player,
    pub turn: Turn,
    pub is_running: bool,
    pub card_collection: Vec<Card>,
}

impl View for Player {
    type V = PlayerView;

    closed spec fn view(&self) -> PlayerView {
        PlayerView {
            hand: views(self.hand@),
            library: views(self.library@),
            graveyard: views(self.graveyard@),
            arena_rect: self.arena_rect,
            hand_rect: self.hand_rect,
            def_card_size: self.def_card_size,
        }
    }
}

/// `a / b` rounded toward zero, for a positive `b`.
pub open spec fn div_toward_zero(a: int, b: int) -> int {
    if a >= 0 {
        a / b
    } else {
        -((-a) / b)
    }
}

/// The size of a card in hand: a seventh of the hand area's width, and its
/// full height.
pub open spec fn hand_card_size(hand_rect: Rect) -> (i32, i32) {
    (div_toward_zero(hand_rect.w as int, HAND_SLOTS as int) as i32, hand_rect.h)
}

/// Where card number `ind` of the hand goes: the cards stand in a row from
/// the left border of the hand area, a gap apart, on its top border.
pub open spec fn hand_slot(hand_rect: Rect, size: (i32, i32), ind: int) -> Rect {
    Rect {
        x: clamp_coord(hand_rect.x + ind * (size.0 + HAND_GAP)) as i32,
        y: hand_rect.y,
        w: size.0,
        h: size.1,
    }
}

/// The hand with each card in its slot.
pub open spec fn laid_out(hand: Seq<CardView>, hand_rect: Rect, size: (i32, i32)) -> Seq<
    CardView,
> {
    Seq::new(hand.len(), |i: int| CardView { rect: hand_slot(hand_rect, size, i), ..hand[i] })
}

/// How many of `drawn` cards stay in the library once the opening hand is
/// taken from the end.
pub open spec fn library_size(drawn: nat) -> int {
    if drawn >= OPENING_HAND {
        drawn - OPENING_HAND
    } else {
        0
    }
}

/// The player that a draw makes: the last three cards, in order and laid
/// out, are the hand; those before them the library.
pub open spec fn dealt(drawn: Seq<CardView>, arena_rect: Rect, hand_rect: Rect) -> PlayerView {
    PlayerView {
        hand: laid_out(
            drawn.subrange(library_size(drawn.len()), drawn.len() as int),
            hand_rect,
            hand_card_size(hand_rect),
        ),
        library: drawn.subrange(0, library_size(drawn.len())),
        graveyard: Seq::empty(),
        arena_rect,
        hand_rect,
        def_card_size: hand_card_size(hand_rect),
    }
}

impl Player {
    /// A player with a library of cards drawn at random from `col` and an
    /// opening hand taken from its end.
    pub fn new(col: &CardCollection, arena_rect: Rect, hand_rect: Rect) -> (player: Self)
        requires
            col@.len() > 0,
        ensures
            player@.library.len() == LIBRARY_DRAW - OPENING_HAND,
            player@.hand.len() == OPENING_HAND,
            player@.graveyard.len() == 0,
            player@.arena_rect == arena_rect,
            player@.hand_rect == hand_rect,
            player@.def_card_size == hand_card_size(hand_rect),
            forall|i: int|
                0 <= i < player@.library.len() ==> col@.contains(#[trigger] player@.library[i]),
            forall|i: int|
                0 <= i < player@.hand.len() ==> {
                    &&& (#[trigger] player@.hand[i]).rect == hand_slot(
                        hand_rect,
                        hand_card_size(hand_rect),
                        i,
                    )
                    &&& exists|c: CardView|
                        col@.contains(c) && player@.hand[i] == (CardView {
                            rect: player@.hand[i].rect,
                            ..c
                        })
                },
    {
        let library = col.get_random(LIBRARY_DRAW);
        let ghost drawn = views(library@);
        let player = Player::deal(library, arena_rect, hand_rect);
        assert forall|i: int| 0 <= i < player@.library.len() implies col@.contains(
            #[trigger] player@.library[i],
        ) by {
            assert(player@.library[i] == drawn[i]);
        }
        assert forall|i: int| 0 <= i < player@.hand.len() implies {
            &&& (#[trigger] player@.hand[i]).rect == hand_slot(
                hand_rect,
                hand_card_size(hand_rect),
                i,
            )
            &&& exists|c: CardView|
                col@.contains(c) && player@.hand[i] == (CardView {
                    rect: player@.hand[i].rect,
                    ..c
                })
        } by {
            let c = drawn[LIBRARY_DRAW - OPENING_HAND + i];
            assert(col@.contains(c));
            assert(player@.hand[i] == (CardView { rect: player@.hand[i].rect, ..c }));
        }
        player
    }

    /// Splits a draw into library and opening hand and lays the hand out.
    pub fn deal(drawn: Vec<Card>, arena_rect: Rect, hand_rect: Rect) -> (player: Self)
        ensures
            player@ == dealt(views(drawn@), arena_rect, hand_rect),
    {
        let mut library = drawn;
        let hand = library.split_off(library.len().saturating_sub(OPENING_HAND));

        let def_card_size = (hand_rect.w / HAND_SLOTS, hand_rect.h);

        let mut ret = Self {
            hand,
            library,
            graveyard: Vec::new(),
            def_card_size,
            arena_rect,
            hand_rect,
        };
        assert(ret@.library =~= dealt(views(drawn@), arena_rect, hand_rect).library);
        assert(ret@.graveyard =~= Seq::empty());
        let ghost before = ret@;
        assert(before.hand =~= views(drawn@).subrange(
            library_size(drawn@.len()),
            drawn@.len() as int,
        ));

        ret.update_card_position();

        ret
    }

    /// Puts every card of the hand in its slot, at the default card size.
    pub fn update_card_position(&mut self)
        ensures
            final(self)@ == (PlayerView {
                hand: laid_out(old(self)@.hand, old(self)@.hand_rect, old(self)@.def_card_size),
                ..old(self)@
            }),
    {
        let x = self.hand_rect.x;
        let offset = HAND_GAP;

        let mut ind: usize = 0;
        while ind < self.hand.len()
            invariant
                ind <= self.hand@.len(),
                self.hand@.len() == old(self).hand@.len(),
                x == self.hand_rect.x,
                offset == HAND_GAP,
                self@ == (PlayerView { hand: self@.hand, ..old(self)@ }),
                forall|k: int|
                    0 <= k < ind ==> (#[trigger] self@.hand[k]) == laid_out(
                        old(self)@.hand,
                        old(self)@.hand_rect,
                        old(self)@.def_card_size,
                    )[k],
                forall|k: int|
                    ind <= k < self.hand@.len() ==> (#[trigger] self@.hand[k]) == old(
                        self,
                    )@.hand[k],
            decreases self.hand@.len() - ind,
        {
            let step: i128 = self.def_card_size.0 as i128 + offset as i128;
            assert(-0x1_0000_0000_0000_0000_0000_0000 <= ind * step
                <= 0x1_0000_0000_0000_0000_0000_0000) by (nonlinear_arith)
                requires
                    0 <= ind <= 0xffff_ffff_ffff_ffff,
                    -0x1_0000_0000 <= step <= 0x1_0000_0000,
            ;
            let px = saturate_wide(x as i128 + ind as i128 * step);
            let ghost row = self.hand@;
            self.hand[ind].place(
                Rect::new(px, self.hand_rect.y, self.def_card_size.0, self.def_card_size.1),
            );
            assert(forall|k: int| 0 <= k < row.len() && k != ind ==> self.hand@[k] == row[k]);
            assert(forall|k: int|
                0 <= k < row.len() && k != ind ==> #[trigger] views(self.hand@)[k] == views(
                    row,
                )[k]);
            assert(views(row)[ind as int] == old(self)@.hand[ind as int]);
            assert(views(self.hand@)[ind as int] == laid_out(
                old(self)@.hand,
                old(self)@.hand_rect,
                old(self)@.def_card_size,
            )[ind as int]);
            ind += 1;
        }
        assert(self@.hand =~= laid_out(
            old(self)@.hand,
            old(self)@.hand_rect,
            old(self)@.def_card_size,
        ));
    }

    pub fn hand(&self) -> (hand: &Vec<Card>)
        ensures
            views(hand@) == self@.hand,
    {
        &self.hand
    }

    pub fn library(&self) -> (library: &Vec<Card>)
        ensures
            views(library@) == self@.library,
    {
        &self.library
    }

    pub fn graveyard(&self) -> (graveyard: &Vec<Card>)
        ensures
            views(graveyard@) == self@.graveyard,
    {
        &self.graveyard
    }

    pub fn arena_rect(&self) -> (rect: Rect)
        ensures
            rect == self@.arena_rect,
    {
        self.arena_rect
    }

    pub fn hand_rect(&self) -> (rect: Rect)
        ensures
            rect == self@.hand_rect,
    {
        self.hand_rect
    }

    pub fn def_card_size(&self) -> (size: (i32, i32))
        ensures
            size == self@.def_card_size,
    {
        self.def_card_size
    }
}

} // verus!
