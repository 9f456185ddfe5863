//! The grab state machine: which card, if any, owns the pointer, and what
//! each frame of pointer input does to it.

use vstd::prelude::*;
use crate::card::{grab_request, views, Card, CardView};
use crate::edge::{resized, ResizeEdge};
use crate::geometry::{clamp_coord, saturate, Rect, MIN_SIZE};

verus! {

/// The operation a grab performs on its object, fixed when the grab is made.
#[derive(Debug, Clone, Copy, PartialEq, Eq, Structural)]
pub enum Action {
    Resize(ResizeEdge),
    Move,
}

/// A reference to something the pointer can take hold of: a card, by its
/// place in the registry.
#[derive(Debug, Clone, Copy, PartialEq, Eq, Structural)]
pub enum Obj {
    Card(usize),
}

/// What a frame may act on: the registry of cards, if there is one.
pub struct MouseContex<'a> {
    pub cards: Option<&'a mut Vec<Card>>,
}

/// The pointer as of the last frame, and the grab it holds.
pub struct Mouse {
    last_pos: (i32, i32),
    grab: Option<(Obj, Action)>,
}

/// The state of the grab machine. Idle while `current_grab` is `None`.
pub struct GrabState {
    pub last_pointer_pos: (i32, i32),
    pub current_grab: Option<(Obj, Action)>,
}

/// How far the pointer went from `from` to `to`, each axis pinned to the
/// coordinate range.
pub open spec fn pointer_delta(from: (i32, i32), to: (i32, i32)) -> (i32, i32) {
    (clamp_coord(to.0 - from.0) as i32, clamp_coord(to.1 - from.1) as i32)
}

/// A card after one frame of `act` with the pointer at `pointer`, having
/// travelled `delta` since the frame before. A move puts the top-left corner
/// at the pointer itself; a resize drags the held border by `delta`.
pub open spec fn acted_on(card: CardView, act: Action, pointer: (i32, i32), delta: (i32, i32))
    -> CardView {
    match act {
        Action::Resize(edge) => CardView {
            rect: resized(card.rect, edge, delta.0 as int, delta.1 as int),
            ..card
        },
        Action::Move => CardView { rect: Rect { x: pointer.0, y: pointer.1, ..card.rect }, ..card },
    }
}

/// The grab that a press at `(px, py)` leads to among `cards`: the request of
/// the first card, in registry order, that has one.
pub open spec fn first_hit(cards: Seq<CardView>, px: int, py: int) -> Option<(Obj, Action)>
    decreases cards.len(),
{
    if cards.len() == 0 {
        None
    } else {
        match first_hit(cards.drop_last(), px, py) {
            Some(grab) => Some(grab),
            None => match grab_request(cards.last().rect, px, py) {
                Some(act) => Some((Obj::Card((cards.len() - 1) as usize), act)),
                None => None,
            },
        }
    }
}

impl GrabState {
    pub open spec fn is_idle(self) -> bool {
        self.current_grab is None
    }

    /// The state after a grab request: taken when idle, turned down otherwise.
    pub open spec fn try_grab(self, obj: Obj, act: Action) -> GrabState {
        if self.is_idle() {
            GrabState { current_grab: Some((obj, act)), ..self }
        } else {
            self
        }
    }

    /// Whether the grab, if any, names a card that `len` cards include.
    pub open spec fn resolves(self, len: nat) -> bool {
        self.current_grab matches Some((Obj::Card(ind), _)) ==> ind < len
    }

    /// The registry after this frame's dispatch: the grabbed card acted on,
    /// every other card as it was. Nothing changes without a grab, or when the
    /// grab names no card of the registry.
    pub open spec fn dispatch(self, cards: Seq<CardView>, pointer: (i32, i32)) -> Seq<CardView> {
        match self.current_grab {
            Some((Obj::Card(ind), act)) if ind < cards.len() => cards.update(
                ind as int,
                acted_on(
                    cards[ind as int],
                    act,
                    pointer,
                    pointer_delta(self.last_pointer_pos, pointer),
                ),
            ),
            _ => cards,
        }
    }

    /// The state after a frame against a registry of `len` cards (`None`:
    /// no registry this frame). The grab ends when the button is released, and
    /// also when it names a card the registry no longer has; the pointer
    /// position is recorded in every case.
    pub open spec fn advance(self, len: Option<nat>, pointer: (i32, i32), released: bool)
        -> GrabState {
        GrabState {
            last_pointer_pos: pointer,
            current_grab: if released {
                None
            } else if len matches Some(n) && !self.resolves(n) {
                None
            } else {
                self.current_grab
            },
        }
    }

    /// The state after the acquisition step of a frame: on the frame the
    /// button goes down, the first card with a request is asked for.
    pub open spec fn acquire(self, cards: Seq<CardView>, pointer: (i32, i32), pressed: bool)
        -> GrabState {
        if pressed {
            match first_hit(cards, pointer.0 as int, pointer.1 as int) {
                Some((obj, act)) => self.try_grab(obj, act),
                None => self,
            }
        } else {
            self
        }
    }

    /// A whole frame against `cards`: acquisition, then dispatch and release,
    /// all with the one pointer sample.
    pub open spec fn frame(
        self,
        cards: Seq<CardView>,
        pointer: (i32, i32),
        pressed: bool,
        released: bool,
    ) -> (GrabState, Seq<CardView>) {
        let held = self.acquire(cards, pointer, pressed);
        (held.advance(Some(cards.len()), pointer, released), held.dispatch(cards, pointer))
    }
}

impl View for Mouse {
    type V = GrabState;

    closed spec fn view(&self) -> GrabState {
        GrabState { last_pointer_pos: self.last_pos, current_grab: self.grab }
    }
}

impl Mouse {
    /// An idle pointer at `pos`.
    pub fn new(pos: (i32, i32)) -> (mouse: Mouse)
        ensures
            mouse@ == (GrabState { last_pointer_pos: pos, current_grab: None }),
    {
        Mouse { last_pos: pos, grab: None }
    }

    pub fn last_pos(&self) -> (pos: (i32, i32))
        ensures
            pos == self@.last_pointer_pos,
    {
        self.last_pos
    }

    pub fn grab(&self) -> (grab: Option<(Obj, Action)>)
        ensures
            grab == self@.current_grab,
    {
        self.grab
    }

    /// One frame: applies the held grab to its card, ends the grab on release
    /// or when its card is gone, and records the pointer position.
    pub fn update(&mut self, ctx: MouseContex, pointer: (i32, i32), released: bool)
        ensures
            final(self)@ == old(self)@.advance(
                match ctx.cards {
                    Some(c) => Some(c@.len()),
                    None => None,
                },
                pointer,
                released,
            ),
            ctx.cards matches Some(c) ==> final(c)@.len() == c@.len() && views(final(c)@) == old(
                self,
            )@.dispatch(views(c@), pointer),
    {
        let delta = self.delta(pointer);

        if let Some((grab, act)) = self.grab {
            match (grab, ctx.cards) {
                (Obj::Card(ind), Some(cards)) => {
                    if ind < cards.len() {
                        let ghost before = cards@;
                        match act {
                            Action::Resize(edge) => cards[ind].resize(delta, edge),
                            Action::Move => cards[ind].move_to(pointer),
                        }
                        assert(views(cards@) =~= old(self)@.dispatch(views(before), pointer));
                    } else {
                        self.grab = None;
                    }
                },
                (_, _) => {},
            }
        }

        if released {
            self.grab = None;
        }

        self.last_pos = pointer;
    }

    /// How far the pointer has travelled since the last recorded position.
    pub fn delta(&mut self, pointer: (i32, i32)) -> (d: (i32, i32))
        ensures
            d == pointer_delta(old(self)@.last_pointer_pos, pointer),
            final(self)@ == old(self)@,
    {
        let dx = saturate(pointer.0 as i64 - self.last_pos.0 as i64);
        let dy = saturate(pointer.1 as i64 - self.last_pos.1 as i64);
        (dx, dy)
    }

    /// Asks for the grab. Granted only while nothing is grabbed; a request
    /// made during a grab changes nothing.
    pub fn grab_it(&mut self, obj: Obj, act: Action) -> (granted: bool)
        ensures
            granted == old(self)@.is_idle(),
            final(self)@ == old(self)@.try_grab(obj, act),
    {
        if self.grab.is_some() {
            return false;
        }
        self.grab = Some((obj, act));
        true
    }

    /// The acquisition step of a frame: every card in registry order gets to
    /// ask for the grab, so the first one with a request holds it afterwards.
    pub fn grab_first(&mut self, cards: &mut Vec<Card>, pointer: (i32, i32), pressed: bool)
        ensures
            final(cards)@.len() == old(cards)@.len(),
            views(final(cards)@) == views(old(cards)@),
            final(self)@ == old(self)@.acquire(views(old(cards)@), pointer, pressed),
    {
        let ghost before = views(cards@);
        let mut ind: usize = 0;
        while ind < cards.len()
            invariant
                ind <= cards.len(),
                cards@.len() == old(cards)@.len(),
                views(cards@) == before,
                self@ == old(self)@.acquire(before.take(ind as int), pointer, pressed),
            decreases cards.len() - ind,
        {
            let ghost row = cards@;
            cards[ind].update(self, ind, pointer, pressed);
            assert(views(cards@) =~= views(row));
            assert(before.take(ind + 1).drop_last() =~= before.take(ind as int));
            ind += 1;
        }
        assert(before.take(ind as int) =~= before);
    }

    /// A whole frame with one pointer sample: acquisition if the button went
    /// down, then dispatch, release and bookkeeping as in [`Mouse::update`].
    pub fn advance(
        &mut self,
        ctx: MouseContex,
        pointer: (i32, i32),
        pressed: bool,
        released: bool,
    )
        ensures
            match ctx.cards {
                Some(c) => {
                    &&& final(c)@.len() == c@.len()
                    &&& (final(self)@, views(final(c)@)) == old(self)@.frame(
                        views(c@),
                        pointer,
                        pressed,
                        released,
                    )
                },
                None => final(self)@ == old(self)@.advance(None, pointer, released),
            },
    {
        match ctx.cards {
            Some(cards) => {
                self.grab_first(cards, pointer, pressed);
                self.update(MouseContex { cards: Some(cards) }, pointer, released);
            },
            None => {
                self.update(MouseContex { cards: None }, pointer, released);
            },
        }
    }
}

/// Remembers where the pointer was and reports how far it has moved since.
pub struct MouseTracker {
    last_pos: (i32, i32),
}

impl View for MouseTracker {
    type V = (i32, i32);

    /// The position last recorded.
    closed spec fn view(&self) -> (i32, i32) {
        self.last_pos
    }
}

impl MouseTracker {
    pub fn new(pos: (i32, i32)) -> (tracker: MouseTracker)
        ensures
            tracker@ == pos,
    {
        Self { last_pos: pos }
    }

    /// Records the pointer position at the end of a frame.
    pub fn update(&mut self, pointer: (i32, i32))
        ensures
            final(self)@ == pointer,
    {
        self.last_pos = pointer;
    }

    /// How far the pointer has moved since the position last recorded, which
    /// this call replaces by `pointer`.
    pub fn delta(&mut self, pointer: (i32, i32)) -> (d: (i32, i32))
        ensures
            d == pointer_delta(old(self)@, pointer),
            final(self)@ == pointer,
    {
        let dx = saturate(pointer.0 as i64 - self.last_pos.0 as i64);
        let dy = saturate(pointer.1 as i64 - self.last_pos.1 as i64);
        self.last_pos = pointer;
        (dx, dy)
    }
}

/// The state after a run of grab requests, made one after the other.
pub open spec fn after_requests(state: GrabState, requests: Seq<(Obj, Action)>) -> GrabState
    decreases requests.len(),
{
    if requests.len() == 0 {
        state
    } else {
        after_requests(state, requests.drop_last()).try_grab(requests.last().0, requests.last().1)
    }
}

/// Whether request number `k` of a run is granted: it is when the requests
/// before it leave the pointer idle.
pub open spec fn request_granted(state: GrabState, requests: Seq<(Obj, Action)>, k: int) -> bool {
    after_requests(state, requests.take(k)).is_idle()
}

/// Exclusivity: while a grab is active, every request of a run is turned
/// down and the run leaves the state as it found it.
pub proof fn lemma_requests_during_grab(state: GrabState, requests: Seq<(Obj, Action)>)
    requires
        !state.is_idle(),
    ensures
        after_requests(state, requests) == state,
        forall|k: int| 0 <= k < requests.len() ==> !#[trigger] request_granted(state, requests, k),
    decreases requests.len(),
{
    if requests.len() > 0 {
        lemma_requests_during_grab(state, requests.drop_last());
        assert forall|k: int| 0 <= k < requests.len() implies !#[trigger] request_granted(
            state,
            requests,
            k,
        ) by {
            lemma_requests_during_grab(state, requests.take(k));
        }
    }
}

/// Exclusivity: of a run of requests made to an idle pointer the first is
/// granted and holds the grab to the end; every later one is turned down.
pub proof fn lemma_first_request_wins(state: GrabState, requests: Seq<(Obj, Action)>)
    requires
        state.is_idle(),
        requests.len() > 0,
    ensures
        after_requests(state, requests) == state.try_grab(requests[0].0, requests[0].1),
        after_requests(state, requests).current_grab == Some(requests[0]),
        request_granted(state, requests, 0),
        forall|k: int| 1 <= k < requests.len() ==> !#[trigger] request_granted(state, requests, k),
    decreases requests.len(),
{
    assert(requests.take(0).len() == 0);
    if requests.len() == 1 {
        assert(requests.drop_last().len() == 0);
        assert(after_requests(state, requests.drop_last()) == state);
    } else {
        lemma_first_request_wins(state, requests.drop_last());
        assert(requests.drop_last()[0] == requests[0]);
        assert forall|k: int| 1 <= k < requests.len() implies !#[trigger] request_granted(
            state,
            requests,
            k,
        ) by {
            lemma_first_request_wins(state, requests.take(k));
            assert(requests.take(k)[0] == requests[0]);
        }
    }
}

/// Registration order decides: the grab that a press leads to belongs to a
/// card that has a request while no card before it has one, and is that
/// card's request; no grab comes of it exactly when no card has a request.
pub proof fn lemma_first_hit(cards: Seq<CardView>, px: int, py: int)
    requires
        cards.len() <= usize::MAX,
    ensures
        match first_hit(cards, px, py) {
            Some((Obj::Card(ind), act)) => {
                &&& ind < cards.len()
                &&& grab_request(cards[ind as int].rect, px, py) == Some(act)
                &&& forall|j: int| 0 <= j < ind ==> grab_request(cards[j].rect, px, py) is None
            },
            None => forall|j: int|
                0 <= j < cards.len() ==> grab_request(cards[j].rect, px, py) is None,
        },
    decreases cards.len(),
{
    if cards.len() > 0 {
        let init = cards.drop_last();
        lemma_first_hit(init, px, py);
        assert(forall|j: int| 0 <= j < init.len() ==> init[j] == cards[j]);
        match first_hit(init, px, py) {
            Some((Obj::Card(ind), act)) => {
                assert(init[ind as int] == cards[ind as int]);
                assert forall|j: int| 0 <= j < ind implies grab_request(
                    cards[j].rect,
                    px,
                    py,
                ) is None by {
                    assert(init[j] == cards[j]);
                }
            },
            None => {
                assert forall|j: int| 0 <= j < cards.len() - 1 implies grab_request(
                    cards[j].rect,
                    px,
                    py,
                ) is None by {
                    assert(init[j] == cards[j]);
                }
            },
        }
    }
}

/// A request for a resize always carries a border: `NoEdge` is never
/// grabbed.
pub proof fn lemma_request_has_edge(rect: Rect, px: int, py: int)
    ensures
        grab_request(rect, px, py) matches Some(Action::Resize(edge)) ==> edge
            != ResizeEdge::NoEdge,
        grab_request(rect, px, py) is None ==> !rect.covers(px, py),
{
}

/// Idempotent release: a release with nothing grabbed changes no card and
/// leaves the pointer idle, and a second release right after any release
/// does the same.
pub proof fn lemma_release_idempotent(
    state: GrabState,
    cards: Seq<CardView>,
    first: (i32, i32),
    second: (i32, i32),
)
    ensures
        state.is_idle() ==> state.dispatch(cards, first) == cards,
        state.is_idle() ==> state.advance(Some(cards.len()), first, true) == (GrabState {
            last_pointer_pos: first,
            current_grab: None,
        }),
        state.advance(Some(cards.len()), first, true).is_idle(),
        state.advance(Some(cards.len()), first, true).dispatch(cards, second) == cards,
        state.advance(Some(cards.len()), first, true).advance(Some(cards.len()), second, true)
            == (GrabState { last_pointer_pos: second, current_grab: None }),
{
}

/// Move re-anchoring: one frame of a move grab puts the card's top-left
/// corner at that frame's pointer position, wherever the drag began, and
/// keeps its size.
pub proof fn lemma_move_reanchors(
    state: GrabState,
    cards: Seq<CardView>,
    ind: usize,
    pointer: (i32, i32),
)
    requires
        state.current_grab == Some((Obj::Card(ind), Action::Move)),
        ind < cards.len(),
    ensures
        state.dispatch(cards, pointer)[ind as int].rect == (Rect {
            x: pointer.0,
            y: pointer.1,
            ..cards[ind as int].rect
        }),
        cards[ind as int].rect.non_degenerate() ==> state.dispatch(
            cards,
            pointer,
        )[ind as int].rect.non_degenerate(),
{
}

/// One frame of a resize grab leaves the card at least `MIN_SIZE` wide and
/// high.
pub proof fn lemma_resize_keeps_minimum(
    state: GrabState,
    cards: Seq<CardView>,
    ind: usize,
    edge: ResizeEdge,
    pointer: (i32, i32),
)
    requires
        state.current_grab == Some((Obj::Card(ind), Action::Resize(edge))),
        ind < cards.len(),
    ensures
        state.dispatch(cards, pointer)[ind as int].rect.w >= MIN_SIZE,
        state.dispatch(cards, pointer)[ind as int].rect.h >= MIN_SIZE,
{
}

/// Dispatch keeps the registry's length, changes no card but the grabbed
/// one, and of that one nothing but the rectangle.
pub proof fn lemma_dispatch_frame(state: GrabState, cards: Seq<CardView>, pointer: (i32, i32))
    ensures
        state.dispatch(cards, pointer).len() == cards.len(),
        forall|j: int|
            0 <= j < cards.len() && !(state.current_grab matches Some((Obj::Card(ind), _))
                && ind == j) ==> #[trigger] state.dispatch(cards, pointer)[j] == cards[j],
        forall|j: int|
            0 <= j < cards.len() ==> (#[trigger] state.dispatch(cards, pointer)[j]) == (CardView {
                rect: state.dispatch(cards, pointer)[j].rect,
                ..cards[j]
            }),
{
}

/// A grab lasts, object and action unchanged, for as long as the button is
/// held and its card is in the registry; it ends on release, and also when
/// its card is gone, in which case no card is touched.
pub proof fn lemma_grab_lifetime(
    state: GrabState,
    cards: Seq<CardView>,
    pointer: (i32, i32),
    released: bool,
)
    ensures
        !released && state.resolves(cards.len()) ==> state.advance(
            Some(cards.len()),
            pointer,
            released,
        ).current_grab == state.current_grab,
        released ==> state.advance(Some(cards.len()), pointer, released).is_idle(),
        !state.resolves(cards.len()) ==> state.advance(
            Some(cards.len()),
            pointer,
            released,
        ).is_idle() && state.dispatch(cards, pointer) == cards,
        state.advance(Some(cards.len()), pointer, released).last_pointer_pos == pointer,
{
}

/// After a frame against a registry, a grab that is still held names a card
/// of that registry.
pub proof fn lemma_grab_resolves_after_frame(
    state: GrabState,
    len: nat,
    pointer: (i32, i32),
    released: bool,
)
    ensures
        state.advance(Some(len), pointer, released).resolves(len),
{
}

/// Dispatch keeps every card's extents positive: cards that are not
/// degenerate before a frame are not degenerate after it.
pub proof fn lemma_dispatch_keeps_cards_sized(
    state: GrabState,
    cards: Seq<CardView>,
    pointer: (i32, i32),
)
    requires
        forall|j: int| 0 <= j < cards.len() ==> (#[trigger] cards[j]).rect.non_degenerate(),
    ensures
        forall|j: int|
            0 <= j < cards.len() ==> (#[trigger] state.dispatch(
                cards,
                pointer,
            )[j]).rect.non_degenerate(),
{
    assert forall|j: int| 0 <= j < cards.len() implies (#[trigger] state.dispatch(
        cards,
        pointer,
    )[j]).rect.non_degenerate() by {
        assert(cards[j].rect.non_degenerate());
    }
}

/// A whole frame grabs at most on the frame the button goes down: without a
/// press the acquisition step changes nothing, and with a grab already held
/// it changes nothing either.
pub proof fn lemma_acquire_needs_press_and_idle(
    state: GrabState,
    cards: Seq<CardView>,
    pointer: (i32, i32),
    pressed: bool,
)
    ensures
        !pressed || !state.is_idle() ==> state.acquire(cards, pointer, pressed) == state,
        state.acquire(cards, pointer, pressed).last_pointer_pos == state.last_pointer_pos,
{
}

} // verus!
