use vstd::prelude::*;

verus! {

/// What the pointer is doing on the board in edit mode.
#[derive(PartialEq, Eq, Structural, Clone, Copy, Debug)]
pub enum Interaction {
    /// Nothing held: the pointer hovers.
    Idle,
    /// The left button is down: the held element moves with the pointer.
    Dragging,
}

/// The editing state of the board's canvas. Positions are kept by the application.
#[derive(PartialEq, Eq, Structural, Clone, Copy, Debug)]
pub struct CanvasState {
    pub held_element: Option<usize>,
    pub hovered_face: Option<usize>,
    pub hovered_vertex: Option<usize>,
    pub selected_element: Option<usize>,
    pub interaction: Interaction,
}

/// Where the pointer is relative to one element, as the application measured it: outside,
/// inside a mouse speed indicator, or inside a polygon, with, for each edge of the polygon in
/// drawing order, whether the pointer is near it.
pub enum ElementHit {
    Outside,
    InsideIndicator,
    InsidePolygon { near_edges: Vec<bool> },
}

/// Model of a hit.
pub enum HitView {
    Outside,
    InsideIndicator,
    InsidePolygon(Seq<bool>),
}

impl View for ElementHit {
    type V = HitView;

    open spec fn view(&self) -> HitView {
        match self {
            ElementHit::Outside => HitView::Outside,
            ElementHit::InsideIndicator => HitView::InsideIndicator,
            ElementHit::InsidePolygon { near_edges } => HitView::InsidePolygon(near_edges@),
        }
    }
}

pub open spec fn hit_views(hits: Seq<ElementHit>) -> Seq<HitView> {
    hits.map_values(|h: ElementHit| h@)
}

/// A pointer event on the canvas.
pub enum CanvasEvent {
    /// The pointer moved; `hits` has one entry per element, in layout order.
    CursorMoved { hits: Vec<ElementHit> },
    LeftPressed,
    /// The left button was released; `moved` tells whether the held element was dragged by
    /// some distance since it was grabbed.
    LeftReleased { moved: bool },
    Other,
}

/// What the canvas asks the board for.
#[derive(PartialEq, Eq, Structural, Clone, Copy, Debug)]
pub enum CanvasMessage {
    UpdateHoveredElement(Option<usize>),
    /// Move the element at this index with the pointer.
    MoveHeld(usize),
    /// Record the drag of the element at this index for undo.
    PushMove(usize),
    /// Draw the canvas again.
    UpdateCanvas,
}

/// The canvas's answer to an event: whether it took the event, the message it sends, and
/// whether the platform's redraw request is due (it is needed on some platforms only).
#[derive(PartialEq, Eq, Structural, Clone, Copy, Debug)]
pub struct CanvasReply {
    pub captured: bool,
    pub message: Option<CanvasMessage>,
    pub refresh: bool,
}

/// An edge under the pointer: between two edges near the pointer lies a vertex.
#[derive(PartialEq, Eq, Structural, Clone, Copy, Debug)]
pub enum EdgeHover {
    Vertex(usize),
    Face(usize),
}

/// The first pair of neighbouring edges, from pair `i` on, with an edge near the pointer:
/// both near means the vertex between them, else the near one's face.
pub open spec fn first_edge_hover(near: Seq<bool>, i: int) -> Option<EdgeHover>
    decreases near.len() - i,
{
    if i < 0 || i + 1 >= near.len() {
        None
    } else if near[i] && near[i + 1] {
        Some(EdgeHover::Vertex((i + 1) as usize))
    } else if near[i] {
        Some(EdgeHover::Face(i as usize))
    } else if near[i + 1] {
        Some(EdgeHover::Face((i + 1) as usize))
    } else {
        first_edge_hover(near, i + 1)
    }
}

/// The state after the pointer hovers a polygon with these edges near it.
pub open spec fn hover_polygon(s: CanvasState, near: Seq<bool>) -> CanvasState {
    match first_edge_hover(near, 0) {
        Some(EdgeHover::Vertex(v)) => CanvasState {
            hovered_vertex: Some(v),
            hovered_face: None,
            ..s
        },
        Some(EdgeHover::Face(f)) => CanvasState { hovered_face: Some(f), ..s },
        None => CanvasState { hovered_face: None, ..s },
    }
}

/// The first element, from index `i` on, that the pointer is inside.
pub open spec fn first_hit(hits: Seq<HitView>, i: int) -> Option<int>
    decreases hits.len() - i,
{
    if i < 0 || i >= hits.len() {
        None
    } else if hits[i] is Outside {
        first_hit(hits, i + 1)
    } else {
        Some(i)
    }
}

/// A reply that takes the event, with the platform's redraw request.
pub open spec fn captured_refresh() -> CanvasReply {
    CanvasReply { captured: true, message: None, refresh: true }
}

/// A reply that takes the event and sends a message.
pub open spec fn captured_with(m: CanvasMessage) -> CanvasReply {
    CanvasReply { captured: true, message: Some(m), refresh: false }
}

/// A reply that leaves the event.
pub open spec fn ignored() -> CanvasReply {
    CanvasReply { captured: false, message: None, refresh: false }
}

/// The state and reply after a pointer event, given whether the board is in edit mode, which
/// element it shows as hovered, and whether the pointer is on the canvas.
///
/// Out of edit mode, a hovered element is let go of first; then a selected or held element
/// is let go of. In edit mode, off the canvas, nothing happens. A move hovers the first element
/// under the pointer (tracking the edge or vertex of a polygon under it), or none, or moves
/// the held element while dragging. A press grabs the selected element, else the hovered one.
/// A release records the drag of the held element and selects it, or, without a drag, selects
/// the hovered element.
pub open spec fn canvas_post(
    old: CanvasState,
    edit_mode: bool,
    hovered: Option<usize>,
    in_bounds: bool,
    event: CanvasEventView,
    new: CanvasState,
    reply: CanvasReply,
) -> bool {
    if !edit_mode {
        if hovered is Some {
            new == old && reply == captured_with(CanvasMessage::UpdateHoveredElement(None))
        } else if old.selected_element is Some || old.held_element is Some {
            new == CanvasState { selected_element: None, held_element: None, ..old } && reply
                == captured_refresh()
        } else {
            new == old && reply == ignored()
        }
    } else if !in_bounds {
        new == old && reply == ignored()
    } else {
        match event {
            CanvasEventView::CursorMoved(hits) => match old.interaction {
                Interaction::Idle => match first_hit(hits, 0) {
                    Some(index) => {
                        let s = match hits[index] {
                            HitView::InsidePolygon(near) => hover_polygon(old, near),
                            _ => old,
                        };
                        &&& new == s
                        &&& reply == if hovered != Some(index as usize) {
                            captured_with(
                                CanvasMessage::UpdateHoveredElement(Some(index as usize)),
                            )
                        } else {
                            captured_refresh()
                        }
                    },
                    None => new == old && reply == if hovered is Some {
                        captured_with(CanvasMessage::UpdateHoveredElement(None))
                    } else {
                        ignored()
                    },
                },
                Interaction::Dragging => new == old && reply == match old.held_element {
                    Some(h) => captured_with(CanvasMessage::MoveHeld(h)),
                    None => ignored(),
                },
            },
            CanvasEventView::LeftPressed => {
                &&& new == if old.selected_element is None {
                    CanvasState { interaction: Interaction::Dragging, held_element: hovered, ..old }
                } else {
                    CanvasState {
                        interaction: Interaction::Dragging,
                        held_element: old.selected_element,
                        selected_element: None,
                        ..old
                    }
                }
                &&& reply == captured_refresh()
            },
            CanvasEventView::LeftReleased(moved) => {
                &&& new == CanvasState {
                    selected_element: if moved {
                        old.held_element
                    } else {
                        hovered
                    },
                    held_element: None,
                    interaction: Interaction::Idle,
                    ..old
                }
                &&& reply == CanvasReply {
                    captured: false,
                    message: if moved {
                        match old.held_element {
                            Some(h) => Some(CanvasMessage::PushMove(h)),
                            None => None,
                        }
                    } else {
                        Some(CanvasMessage::UpdateCanvas)
                    },
                    refresh: false,
                }
            },
            CanvasEventView::Other => new == old && reply == ignored(),
        }
    }
}

/// Model of a canvas event.
pub enum CanvasEventView {
    CursorMoved(Seq<HitView>),
    LeftPressed,
    LeftReleased(bool),
    Other,
}

impl View for CanvasEvent {
    type V = CanvasEventView;

    open spec fn view(&self) -> CanvasEventView {
        match self {
            CanvasEvent::CursorMoved { hits } => CanvasEventView::CursorMoved(hit_views(hits@)),
            CanvasEvent::LeftPressed => CanvasEventView::LeftPressed,
            CanvasEvent::LeftReleased { moved } => CanvasEventView::LeftReleased(*moved),
            CanvasEvent::Other => CanvasEventView::Other,
        }
    }
}

/// The first pair of neighbouring edges with one near the pointer (see `first_edge_hover`).
fn edge_hover(near: &Vec<bool>) -> (r: Option<EdgeHover>)
    ensures
        r == first_edge_hover(near@, 0),
{
    if near.len() < 2 {
        return None;
    }
    let last = near.len() - 1;
    let mut i: usize = 0;
    while i < last
        invariant
            last == near.len() - 1,
            0 <= i <= last,
            first_edge_hover(near@, 0) == first_edge_hover(near@, i as int),
        decreases last - i,
    {
        if near[i] && near[i + 1] {
            return Some(EdgeHover::Vertex(i + 1));
        } else if near[i] {
            return Some(EdgeHover::Face(i));
        } else if near[i + 1] {
            return Some(EdgeHover::Face(i + 1));
        }
        i = i + 1;
    }
    None
}

/// The first element the pointer is inside (see `first_hit`).
fn find_hit(hits: &Vec<ElementHit>) -> (r: Option<usize>)
    ensures
        match r {
            Some(i) => i < hits@.len() && first_hit(hit_views(hits@), 0) == Some(i as int),
            None => first_hit(hit_views(hits@), 0) is None,
        },
{
    let mut i: usize = 0;
    while i < hits.len()
        invariant
            0 <= i <= hits.len(),
            first_hit(hit_views(hits@), 0) == first_hit(hit_views(hits@), i as int),
        decreases hits.len() - i,
    {
        match &hits[i] {
            ElementHit::Outside => {},
            _ => {
                return Some(i);
            },
        }
        i = i + 1;
    }
    None
}

impl CanvasState {
    /// Nothing held, hovered or selected.
    pub fn new() -> (s: CanvasState)
        ensures
            s == (CanvasState {
                held_element: None,
                hovered_face: None,
                hovered_vertex: None,
                selected_element: None,
                interaction: Interaction::Idle,
            }),
    {
        CanvasState {
            held_element: None,
            hovered_face: None,
            hovered_vertex: None,
            selected_element: None,
            interaction: Interaction::Idle,
        }
    }

    /// Handles a pointer event (see `canvas_post`).
    pub fn on_event(
        &mut self,
        edit_mode: bool,
        hovered: Option<usize>,
        in_bounds: bool,
        event: &CanvasEvent,
    ) -> (reply: CanvasReply)
        ensures
            canvas_post(*old(self), edit_mode, hovered, in_bounds, event@, *final(self), reply),
    {
        let ignore = CanvasReply { captured: false, message: None, refresh: false };
        let refresh = CanvasReply { captured: true, message: None, refresh: true };
        if !edit_mode {
            if hovered.is_some() {
                return CanvasReply {
                    captured: true,
                    message: Some(CanvasMessage::UpdateHoveredElement(None)),
                    refresh: false,
                };
            }
            let mut clear = false;
            if self.selected_element.is_some() {
                self.selected_element = None;
                clear = true;
            }
            if self.held_element.is_some() {
                self.held_element = None;
                clear = true;
            }
            if clear {
                return refresh;
            }
            return ignore;
        }
        if !in_bounds {
            return ignore;
        }
        match event {
            CanvasEvent::CursorMoved { hits } => {
                match self.interaction {
                    Interaction::Idle => {
                        match find_hit(hits) {
                            Some(index) => {
                                match &hits[index] {
                                    ElementHit::InsidePolygon { near_edges } => {
                                        match edge_hover(near_edges) {
                                            Some(EdgeHover::Vertex(v)) => {
                                                self.hovered_vertex = Some(v);
                                                self.hovered_face = None;
                                            },
                                            Some(EdgeHover::Face(f)) => {
                                                self.hovered_face = Some(f);
                                            },
                                            None => {
                                                self.hovered_face = None;
                                            },
                                        }
                                    },
                                    _ => {},
                                }
                                if hovered != Some(index) {
                                    CanvasReply {
                                        captured: true,
                                        message: Some(
                                            CanvasMessage::UpdateHoveredElement(Some(index)),
                                        ),
                                        refresh: false,
                                    }
                                } else {
                                    refresh
                                }
                            },
                            None => {
                                if hovered.is_some() {
                                    CanvasReply {
                                        captured: true,
                                        message: Some(CanvasMessage::UpdateHoveredElement(None)),
                                        refresh: false,
                                    }
                                } else {
                                    ignore
                                }
                            },
                        }
                    },
                    Interaction::Dragging => match self.held_element {
                        Some(h) => CanvasReply {
                            captured: true,
                            message: Some(CanvasMessage::MoveHeld(h)),
                            refresh: false,
                        },
                        None => ignore,
                    },
                }
            },
            CanvasEvent::LeftPressed => {
                self.interaction = Interaction::Dragging;
                if self.selected_element.is_none() {
                    self.held_element = hovered;
                } else {
                    self.held_element = self.selected_element;
                    self.selected_element = None;
                }
                refresh
            },
            CanvasEvent::LeftReleased { moved } => {
                let message = if *moved {
                    let out = match self.held_element {
                        Some(h) => Some(CanvasMessage::PushMove(h)),
                        None => None,
                    };
                    self.selected_element = self.held_element;
                    out
                } else {
                    self.selected_element = hovered;
                    Some(CanvasMessage::UpdateCanvas)
                };
                self.held_element = None;
                self.interaction = Interaction::Idle;
                CanvasReply { captured: false, message, refresh: false }
            },
            CanvasEvent::Other => ignore,
        }
    }
}

/// The element drawn on top: the selected one, or else the held one.
pub open spec fn top_element(s: CanvasState) -> Option<usize> {
    if s.selected_element is Some {
        s.selected_element
    } else {
        s.held_element
    }
}

/// The elements below `n` that are drawn in layout order: all but the selected and held
/// ones.
pub open spec fn drawn_below(s: CanvasState, n: nat) -> Seq<usize>
    decreases n,
{
    if n == 0 {
        Seq::empty()
    } else {
        let rest = drawn_below(s, (n - 1) as nat);
        let i = (n - 1) as usize;
        if s.selected_element == Some(i) || s.held_element == Some(i) {
            rest
        } else {
            rest.push(i)
        }
    }
}

/// The order in which `count` elements are drawn: the others in layout order, then the top
/// element (see `top_element`).
pub open spec fn draw_order(s: CanvasState, count: nat) -> Seq<usize> {
    drawn_below(s, count) + match top_element(s) {
        Some(t) => seq![t],
        None => Seq::empty(),
    }
}

/// How an element is filled over its style.
#[derive(PartialEq, Eq, Structural, Clone, Copy, Debug)]
pub enum Fill {
    Plain,
    Hovered,
    Held,
}

/// An edge under the pointer, marked as on the selected element (else as on the hovered one).
#[derive(PartialEq, Eq, Structural, Clone, Copy, Debug)]
pub struct FaceMark {
    pub face: usize,
    pub on_selected: bool,
}

/// The marks drawn over an element: its fill, whether it is outlined as selected, and the
/// edge under the pointer with whether it is marked as on the selected element (else as on
/// the hovered one).
#[derive(PartialEq, Eq, Structural, Clone, Copy, Debug)]
pub struct Highlight {
    pub fill: Fill,
    pub selected_outline: bool,
    pub face: Option<FaceMark>,
}

/// The marks over the element at `index`: hovered while nothing is held or selected, or
/// held; outlined when selected; the edge under the pointer on the selected element, or else
/// on the hovered one.
pub open spec fn highlight(s: CanvasState, hovered: Option<usize>, index: usize) -> Highlight {
    Highlight {
        fill: if hovered == Some(index) && s.held_element is None && s.selected_element is None {
            Fill::Hovered
        } else if s.held_element == Some(index) {
            Fill::Held
        } else {
            Fill::Plain
        },
        selected_outline: s.selected_element == Some(index),
        face: match s.hovered_face {
            Some(f) => if s.selected_element == Some(index) {
                Some(FaceMark { face: f, on_selected: true })
            } else if hovered == Some(index) {
                Some(FaceMark { face: f, on_selected: false })
            } else {
                None
            },
            None => None,
        },
    }
}

impl CanvasState {
    /// The order in which `count` elements are drawn (see `draw_order`).
    pub fn draw_order(&self, count: usize) -> (order: Vec<usize>)
        requires
            top_element(*self) matches Some(t) ==> t < count,
        ensures
            order@ == draw_order(*self, count as nat),
    {
        let mut order: Vec<usize> = Vec::new();
        let mut i: usize = 0;
        while i < count
            invariant
                0 <= i <= count,
                order@ == drawn_below(*self, i as nat),
            decreases count - i,
        {
            if self.selected_element != Some(i) && self.held_element != Some(i) {
                order.push(i);
            }
            i = i + 1;
        }
        let top = if self.selected_element.is_some() {
            self.selected_element
        } else {
            self.held_element
        };
        match top {
            Some(t) => {
                let ghost below = order@;
                order.push(t);
                assert(order@ =~= below + seq![t]);
            },
            None => {
                assert(order@ =~= order@ + Seq::<usize>::empty());
            },
        }
        order
    }

    /// The marks over the element at `index` (see `highlight`).
    pub fn highlight(&self, hovered: Option<usize>, index: usize) -> (h: Highlight)
        ensures
            h == highlight(*self, hovered, index),
    {
        let fill = if hovered == Some(index) && self.held_element.is_none()
            && self.selected_element.is_none() {
            Fill::Hovered
        } else if self.held_element == Some(index) {
            Fill::Held
        } else {
            Fill::Plain
        };
        let face = match self.hovered_face {
            Some(f) => if self.selected_element == Some(index) {
                Some(FaceMark { face: f, on_selected: true })
            } else if hovered == Some(index) {
                Some(FaceMark { face: f, on_selected: false })
            } else {
                None
            },
            None => None,
        };
        Highlight { fill, selected_outline: self.selected_element == Some(index), face }
    }
}

} // verus!
