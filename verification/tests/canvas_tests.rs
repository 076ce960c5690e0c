use nuhxboard::canvas::{
    CanvasEvent, CanvasMessage, CanvasState, ElementHit, FaceMark, Fill, Interaction,
};

fn polygon(near: &[bool]) -> ElementHit {
    ElementHit::InsidePolygon { near_edges: near.to_vec() }
}

#[test]
fn hovering_reports_the_first_element_under_the_pointer() {
    let mut s = CanvasState::new();
    let hits = vec![ElementHit::Outside, polygon(&[false, false, false]), ElementHit::InsideIndicator];
    let reply = s.on_event(true, None, true, &CanvasEvent::CursorMoved { hits });
    assert!(reply.captured);
    assert_eq!(reply.message, Some(CanvasMessage::UpdateHoveredElement(Some(1))));
    let hits = vec![ElementHit::Outside, polygon(&[false, false, false]), ElementHit::InsideIndicator];
    let reply = s.on_event(true, Some(1), true, &CanvasEvent::CursorMoved { hits });
    assert!(reply.captured && reply.refresh && reply.message.is_none());
    let hits = vec![ElementHit::Outside];
    let reply = s.on_event(true, Some(1), true, &CanvasEvent::CursorMoved { hits });
    assert_eq!(reply.message, Some(CanvasMessage::UpdateHoveredElement(None)));
}

#[test]
fn edges_and_vertices_under_the_pointer() {
    let mut s = CanvasState::new();
    let hits = vec![polygon(&[false, true, false, false])];
    s.on_event(true, Some(0), true, &CanvasEvent::CursorMoved { hits });
    assert_eq!(s.hovered_face, Some(1));
    let hits = vec![polygon(&[false, true, true, false])];
    s.on_event(true, Some(0), true, &CanvasEvent::CursorMoved { hits });
    assert_eq!(s.hovered_face, Some(1));
    let hits = vec![polygon(&[false, false, true, true])];
    s.on_event(true, Some(0), true, &CanvasEvent::CursorMoved { hits });
    assert_eq!(s.hovered_face, Some(2));
    assert_eq!(s.hovered_vertex, None);
    let hits = vec![polygon(&[true, true, false, false])];
    s.on_event(true, Some(0), true, &CanvasEvent::CursorMoved { hits });
    assert_eq!(s.hovered_vertex, Some(1));
    assert_eq!(s.hovered_face, None);
    let hits = vec![polygon(&[false, false, false, false])];
    s.hovered_face = Some(3);
    s.on_event(true, Some(0), true, &CanvasEvent::CursorMoved { hits });
    assert_eq!(s.hovered_face, None);
    assert_eq!(s.hovered_vertex, Some(1));
}

#[test]
fn a_click_selects_the_hovered_element() {
    let mut s = CanvasState::new();
    let reply = s.on_event(true, Some(4), true, &CanvasEvent::LeftPressed);
    assert!(reply.captured && reply.refresh);
    assert_eq!(s.held_element, Some(4));
    assert_eq!(s.interaction, Interaction::Dragging);
    let reply = s.on_event(true, Some(4), true, &CanvasEvent::LeftReleased { moved: false });
    assert!(!reply.captured);
    assert_eq!(reply.message, Some(CanvasMessage::UpdateCanvas));
    assert_eq!(s.selected_element, Some(4));
    assert_eq!(s.held_element, None);
    assert_eq!(s.interaction, Interaction::Idle);
}

#[test]
fn dragging_moves_and_records_the_held_element() {
    let mut s = CanvasState::new();
    s.on_event(true, Some(2), true, &CanvasEvent::LeftPressed);
    let reply = s.on_event(true, Some(2), true, &CanvasEvent::CursorMoved { hits: vec![] });
    assert_eq!(reply.message, Some(CanvasMessage::MoveHeld(2)));
    let reply = s.on_event(true, Some(2), true, &CanvasEvent::LeftReleased { moved: true });
    assert_eq!(reply.message, Some(CanvasMessage::PushMove(2)));
    assert_eq!(s.selected_element, Some(2));
    s.on_event(true, None, true, &CanvasEvent::LeftPressed);
    assert_eq!(s.held_element, Some(2));
    assert_eq!(s.selected_element, None);
}

#[test]
fn leaving_edit_mode_lets_go() {
    let mut s = CanvasState::new();
    s.on_event(true, Some(1), true, &CanvasEvent::LeftPressed);
    let reply = s.on_event(false, Some(1), true, &CanvasEvent::Other);
    assert_eq!(reply.message, Some(CanvasMessage::UpdateHoveredElement(None)));
    let reply = s.on_event(false, None, true, &CanvasEvent::Other);
    assert!(reply.captured && reply.refresh);
    assert_eq!(s.held_element, None);
    let reply = s.on_event(false, None, true, &CanvasEvent::Other);
    assert!(!reply.captured);
}

#[test]
fn the_selected_element_is_drawn_last() {
    let mut s = CanvasState::new();
    assert_eq!(s.draw_order(3), vec![0, 1, 2]);
    s.selected_element = Some(1);
    assert_eq!(s.draw_order(3), vec![0, 2, 1]);
    s.selected_element = None;
    s.held_element = Some(0);
    assert_eq!(s.draw_order(3), vec![1, 2, 0]);
}

#[test]
fn highlights() {
    let mut s = CanvasState::new();
    assert_eq!(s.highlight(Some(1), 1).fill, Fill::Hovered);
    assert_eq!(s.highlight(Some(1), 0).fill, Fill::Plain);
    s.held_element = Some(0);
    assert_eq!(s.highlight(Some(1), 1).fill, Fill::Plain);
    assert_eq!(s.highlight(Some(1), 0).fill, Fill::Held);
    s.held_element = None;
    s.selected_element = Some(2);
    s.hovered_face = Some(3);
    let h = s.highlight(Some(2), 2);
    assert!(h.selected_outline);
    assert_eq!(h.face, Some(FaceMark { face: 3, on_selected: true }));
    assert_eq!(s.highlight(Some(1), 1).face, Some(FaceMark { face: 3, on_selected: false }));
}
