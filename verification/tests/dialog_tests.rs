use dialog_core::{
    Button, Callback, ChildId, Dialog, DrawCmd, DummyView, EventResult, Focus, Key, SizeRequest,
    Vec2, Widget,
};

#[test]
fn builders_record_title_buttons_and_callbacks() {
    let d = Dialog::new(DummyView::new())
        .title("Hello")
        .button("Ok", Callback::Command(7))
        .dismiss_button("Cancel");
    assert_eq!(d.title, "Hello");
    assert_eq!(d.buttons.len(), 2);
    assert_eq!(d.buttons[0].view.label, "Ok");
    assert_eq!(d.buttons[0].view.callback, Callback::Command(7));
    assert_eq!(d.buttons[1].view.label, "Cancel");
    assert_eq!(d.buttons[1].view.callback, Callback::PopLayer);
    assert_eq!(d.current_focus(), Focus::Content);
}

#[test]
fn button_row_minimum_sums_widths_and_tops_heights() {
    // Each button needs its width plus one separator; the row is one
    // taller than its tallest button.
    let d = Dialog::new(DummyView::new())
        .button("abcd", Callback::Command(1))
        .button("abcdef", Callback::Command(2));
    let s = d.button_row_min_size(SizeRequest::unlimited());
    assert_eq!(s, Vec2::new(12, 2));
}

#[test]
fn minimum_size_of_two_button_dialog() {
    // Empty content, no title, buttons of width 4 and 6: row minimum
    // width (4+1)+(6+1) = 12, plus borders (2) and padding (2) = 16.
    let d = Dialog::new(DummyView::new())
        .button("abcd", Callback::Command(1))
        .button("abcdef", Callback::Command(2));
    let m = d.get_min_size(SizeRequest::unlimited());
    assert_eq!(m, Vec2::new(16, 4));
}

#[test]
fn minimum_width_fits_the_title() {
    // A 10-character title needs 10 + 6 cells even though the content
    // needs none.
    let d = Dialog::new(DummyView::new()).title("ABCDEFGHIJ");
    let m = d.get_min_size(SizeRequest::unlimited());
    assert!(m.x >= 16);
    assert_eq!(m, Vec2::new(16, 2));
}

#[test]
fn down_from_content_moves_to_leftmost_button() {
    let mut d = Dialog::new(DummyView::new()).button("Ok", Callback::PopLayer);
    let r = d.on_key_event(Key::Down);
    assert_eq!(r, EventResult::Consumed(None));
    assert_eq!(d.current_focus(), Focus::Button(0));
}

#[test]
fn down_from_content_without_buttons_bubbles_up() {
    let mut d = Dialog::new(DummyView::new());
    assert_eq!(d.on_key_event(Key::Down), EventResult::Ignored);
    assert_eq!(d.current_focus(), Focus::Content);
}

#[test]
fn left_on_only_button_is_ignored() {
    let mut d = Dialog::new(DummyView::new()).button("Ok", Callback::PopLayer);
    assert!(d.take_focus());
    assert_eq!(d.current_focus(), Focus::Button(0));
    assert_eq!(d.on_key_event(Key::Left), EventResult::Ignored);
    assert_eq!(d.current_focus(), Focus::Button(0));
}

#[test]
fn right_steps_along_the_row_and_stops_at_the_end() {
    let mut d = Dialog::new(DummyView::new())
        .button("Ok", Callback::PopLayer)
        .button("Cancel", Callback::PopLayer);
    assert!(d.take_focus());
    assert_eq!(d.current_focus(), Focus::Button(0));
    assert_eq!(d.on_key_event(Key::Right), EventResult::Consumed(None));
    assert_eq!(d.current_focus(), Focus::Button(1));
    assert_eq!(d.on_key_event(Key::Right), EventResult::Ignored);
    assert_eq!(d.current_focus(), Focus::Button(1));
    assert_eq!(d.on_key_event(Key::Left), EventResult::Consumed(None));
    assert_eq!(d.current_focus(), Focus::Button(0));
}

#[test]
fn up_returns_to_content_only_if_it_accepts_focus() {
    // An inert content refuses focus: up stays on the button.
    let mut inert = Dialog::new(DummyView::new()).button("Ok", Callback::PopLayer);
    assert!(inert.take_focus());
    assert_eq!(inert.on_key_event(Key::Up), EventResult::Ignored);
    assert_eq!(inert.current_focus(), Focus::Button(0));

    // A focusable content takes the focus back.
    let mut live = Dialog::new(Button::new("Inner", Callback::Command(1)))
        .button("Ok", Callback::PopLayer);
    assert!(live.take_focus());
    assert_eq!(live.on_key_event(Key::Up), EventResult::Consumed(None));
    assert_eq!(live.current_focus(), Focus::Content);
}

#[test]
fn other_keys_bubble_up_unchanged() {
    let mut d = Dialog::new(DummyView::new()).button("Ok", Callback::PopLayer);
    assert_eq!(d.on_key_event(Key::Other(42)), EventResult::Ignored);
    assert!(d.take_focus());
    assert_eq!(d.on_key_event(Key::Other(42)), EventResult::Ignored);
}

#[test]
fn take_focus_without_buttons_follows_the_content() {
    let mut inert = Dialog::new(DummyView::new());
    assert!(!inert.take_focus());
    assert_eq!(inert.current_focus(), Focus::Content);

    let mut live = Dialog::new(Button::new("Inner", Callback::Command(1)));
    assert!(live.take_focus());
    assert_eq!(live.current_focus(), Focus::Content);
}

#[test]
fn take_focus_prefers_buttons_over_content() {
    let mut d = Dialog::new(Button::new("Inner", Callback::Command(1)))
        .button("Ok", Callback::PopLayer);
    assert!(d.take_focus());
    assert_eq!(d.current_focus(), Focus::Button(0));
}

#[test]
fn focused_callback_follows_the_focus() {
    let mut d = Dialog::new(DummyView::new())
        .button("Ok", Callback::Command(3))
        .dismiss_button("Cancel");
    assert_eq!(d.focused_callback(), None);
    assert!(d.take_focus());
    assert_eq!(d.focused_callback(), Some(Callback::Command(3)));
    assert_eq!(d.on_key_event(Key::Right), EventResult::Consumed(None));
    assert_eq!(d.focused_callback(), Some(Callback::PopLayer));
}

#[test]
fn layout_at_minimum_gives_buttons_their_minimum() {
    let mut d = Dialog::new(DummyView::new())
        .button("abcd", Callback::Command(1))
        .button("abcdef", Callback::Command(2));
    let m = d.get_min_size(SizeRequest::unlimited());
    d.layout(m);
    assert_eq!(d.buttons[0].size, Vec2::new(4, 1));
    assert_eq!(d.buttons[1].size, Vec2::new(6, 1));
}

#[test]
fn layout_of_tiny_size_clamps_instead_of_panicking() {
    let mut d = Dialog::new(DummyView::new()).button("Ok", Callback::PopLayer);
    d.layout(Vec2::new(0, 0));
    assert_eq!(d.buttons[0].size, Vec2::new(2, 1));
}

#[test]
fn draw_places_buttons_content_and_frame() {
    let mut d = Dialog::new(DummyView::new()).button("Ok", Callback::PopLayer);
    let m = d.get_min_size(SizeRequest::unlimited());
    assert_eq!(m, Vec2::new(7, 4));
    d.layout(m);
    let cmds = d.draw(m, true);
    assert_eq!(cmds.len(), 3);
    // The button, right-aligned inside border and padding; the dialog is
    // focused but its focus lies on the content.
    assert_eq!(
        cmds[0],
        DrawCmd::Child {
            id: ChildId::Button(0),
            offset: Vec2::new(3, 2),
            size: Vec2::new(2, 1),
            focused: false,
        },
    );
    // The content in what the button row leaves of the interior.
    assert_eq!(
        cmds[1],
        DrawCmd::Child {
            id: ChildId::Content,
            offset: Vec2::new(2, 1),
            size: Vec2::new(3, 0),
            focused: true,
        },
    );
    // The border box over the whole region.
    assert_eq!(cmds[2], DrawCmd::Frame { pos: Vec2::new(0, 0), size: m });
}

#[test]
fn draw_marks_the_focused_button() {
    let mut d = Dialog::new(DummyView::new())
        .button("Ok", Callback::PopLayer)
        .button("No", Callback::PopLayer);
    assert!(d.take_focus());
    let m = d.get_min_size(SizeRequest::unlimited());
    d.layout(m);
    let cmds = d.draw(m, true);
    // Buttons are drawn right to left: index 1 first, then index 0.
    match &cmds[0] {
        DrawCmd::Child { id, focused, .. } => {
            assert_eq!(*id, ChildId::Button(1));
            assert!(!focused);
        },
        other => panic!("expected a child command, got {:?}", other),
    }
    match &cmds[1] {
        DrawCmd::Child { id, focused, .. } => {
            assert_eq!(*id, ChildId::Button(0));
            assert!(focused);
        },
        other => panic!("expected a child command, got {:?}", other),
    }
}

#[test]
fn draw_centers_the_title_between_junctions() {
    let d = Dialog::new(DummyView::new()).title("Hi");
    let m = d.get_min_size(SizeRequest::unlimited());
    assert_eq!(m, Vec2::new(8, 2));
    let cmds = d.draw(m, false);
    assert_eq!(cmds.len(), 5);
    assert_eq!(
        cmds[2],
        DrawCmd::Text { pos: Vec2::new(1, 0), text: String::from("\u{2524} "), emphasized: false },
    );
    assert_eq!(
        cmds[3],
        DrawCmd::Text { pos: Vec2::new(5, 0), text: String::from(" \u{251c}"), emphasized: false },
    );
    assert_eq!(
        cmds[4],
        DrawCmd::Text { pos: Vec2::new(3, 0), text: String::from("Hi"), emphasized: true },
    );
}

#[test]
fn empty_title_draws_no_title_commands() {
    let d = Dialog::new(DummyView::new()).title("");
    let m = d.get_min_size(SizeRequest::unlimited());
    let cmds = d.draw(m, false);
    assert_eq!(cmds.len(), 2);
    assert!(matches!(cmds[0], DrawCmd::Child { id: ChildId::Content, .. }));
    assert!(matches!(cmds[1], DrawCmd::Frame { .. }));
}

#[test]
fn draw_of_tiny_size_clamps_offsets_at_zero() {
    let mut d = Dialog::new(DummyView::new()).button("Ok", Callback::PopLayer);
    d.layout(Vec2::new(0, 0));
    let cmds = d.draw(Vec2::new(0, 0), false);
    assert_eq!(
        cmds[0],
        DrawCmd::Child {
            id: ChildId::Button(0),
            offset: Vec2::new(0, 0),
            size: Vec2::new(2, 1),
            focused: false,
        },
    );
}
