use input_overlay::input::Key;
use input_overlay::layout::key_positions;
use input_overlay::plan::{draw_keys, draw_mouse, DrawOp, Paint, Rgba, Shape};

fn outline(index: usize) -> DrawOp {
    DrawOp::Stroke(Shape::Key(key_positions()[index]), Paint::White)
}

fn highlight(index: usize) -> DrawOp {
    DrawOp::Fill(Shape::Key(key_positions()[index]), Paint::Blink)
}

#[test]
fn paints_have_their_components() {
    assert_eq!(Paint::Transparent.rgba(), Rgba { r: 0x00, g: 0x00, b: 0x00, a: 0x00 });
    assert_eq!(Paint::White.rgba(), Rgba { r: 0xFF, g: 0xFF, b: 0xFF, a: 0xFF });
    assert_eq!(Paint::Blink.rgba(), Rgba { r: 0xFF, g: 0x7B, b: 0x81, a: 0xFF });
}

#[test]
fn idle_keyboard_is_cleared_and_outlined() {
    let ops = draw_keys(&Vec::new());
    assert_eq!(
        ops,
        vec![
            DrawOp::Clear(Paint::Transparent),
            outline(0),
            outline(1),
            outline(2),
            outline(3),
            outline(4),
            outline(5),
            outline(6),
            outline(7),
        ]
    );
}

#[test]
fn held_key_is_filled_under_its_outline() {
    let ops = draw_keys(&vec![Key::KeyA]);
    assert_eq!(
        ops,
        vec![
            DrawOp::Clear(Paint::Transparent),
            outline(0),
            outline(1),
            outline(2),
            highlight(3),
            outline(3),
            outline(4),
            outline(5),
            outline(6),
            outline(7),
        ]
    );
}

#[test]
fn several_held_keys_are_filled_in_layout_order() {
    let ops = draw_keys(&vec![Key::Space, Key::KeyW, Key::ShiftLeft]);
    assert_eq!(
        ops,
        vec![
            DrawOp::Clear(Paint::Transparent),
            highlight(0),
            outline(0),
            outline(1),
            highlight(2),
            outline(2),
            outline(3),
            outline(4),
            outline(5),
            outline(6),
            highlight(7),
            outline(7),
        ]
    );
}

#[test]
fn all_displayed_keys_held_gives_seventeen_operations() {
    let held: Vec<Key> = key_positions().iter().map(|region| region.key).collect();
    let ops = draw_keys(&held);
    assert_eq!(ops.len(), 17);
    assert_eq!(ops[0], DrawOp::Clear(Paint::Transparent));
    for index in 0..8 {
        assert_eq!(ops[1 + 2 * index], highlight(index));
        assert_eq!(ops[2 + 2 * index], outline(index));
    }
}

#[test]
fn keyboard_plan_does_not_depend_on_press_order() {
    let one = draw_keys(&vec![Key::KeyW, Key::KeyD, Key::ControlLeft]);
    let other = draw_keys(&vec![Key::ControlLeft, Key::KeyW, Key::KeyD]);
    assert_eq!(one, other);
}

#[test]
fn undisplayed_keys_do_not_show() {
    let idle = draw_keys(&Vec::new());
    assert_eq!(draw_keys(&vec![Key::KeyQ, Key::ShiftRight, Key::Unknown(3)]), idle);
    assert_eq!(draw_keys(&vec![Key::KeyR, Key::KeyQ]), draw_keys(&vec![Key::KeyR]));
}

#[test]
fn idle_mouse_is_outlined() {
    assert_eq!(
        draw_mouse(&[false, false]),
        vec![
            DrawOp::Stroke(Shape::MouseOutline, Paint::White),
            DrawOp::Stroke(Shape::LeftButton, Paint::White),
            DrawOp::Stroke(Shape::RightButton, Paint::White),
        ]
    );
}

#[test]
fn held_left_button_is_filled() {
    assert_eq!(
        draw_mouse(&[true, false]),
        vec![
            DrawOp::Stroke(Shape::MouseOutline, Paint::White),
            DrawOp::Fill(Shape::LeftButton, Paint::Blink),
            DrawOp::Stroke(Shape::LeftButton, Paint::White),
            DrawOp::Stroke(Shape::RightButton, Paint::White),
        ]
    );
}

#[test]
fn held_right_button_is_filled() {
    assert_eq!(
        draw_mouse(&[false, true]),
        vec![
            DrawOp::Stroke(Shape::MouseOutline, Paint::White),
            DrawOp::Fill(Shape::RightButton, Paint::Blink),
            DrawOp::Stroke(Shape::LeftButton, Paint::White),
            DrawOp::Stroke(Shape::RightButton, Paint::White),
        ]
    );
}

#[test]
fn both_buttons_held_are_filled_before_either_outline() {
    assert_eq!(
        draw_mouse(&[true, true]),
        vec![
            DrawOp::Stroke(Shape::MouseOutline, Paint::White),
            DrawOp::Fill(Shape::LeftButton, Paint::Blink),
            DrawOp::Fill(Shape::RightButton, Paint::Blink),
            DrawOp::Stroke(Shape::LeftButton, Paint::White),
            DrawOp::Stroke(Shape::RightButton, Paint::White),
        ]
    );
}
