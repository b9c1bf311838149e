//! What to draw for a given state, and in which order.
//!
//! A frame is described as a list of drawing operations on named shapes. The
//! list is all the renderer needs: it clears, fills and strokes as told and
//! decides nothing itself.
use vstd::prelude::*;
use crate::input::Key;
use crate::layout::{key_layout, key_positions, KeyRegion};

verus! {

/// A colour with premultiplied alpha.
#[derive(Clone, Copy, Debug, PartialEq, Eq, Structural)]
pub struct Rgba {
    pub r: u8,
    pub g: u8,
    pub b: u8,
    pub a: u8,
}

/// The colours the widget paints with.
#[derive(Clone, Copy, Debug, PartialEq, Eq, Structural)]
pub enum Paint {
    /// Nothing: what an empty canvas holds.
    Transparent,
    /// The colour of every outline.
    White,
    /// The colour a shape lights up in while its key or button is held.
    Blink,
}

impl Paint {
    /// The colour's components; `Blink` is #FF7B81.
    pub open spec fn components(self) -> Rgba {
        match self {
            Paint::Transparent => Rgba { r: 0x00, g: 0x00, b: 0x00, a: 0x00 },
            Paint::White => Rgba { r: 0xFF, g: 0xFF, b: 0xFF, a: 0xFF },
            Paint::Blink => Rgba { r: 0xFF, g: 0x7B, b: 0x81, a: 0xFF },
        }
    }

    /// The colour's components, for the renderer.
    pub fn rgba(self) -> (color: Rgba)
        ensures
            color == self.components(),
    {
        match self {
            Paint::Transparent => Rgba { r: 0x00, g: 0x00, b: 0x00, a: 0x00 },
            Paint::White => Rgba { r: 0xFF, g: 0xFF, b: 0xFF, a: 0xFF },
            Paint::Blink => Rgba { r: 0xFF, g: 0x7B, b: 0x81, a: 0xFF },
        }
    }
}

/// One of the fixed shapes of the widget.
#[derive(Clone, Copy, Debug, PartialEq, Eq, Structural)]
pub enum Shape {
    /// The slanted key cap that fills the given region of the grid.
    Key(KeyRegion),
    /// The body of the mouse.
    MouseOutline,
    LeftButton,
    RightButton,
}

/// One step of drawing a frame.
#[derive(Clone, Copy, Debug, PartialEq, Eq, Structural)]
pub enum DrawOp {
    /// Set every pixel of the canvas to the colour.
    Clear(Paint),
    /// Paint the inside of the shape.
    Fill(Shape, Paint),
    /// Paint the outline of the shape.
    Stroke(Shape, Paint),
}

/// The operations for one key cap: its highlight if the key is held, then its
/// outline on top.
pub open spec fn key_cap_ops(keys: Seq<Key>, region: KeyRegion) -> Seq<DrawOp> {
    if keys.contains(region.key) {
        seq![DrawOp::Fill(Shape::Key(region), Paint::Blink), DrawOp::Stroke(Shape::Key(region), Paint::White)]
    } else {
        seq![DrawOp::Stroke(Shape::Key(region), Paint::White)]
    }
}

/// The operations for the first `n` key caps of the layout, in layout order.
pub open spec fn key_caps_ops(keys: Seq<Key>, n: nat) -> Seq<DrawOp>
    decreases n,
{
    if n == 0 {
        Seq::empty()
    } else {
        key_caps_ops(keys, (n - 1) as nat) + key_cap_ops(keys, key_layout()[n - 1])
    }
}

/// The keyboard part of a frame: a cleared canvas, then every key cap of the
/// layout.
pub open spec fn keys_ops(keys: Seq<Key>) -> Seq<DrawOp> {
    seq![DrawOp::Clear(Paint::Transparent)] + key_caps_ops(keys, key_layout().len())
}

/// The mouse part of a frame: the body, the highlight of each held button,
/// then both button outlines on top.
pub open spec fn mouse_ops(left: bool, right: bool) -> Seq<DrawOp> {
    seq![DrawOp::Stroke(Shape::MouseOutline, Paint::White)]
        + (if left { seq![DrawOp::Fill(Shape::LeftButton, Paint::Blink)] } else { Seq::empty() })
        + (if right { seq![DrawOp::Fill(Shape::RightButton, Paint::Blink)] } else { Seq::empty() })
        + seq![
            DrawOp::Stroke(Shape::LeftButton, Paint::White),
            DrawOp::Stroke(Shape::RightButton, Paint::White),
        ]
}

/// Plans the keyboard part of a frame for the held `keys`. The plan starts
/// from a transparent canvas, so nothing of an earlier frame shows through.
pub fn draw_keys(keys: &Vec<Key>) -> (ops: Vec<DrawOp>)
    ensures
        ops@ == keys_ops(keys@),
{
    let table = key_positions();
    let mut ops: Vec<DrawOp> = Vec::new();
    ops.push(DrawOp::Clear(Paint::Transparent));
    let mut i: usize = 0;
    while i < table.len()
        invariant
            i <= table@.len(),
            table@ == key_layout(),
            ops@ == seq![DrawOp::Clear(Paint::Transparent)] + key_caps_ops(keys@, i as nat),
        decreases table@.len() - i,
    {
        let region = table[i];
        if region.key.is_in(keys) {
            ops.push(DrawOp::Fill(Shape::Key(region), Paint::Blink));
        }
        ops.push(DrawOp::Stroke(Shape::Key(region), Paint::White));
        i += 1;
    }
    ops
}

/// Plans the mouse part of a frame; `mouse_buttons` tells whether the left
/// and the right button are held. It draws over what is on the canvas.
pub fn draw_mouse(mouse_buttons: &[bool; 2]) -> (ops: Vec<DrawOp>)
    ensures
        ops@ == mouse_ops(mouse_buttons[0], mouse_buttons[1]),
{
    let mut ops: Vec<DrawOp> = Vec::new();
    ops.push(DrawOp::Stroke(Shape::MouseOutline, Paint::White));
    if mouse_buttons[0] {
        ops.push(DrawOp::Fill(Shape::LeftButton, Paint::Blink));
    }
    if mouse_buttons[1] {
        ops.push(DrawOp::Fill(Shape::RightButton, Paint::Blink));
    }
    ops.push(DrawOp::Stroke(Shape::LeftButton, Paint::White));
    ops.push(DrawOp::Stroke(Shape::RightButton, Paint::White));
    ops
}

/// The keyboard part of a frame depends only on which keys are held, not on
/// the order in which they went down.
pub proof fn lemma_keys_ops_depend_on_held_set(first: Seq<Key>, second: Seq<Key>)
    requires
        first.to_set() == second.to_set(),
    ensures
        keys_ops(first) == keys_ops(second),
{
    lemma_key_caps_ops_depend_on_held_set(first, second, key_layout().len());
}

/// The same for the first `n` key caps.
proof fn lemma_key_caps_ops_depend_on_held_set(first: Seq<Key>, second: Seq<Key>, n: nat)
    requires
        first.to_set() == second.to_set(),
    ensures
        key_caps_ops(first, n) == key_caps_ops(second, n),
    decreases n,
{
    if n > 0 {
        lemma_key_caps_ops_depend_on_held_set(first, second, (n - 1) as nat);
        let key = key_layout()[n - 1].key;
        assert(first.contains(key) == first.to_set().contains(key));
        assert(second.contains(key) == second.to_set().contains(key));
    }
}

/// A key that the layout does not display leaves the keyboard part of a frame
/// as it is, whether it is held or not.
pub proof fn lemma_keys_ops_ignore_undisplayed_key(keys: Seq<Key>, key: Key)
    requires
        forall|i: int| 0 <= i < key_layout().len() ==> key_layout()[i].key != key,
    ensures
        keys_ops(keys.push(key)) == keys_ops(keys),
{
    lemma_key_caps_ops_ignore_undisplayed_key(keys, key, key_layout().len());
}

/// The same for the first `n` key caps.
proof fn lemma_key_caps_ops_ignore_undisplayed_key(keys: Seq<Key>, key: Key, n: nat)
    requires
        n <= key_layout().len(),
        forall|i: int| 0 <= i < key_layout().len() ==> key_layout()[i].key != key,
    ensures
        key_caps_ops(keys.push(key), n) == key_caps_ops(keys, n),
    decreases n,
{
    if n > 0 {
        lemma_key_caps_ops_ignore_undisplayed_key(keys, key, (n - 1) as nat);
        let shown = key_layout()[n - 1].key;
        if keys.contains(shown) {
            let at = choose|at: int| 0 <= at < keys.len() && keys[at] == shown;
            assert(keys.push(key)[at] == shown);
        }
    }
}

} // verus!
