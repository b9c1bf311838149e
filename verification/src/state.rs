//! Which keys and buttons are held down.
//!
//! The state is folded from the events of the input hook, one at a time. Keys
//! are kept in the order in which they went down, each at most once. Of the
//! mouse only the left and the right button are tracked.
use vstd::prelude::*;
use crate::input::{Button, InputEvent, Key};

verus! {

/// The test that a held key passes when `key` is released: being another key.
pub open spec fn other_than(key: Key) -> spec_fn(Key) -> bool {
    |held: Key| held != key
}

/// What is held down, as a mathematical value.
pub struct Pressed {
    /// The held keys, oldest press first.
    pub keys: Seq<Key>,
    /// Whether the left mouse button is held.
    pub left: bool,
    /// Whether the right mouse button is held.
    pub right: bool,
}

impl Pressed {
    /// Nothing is held.
    pub open spec fn none() -> Pressed {
        Pressed { keys: Seq::empty(), left: false, right: false }
    }

    /// The keys after `key` went down: it joins the end unless it is already
    /// held, as happens when the platform repeats a press.
    pub open spec fn keys_after_press(self, key: Key) -> Seq<Key> {
        if self.keys.contains(key) {
            self.keys
        } else {
            self.keys.push(key)
        }
    }

    /// The keys after `key` went up: every other key stays, in order.
    pub open spec fn keys_after_release(self, key: Key) -> Seq<Key> {
        self.keys.filter(other_than(key))
    }

    /// What is held after `event`. Events about the pointer, the wheel or any
    /// other button change nothing.
    pub open spec fn after(self, event: InputEvent) -> Pressed {
        match event {
            InputEvent::ButtonPress(Button::Left) => Pressed { left: true, ..self },
            InputEvent::ButtonPress(Button::Right) => Pressed { right: true, ..self },
            InputEvent::ButtonRelease(Button::Left) => Pressed { left: false, ..self },
            InputEvent::ButtonRelease(Button::Right) => Pressed { right: false, ..self },
            InputEvent::KeyPress(key) => Pressed { keys: self.keys_after_press(key), ..self },
            InputEvent::KeyRelease(key) => Pressed { keys: self.keys_after_release(key), ..self },
            _ => self,
        }
    }
}

/// The keys and mouse buttons that are held down right now.
pub struct InputState {
    keys: Vec<Key>,
    buttons: [bool; 2],
}

impl View for InputState {
    type V = Pressed;

    closed spec fn view(&self) -> Pressed {
        Pressed { keys: self.keys@, left: self.buttons[0], right: self.buttons[1] }
    }
}

impl InputState {
    /// No key is listed twice.
    pub open spec fn wf(&self) -> bool {
        self@.keys.no_duplicates()
    }

    /// The state before any event: nothing is held.
    pub fn new() -> (state: InputState)
        ensures
            state.wf(),
            state@ == Pressed::none(),
    {
        InputState { keys: Vec::with_capacity(50), buttons: [false, false] }
    }

    /// Takes one event into the state.
    pub fn apply(&mut self, event: InputEvent)
        requires
            old(self).wf(),
        ensures
            final(self).wf(),
            final(self)@ == old(self)@.after(event),
    {
        proof {
            lemma_after_keeps_keys_distinct(self@, event);
        }
        match event {
            InputEvent::ButtonPress(Button::Left) => {
                self.buttons[0] = true;
            },
            InputEvent::ButtonPress(Button::Right) => {
                self.buttons[1] = true;
            },
            InputEvent::ButtonRelease(Button::Left) => {
                self.buttons[0] = false;
            },
            InputEvent::ButtonRelease(Button::Right) => {
                self.buttons[1] = false;
            },
            InputEvent::KeyPress(key) => {
                if !key.is_in(&self.keys) {
                    self.keys.push(key);
                }
            },
            InputEvent::KeyRelease(key) => {
                self.keys = without(&self.keys, key);
            },
            _ => {},
        }
    }

    /// The held keys, oldest press first.
    pub fn keys(&self) -> (keys: &Vec<Key>)
        ensures
            keys@ == self@.keys,
    {
        &self.keys
    }

    /// Whether the left and the right mouse button are held, in that order.
    pub fn buttons(&self) -> (buttons: &[bool; 2])
        ensures
            buttons[0] == self@.left,
            buttons[1] == self@.right,
    {
        &self.buttons
    }
}

/// The keys of `keys` other than `key`, in order.
fn without(keys: &Vec<Key>, key: Key) -> (rest: Vec<Key>)
    ensures
        rest@ == keys@.filter(other_than(key)),
{
    let mut rest: Vec<Key> = Vec::new();
    let mut i: usize = 0;
    proof {
        lemma_filter_empty(other_than(key));
        assert(keys@.take(0) =~= Seq::<Key>::empty());
    }
    while i < keys.len()
        invariant
            i <= keys.len(),
            rest@ == keys@.take(i as int).filter(other_than(key)),
        decreases keys.len() - i,
    {
        proof {
            assert(keys@.take(i + 1) =~= keys@.take(i as int).push(keys@[i as int]));
            lemma_filter_push(keys@.take(i as int), keys@[i as int], other_than(key));
        }
        if keys[i] != key {
            rest.push(keys[i]);
        }
        i += 1;
    }
    assert(keys@.take(keys.len() as int) =~= keys@);
    rest
}

/// Filtering nothing leaves nothing.
proof fn lemma_filter_empty(keep: spec_fn(Key) -> bool)
    ensures
        Seq::<Key>::empty().filter(keep) == Seq::<Key>::empty(),
{
    reveal(Seq::filter);
}

/// Filtering goes through a sequence from the front: the last element is
/// dealt with after all the others.
proof fn lemma_filter_push(keys: Seq<Key>, last: Key, keep: spec_fn(Key) -> bool)
    ensures
        keys.push(last).filter(keep) == if keep(last) {
            keys.filter(keep).push(last)
        } else {
            keys.filter(keep)
        },
{
    reveal(Seq::filter);
    assert(keys.push(last).drop_last() =~= keys);
}

/// A filter that every element passes changes nothing.
proof fn lemma_filter_keeps_all(keys: Seq<Key>, keep: spec_fn(Key) -> bool)
    requires
        forall|i: int| 0 <= i < keys.len() ==> keep(keys[i]),
    ensures
        keys.filter(keep) == keys,
    decreases keys.len(),
{
    if keys.len() > 0 {
        lemma_filter_keeps_all(keys.drop_last(), keep);
        lemma_filter_push(keys.drop_last(), keys.last(), keep);
        assert(keys.drop_last().push(keys.last()) =~= keys);
    } else {
        lemma_filter_empty(keep);
        assert(keys =~= Seq::<Key>::empty());
    }
}

/// Filtering a sequence without repetitions leaves one without repetitions.
proof fn lemma_filter_keeps_distinct(keys: Seq<Key>, keep: spec_fn(Key) -> bool)
    requires
        keys.no_duplicates(),
    ensures
        keys.filter(keep).no_duplicates(),
    decreases keys.len(),
{
    if keys.len() > 0 {
        let front = keys.drop_last();
        lemma_filter_keeps_distinct(front, keep);
        lemma_filter_push(front, keys.last(), keep);
        assert(front.push(keys.last()) =~= keys);
        if front.filter(keep).contains(keys.last()) {
            front.lemma_filter_contains_rev(keep, keys.last());
            let at = choose|at: int| 0 <= at < front.len() && front[at] == keys.last();
            assert(keys[at] == keys[keys.len() - 1]);
        }
    } else {
        lemma_filter_empty(keep);
        assert(keys =~= Seq::<Key>::empty());
    }
}

/// An event never makes a key appear twice among the held keys.
pub proof fn lemma_after_keeps_keys_distinct(held: Pressed, event: InputEvent)
    requires
        held.keys.no_duplicates(),
    ensures
        held.after(event).keys.no_duplicates(),
{
    if let InputEvent::KeyRelease(key) = event {
        lemma_filter_keeps_distinct(held.keys, other_than(key));
    }
}

/// Seen as a set, the held keys gain exactly the pressed key and lose exactly
/// the released one.
pub proof fn lemma_keys_change_as_a_set(held: Pressed, key: Key)
    ensures
        held.after(InputEvent::KeyPress(key)).keys.to_set() == held.keys.to_set().insert(key),
        held.after(InputEvent::KeyRelease(key)).keys.to_set() == held.keys.to_set().remove(key),
{
    broadcast use vstd::seq_lib::group_filter_ensures;

    let pressed = held.after(InputEvent::KeyPress(key)).keys;
    let released = held.after(InputEvent::KeyRelease(key)).keys;
    assert forall|k: Key| released.contains(k) <==> held.keys.contains(k) && k != key by {
        if released.contains(k) {
            held.keys.lemma_filter_contains_rev(other_than(key), k);
            let at = choose|at: int| 0 <= at < released.len() && released[at] == k;
            assert(other_than(key)(released[at]));
        }
        if held.keys.contains(k) && k != key {
            let at = choose|at: int| 0 <= at < held.keys.len() && held.keys[at] == k;
            assert(other_than(key)(held.keys[at]));
            assert(released.contains(held.keys[at]));
        }
    }
    assert(released.to_set() =~= held.keys.to_set().remove(key));
    assert forall|k: Key| pressed.contains(k) <==> held.keys.contains(k) || k == key by {
        if !held.keys.contains(key) {
            assert(pressed[pressed.len() - 1] == key);
            if held.keys.contains(k) {
                let at = choose|at: int| 0 <= at < held.keys.len() && held.keys[at] == k;
                assert(pressed[at] == k);
            }
        }
    }
    assert(pressed.to_set() =~= held.keys.to_set().insert(key));
}

/// A key that goes down and up again leaves the state as it was, provided
/// the key was not held before.
pub proof fn lemma_press_then_release(held: Pressed, key: Key)
    requires
        !held.keys.contains(key),
    ensures
        held.after(InputEvent::KeyPress(key)).after(InputEvent::KeyRelease(key)) == held,
{
    lemma_filter_push(held.keys, key, other_than(key));
    lemma_filter_keeps_all(held.keys, other_than(key));
}

/// Repeating a press or a release changes nothing more.
pub proof fn lemma_repeated_event_is_idle(held: Pressed, event: InputEvent)
    requires
        event.is_press_or_release(),
    ensures
        held.after(event).after(event) == held.after(event),
{
    broadcast use vstd::seq_lib::group_filter_ensures;

    match event {
        InputEvent::KeyPress(key) => {
            if !held.keys.contains(key) {
                assert(held.keys.push(key)[held.keys.len() as int] == key);
            }
        },
        InputEvent::KeyRelease(key) => {
            lemma_filter_keeps_all(held.keys.filter(other_than(key)), other_than(key));
        },
        _ => {},
    }
}

/// The events that the listener drops would not have changed the state.
pub proof fn lemma_dropped_event_is_idle(held: Pressed, event: InputEvent)
    requires
        !event.is_press_or_release(),
    ensures
        held.after(event) == held,
{
}

} // verus!
