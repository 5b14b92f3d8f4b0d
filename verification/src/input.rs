//! Input tracking: the set of modifier keys that are held down and the last
//! known pointer position, updated event by event.

use vstd::prelude::*;
use crate::geometry::PointerPosition;

verus! {

/// One of the four modifier keys the engine tracks.
#[derive(Clone, Copy, Debug, PartialEq, Eq, Structural)]
pub enum Modifier {
    Shift,
    Control,
    Alt,
    Meta,
}

impl Modifier {
    /// The bit that stands for this modifier in a `Modifiers` set.
    pub open spec fn mask(self) -> u8 {
        match self {
            Modifier::Shift => 1u8,
            Modifier::Control => 2u8,
            Modifier::Alt => 4u8,
            Modifier::Meta => 8u8,
        }
    }

    pub fn bit(&self) -> (bit: u8)
        ensures
            bit == self.mask(),
    {
        match self {
            Modifier::Shift => 1u8,
            Modifier::Control => 2u8,
            Modifier::Alt => 4u8,
            Modifier::Meta => 8u8,
        }
    }
}

/// The masks of two modifiers overlap exactly when the modifiers are equal.
proof fn lemma_masks_disjoint(a: Modifier, b: Modifier)
    ensures
        a.mask() != 0,
        a.mask() < 16,
        (a.mask() & b.mask() != 0) == (a == b),
{
    assert(1u8 & 1u8 != 0 && 2u8 & 2u8 != 0 && 4u8 & 4u8 != 0 && 8u8 & 8u8 != 0) by (bit_vector);
    assert(1u8 & 2u8 == 0 && 1u8 & 4u8 == 0 && 1u8 & 8u8 == 0 && 2u8 & 4u8 == 0 && 2u8 & 8u8 == 0
        && 4u8 & 8u8 == 0) by (bit_vector);
    assert(2u8 & 1u8 == 0 && 4u8 & 1u8 == 0 && 8u8 & 1u8 == 0 && 4u8 & 2u8 == 0 && 8u8 & 2u8 == 0
        && 8u8 & 4u8 == 0) by (bit_vector);
}

/// Setting the bits of `a` adds to the bits seen through `b` what `a` and `b` share.
proof fn lemma_set_bits(bits: u8, a: u8, b: u8)
    by (bit_vector)
    ensures
        ((bits | a) & b != 0) == ((bits & b != 0) || (a & b != 0)),
{
}

/// Clearing the bits of `a` leaves what is seen through a disjoint `b`, and
/// nothing through `a` itself.
proof fn lemma_clear_bits(bits: u8, a: u8, b: u8)
    by (bit_vector)
    ensures
        a & b == 0 ==> (bits & !a) & b == bits & b,
        (bits & !a) & a == 0,
{
}

/// Setting or clearing bits below 16 in a set below 16 leaves it below 16.
proof fn lemma_bits_stay_known(bits: u8, a: u8)
    by (bit_vector)
    requires
        bits < 16,
        a < 16,
    ensures
        (bits | a) < 16,
        (bits & !a) < 16,
{
}

/// A set with no bit in common with any mask below 16 is zero.
proof fn lemma_no_bits(bits: u8)
    by (bit_vector)
    requires
        bits < 16,
        bits & 1 == 0,
        bits & 2 == 0,
        bits & 4 == 0,
        bits & 8 == 0,
    ensures
        bits == 0,
{
}

/// The set of modifier keys that are held down, one bit for each.
#[derive(Clone, Copy, Debug, PartialEq, Eq)]
pub struct Modifiers {
    bits: u8,
}

impl View for Modifiers {
    type V = Set<Modifier>;

    closed spec fn view(&self) -> Set<Modifier> {
        Set::new(|m: Modifier| self.bits & m.mask() != 0)
    }
}

impl Modifiers {
    #[verifier::type_invariant]
    spec fn only_known_bits(self) -> bool {
        self.bits < 16
    }

    /// No modifier is held.
    pub fn empty() -> (none: Self)
        ensures
            none@ == Set::<Modifier>::empty(),
    {
        let none = Modifiers { bits: 0 };
        proof {
            assert forall|m: Modifier| !none@.contains(m) by {
                let mask = m.mask();
                assert(0u8 & mask == 0) by (bit_vector);
            }
            assert(none@ =~= Set::<Modifier>::empty());
        }
        none
    }

    /// Whether `modifier` is held.
    pub fn contains(&self, modifier: Modifier) -> (held: bool)
        ensures
            held == self@.contains(modifier),
    {
        self.bits & modifier.bit() != 0
    }

    /// Records that `modifier` went down.
    pub fn insert(&mut self, modifier: Modifier)
        ensures
            final(self)@ == old(self)@.insert(modifier),
    {
        proof {
            use_type_invariant(&*self);
            lemma_masks_disjoint(modifier, modifier);
            lemma_bits_stay_known(self.bits, modifier.mask());
        }
        let bits = self.bits | modifier.bit();
        self.bits = bits;
        proof {
            assert forall|m: Modifier| self@.contains(m) == old(self)@.insert(modifier).contains(
                m,
            ) by {
                lemma_masks_disjoint(modifier, m);
                lemma_set_bits(old(self).bits, modifier.mask(), m.mask());
            }
            assert(self@ =~= old(self)@.insert(modifier));
        }
    }

    /// Records that `modifier` went up.
    pub fn remove(&mut self, modifier: Modifier)
        ensures
            final(self)@ == old(self)@.remove(modifier),
    {
        proof {
            use_type_invariant(&*self);
            lemma_masks_disjoint(modifier, modifier);
            lemma_bits_stay_known(self.bits, modifier.mask());
        }
        let bits = self.bits & !modifier.bit();
        self.bits = bits;
        proof {
            assert forall|m: Modifier| self@.contains(m) == old(self)@.remove(modifier).contains(
                m,
            ) by {
                lemma_masks_disjoint(modifier, m);
                lemma_clear_bits(old(self).bits, modifier.mask(), m.mask());
            }
            assert(self@ =~= old(self)@.remove(modifier));
        }
    }

    /// The set that holds exactly the modifiers whose flag is given as `true`.
    pub fn from_flags(shift: bool, control: bool, alt: bool, meta: bool) -> (held: Self)
        ensures
            held@.contains(Modifier::Shift) == shift,
            held@.contains(Modifier::Control) == control,
            held@.contains(Modifier::Alt) == alt,
            held@.contains(Modifier::Meta) == meta,
    {
        let mut held = Modifiers::empty();
        if shift {
            held.insert(Modifier::Shift);
        }
        if control {
            held.insert(Modifier::Control);
        }
        if alt {
            held.insert(Modifier::Alt);
        }
        if meta {
            held.insert(Modifier::Meta);
        }
        held
    }

    /// Whether no modifier is held.
    pub fn is_empty(&self) -> (none: bool)
        ensures
            none == (self@ == Set::<Modifier>::empty()),
    {
        proof {
            use_type_invariant(self);
            if self.bits == 0 {
                assert forall|m: Modifier| !self@.contains(m) by {
                    let mask = m.mask();
                    assert(0u8 & mask == 0) by (bit_vector);
                }
                assert(self@ =~= Set::<Modifier>::empty());
            } else if self@ == Set::<Modifier>::empty() {
                assert(!self@.contains(Modifier::Shift));
                assert(!self@.contains(Modifier::Control));
                assert(!self@.contains(Modifier::Alt));
                assert(!self@.contains(Modifier::Meta));
                lemma_no_bits(self.bits);
            }
        }
        self.bits == 0
    }
}

/// Whether a key went down or came up.
#[derive(Clone, Copy, Debug, PartialEq, Eq, Structural)]
pub enum KeyState {
    Pressed,
    Released,
}

/// A physical key, as far as the engine tells keys apart: the two keys of
/// each modifier, and every other key.
#[derive(Clone, Copy, Debug, PartialEq, Eq, Structural)]
pub enum Key {
    ShiftLeft,
    ShiftRight,
    ControlLeft,
    ControlRight,
    AltLeft,
    AltRight,
    MetaLeft,
    MetaRight,
    Other,
}

impl Key {
    /// The modifier this key stands for, if it is a modifier key.
    pub open spec fn modifier_of(self) -> Option<Modifier> {
        match self {
            Key::ShiftLeft | Key::ShiftRight => Some(Modifier::Shift),
            Key::ControlLeft | Key::ControlRight => Some(Modifier::Control),
            Key::AltLeft | Key::AltRight => Some(Modifier::Alt),
            Key::MetaLeft | Key::MetaRight => Some(Modifier::Meta),
            Key::Other => None,
        }
    }

    pub fn modifier(&self) -> (modifier: Option<Modifier>)
        ensures
            modifier == self.modifier_of(),
    {
        match self {
            Key::ShiftLeft | Key::ShiftRight => Some(Modifier::Shift),
            Key::ControlLeft | Key::ControlRight => Some(Modifier::Control),
            Key::AltLeft | Key::AltRight => Some(Modifier::Alt),
            Key::MetaLeft | Key::MetaRight => Some(Modifier::Meta),
            Key::Other => None,
        }
    }
}

/// A raw platform event that bears on the input state.
#[derive(Clone, Copy, Debug, PartialEq, Eq)]
pub enum InputEvent {
    /// The pointer moved to a position, in physical pixels.
    PointerMoved(PointerPosition),
    /// A finger touched or moved at a position, in physical pixels.
    Touch(PointerPosition),
    /// A key went down or came up.
    Key { key: Key, state: KeyState },
    /// The platform reported the whole set of held modifiers anew.
    ModifiersChanged(Modifiers),
}

/// What the UI update step is told about the pointer. The position is the
/// physical one that was reported; scaling to logical units happens where
/// this value is consumed.
#[derive(Clone, Copy, Debug, PartialEq, Eq, Structural)]
pub enum Cursor {
    Available(PointerPosition),
    Unavailable,
}

/// The mathematical content of an `InputState`.
pub ghost struct InputView {
    pub pointer: Option<PointerPosition>,
    pub modifiers: Set<Modifier>,
}

impl InputView {
    /// The state of a window that has just been created.
    pub open spec fn initial() -> InputView {
        InputView { pointer: None, modifiers: Set::empty() }
    }

    /// The state after one event. Pointer and touch events replace the
    /// position whatever it was; a key event changes the modifier set only
    /// for a modifier key; a modifier report replaces the set.
    pub open spec fn after(self, event: InputEvent) -> InputView {
        match event {
            InputEvent::PointerMoved(position) => InputView { pointer: Some(position), ..self },
            InputEvent::Touch(position) => InputView { pointer: Some(position), ..self },
            InputEvent::Key { key, state } => match key.modifier_of() {
                Some(modifier) => match state {
                    KeyState::Pressed => InputView {
                        modifiers: self.modifiers.insert(modifier),
                        ..self
                    },
                    KeyState::Released => InputView {
                        modifiers: self.modifiers.remove(modifier),
                        ..self
                    },
                },
                None => self,
            },
            InputEvent::ModifiersChanged(held) => InputView { modifiers: held@, ..self },
        }
    }

    /// What the update step is told about the pointer in this state.
    pub open spec fn cursor(self) -> Cursor {
        match self.pointer {
            Some(position) => Cursor::Available(position),
            None => Cursor::Unavailable,
        }
    }
}

/// The last known pointer position, absent until a pointer or touch event
/// arrives, and the modifier keys that are held down.
#[derive(Clone, Copy, Debug, PartialEq, Eq)]
pub struct InputState {
    pointer: Option<PointerPosition>,
    modifiers: Modifiers,
}

impl View for InputState {
    type V = InputView;

    closed spec fn view(&self) -> InputView {
        InputView { pointer: self.pointer, modifiers: self.modifiers@ }
    }
}

impl InputState {
    /// The state of a window that has just been created: no pointer
    /// position, no modifier held.
    pub fn new() -> (state: Self)
        ensures
            state@ == InputView::initial(),
    {
        InputState { pointer: None, modifiers: Modifiers::empty() }
    }

    /// Takes one raw event into the state.
    pub fn apply(&mut self, event: InputEvent)
        ensures
            final(self)@ == old(self)@.after(event),
    {
        match event {
            InputEvent::PointerMoved(position) => {
                self.pointer = Some(position);
            },
            InputEvent::Touch(position) => {
                self.pointer = Some(position);
            },
            InputEvent::Key { key, state } => {
                match key.modifier() {
                    Some(modifier) => match state {
                        KeyState::Pressed => {
                            self.modifiers.insert(modifier);
                        },
                        KeyState::Released => {
                            self.modifiers.remove(modifier);
                        },
                    },
                    None => {},
                }
            },
            InputEvent::ModifiersChanged(held) => {
                self.modifiers = held;
            },
        }
    }

    /// The modifier keys that are held down.
    pub fn modifiers(&self) -> (held: Modifiers)
        ensures
            held@ == self@.modifiers,
    {
        self.modifiers
    }

    /// The last known pointer position, in physical pixels.
    pub fn pointer(&self) -> (position: Option<PointerPosition>)
        ensures
            position == self@.pointer,
    {
        self.pointer
    }

    /// What the update step is told about the pointer.
    pub fn cursor(&self) -> (cursor: Cursor)
        ensures
            cursor == self@.cursor(),
    {
        match self.pointer {
            Some(position) => Cursor::Available(position),
            None => Cursor::Unavailable,
        }
    }
}

} // verus!
