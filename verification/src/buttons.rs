//! The button word of a New 3DS: one bit for each button.

use vstd::prelude::*;

verus! {

/// The state of all buttons of a New 3DS, one bit each.
#[derive(Clone, Copy, Debug, PartialEq, Eq, Structural)]
pub struct N3DSButtons(pub u32);

impl N3DSButtons {
    pub const KEY_A: u32 = 1 << 0;

    pub const KEY_B: u32 = 1 << 1;

    pub const KEY_SELECT: u32 = 1 << 2;

    pub const KEY_START: u32 = 1 << 3;

    pub const KEY_DRIGHT: u32 = 1 << 4;

    pub const KEY_DLEFT: u32 = 1 << 5;

    pub const KEY_DUP: u32 = 1 << 6;

    pub const KEY_DDOWN: u32 = 1 << 7;

    pub const KEY_R: u32 = 1 << 8;

    pub const KEY_L: u32 = 1 << 9;

    pub const KEY_X: u32 = 1 << 10;

    pub const KEY_Y: u32 = 1 << 11;

    pub const KEY_ZL: u32 = 1 << 14;

    pub const KEY_ZR: u32 = 1 << 15;

    pub const KEY_TOUCH: u32 = 1 << 20;

    pub const KEY_CSTICK_RIGHT: u32 = 1 << 24;

    pub const KEY_CSTICK_LEFT: u32 = 1 << 25;

    pub const KEY_CSTICK_UP: u32 = 1 << 26;

    pub const KEY_CSTICK_DOWN: u32 = 1 << 27;

    pub const KEY_CPAD_RIGHT: u32 = 1 << 28;

    pub const KEY_CPAD_LEFT: u32 = 1 << 29;

    pub const KEY_CPAD_UP: u32 = 1 << 30;

    pub const KEY_CPAD_DOWN: u32 = 1 << 31;

    // A direction given on the D-pad or on the circle pad.
    pub const KEY_UP: u32 = Self::KEY_DUP | Self::KEY_CPAD_UP;

    pub const KEY_DOWN: u32 = Self::KEY_DDOWN | Self::KEY_CPAD_DOWN;

    pub const KEY_LEFT: u32 = Self::KEY_DLEFT | Self::KEY_CPAD_LEFT;

    pub const KEY_RIGHT: u32 = Self::KEY_DRIGHT | Self::KEY_CPAD_RIGHT;

    /// Whether bit `n` of the button word is set.
    pub open spec fn bit(self, n: u32) -> bool {
        (self.0 >> n) & 1 == 1
    }

    /// Whether A is pressed.
    pub fn a(&self) -> (pressed: bool)
        ensures
            pressed == self.bit(0),
    {
        let word: u32 = self.0;
        assert((word & Self::KEY_A != 0) == ((word >> 0u32) & 1 == 1)) by (bit_vector);
        word & Self::KEY_A != 0
    }

    /// Whether B is pressed.
    pub fn b(&self) -> (pressed: bool)
        ensures
            pressed == self.bit(1),
    {
        let word: u32 = self.0;
        assert((word & Self::KEY_B != 0) == ((word >> 1u32) & 1 == 1)) by (bit_vector);
        word & Self::KEY_B != 0
    }

    /// Whether SELECT is pressed.
    pub fn select(&self) -> (pressed: bool)
        ensures
            pressed == self.bit(2),
    {
        let word: u32 = self.0;
        assert((word & Self::KEY_SELECT != 0) == ((word >> 2u32) & 1 == 1)) by (bit_vector);
        word & Self::KEY_SELECT != 0
    }

    /// Whether START is pressed.
    pub fn start(&self) -> (pressed: bool)
        ensures
            pressed == self.bit(3),
    {
        let word: u32 = self.0;
        assert((word & Self::KEY_START != 0) == ((word >> 3u32) & 1 == 1)) by (bit_vector);
        word & Self::KEY_START != 0
    }

    /// Whether D-pad right is pressed.
    pub fn dpad_right(&self) -> (pressed: bool)
        ensures
            pressed == self.bit(4),
    {
        let word: u32 = self.0;
        assert((word & Self::KEY_DRIGHT != 0) == ((word >> 4u32) & 1 == 1)) by (bit_vector);
        word & Self::KEY_DRIGHT != 0
    }

    /// Whether D-pad left is pressed.
    pub fn dpad_left(&self) -> (pressed: bool)
        ensures
            pressed == self.bit(5),
    {
        let word: u32 = self.0;
        assert((word & Self::KEY_DLEFT != 0) == ((word >> 5u32) & 1 == 1)) by (bit_vector);
        word & Self::KEY_DLEFT != 0
    }

    /// Whether D-pad up is pressed.
    pub fn dpad_up(&self) -> (pressed: bool)
        ensures
            pressed == self.bit(6),
    {
        let word: u32 = self.0;
        assert((word & Self::KEY_DUP != 0) == ((word >> 6u32) & 1 == 1)) by (bit_vector);
        word & Self::KEY_DUP != 0
    }

    /// Whether D-pad down is pressed.
    pub fn dpad_down(&self) -> (pressed: bool)
        ensures
            pressed == self.bit(7),
    {
        let word: u32 = self.0;
        assert((word & Self::KEY_DDOWN != 0) == ((word >> 7u32) & 1 == 1)) by (bit_vector);
        word & Self::KEY_DDOWN != 0
    }

    /// Whether R is pressed.
    pub fn r(&self) -> (pressed: bool)
        ensures
            pressed == self.bit(8),
    {
        let word: u32 = self.0;
        assert((word & Self::KEY_R != 0) == ((word >> 8u32) & 1 == 1)) by (bit_vector);
        word & Self::KEY_R != 0
    }

    /// Whether L is pressed.
    pub fn l(&self) -> (pressed: bool)
        ensures
            pressed == self.bit(9),
    {
        let word: u32 = self.0;
        assert((word & Self::KEY_L != 0) == ((word >> 9u32) & 1 == 1)) by (bit_vector);
        word & Self::KEY_L != 0
    }

    /// Whether X is pressed.
    pub fn x(&self) -> (pressed: bool)
        ensures
            pressed == self.bit(10),
    {
        let word: u32 = self.0;
        assert((word & Self::KEY_X != 0) == ((word >> 10u32) & 1 == 1)) by (bit_vector);
        word & Self::KEY_X != 0
    }

    /// Whether Y is pressed.
    pub fn y(&self) -> (pressed: bool)
        ensures
            pressed == self.bit(11),
    {
        let word: u32 = self.0;
        assert((word & Self::KEY_Y != 0) == ((word >> 11u32) & 1 == 1)) by (bit_vector);
        word & Self::KEY_Y != 0
    }

    /// Whether ZL is pressed.
    pub fn zl(&self) -> (pressed: bool)
        ensures
            pressed == self.bit(14),
    {
        let word: u32 = self.0;
        assert((word & Self::KEY_ZL != 0) == ((word >> 14u32) & 1 == 1)) by (bit_vector);
        word & Self::KEY_ZL != 0
    }

    /// Whether ZR is pressed.
    pub fn zr(&self) -> (pressed: bool)
        ensures
            pressed == self.bit(15),
    {
        let word: u32 = self.0;
        assert((word & Self::KEY_ZR != 0) == ((word >> 15u32) & 1 == 1)) by (bit_vector);
        word & Self::KEY_ZR != 0
    }

    /// Whether the touchscreen is pressed.
    pub fn touch(&self) -> (pressed: bool)
        ensures
            pressed == self.bit(20),
    {
        let word: u32 = self.0;
        assert((word & Self::KEY_TOUCH != 0) == ((word >> 20u32) & 1 == 1)) by (bit_vector);
        word & Self::KEY_TOUCH != 0
    }

    /// Whether C-stick right is pressed.
    pub fn cstick_right(&self) -> (pressed: bool)
        ensures
            pressed == self.bit(24),
    {
        let word: u32 = self.0;
        assert((word & Self::KEY_CSTICK_RIGHT != 0) == ((word >> 24u32) & 1 == 1)) by (bit_vector);
        word & Self::KEY_CSTICK_RIGHT != 0
    }

    /// Whether C-stick left is pressed.
    pub fn cstick_left(&self) -> (pressed: bool)
        ensures
            pressed == self.bit(25),
    {
        let word: u32 = self.0;
        assert((word & Self::KEY_CSTICK_LEFT != 0) == ((word >> 25u32) & 1 == 1)) by (bit_vector);
        word & Self::KEY_CSTICK_LEFT != 0
    }

    /// Whether C-stick up is pressed.
    pub fn cstick_up(&self) -> (pressed: bool)
        ensures
            pressed == self.bit(26),
    {
        let word: u32 = self.0;
        assert((word & Self::KEY_CSTICK_UP != 0) == ((word >> 26u32) & 1 == 1)) by (bit_vector);
        word & Self::KEY_CSTICK_UP != 0
    }

    /// Whether C-stick down is pressed.
    pub fn cstick_down(&self) -> (pressed: bool)
        ensures
            pressed == self.bit(27),
    {
        let word: u32 = self.0;
        assert((word & Self::KEY_CSTICK_DOWN != 0) == ((word >> 27u32) & 1 == 1)) by (bit_vector);
        word & Self::KEY_CSTICK_DOWN != 0
    }

    /// Whether circle pad right is pressed.
    pub fn cpad_right(&self) -> (pressed: bool)
        ensures
            pressed == self.bit(28),
    {
        let word: u32 = self.0;
        assert((word & Self::KEY_CPAD_RIGHT != 0) == ((word >> 28u32) & 1 == 1)) by (bit_vector);
        word & Self::KEY_CPAD_RIGHT != 0
    }

    /// Whether circle pad left is pressed.
    pub fn cpad_left(&self) -> (pressed: bool)
        ensures
            pressed == self.bit(29),
    {
        let word: u32 = self.0;
        assert((word & Self::KEY_CPAD_LEFT != 0) == ((word >> 29u32) & 1 == 1)) by (bit_vector);
        word & Self::KEY_CPAD_LEFT != 0
    }

    /// Whether circle pad up is pressed.
    pub fn cpad_up(&self) -> (pressed: bool)
        ensures
            pressed == self.bit(30),
    {
        let word: u32 = self.0;
        assert((word & Self::KEY_CPAD_UP != 0) == ((word >> 30u32) & 1 == 1)) by (bit_vector);
        word & Self::KEY_CPAD_UP != 0
    }

    /// Whether circle pad down is pressed.
    pub fn cpad_down(&self) -> (pressed: bool)
        ensures
            pressed == self.bit(31),
    {
        let word: u32 = self.0;
        assert((word & Self::KEY_CPAD_DOWN != 0) == ((word >> 31u32) & 1 == 1)) by (bit_vector);
        word & Self::KEY_CPAD_DOWN != 0
    }

    /// Whether the D-pad or the circle pad points up.
    pub fn up(&self) -> (pressed: bool)
        ensures
            pressed == (self.bit(6) || self.bit(30)),
    {
        let word: u32 = self.0;
        assert((word & Self::KEY_UP != 0) == ((word >> 6u32) & 1 == 1 || (word >> 30u32) & 1 == 1)) by (bit_vector);
        word & Self::KEY_UP != 0
    }

    /// Whether the D-pad or the circle pad points down.
    pub fn down(&self) -> (pressed: bool)
        ensures
            pressed == (self.bit(7) || self.bit(31)),
    {
        let word: u32 = self.0;
        assert((word & Self::KEY_DOWN != 0) == ((word >> 7u32) & 1 == 1 || (word >> 31u32) & 1 == 1)) by (bit_vector);
        word & Self::KEY_DOWN != 0
    }

    /// Whether the D-pad or the circle pad points left.
    pub fn left(&self) -> (pressed: bool)
        ensures
            pressed == (self.bit(5) || self.bit(29)),
    {
        let word: u32 = self.0;
        assert((word & Self::KEY_LEFT != 0) == ((word >> 5u32) & 1 == 1 || (word >> 29u32) & 1 == 1)) by (bit_vector);
        word & Self::KEY_LEFT != 0
    }

    /// Whether the D-pad or the circle pad points right.
    pub fn right(&self) -> (pressed: bool)
        ensures
            pressed == (self.bit(4) || self.bit(28)),
    {
        let word: u32 = self.0;
        assert((word & Self::KEY_RIGHT != 0) == ((word >> 4u32) & 1 == 1 || (word >> 28u32) & 1 == 1)) by (bit_vector);
        word & Self::KEY_RIGHT != 0
    }

}

/// A word with a single bit set reports that bit and no other, so no button is
/// taken for another one.
pub proof fn lemma_buttons_are_independent(n: u32, m: u32)
    requires
        n < 32,
        m < 32,
    ensures
        N3DSButtons(1u32 << n).bit(m) == (n == m),
{
    assert((((1u32 << n) >> m) & 1 == 1) == (n == m)) by (bit_vector)
        requires
            n < 32,
            m < 32,
    ;
}

/// A bit is set exactly where masking with its place value leaves something.
pub proof fn lemma_bit_is_mask(word: u32, n: u32)
    requires
        n < 32,
    ensures
        N3DSButtons(word).bit(n) == (word & (1u32 << n) != 0),
{
    assert(((word >> n) & 1 == 1) == (word & (1u32 << n) != 0)) by (bit_vector)
        requires
            n < 32,
    ;
}

/// Buttons held together are each held: one more button never hides another.
pub proof fn lemma_buttons_add_up(w1: u32, w2: u32, n: u32)
    requires
        n < 32,
    ensures
        N3DSButtons(w1 | w2).bit(n) == (N3DSButtons(w1).bit(n) || N3DSButtons(w2).bit(n)),
{
    assert((((w1 | w2) >> n) & 1 == 1) == ((w1 >> n) & 1 == 1 || (w2 >> n) & 1 == 1))
        by (bit_vector)
        requires
            n < 32,
    ;
}

/// What a call on a button word answers, for every word: it depends on the place of
/// its own button alone, and a composite direction on its two.
pub proof fn lemma_calls_read_their_own_bits(buttons: N3DSButtons, pressed: bool)
    ensures
        call_ensures(N3DSButtons::a, (&buttons,), pressed) ==> pressed == (buttons.0 & 0x1
            != 0),
        call_ensures(N3DSButtons::b, (&buttons,), pressed) ==> pressed == (buttons.0 & 0x2
            != 0),
        call_ensures(N3DSButtons::select, (&buttons,), pressed) ==> pressed == (buttons.0 & 0x4
            != 0),
        call_ensures(N3DSButtons::start, (&buttons,), pressed) ==> pressed == (buttons.0 & 0x8
            != 0),
        call_ensures(N3DSButtons::dpad_right, (&buttons,), pressed) ==> pressed == (buttons.0 & 0x10
            != 0),
        call_ensures(N3DSButtons::dpad_left, (&buttons,), pressed) ==> pressed == (buttons.0 & 0x20
            != 0),
        call_ensures(N3DSButtons::dpad_up, (&buttons,), pressed) ==> pressed == (buttons.0 & 0x40
            != 0),
        call_ensures(N3DSButtons::dpad_down, (&buttons,), pressed) ==> pressed == (buttons.0 & 0x80
            != 0),
        call_ensures(N3DSButtons::r, (&buttons,), pressed) ==> pressed == (buttons.0 & 0x100
            != 0),
        call_ensures(N3DSButtons::l, (&buttons,), pressed) ==> pressed == (buttons.0 & 0x200
            != 0),
        call_ensures(N3DSButtons::x, (&buttons,), pressed) ==> pressed == (buttons.0 & 0x400
            != 0),
        call_ensures(N3DSButtons::y, (&buttons,), pressed) ==> pressed == (buttons.0 & 0x800
            != 0),
        call_ensures(N3DSButtons::zl, (&buttons,), pressed) ==> pressed == (buttons.0 & 0x4000
            != 0),
        call_ensures(N3DSButtons::zr, (&buttons,), pressed) ==> pressed == (buttons.0 & 0x8000
            != 0),
        call_ensures(N3DSButtons::touch, (&buttons,), pressed) ==> pressed == (buttons.0 & 0x100000
            != 0),
        call_ensures(N3DSButtons::cstick_right, (&buttons,), pressed) ==> pressed == (buttons.0 & 0x1000000
            != 0),
        call_ensures(N3DSButtons::cstick_left, (&buttons,), pressed) ==> pressed == (buttons.0 & 0x2000000
            != 0),
        call_ensures(N3DSButtons::cstick_up, (&buttons,), pressed) ==> pressed == (buttons.0 & 0x4000000
            != 0),
        call_ensures(N3DSButtons::cstick_down, (&buttons,), pressed) ==> pressed == (buttons.0 & 0x8000000
            != 0),
        call_ensures(N3DSButtons::cpad_right, (&buttons,), pressed) ==> pressed == (buttons.0 & 0x10000000
            != 0),
        call_ensures(N3DSButtons::cpad_left, (&buttons,), pressed) ==> pressed == (buttons.0 & 0x20000000
            != 0),
        call_ensures(N3DSButtons::cpad_up, (&buttons,), pressed) ==> pressed == (buttons.0 & 0x40000000
            != 0),
        call_ensures(N3DSButtons::cpad_down, (&buttons,), pressed) ==> pressed == (buttons.0 & 0x80000000
            != 0),
        call_ensures(N3DSButtons::up, (&buttons,), pressed) ==> pressed == (buttons.0
            & 0x40000040 != 0),
        call_ensures(N3DSButtons::down, (&buttons,), pressed) ==> pressed == (buttons.0
            & 0x80000080 != 0),
        call_ensures(N3DSButtons::left, (&buttons,), pressed) ==> pressed == (buttons.0
            & 0x20000020 != 0),
        call_ensures(N3DSButtons::right, (&buttons,), pressed) ==> pressed == (buttons.0
            & 0x10000010 != 0),
{
    let w = buttons.0;
    assert forall|n: u32| n < 32 implies #[trigger] buttons.bit(n) == (w & (1u32 << n) != 0) by {
        lemma_bit_is_mask(w, n);
    }
    assert({
        &&& 1u32 << 0u32 == 0x1
        &&& 1u32 << 1u32 == 0x2
        &&& 1u32 << 2u32 == 0x4
        &&& 1u32 << 3u32 == 0x8
        &&& 1u32 << 4u32 == 0x10
        &&& 1u32 << 5u32 == 0x20
        &&& 1u32 << 6u32 == 0x40
        &&& 1u32 << 7u32 == 0x80
        &&& 1u32 << 8u32 == 0x100
        &&& 1u32 << 9u32 == 0x200
        &&& 1u32 << 10u32 == 0x400
        &&& 1u32 << 11u32 == 0x800
        &&& 1u32 << 14u32 == 0x4000
        &&& 1u32 << 15u32 == 0x8000
        &&& 1u32 << 20u32 == 0x100000
        &&& 1u32 << 24u32 == 0x1000000
        &&& 1u32 << 25u32 == 0x2000000
        &&& 1u32 << 26u32 == 0x4000000
        &&& 1u32 << 27u32 == 0x8000000
        &&& 1u32 << 28u32 == 0x10000000
        &&& 1u32 << 29u32 == 0x20000000
        &&& 1u32 << 30u32 == 0x40000000
        &&& 1u32 << 31u32 == 0x80000000
        &&& (w & 0x40000040 != 0) == (w & 0x40 != 0 || w & 0x40000000 != 0)
        &&& (w & 0x80000080 != 0) == (w & 0x80 != 0 || w & 0x80000000 != 0)
        &&& (w & 0x20000020 != 0) == (w & 0x20 != 0 || w & 0x20000000 != 0)
        &&& (w & 0x10000010 != 0) == (w & 0x10 != 0 || w & 0x10000000 != 0)
    }) by (bit_vector);
}

} // verus!
