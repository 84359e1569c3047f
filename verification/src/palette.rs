//! The fixed palette and the cursor that walks through it.

use vstd::prelude::*;

verus! {

/// Number of colours in the palette.
pub const PALETTE_LEN: usize = 8;

/// One opaque colour, four bytes in the order red, green, blue, alpha.
#[derive(Clone, Copy, Debug, PartialEq, Eq, Structural)]
pub struct Rgba {
    pub r: u8,
    pub g: u8,
    pub b: u8,
    pub a: u8,
}

impl Rgba {
    /// The four bytes of one pixel slot, in framebuffer order.
    pub open spec fn bytes(self) -> Seq<u8> {
        seq![self.r, self.g, self.b, self.a]
    }

    /// The four bytes of one pixel slot, in framebuffer order.
    pub fn to_bytes(self) -> (out: [u8; 4])
        ensures
            out@ == self.bytes(),
    {
        let out: [u8; 4] = [self.r, self.g, self.b, self.a];
        assert(out@ =~= self.bytes());
        out
    }
}

/// The palette as a function of the position: white, black, green, blue,
/// yellow, orange, cyan, red.
pub open spec fn palette_color(i: int) -> Rgba {
    if i == 0 {
        Rgba { r: 0xFF, g: 0xFF, b: 0xFF, a: 0xFF }
    } else if i == 1 {
        Rgba { r: 0x00, g: 0x00, b: 0x00, a: 0xFF }
    } else if i == 2 {
        Rgba { r: 0x00, g: 0xFF, b: 0x00, a: 0xFF }
    } else if i == 3 {
        Rgba { r: 0x00, g: 0x00, b: 0xFF, a: 0xFF }
    } else if i == 4 {
        Rgba { r: 0xFF, g: 0xFF, b: 0x00, a: 0xFF }
    } else if i == 5 {
        Rgba { r: 0xFF, g: 0xA5, b: 0x00, a: 0xFF }
    } else if i == 6 {
        Rgba { r: 0x00, g: 0xFF, b: 0xFF, a: 0xFF }
    } else {
        Rgba { r: 0xFF, g: 0x00, b: 0x00, a: 0xFF }
    }
}

/// The position reached from `i` after `n` advances, wrapping at the
/// palette's length.
pub open spec fn advanced(i: nat, n: nat) -> nat {
    ((i + n) % (PALETTE_LEN as nat)) as nat
}

/// The colour at position `i` of the palette.
pub fn palette_entry(i: usize) -> (c: Rgba)
    requires
        i < PALETTE_LEN,
    ensures
        c == palette_color(i as int),
{
    if i == 0 {
        Rgba { r: 0xFF, g: 0xFF, b: 0xFF, a: 0xFF }
    } else if i == 1 {
        Rgba { r: 0x00, g: 0x00, b: 0x00, a: 0xFF }
    } else if i == 2 {
        Rgba { r: 0x00, g: 0xFF, b: 0x00, a: 0xFF }
    } else if i == 3 {
        Rgba { r: 0x00, g: 0x00, b: 0xFF, a: 0xFF }
    } else if i == 4 {
        Rgba { r: 0xFF, g: 0xFF, b: 0x00, a: 0xFF }
    } else if i == 5 {
        Rgba { r: 0xFF, g: 0xA5, b: 0x00, a: 0xFF }
    } else if i == 6 {
        Rgba { r: 0x00, g: 0xFF, b: 0xFF, a: 0xFF }
    } else {
        Rgba { r: 0xFF, g: 0x00, b: 0x00, a: 0xFF }
    }
}

/// A cursor into the palette. Its view is the position, always below
/// `PALETTE_LEN`.
#[derive(Clone, Copy, Debug)]
pub struct ColorCycle {
    index: usize,
}

impl View for ColorCycle {
    type V = nat;

    closed spec fn view(&self) -> nat {
        self.index as nat
    }
}

impl ColorCycle {
    #[verifier::type_invariant]
    closed spec fn in_palette(self) -> bool {
        self.index < PALETTE_LEN
    }

    /// A cursor on the first colour.
    pub fn new() -> (c: ColorCycle)
        ensures
            c@ == 0,
    {
        ColorCycle { index: 0 }
    }

    /// The position of the cursor.
    pub fn index(&self) -> (i: usize)
        ensures
            i == self@,
            i < PALETTE_LEN,
    {
        proof {
            use_type_invariant(self);
        }
        self.index
    }

    /// The colour under the cursor; the cursor stays where it is.
    pub fn current(&self) -> (c: Rgba)
        ensures
            c == palette_color(self@ as int),
            self@ < PALETTE_LEN,
    {
        proof {
            use_type_invariant(self);
        }
        palette_entry(self.index)
    }

    /// Moves the cursor one colour on, from the last colour back to the first.
    pub fn advance(&mut self)
        ensures
            final(self)@ == advanced(old(self)@, 1),
            old(self)@ < PALETTE_LEN,
            final(self)@ < PALETTE_LEN,
    {
        proof {
            use_type_invariant(&*self);
        }
        self.index = (self.index + 1) % PALETTE_LEN;
    }
}

/// Advancing in two runs is advancing once by their sum.
pub proof fn lemma_advanced_adds(i: nat, a: nat, b: nat)
    ensures
        advanced(advanced(i, a), b) == advanced(i, a + b),
{
    assert(((((i + a) % 8) + b) % 8) == ((i + a + b) % 8)) by {
        vstd::arithmetic::div_mod::lemma_add_mod_noop_right(b as int, (i + a) as int, 8);
    }
}

/// A walk of exactly `PALETTE_LEN` advances ends on the position it
/// started from, and so does any whole number of such walks.
pub proof fn lemma_full_cycle_returns(i: nat, rounds: nat)
    requires
        i < PALETTE_LEN,
    ensures
        advanced(i, PALETTE_LEN as nat) == i,
        advanced(i, rounds * (PALETTE_LEN as nat)) == i,
{
    assert((i + 8) % 8 == i);
    assert((i + rounds * 8) % 8 == i) by {
        vstd::arithmetic::div_mod::lemma_mod_multiples_vanish(rounds as int, i as int, 8);
    }
}

/// Eight single advances, one after another, end on the starting position.
pub proof fn lemma_eight_advances_return(i: nat)
    requires
        i < PALETTE_LEN,
    ensures
        advanced(
            advanced(
                advanced(
                    advanced(advanced(advanced(advanced(advanced(i, 1), 1), 1), 1), 1),
                    1,
                ),
                1,
            ),
            1,
        ) == i,
{
    lemma_advanced_adds(i, 1, 1);
    lemma_advanced_adds(i, 2, 1);
    lemma_advanced_adds(i, 3, 1);
    lemma_advanced_adds(i, 4, 1);
    lemma_advanced_adds(i, 5, 1);
    lemma_advanced_adds(i, 6, 1);
    lemma_advanced_adds(i, 7, 1);
    lemma_full_cycle_returns(i, 1);
}

} // verus!
