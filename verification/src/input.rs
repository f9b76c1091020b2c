use vstd::prelude::*;
use vstd::std_specs::cmp::PartialEqSpecImpl;

verus! {

/// The state of every button (and of the touch screen) of a console.
#[derive(Copy, Clone, Debug)]
pub struct Input {
    pub a: bool,
    pub b: bool,
    pub x: bool,
    pub y: bool,
    pub start: bool,
    pub select: bool,
    pub l: bool,
    pub r: bool,
    pub d_up: bool,
    pub d_down: bool,
    pub d_left: bool,
    pub d_right: bool,
    /// The point of the touch screen that is touched, if any.
    pub touch: Option<(u8, u8)>,
}

impl Input {
    /// No button pressed and nothing touched.
    pub open spec fn spec_empty() -> Input {
        Input {
            a: false,
            b: false,
            x: false,
            y: false,
            start: false,
            select: false,
            l: false,
            r: false,
            d_up: false,
            d_down: false,
            d_left: false,
            d_right: false,
            touch: None,
        }
    }

    /// Every button of `self` or `other` is pressed; the touch of `self` wins
    /// over that of `other`.
    pub open spec fn spec_merge(self, other: Input) -> Input {
        Input {
            a: self.a || other.a,
            b: self.b || other.b,
            x: self.x || other.x,
            y: self.y || other.y,
            start: self.start || other.start,
            select: self.select || other.select,
            l: self.l || other.l,
            r: self.r || other.r,
            d_up: self.d_up || other.d_up,
            d_down: self.d_down || other.d_down,
            d_left: self.d_left || other.d_left,
            d_right: self.d_right || other.d_right,
            touch: if self.touch is Some { self.touch } else { other.touch },
        }
    }

    /// No button pressed and nothing touched.
    pub fn new() -> (r: Input)
        ensures
            r == Input::spec_empty(),
    {
        Input {
            a: false,
            b: false,
            x: false,
            y: false,
            start: false,
            select: false,
            l: false,
            r: false,
            d_up: false,
            d_down: false,
            d_left: false,
            d_right: false,
            touch: None,
        }
    }

    /// Combine two inputs (`|=` on inputs): a button is pressed if it is
    /// pressed in either.
    pub fn merge(self, other: Input) -> (r: Input)
        ensures
            r == self.spec_merge(other),
    {
        Input {
            a: self.a || other.a,
            b: self.b || other.b,
            x: self.x || other.x,
            y: self.y || other.y,
            start: self.start || other.start,
            select: self.select || other.select,
            l: self.l || other.l,
            r: self.r || other.r,
            d_up: self.d_up || other.d_up,
            d_down: self.d_down || other.d_down,
            d_left: self.d_left || other.d_left,
            d_right: self.d_right || other.d_right,
            touch: if self.touch.is_some() { self.touch } else { other.touch },
        }
    }

    /// Return `true` if nothing is pressed or touched.
    pub fn is_empty(&self) -> (r: bool)
        ensures
            r == (*self == Input::spec_empty()),
    {
        !(self.a || self.b || self.x || self.y || self.start || self.select || self.l || self.r
            || self.d_up || self.d_down || self.d_left || self.d_right || self.touch.is_some())
    }
}

impl PartialEq for Input {
    fn eq(&self, other: &Input) -> (r: bool) {
        let same_touch = match (self.touch, other.touch) {
            (None, None) => true,
            (Some((x1, y1)), Some((x2, y2))) => x1 == x2 && y1 == y2,
            _ => false,
        };
        self.a == other.a && self.b == other.b && self.x == other.x && self.y == other.y
            && self.start == other.start && self.select == other.select && self.l == other.l
            && self.r == other.r && self.d_up == other.d_up && self.d_down == other.d_down
            && self.d_left == other.d_left && self.d_right == other.d_right && same_touch
    }
}

impl PartialEqSpecImpl for Input {
    open spec fn obeys_eq_spec() -> bool {
        true
    }

    open spec fn eq_spec(&self, other: &Input) -> bool {
        *self == *other
    }
}

impl Eq for Input {}

impl Default for Input {
    fn default() -> (r: Input)
        ensures
            r == Input::spec_empty(),
    {
        Input::new()
    }
}

/// `1 << shift` if `pressed`, else 0.
pub open spec fn bit32(pressed: bool, shift: u32) -> u32 {
    if pressed { (1u32 << shift) as u32 } else { 0u32 }
}

/// The 32-bit key word that melonDS takes for a Nintendo DS input.
pub open spec fn nds_input_word(input: Input) -> u32 {
    let buttons = bit32(input.a, 0) | bit32(input.b, 1) | bit32(input.x, 10) | bit32(input.y, 11)
        | bit32(input.d_left, 5) | bit32(input.d_right, 4) | bit32(input.d_up, 6) | bit32(
        input.d_down,
        7,
    ) | bit32(input.l, 9) | bit32(input.r, 8) | bit32(input.select, 2) | bit32(input.start, 3);
    match input.touch {
        Some((x, y)) => buttons | 0x1000u32 | ((x as u32) << 16u32) | ((y as u32) << 24u32),
        None => buttons,
    }
}

/// The 16-bit key word that mGBA takes for a Game Boy Advance input.
pub open spec fn gba_input_word(input: Input) -> u16 {
    (bit32(input.a, 0) | bit32(input.b, 1) | bit32(input.d_left, 5) | bit32(input.d_right, 4)
        | bit32(input.d_up, 6) | bit32(input.d_down, 7) | bit32(input.l, 9) | bit32(input.r, 8)
        | bit32(input.select, 2) | bit32(input.start, 3)) as u16
}

/// The little-endian bytes of a 32-bit word.
pub open spec fn le_bytes_u32(w: u32) -> Seq<u8> {
    seq![(w & 0xff) as u8, ((w >> 8u32) & 0xff) as u8, ((w >> 16u32) & 0xff) as u8, ((w >> 24u32) & 0xff) as u8]
}

/// The little-endian bytes of a 16-bit word.
pub open spec fn le_bytes_u16(w: u16) -> Seq<u8> {
    seq![(w & 0xff) as u8, ((w >> 8u16) & 0xff) as u8]
}

/// The 32-bit word whose little-endian bytes are `b`.
pub open spec fn le_word_u32(b0: u8, b1: u8, b2: u8, b3: u8) -> u32 {
    (b0 as u32) | ((b1 as u32) << 8u32) | ((b2 as u32) << 16u32) | ((b3 as u32) << 24u32)
}

/// The 16-bit word whose little-endian bytes are `b`.
pub open spec fn le_word_u16(b0: u8, b1: u8) -> u16 {
    ((b0 as u16) | ((b1 as u16) << 8u16)) as u16
}

fn bit_if(pressed: bool, shift: u32) -> (r: u32)
    requires
        shift < 32,
    ensures
        r == bit32(pressed, shift),
{
    if pressed { 1u32 << shift } else { 0 }
}

fn push_le_u32(into: &mut Vec<u8>, w: u32)
    ensures
        final(into)@ == old(into)@ + le_bytes_u32(w),
{
    into.push((w & 0xff) as u8);
    into.push(((w >> 8) & 0xff) as u8);
    into.push(((w >> 16) & 0xff) as u8);
    into.push(((w >> 24) & 0xff) as u8);
    assert(final(into)@ =~= old(into)@ + le_bytes_u32(w));
}

/// Encode a Nintendo DS input as the four little-endian bytes of its key word,
/// replacing what `into` held.
pub fn nds_encode_input(input: Input, into: &mut Vec<u8>)
    ensures
        final(into)@ == le_bytes_u32(nds_input_word(input)),
{
    let buttons = bit_if(input.a, 0) | bit_if(input.b, 1) | bit_if(input.x, 10) | bit_if(input.y, 11)
        | bit_if(input.d_left, 5) | bit_if(input.d_right, 4) | bit_if(input.d_up, 6) | bit_if(
        input.d_down,
        7,
    ) | bit_if(input.l, 9) | bit_if(input.r, 8) | bit_if(input.select, 2) | bit_if(input.start, 3);
    let value = match input.touch {
        Some((x, y)) => buttons | 0x1000u32 | ((x as u32) << 16u32) | ((y as u32) << 24u32),
        None => buttons,
    };
    into.clear();
    push_le_u32(into, value);
    assert(final(into)@ =~= le_bytes_u32(nds_input_word(input)));
}

/// Decode encoded Nintendo DS input bytes into the key word: four bytes are
/// read as a little-endian word; any other length gives 0.
pub fn nds_decode_input(input: &[u8]) -> (r: u32)
    ensures
        input@.len() == 4 ==> r == le_word_u32(input@[0], input@[1], input@[2], input@[3]),
        input@.len() != 4 ==> r == 0,
{
    if input.len() == 4 {
        (input[0] as u32) | ((input[1] as u32) << 8u32) | ((input[2] as u32) << 16u32) | ((
        input[3] as u32) << 24u32)
    } else {
        0
    }
}

/// Encode a Game Boy Advance input as the two little-endian bytes of its key
/// word, replacing what `into` held.
pub fn gba_encode_input(input: Input, into: &mut Vec<u8>)
    ensures
        final(into)@ == le_bytes_u16(gba_input_word(input)),
{
    let value = (bit_if(input.a, 0) | bit_if(input.b, 1) | bit_if(input.d_left, 5) | bit_if(
        input.d_right,
        4,
    ) | bit_if(input.d_up, 6) | bit_if(input.d_down, 7) | bit_if(input.l, 9) | bit_if(input.r, 8)
        | bit_if(input.select, 2) | bit_if(input.start, 3)) as u16;
    into.clear();
    into.push((value & 0xff) as u8);
    into.push(((value >> 8) & 0xff) as u8);
    assert(final(into)@ =~= le_bytes_u16(gba_input_word(input)));
}

/// Decode encoded Game Boy Advance input bytes into the key word: two bytes
/// are read as a little-endian word; any other length gives 0.
pub fn gba_decode_input(input: &[u8]) -> (r: u16)
    ensures
        input@.len() == 2 ==> r == le_word_u16(input@[0], input@[1]),
        input@.len() != 2 ==> r == 0,
{
    if input.len() == 2 {
        ((input[0] as u16) | ((input[1] as u16) << 8u16)) as u16
    } else {
        0
    }
}


/// The Nintendo DS input that a key word stands for.
pub open spec fn nds_input_from_word(w: u32) -> Input {
    Input {
        a: w & 1 != 0,
        b: w & 2 != 0,
        select: w & 4 != 0,
        start: w & 8 != 0,
        d_right: w & 0x10 != 0,
        d_left: w & 0x20 != 0,
        d_up: w & 0x40 != 0,
        d_down: w & 0x80 != 0,
        r: w & 0x100 != 0,
        l: w & 0x200 != 0,
        x: w & 0x400 != 0,
        y: w & 0x800 != 0,
        touch: if w & 0x1000 != 0 {
            Some((((w >> 16u32) & 0xff) as u8, ((w >> 24u32) & 0xff) as u8))
        } else {
            None
        },
    }
}

/// The Game Boy Advance input that a key word stands for (the Game Boy
/// Advance has no X, Y or touch screen).
pub open spec fn gba_input_from_word(w: u16) -> Input {
    Input {
        a: w & 1 != 0,
        b: w & 2 != 0,
        select: w & 4 != 0,
        start: w & 8 != 0,
        d_right: w & 0x10 != 0,
        d_left: w & 0x20 != 0,
        d_up: w & 0x40 != 0,
        d_down: w & 0x80 != 0,
        r: w & 0x100 != 0,
        l: w & 0x200 != 0,
        x: false,
        y: false,
        touch: None,
    }
}

/// The buttons that a Game Boy Advance keeps of an input.
pub open spec fn gba_visible(input: Input) -> Input {
    Input { x: false, y: false, touch: None, ..input }
}

proof fn lemma_button_bits(
    a: bool,
    b: bool,
    x: bool,
    y: bool,
    left: bool,
    right: bool,
    up: bool,
    down: bool,
    l: bool,
    r: bool,
    select: bool,
    start: bool,
    w: u32,
)
    requires
        w == (if a { 1u32 } else { 0u32 }) | (if b { 2u32 } else { 0u32 }) | (if x { 0x400u32 } else { 0u32 })
            | (if y { 0x800u32 } else { 0u32 }) | (if left { 0x20u32 } else { 0u32 }) | (if right { 0x10u32 } else { 0u32 })
            | (if up { 0x40u32 } else { 0u32 }) | (if down { 0x80u32 } else { 0u32 }) | (if l { 0x200u32 } else { 0u32 })
            | (if r { 0x100u32 } else { 0u32 }) | (if select { 4u32 } else { 0u32 }) | (if start { 8u32 } else { 0u32 }),
    ensures
        (w & 1 != 0) == a,
        (w & 2 != 0) == b,
        (w & 4 != 0) == select,
        (w & 8 != 0) == start,
        (w & 0x10 != 0) == right,
        (w & 0x20 != 0) == left,
        (w & 0x40 != 0) == up,
        (w & 0x80 != 0) == down,
        (w & 0x100 != 0) == r,
        (w & 0x200 != 0) == l,
        (w & 0x400 != 0) == x,
        (w & 0x800 != 0) == y,
        w & 0x1000 == 0,
        w < 0x1000,
{
    assert(w == (if a { 1u32 } else { 0u32 }) | (if b { 2u32 } else { 0u32 }) | (if x { 0x400u32 } else { 0u32 })
            | (if y { 0x800u32 } else { 0u32 }) | (if left { 0x20u32 } else { 0u32 }) | (if right { 0x10u32 } else { 0u32 })
            | (if up { 0x40u32 } else { 0u32 }) | (if down { 0x80u32 } else { 0u32 }) | (if l { 0x200u32 } else { 0u32 })
            | (if r { 0x100u32 } else { 0u32 }) | (if select { 4u32 } else { 0u32 }) | (if start { 8u32 } else { 0u32 }) ==> {
        &&& (w & 1 != 0) == a
        &&& (w & 2 != 0) == b
        &&& (w & 4 != 0) == select
        &&& (w & 8 != 0) == start
        &&& (w & 0x10 != 0) == right
        &&& (w & 0x20 != 0) == left
        &&& (w & 0x40 != 0) == up
        &&& (w & 0x80 != 0) == down
        &&& (w & 0x100 != 0) == r
        &&& (w & 0x200 != 0) == l
        &&& (w & 0x400 != 0) == x
        &&& (w & 0x800 != 0) == y
        &&& w & 0x1000 == 0
        &&& w < 0x1000
    }) by (bit_vector);
}

proof fn lemma_bit32_values(p: bool)
    ensures
        bit32(p, 0) == (if p { 1u32 } else { 0u32 }),
        bit32(p, 1) == (if p { 2u32 } else { 0u32 }),
        bit32(p, 2) == (if p { 4u32 } else { 0u32 }),
        bit32(p, 3) == (if p { 8u32 } else { 0u32 }),
        bit32(p, 4) == (if p { 0x10u32 } else { 0u32 }),
        bit32(p, 5) == (if p { 0x20u32 } else { 0u32 }),
        bit32(p, 6) == (if p { 0x40u32 } else { 0u32 }),
        bit32(p, 7) == (if p { 0x80u32 } else { 0u32 }),
        bit32(p, 8) == (if p { 0x100u32 } else { 0u32 }),
        bit32(p, 9) == (if p { 0x200u32 } else { 0u32 }),
        bit32(p, 10) == (if p { 0x400u32 } else { 0u32 }),
        bit32(p, 11) == (if p { 0x800u32 } else { 0u32 }),
{
    assert((1u32 << 0u32) == 1u32 && (1u32 << 1u32) == 2u32 && (1u32 << 2u32) == 4u32 && (1u32 << 3u32) == 8u32
        && (1u32 << 4u32) == 0x10u32 && (1u32 << 5u32) == 0x20u32 && (1u32 << 6u32) == 0x40u32
        && (1u32 << 7u32) == 0x80u32 && (1u32 << 8u32) == 0x100u32 && (1u32 << 9u32) == 0x200u32
        && (1u32 << 10u32) == 0x400u32 && (1u32 << 11u32) == 0x800u32) by (bit_vector);
}

/// Nintendo DS input encoding is lossless: the key word determines every
/// button and the touch point, so replaying recorded input bytes reproduces
/// exactly the recorded input.
pub proof fn law_nds_input_word_is_lossless(input: Input)
    ensures
        nds_input_from_word(nds_input_word(input)) == input,
{
    lemma_bit32_values(input.a);
    lemma_bit32_values(input.b);
    lemma_bit32_values(input.x);
    lemma_bit32_values(input.y);
    lemma_bit32_values(input.d_left);
    lemma_bit32_values(input.d_right);
    lemma_bit32_values(input.d_up);
    lemma_bit32_values(input.d_down);
    lemma_bit32_values(input.l);
    lemma_bit32_values(input.r);
    lemma_bit32_values(input.select);
    lemma_bit32_values(input.start);
    let buttons = bit32(input.a, 0) | bit32(input.b, 1) | bit32(input.x, 10) | bit32(input.y, 11)
        | bit32(input.d_left, 5) | bit32(input.d_right, 4) | bit32(input.d_up, 6) | bit32(
        input.d_down,
        7,
    ) | bit32(input.l, 9) | bit32(input.r, 8) | bit32(input.select, 2) | bit32(input.start, 3);
    lemma_button_bits(
        input.a,
        input.b,
        input.x,
        input.y,
        input.d_left,
        input.d_right,
        input.d_up,
        input.d_down,
        input.l,
        input.r,
        input.select,
        input.start,
        buttons,
    );
    let w = nds_input_word(input);
    match input.touch {
        Some((tx, ty)) => {
            assert(w == buttons | 0x1000u32 | ((tx as u32) << 16u32) | ((ty as u32) << 24u32));
            let tx32 = tx as u32;
            let ty32 = ty as u32;
            assert(buttons < 0x1000 && tx32 < 256 && ty32 < 256 && w == buttons | 0x1000u32 | (tx32 << 16u32) | (ty32 << 24u32) ==> {
                &&& w & 0xfff == buttons
                &&& w & 0x1000 != 0
                &&& (w >> 16u32) & 0xff == tx32
                &&& (w >> 24u32) & 0xff == ty32
            }) by (bit_vector);
            assert(w & 0xfff == buttons ==> {
                &&& (w & 1 != 0) == (buttons & 1 != 0)
                &&& (w & 2 != 0) == (buttons & 2 != 0)
                &&& (w & 4 != 0) == (buttons & 4 != 0)
                &&& (w & 8 != 0) == (buttons & 8 != 0)
                &&& (w & 0x10 != 0) == (buttons & 0x10 != 0)
                &&& (w & 0x20 != 0) == (buttons & 0x20 != 0)
                &&& (w & 0x40 != 0) == (buttons & 0x40 != 0)
                &&& (w & 0x80 != 0) == (buttons & 0x80 != 0)
                &&& (w & 0x100 != 0) == (buttons & 0x100 != 0)
                &&& (w & 0x200 != 0) == (buttons & 0x200 != 0)
                &&& (w & 0x400 != 0) == (buttons & 0x400 != 0)
                &&& (w & 0x800 != 0) == (buttons & 0x800 != 0)
            }) by (bit_vector);
        },
        None => {},
    }
}

/// Game Boy Advance input encoding keeps exactly the buttons that the Game Boy
/// Advance has: the key word determines them, and X, Y and the touch screen
/// are dropped.
pub proof fn law_gba_input_word_keeps_gba_buttons(input: Input)
    ensures
        gba_input_from_word(gba_input_word(input)) == gba_visible(input),
{
    lemma_bit32_values(input.a);
    lemma_bit32_values(input.b);
    lemma_bit32_values(input.d_left);
    lemma_bit32_values(input.d_right);
    lemma_bit32_values(input.d_up);
    lemma_bit32_values(input.d_down);
    lemma_bit32_values(input.l);
    lemma_bit32_values(input.r);
    lemma_bit32_values(input.select);
    lemma_bit32_values(input.start);
    let buttons = bit32(input.a, 0) | bit32(input.b, 1) | bit32(false, 10) | bit32(false, 11)
        | bit32(input.d_left, 5) | bit32(input.d_right, 4) | bit32(input.d_up, 6) | bit32(
        input.d_down,
        7,
    ) | bit32(input.l, 9) | bit32(input.r, 8) | bit32(input.select, 2) | bit32(input.start, 3);
    lemma_bit32_values(false);
    lemma_button_bits(
        input.a,
        input.b,
        false,
        false,
        input.d_left,
        input.d_right,
        input.d_up,
        input.d_down,
        input.l,
        input.r,
        input.select,
        input.start,
        buttons,
    );
    let w = gba_input_word(input);
    let raw = bit32(input.a, 0) | bit32(input.b, 1) | bit32(input.d_left, 5) | bit32(input.d_right, 4)
        | bit32(input.d_up, 6) | bit32(input.d_down, 7) | bit32(input.l, 9) | bit32(input.r, 8)
        | bit32(input.select, 2) | bit32(input.start, 3);
    let (ba, bb, bl, br, bu, bd, bll, brr, bse, bst) = (
        bit32(input.a, 0),
        bit32(input.b, 1),
        bit32(input.d_left, 5),
        bit32(input.d_right, 4),
        bit32(input.d_up, 6),
        bit32(input.d_down, 7),
        bit32(input.l, 9),
        bit32(input.r, 8),
        bit32(input.select, 2),
        bit32(input.start, 3),
    );
    let z10 = bit32(false, 10);
    let z11 = bit32(false, 11);
    assert(raw == buttons) by (bit_vector)
        requires
            z10 == 0u32,
            z11 == 0u32,
            buttons == ba | bb | z10 | z11 | bl | br | bu | bd | bll | brr | bse | bst,
            raw == ba | bb | bl | br | bu | bd | bll | brr | bse | bst,
    ;
    assert(raw < 0x1000 && w == raw as u16 ==> {
        &&& (w & 1 != 0) == (raw & 1 != 0)
        &&& (w & 2 != 0) == (raw & 2 != 0)
        &&& (w & 4 != 0) == (raw & 4 != 0)
        &&& (w & 8 != 0) == (raw & 8 != 0)
        &&& (w & 0x10 != 0) == (raw & 0x10 != 0)
        &&& (w & 0x20 != 0) == (raw & 0x20 != 0)
        &&& (w & 0x40 != 0) == (raw & 0x40 != 0)
        &&& (w & 0x80 != 0) == (raw & 0x80 != 0)
        &&& (w & 0x100 != 0) == (raw & 0x100 != 0)
        &&& (w & 0x200 != 0) == (raw & 0x200 != 0)
    }) by (bit_vector);
}

/// Decoding the little-endian bytes of a key word gives the key word back, so
/// what `set_input_encoded` hands the Nintendo DS core is the word of the
/// input that was encoded.
pub proof fn law_le_u32_roundtrip(w: u32)
    ensures
        le_word_u32(le_bytes_u32(w)[0], le_bytes_u32(w)[1], le_bytes_u32(w)[2], le_bytes_u32(w)[3]) == w,
{
    assert(le_word_u32(
        (w & 0xff) as u8,
        ((w >> 8u32) & 0xff) as u8,
        ((w >> 16u32) & 0xff) as u8,
        ((w >> 24u32) & 0xff) as u8,
    ) == w) by (bit_vector);
}

/// Decoding the little-endian bytes of a Game Boy Advance key word gives the
/// key word back.
pub proof fn law_le_u16_roundtrip(w: u16)
    ensures
        le_word_u16(le_bytes_u16(w)[0], le_bytes_u16(w)[1]) == w,
{
    assert(le_word_u16((w & 0xff) as u8, ((w >> 8u16) & 0xff) as u8) == w) by (bit_vector);
}

/// The layout of the Nintendo DS key word, as melonDS reads it: A, B,
/// Select, Start, Right, Left, Up, Down, R, L, X and Y on bits 0 to 11, a
/// touch on bit 12 with its x in bits 16 to 23 and its y in bits 24 to 31.
pub proof fn law_nds_key_word_layout(input: Input)
    ensures
        ({
            let w = nds_input_word(input);
            &&& (w & 1 != 0) == input.a
            &&& (w & 2 != 0) == input.b
            &&& (w & 4 != 0) == input.select
            &&& (w & 8 != 0) == input.start
            &&& (w & 0x10 != 0) == input.d_right
            &&& (w & 0x20 != 0) == input.d_left
            &&& (w & 0x40 != 0) == input.d_up
            &&& (w & 0x80 != 0) == input.d_down
            &&& (w & 0x100 != 0) == input.r
            &&& (w & 0x200 != 0) == input.l
            &&& (w & 0x400 != 0) == input.x
            &&& (w & 0x800 != 0) == input.y
            &&& (w & 0x1000 != 0) == (input.touch is Some)
            &&& input.touch matches Some((x, y)) ==> ((w >> 16u32) & 0xff) == x && ((w >> 24u32) & 0xff) == y
        }),
{
    law_nds_input_word_is_lossless(input);
    let w = nds_input_word(input);
    assert(((w >> 16u32) & 0xff) < 256 && ((w >> 24u32) & 0xff) < 256) by (bit_vector);
    if let Some((x, y)) = input.touch {
        assert(nds_input_from_word(w).touch == Some((x, y)));
        assert((((w >> 16u32) & 0xff) as u8) == x);
        assert((((w >> 24u32) & 0xff) as u8) == y);
    }
}

/// The layout of the Game Boy Advance key word, as mGBA reads it: A, B,
/// Select, Start, Right, Left, Up, Down, R and L on bits 0 to 9.
pub proof fn law_gba_key_word_layout(input: Input)
    ensures
        ({
            let w = gba_input_word(input);
            &&& (w & 1 != 0) == input.a
            &&& (w & 2 != 0) == input.b
            &&& (w & 4 != 0) == input.select
            &&& (w & 8 != 0) == input.start
            &&& (w & 0x10 != 0) == input.d_right
            &&& (w & 0x20 != 0) == input.d_left
            &&& (w & 0x40 != 0) == input.d_up
            &&& (w & 0x80 != 0) == input.d_down
            &&& (w & 0x100 != 0) == input.r
            &&& (w & 0x200 != 0) == input.l
        }),
{
    law_gba_input_word_keeps_gba_buttons(input);
}

} // verus!
