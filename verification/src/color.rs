//! The packed color value and its channels.

use core::cmp::Ordering;
use vstd::prelude::*;
use vstd::std_specs::cmp::PartialOrdSpec;
use vstd::string::StringExecFns;

verus! {

/// A system color: red in the lowest byte, green in the next, blue in the
/// third. The highest byte is reserved and carried along untouched.
///
/// Colors are equal, and ordered, as their packed values are.
#[derive(Clone, Copy, Debug, PartialEq, Eq, Ord, Hash, Structural)]
pub struct SysColor(u32);

impl View for SysColor {
    type V = u32;

    /// The packed value.
    closed spec fn view(&self) -> u32 {
        self.0
    }
}

/// The red channel of a packed color.
pub open spec fn red_of(raw: u32) -> u8 {
    (raw as int % 256) as u8
}

/// The green channel of a packed color.
pub open spec fn green_of(raw: u32) -> u8 {
    (raw as int / 256 % 256) as u8
}

/// The blue channel of a packed color.
pub open spec fn blue_of(raw: u32) -> u8 {
    (raw as int / 65536 % 256) as u8
}

/// The packed value with the given channels and a zero reserved byte.
pub open spec fn pack(red: u8, green: u8, blue: u8) -> u32 {
    (red as int + 256 * green as int + 65536 * blue as int) as u32
}

/// The upper-case hexadecimal digit for a value below sixteen.
pub open spec fn hex_digit(nibble: int) -> char {
    seq![
        '0', '1', '2', '3', '4', '5', '6', '7', '8', '9', 'A', 'B', 'C', 'D', 'E', 'F',
    ][nibble]
}

/// The two hexadecimal digits of a byte, high digit first.
pub open spec fn hex_byte(byte: u8) -> Seq<char> {
    seq![hex_digit(byte as int / 16), hex_digit(byte as int % 16)]
}

/// The text form of a packed color: `#RRGGBB`.
pub open spec fn hex_string_of(raw: u32) -> Seq<char> {
    seq!['#'] + hex_byte(red_of(raw)) + hex_byte(green_of(raw)) + hex_byte(blue_of(raw))
}

/// How two packed values compare as integers.
pub open spec fn raw_order(a: u32, b: u32) -> Ordering {
    if a < b {
        Ordering::Less
    } else if a == b {
        Ordering::Equal
    } else {
        Ordering::Greater
    }
}

impl SysColor {
    /// Wraps a packed color. Every 32-bit value is a color.
    pub fn new(color: u32) -> (wrapped: Self)
        ensures
            wrapped@ == color,
    {
        SysColor(color)
    }

    /// Get the raw color: the packed value, bit for bit as it was wrapped.
    pub fn raw(self) -> (raw: u32)
        ensures
            raw == self@,
    {
        self.0
    }

    /// Get the red component.
    pub fn red(self) -> (red: u8)
        ensures
            red == red_of(self@),
    {
        let raw = self.0;
        assert(raw & 0xFF == raw % 256) by (bit_vector);
        (raw & 0xFF) as u8
    }

    /// Get the green component.
    pub fn green(self) -> (green: u8)
        ensures
            green == green_of(self@),
    {
        let raw = self.0;
        assert((raw >> 8) & 0xFF == raw / 256 % 256) by (bit_vector);
        ((raw >> 8) & 0xFF) as u8
    }

    /// Get the blue component.
    pub fn blue(self) -> (blue: u8)
        ensures
            blue == blue_of(self@),
    {
        let raw = self.0;
        assert((raw >> 16) & 0xFF == raw / 65536 % 256) by (bit_vector);
        ((raw >> 16) & 0xFF) as u8
    }

    /// The color as `#RRGGBB`: a hash sign, then red, green and blue, each as
    /// two upper-case hexadecimal digits.
    pub fn to_hex_string(self) -> (text: String)
        ensures
            text@ == hex_string_of(self@),
    {
        let mut text = String::new();
        text.append("#");
        proof {
            reveal_strlit("#");
        }
        push_hex_byte(&mut text, self.red());
        push_hex_byte(&mut text, self.green());
        push_hex_byte(&mut text, self.blue());
        assert(text@ =~= hex_string_of(self@));
        text
    }
}

fn hex_digit_text(nibble: u8) -> (text: &'static str)
    requires
        nibble < 16,
    ensures
        text@ == seq![hex_digit(nibble as int)],
{
    proof {
        reveal_strlit("0");
        reveal_strlit("1");
        reveal_strlit("2");
        reveal_strlit("3");
        reveal_strlit("4");
        reveal_strlit("5");
        reveal_strlit("6");
        reveal_strlit("7");
        reveal_strlit("8");
        reveal_strlit("9");
        reveal_strlit("A");
        reveal_strlit("B");
        reveal_strlit("C");
        reveal_strlit("D");
        reveal_strlit("E");
        reveal_strlit("F");
    }
    let text = match nibble {
        0 => "0",
        1 => "1",
        2 => "2",
        3 => "3",
        4 => "4",
        5 => "5",
        6 => "6",
        7 => "7",
        8 => "8",
        9 => "9",
        10 => "A",
        11 => "B",
        12 => "C",
        13 => "D",
        14 => "E",
        _ => "F",
    };
    assert(text@ =~= seq![hex_digit(nibble as int)]);
    text
}

fn push_hex_byte(text: &mut String, byte: u8)
    ensures
        final(text)@ == old(text)@ + hex_byte(byte),
{
    text.append(hex_digit_text(byte / 16));
    text.append(hex_digit_text(byte % 16));
    assert(text@ =~= old(text)@ + hex_byte(byte));
}

impl From<SysColor> for u32 {
    /// The packed value of the color.
    fn from(color: SysColor) -> (raw: u32) {
        color.0
    }
}

impl vstd::std_specs::convert::FromSpecImpl<SysColor> for u32 {
    open spec fn obeys_from_spec() -> bool {
        true
    }

    open spec fn from_spec(color: SysColor) -> u32 {
        color@
    }
}

impl From<SysColor> for [u8; 3] {
    /// Red, green and blue, in that order.
    fn from(color: SysColor) -> (channels: [u8; 3]) {
        [color.red(), color.green(), color.blue()]
    }
}

impl vstd::std_specs::convert::FromSpecImpl<SysColor> for [u8; 3] {
    open spec fn obeys_from_spec() -> bool {
        true
    }

    open spec fn from_spec(color: SysColor) -> [u8; 3] {
        [red_of(color@), green_of(color@), blue_of(color@)]
    }
}

impl From<SysColor> for (u8, u8, u8) {
    /// Red, green and blue, in that order.
    fn from(color: SysColor) -> (channels: (u8, u8, u8)) {
        (color.red(), color.green(), color.blue())
    }
}

impl vstd::std_specs::convert::FromSpecImpl<SysColor> for (u8, u8, u8) {
    open spec fn obeys_from_spec() -> bool {
        true
    }

    open spec fn from_spec(color: SysColor) -> (u8, u8, u8) {
        (red_of(color@), green_of(color@), blue_of(color@))
    }
}

impl PartialOrd for SysColor {
    /// Colors are ordered as their packed values are.
    fn partial_cmp(&self, other: &SysColor) -> (order: Option<Ordering>) {
        if self.0 < other.0 {
            Some(Ordering::Less)
        } else if self.0 == other.0 {
            Some(Ordering::Equal)
        } else {
            Some(Ordering::Greater)
        }
    }
}

impl vstd::std_specs::cmp::PartialOrdSpecImpl for SysColor {
    open spec fn obeys_partial_cmp_spec() -> bool {
        true
    }

    open spec fn partial_cmp_spec(&self, other: &SysColor) -> Option<Ordering> {
        Some(raw_order(self@, other@))
    }
}

/// The channels of a color, packed again, are its low 24 bits.
pub proof fn lemma_channels_round_trip(color: SysColor)
    ensures
        pack(red_of(color@), green_of(color@), blue_of(color@)) == color@ & 0x00FF_FFFF,
        pack(red_of(color@), green_of(color@), blue_of(color@)) == color@ % 0x0100_0000,
{
    let raw = color@;
    assert(raw % 256 + 256 * (raw / 256 % 256) + 65536 * (raw / 65536 % 256) == raw % 0x0100_0000)
        by (bit_vector);
    assert(raw & 0x00FF_FFFF == raw % 0x0100_0000) by (bit_vector);
}

/// The channels of a packed triple are the triple.
pub proof fn lemma_pack_keeps_channels(red: u8, green: u8, blue: u8)
    ensures
        red_of(pack(red, green, blue)) == red,
        green_of(pack(red, green, blue)) == green,
        blue_of(pack(red, green, blue)) == blue,
        pack(red, green, blue) < 0x0100_0000,
{
    let packed = pack(red, green, blue);
    assert(packed == red + 256 * green + 65536 * blue);
    assert(packed % 256 == red && packed / 256 % 256 == green && packed / 65536 % 256 == blue)
        by (bit_vector)
        requires
            packed == red + 256 * green + 65536 * blue,
    ;
}

/// The channels are the three low bytes, read with shifts and masks.
pub proof fn lemma_channels_are_bit_fields(raw: u32)
    ensures
        red_of(raw) == raw & 0xFF,
        green_of(raw) == (raw >> 8) & 0xFF,
        blue_of(raw) == (raw >> 16) & 0xFF,
{
    assert(raw & 0xFF == raw % 256) by (bit_vector);
    assert((raw >> 8) & 0xFF == raw / 256 % 256) by (bit_vector);
    assert((raw >> 16) & 0xFF == raw / 65536 % 256) by (bit_vector);
}

/// Two colors are equal exactly when their packed values are.
pub proof fn lemma_equal_iff_same_raw(a: SysColor, b: SysColor)
    ensures
        a == b <==> a@ == b@,
{
}

/// Colors compare as their packed values do, which orders them totally:
/// any two compare, they compare as equal exactly when they are equal, and
/// turning a comparison round turns its result round.
pub proof fn lemma_order_is_raw_order(a: SysColor, b: SysColor)
    ensures
        a.partial_cmp_spec(&b) == Some(raw_order(a@, b@)),
        a.partial_cmp_spec(&b) == Some(Ordering::Less) <==> a@ < b@,
        a.partial_cmp_spec(&b) == Some(Ordering::Equal) <==> a == b,
        a.partial_cmp_spec(&b) == Some(Ordering::Greater) <==> a@ > b@,
        a.partial_cmp_spec(&b) == Some(Ordering::Less) <==> b.partial_cmp_spec(&a) == Some(
            Ordering::Greater,
        ),
{
}

/// The order of colors is transitive.
pub proof fn lemma_order_is_transitive(a: SysColor, b: SysColor, c: SysColor)
    requires
        a.partial_cmp_spec(&b) == Some(Ordering::Less) || a == b,
        b.partial_cmp_spec(&c) == Some(Ordering::Less) || b == c,
    ensures
        a.partial_cmp_spec(&c) == Some(Ordering::Less) || a == c,
{
}

} // verus!
