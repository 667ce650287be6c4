//! Symbolic key identifiers, and the integers that the key queries hand to the
//! native library and get back from it.
//!
//! The native library numbers its keys by an enumeration of its own and answers
//! every state query through a *key index*, an integer that it assigns to a key
//! and that has to be looked up. Both travel as signed 32-bit integers, while
//! key indices and press counts are unsigned on this side: the conversions below
//! keep the bit pattern, so that an index comes back from the native side as it
//! was sent.

use vstd::prelude::*;

verus! {

/// A key identifier
#[derive(Copy, Clone, Debug, Hash, Eq, PartialEq, Structural)]
pub enum Key {
    Tab,
    LeftArrow,
    RightArrow,
    UpArrow,
    DownArrow,
    PageUp,
    PageDown,
    Home,
    End,
    Insert,
    Delete,
    Backspace,
    Space,
    Enter,
    Escape,
    A,
    C,
    V,
    X,
    Y,
    Z,
}

impl Key {
    /// All possible `Key` variants
    pub const VARIANTS: [Key; Key::COUNT] = [
        Key::Tab,
        Key::LeftArrow,
        Key::RightArrow,
        Key::UpArrow,
        Key::DownArrow,
        Key::PageUp,
        Key::PageDown,
        Key::Home,
        Key::End,
        Key::Insert,
        Key::Delete,
        Key::Backspace,
        Key::Space,
        Key::Enter,
        Key::Escape,
        Key::A,
        Key::C,
        Key::V,
        Key::X,
        Key::Y,
        Key::Z,
    ];

    /// Total count of `Key` variants
    pub const COUNT: usize = 21;

    /// The position of this key among the variants of the enumeration, which is
    /// the number that a cast of the key to an integer gives.
    pub open spec fn ordinal(self) -> int {
        self as int
    }

    /// The code that the native key enumeration gives to this key.
    pub open spec fn native_code(self) -> int {
        match self {
            Key::Tab => 0,
            Key::LeftArrow => 1,
            Key::RightArrow => 2,
            Key::UpArrow => 3,
            Key::DownArrow => 4,
            Key::PageUp => 5,
            Key::PageDown => 6,
            Key::Home => 7,
            Key::End => 8,
            Key::Insert => 9,
            Key::Delete => 10,
            Key::Backspace => 11,
            Key::Space => 12,
            Key::Enter => 13,
            Key::Escape => 14,
            Key::A => 15,
            Key::C => 16,
            Key::V => 17,
            Key::X => 18,
            Key::Y => 19,
            Key::Z => 20,
        }
    }

    /// Returns the integer that stands for this key in a native key-index
    /// lookup: its code in the native key enumeration.
    pub fn to_native(self) -> (code: i32)
        ensures
            code == self.native_code(),
    {
        self as i32
    }
}

/// The position of a key among the variants is its code in the native key
/// enumeration. The code lies below the count of keys, and the canonical list
/// holds the key at the position that is its code.
pub proof fn lemma_ordinal_is_native_code(key: Key)
    ensures
        key.ordinal() == key.native_code(),
        0 <= key.native_code() < Key::COUNT,
        Key::VARIANTS@[key.native_code()] == key,
{
}

/// The canonical list has as many entries as there are keys, the entry at each
/// position is the key with that position as its native code, and no key
/// stands at two positions.
pub proof fn lemma_variants_in_native_order()
    ensures
        Key::VARIANTS@.len() == Key::COUNT,
        forall|i: int| 0 <= i < Key::COUNT ==> (#[trigger] Key::VARIANTS@[i]).native_code() == i,
        forall|i: int, j: int|
            0 <= i < j < Key::COUNT ==> Key::VARIANTS@[i] != Key::VARIANTS@[j],
{
}

/// The signed 32-bit integer that has the bit pattern of `value`.
pub open spec fn as_signed(value: u32) -> int {
    if value <= i32::MAX {
        value as int
    } else {
        value - 0x1_0000_0000
    }
}

/// The unsigned 32-bit integer that has the bit pattern of `raw`.
pub open spec fn as_unsigned(raw: i32) -> int {
    if raw >= 0 {
        raw as int
    } else {
        raw + 0x1_0000_0000
    }
}

/// Whether a query for a key press counts the repeats of a key that is held
/// down, at the delay and rate that the native library is configured with.
pub const KEY_PRESSED_REPEAT: bool = true;

/// Returns the integer by which a key-state query names the key index
/// `key_index` to the native library.
pub fn to_native_int(key_index: u32) -> (raw: i32)
    ensures
        raw == as_signed(key_index),
{
    assert(key_index as i32 == as_signed(key_index)) by (bit_vector);
    key_index as i32
}

/// Returns the unsigned number that the native library has answered with
/// `raw`: the key index of a key, or the count of presses of a key.
pub fn from_native_int(raw: i32) -> (value: u32)
    ensures
        value == as_unsigned(raw),
{
    assert(raw as u32 == as_unsigned(raw)) by (bit_vector);
    raw as u32
}

/// A key index that went to the native library is the one that its integer
/// stands for, and an integer that came from the native library goes back to
/// it unchanged.
pub proof fn lemma_native_int_round_trip(key_index: u32, raw: i32)
    ensures
        as_unsigned(as_signed(key_index) as i32) == key_index,
        as_signed(as_unsigned(raw) as u32) == raw,
{
}

/// A number that the native library has answered with is never negative on
/// this side, and is the native number itself where that is not negative.
pub proof fn lemma_from_native_is_non_negative(raw: i32)
    ensures
        0 <= as_unsigned(raw) <= u32::MAX,
        raw >= 0 ==> as_unsigned(raw) == raw,
{
}

} // verus!
