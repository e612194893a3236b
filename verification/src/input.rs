//! Keyboard input for the asset-path prompt.
//!
//! While the editor waits for an asset path, key presses append characters
//! from a fixed alphabet (lower-case letters, `/`, `_`, `.`), backspace
//! deletes the last character, and the confirm key commits the path.  The
//! per-key branches of the prompt reduce to one lookup from key to
//! character, written out here; keys used only as editing shortcuts (picker
//! toggle, canvas reset, camera pan) carry no character and are dispatched
//! by the caller directly.

use vstd::prelude::*;

verus! {

/// The keys the asset-path prompt reacts to.  `Minus` and `ShiftLeft` both
/// enter an underscore, mirroring how the underscore is typed.
#[derive(Clone, Copy, PartialEq, Eq, Structural, Debug)]
pub enum Key {
    A,
    B,
    C,
    D,
    E,
    F,
    G,
    H,
    I,
    J,
    K,
    L,
    M,
    N,
    O,
    P,
    Q,
    R,
    S,
    T,
    U,
    V,
    W,
    X,
    Y,
    Z,
    Slash,
    Period,
    Minus,
    ShiftLeft,
    Backspace,
    Enter,
}

/// The path alphabet: ASCII lower-case letters, `/`, `_` and `.`.
pub open spec fn allowed_path_byte(b: u8) -> bool {
    ||| 97 <= b <= 122  // 'a' ..= 'z'
    ||| b == 47  // '/'
    ||| b == 95  // '_'
    ||| b == 46  // '.'
}

/// The character a key enters into the path, as an ASCII byte, or `None`
/// for keys that enter none (backspace and confirm).
pub open spec fn spec_char_for_key(k: Key) -> Option<u8> {
    match k {
        Key::A => Some(97u8),
        Key::B => Some(98u8),
        Key::C => Some(99u8),
        Key::D => Some(100u8),
        Key::E => Some(101u8),
        Key::F => Some(102u8),
        Key::G => Some(103u8),
        Key::H => Some(104u8),
        Key::I => Some(105u8),
        Key::J => Some(106u8),
        Key::K => Some(107u8),
        Key::L => Some(108u8),
        Key::M => Some(109u8),
        Key::N => Some(110u8),
        Key::O => Some(111u8),
        Key::P => Some(112u8),
        Key::Q => Some(113u8),
        Key::R => Some(114u8),
        Key::S => Some(115u8),
        Key::T => Some(116u8),
        Key::U => Some(117u8),
        Key::V => Some(118u8),
        Key::W => Some(119u8),
        Key::X => Some(120u8),
        Key::Y => Some(121u8),
        Key::Z => Some(122u8),
        Key::Slash => Some(47u8),
        Key::Period => Some(46u8),
        Key::Minus => Some(95u8),
        Key::ShiftLeft => Some(95u8),
        Key::Backspace => None,
        Key::Enter => None,
    }
}

/// Looks up the character a key enters.  Every character entered this way
/// belongs to the path alphabet.
pub fn char_for_key(k: Key) -> (r: Option<u8>)
    ensures
        r == spec_char_for_key(k),
        r matches Some(b) ==> allowed_path_byte(b),
{
    match k {
        Key::A => Some(97u8),
        Key::B => Some(98u8),
        Key::C => Some(99u8),
        Key::D => Some(100u8),
        Key::E => Some(101u8),
        Key::F => Some(102u8),
        Key::G => Some(103u8),
        Key::H => Some(104u8),
        Key::I => Some(105u8),
        Key::J => Some(106u8),
        Key::K => Some(107u8),
        Key::L => Some(108u8),
        Key::M => Some(109u8),
        Key::N => Some(110u8),
        Key::O => Some(111u8),
        Key::P => Some(112u8),
        Key::Q => Some(113u8),
        Key::R => Some(114u8),
        Key::S => Some(115u8),
        Key::T => Some(116u8),
        Key::U => Some(117u8),
        Key::V => Some(118u8),
        Key::W => Some(119u8),
        Key::X => Some(120u8),
        Key::Y => Some(121u8),
        Key::Z => Some(122u8),
        Key::Slash => Some(47u8),
        Key::Period => Some(46u8),
        Key::Minus => Some(95u8),
        Key::ShiftLeft => Some(95u8),
        Key::Backspace => None,
        Key::Enter => None,
    }
}

} // verus!
