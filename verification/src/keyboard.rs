//! Mapping of host key presses to Apple II keyboard codes.

use vstd::prelude::*;

verus! {

/// A key as the frontends report it.
#[derive(Clone, Copy, Debug, PartialEq, Eq, Structural)]
pub enum AppleKey {
    Printable(char),
    Control(char),
    Enter,
    Backspace,
    Delete,
    Space,
    Left,
    Right,
    Up,
    Down,
    Escape,
    Tab,
}

/// Code of a printable character: ASCII only, lower case folded to upper case.
pub open spec fn printable_code(ch: char) -> Option<u8> {
    let c = ch as u32;
    if c >= 0x80 {
        None
    } else if 0x61 <= c <= 0x7A {
        Some((c - 0x20) as u8)
    } else {
        Some(c as u8)
    }
}

/// Code of Ctrl + a letter: 1 for A through 26 for Z (either case); none for
/// anything that is not an ASCII letter.
pub open spec fn control_code(ch: char) -> Option<u8> {
    let c = ch as u32;
    if 0x41 <= c <= 0x5A {
        Some((c - 0x40) as u8)
    } else if 0x61 <= c <= 0x7A {
        Some((c - 0x60) as u8)
    } else {
        None
    }
}

/// Apple II keyboard code of a key, if it has one.
pub open spec fn apple_key_code(key: AppleKey) -> Option<u8> {
    match key {
        AppleKey::Printable(ch) => printable_code(ch),
        AppleKey::Control(ch) => control_code(ch),
        AppleKey::Enter => Some(0x0D),
        AppleKey::Backspace => Some(0x08),
        AppleKey::Delete => Some(0x7F),
        AppleKey::Space => Some(0x20),
        AppleKey::Left => Some(0x08),
        AppleKey::Right => Some(0x15),
        AppleKey::Up => Some(0x0B),
        AppleKey::Down => Some(0x0A),
        AppleKey::Escape => Some(0x1B),
        AppleKey::Tab => Some(0x09),
    }
}

/// Map a key to its Apple II keyboard code.
pub fn map_apple_key(key: AppleKey) -> (code: Option<u8>)
    ensures
        code == apple_key_code(key),
{
    match key {
        AppleKey::Printable(ch) => map_printable(ch),
        AppleKey::Control(ch) => map_control(ch),
        AppleKey::Enter => Some(0x0D),
        AppleKey::Backspace => Some(0x08),
        AppleKey::Delete => Some(0x7F),
        AppleKey::Space => Some(0x20),
        AppleKey::Left => Some(0x08),
        AppleKey::Right => Some(0x15),
        AppleKey::Up => Some(0x0B),
        AppleKey::Down => Some(0x0A),
        AppleKey::Escape => Some(0x1B),
        AppleKey::Tab => Some(0x09),
    }
}

fn map_printable(ch: char) -> (code: Option<u8>)
    ensures
        code == printable_code(ch),
{
    let c = ch as u32;
    if c >= 0x80 {
        return None;
    }
    let ascii = c as u8;
    if ascii >= 0x61 && ascii <= 0x7A {
        Some(ascii - 0x20)
    } else {
        Some(ascii)
    }
}

fn map_control(ch: char) -> (code: Option<u8>)
    ensures
        code == control_code(ch),
{
    let c = ch as u32;
    if c >= 0x41 && c <= 0x5A {
        Some((c - 0x40) as u8)
    } else if c >= 0x61 && c <= 0x7A {
        // fold to upper case, then subtract '@'
        Some((c - 0x20 - 0x40) as u8)
    } else {
        None
    }
}

/// Every code the keyboard produces is a 7-bit ASCII value.
pub proof fn lemma_key_codes_are_seven_bit(key: AppleKey)
    ensures
        apple_key_code(key) matches Some(code) ==> code < 0x80,
{
}

/// Whether `ch` is an ASCII letter.
pub open spec fn is_ascii_letter(ch: char) -> bool {
    (0x41 <= ch as u32 <= 0x5A) || (0x61 <= ch as u32 <= 0x7A)
}

/// Letters: a printable letter is sent as its upper-case ASCII code (the
/// Apple II keyboard has no lower case), and Ctrl with a letter sends that
/// code less $40, the letter's place in the alphabet (Ctrl-A is 1, Ctrl-Z
/// is 26), whichever case it was typed in. Ctrl with anything else sends
/// nothing.
pub proof fn lemma_letter_codes(ch: char)
    ensures
        is_ascii_letter(ch) ==> {
            &&& printable_code(ch) matches Some(up)
            &&& 0x41 <= up <= 0x5A
            &&& (up == ch as u32 || up + 0x20 == ch as u32)
            &&& control_code(ch) matches Some(code)
            &&& 1 <= code <= 26
            &&& code + 0x40 == up
        },
        !is_ascii_letter(ch) ==> control_code(ch) is None,
{
}

/// The named keys send the control codes the Apple II keyboard gives them:
/// Return is Ctrl-M, Tab Ctrl-I, the left arrow Ctrl-H (the same code as
/// Backspace), the right arrow Ctrl-U, the up arrow Ctrl-K and the down
/// arrow Ctrl-J; Space is the printable space, Escape $1B, Delete $7F.
pub proof fn lemma_named_key_codes()
    ensures
        apple_key_code(AppleKey::Enter) == apple_key_code(AppleKey::Control('M')),
        apple_key_code(AppleKey::Tab) == apple_key_code(AppleKey::Control('I')),
        apple_key_code(AppleKey::Left) == apple_key_code(AppleKey::Control('H')),
        apple_key_code(AppleKey::Backspace) == apple_key_code(AppleKey::Control('H')),
        apple_key_code(AppleKey::Right) == apple_key_code(AppleKey::Control('U')),
        apple_key_code(AppleKey::Up) == apple_key_code(AppleKey::Control('K')),
        apple_key_code(AppleKey::Down) == apple_key_code(AppleKey::Control('J')),
        apple_key_code(AppleKey::Space) == apple_key_code(AppleKey::Printable(' ')),
        apple_key_code(AppleKey::Escape) == Some(0x1Bu8),
        apple_key_code(AppleKey::Delete) == Some(0x7Fu8),
{
}

} // verus!
