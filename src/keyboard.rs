//! The keyboard path: scancode decoding and the Escape flag.
use vstd::prelude::*;
use crate::session::{Session, key_effect};
use pc_keyboard::{layouts::Us104Key, DecodedKey, HandleControl, KeyEvent, Keyboard, ScancodeSet1};

verus! {

/// The scancode of the Escape key being pressed.
pub const ESCAPE_SCANCODE: u8 = 1;

/// `pc_keyboard::KeyEvent`, carried unopened from `add_byte` to
/// `process_keyevent`.
#[verifier::external_type_specification]
#[verifier::external_body]
pub struct ExKeyEvent(KeyEvent);

/// The scancode decoder of a US 104-key keyboard sending scancode set 1,
/// control combinations passed through as plain characters. It holds a
/// `pc_keyboard::Keyboard`, which tracks the modifier keys and any byte
/// sequence under way; only the wrappers below reach it.
#[verifier::external_body]
pub struct KeyDecoder {
    keyboard: Keyboard<Us104Key, ScancodeSet1>,
}

impl KeyDecoder {
    /// Relies on `pc_keyboard::Keyboard::new`: a decoder with no key held and
    /// no byte sequence under way.
    #[verifier::external_body]
    pub fn new() -> KeyDecoder {
        KeyDecoder { keyboard: Keyboard::new(Us104Key, ScancodeSet1, HandleControl::Ignore) }
    }
}

/// Relies on `pc_keyboard::Keyboard::add_byte`: feeds one scancode byte to
/// the decoder; a completed key transition comes back as an event, while a
/// byte that only starts a sequence, or a malformed one, gives none.
#[verifier::external_body]
fn add_byte(decoder: &mut KeyDecoder, scancode: u8) -> (r: Option<KeyEvent>) {
    match decoder.keyboard.add_byte(scancode) {
        Ok(event) => event,
        Err(_) => None,
    }
}

/// Relies on `pc_keyboard::Keyboard::process_keyevent`: applies the event to
/// the modifier state and returns the character that it types, if any.
#[verifier::external_body]
fn process_keyevent(decoder: &mut KeyDecoder, event: KeyEvent) -> (r: Option<char>) {
    match decoder.keyboard.process_keyevent(event) {
        Some(DecodedKey::Unicode(c)) => Some(c),
        Some(DecodedKey::RawKey(_)) => None,
        None => None,
    }
}

/// Decodes one scancode byte into the character it completes, if any.
pub fn decode_scancode(keyboard: &mut KeyDecoder, scancode: u8) -> Option<char> {
    match add_byte(keyboard, scancode) {
        Some(event) => process_keyevent(keyboard, event),
        None => None,
    }
}

} // verus!

verus! {

/// Sets the Escape flag that the 3D demo polls once per frame.
pub fn set_esc_pressed(session: &mut Session, pressed: bool)
    ensures
        *final(session) == (Session { esc_pressed: pressed, ..*old(session) }),
{
    session.esc_pressed = pressed;
}

/// The Escape flag; always present.
pub fn is_esc_pressed(session: &Session) -> (r: Option<bool>)
    ensures
        r == Some(session.esc_pressed),
{
    Some(session.esc_pressed)
}

/// Handles one scancode byte from the keyboard controller: decodes it, feeds
/// a completed character to the session, and records the Escape scancode,
/// which is recognized before and regardless of decoding.
pub fn handle_keyboard_interrupt(session: &mut Session, decoder: &mut KeyDecoder, scancode: u8)
    requires
        old(session).wf(),
    ensures
        final(session).wf(),
        exists|decoded: Option<char>| #[trigger]
            key_effect(*old(session), *final(session), decoded, scancode),
{
    let decoded = decode_scancode(decoder, scancode);
    session.handle_key(decoded, scancode);
}

} // verus!
