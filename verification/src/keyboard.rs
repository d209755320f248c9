//! Scancodes of the keyboard, decoded into the characters that are printed.

use vstd::prelude::*;

verus! {

/// `pc_keyboard::KeyEvent`: a key with the way its state changed.
#[verifier::external_type_specification]
#[verifier::external_body]
pub struct ExKeyEvent(pc_keyboard::KeyEvent);

/// `pc_keyboard::KeyCode`: a key of the keyboard.
#[verifier::external_type_specification]
#[verifier::external_body]
pub struct ExKeyCode(pc_keyboard::KeyCode);

/// `pc_keyboard::Error`: why the decoder rejected a byte.
#[verifier::external_type_specification]
#[verifier::external_body]
pub struct ExError(pc_keyboard::Error);

/// A key as the decoder reports it: a character, or a key that stands for
/// none.
pub enum DecodedKey {
    RawKey(pc_keyboard::KeyCode),
    Unicode(char),
}

/// The bytes that the decoder has been fed since it was made, the first one
/// first.
pub uninterp spec fn fed(keyboard: KeyboardDecoder) -> Seq<u8>;

/// The key events that the decoder has turned into keys since it was made,
/// the first one first.
pub uninterp spec fn pressed(keyboard: KeyboardDecoder) -> Seq<pc_keyboard::KeyEvent>;

/// What `pc_keyboard::Keyboard::add_byte` reports for `byte` when the decoder
/// has been fed the bytes `fed` before.
pub uninterp spec fn key_event(fed: Seq<u8>, byte: u8) -> Result<
    Option<pc_keyboard::KeyEvent>,
    pc_keyboard::Error,
>;

/// What `pc_keyboard::Keyboard::process_keyevent` gives for `event` when the
/// decoder has turned the events `pressed` into keys before.
pub uninterp spec fn decoded_key(
    pressed: Seq<pc_keyboard::KeyEvent>,
    event: pc_keyboard::KeyEvent,
) -> Option<DecodedKey>;

/// Calls `pc_keyboard::Keyboard::new` for scancode set 1 and the US layout
/// with 104 keys, with no special handling of the control key. The decoder
/// that it makes has been given nothing yet.
#[verifier::external_body]
fn keyboard_new() -> (keyboard: KeyboardDecoder)
    ensures
        fed(keyboard) == Seq::<u8>::empty(),
        pressed(keyboard) == Seq::<pc_keyboard::KeyEvent>::empty(),
{
    KeyboardDecoder {
        decoder: pc_keyboard::Keyboard::new(
            pc_keyboard::ScancodeSet1::new(),
            pc_keyboard::layouts::Us104Key,
            pc_keyboard::HandleControl::Ignore,
        ),
    }
}

/// Calls `pc_keyboard::Keyboard::add_byte`, which feeds one scancode byte to
/// the decoder and reports the key event that the byte completes, if any.
/// What it reports goes by the bytes that were fed before and by nothing
/// else, and the modifiers are left alone.
#[verifier::external_body]
fn keyboard_add_byte(keyboard: &mut KeyboardDecoder, byte: u8) -> (r: Result<Option<pc_keyboard::KeyEvent>, pc_keyboard::Error>)
    ensures
        r == key_event(fed(*old(keyboard)), byte),
        fed(*final(keyboard)) == fed(*old(keyboard)).push(byte),
        pressed(*final(keyboard)) == pressed(*old(keyboard)),
{
    keyboard.decoder.add_byte(byte)
}

/// Calls `pc_keyboard::Keyboard::process_keyevent`, which turns a key event
/// into a key under the modifiers that are down at the time. The modifiers
/// go by the events that were turned into keys before and by nothing else,
/// and the state of the scancode bytes is left alone.
#[verifier::external_body]
fn keyboard_process_keyevent(keyboard: &mut KeyboardDecoder, event: pc_keyboard::KeyEvent) -> (r: Option<DecodedKey>)
    ensures
        r == decoded_key(pressed(*old(keyboard)), event),
        pressed(*final(keyboard)) == pressed(*old(keyboard)).push(event),
        fed(*final(keyboard)) == fed(*old(keyboard)),
{
    match keyboard.decoder.process_keyevent(event) {
        Some(pc_keyboard::DecodedKey::RawKey(code)) => Some(DecodedKey::RawKey(code)),
        Some(pc_keyboard::DecodedKey::Unicode(character)) => Some(DecodedKey::Unicode(character)),
        None => None,
    }
}

/// The decoder of the keyboard, with what it remembers between bytes: a
/// `pc_keyboard::Keyboard` for scancode set 1 and the US layout with 104 keys.
/// It is known here by what it has been given: `fed` and `pressed`.
#[verifier::external_body]
pub struct KeyboardDecoder {
    decoder: pc_keyboard::Keyboard<pc_keyboard::layouts::Us104Key, pc_keyboard::ScancodeSet1>,
}

/// The character that a key prints, if it prints one.
pub open spec fn printed(key: Option<DecodedKey>) -> Option<char> {
    match key {
        Some(DecodedKey::Unicode(character)) => Some(character),
        _ => None,
    }
}

/// The character that a key prints, if it prints one: a key that stands for
/// no character prints nothing.
pub fn printable(key: Option<DecodedKey>) -> (output: Option<char>)
    ensures
        output == printed(key),
{
    match key {
        Some(DecodedKey::Unicode(character)) => Some(character),
        _ => None,
    }
}

impl KeyboardDecoder {
    /// The key that the decoder gives when it is fed `scancode` next: the
    /// key of the event that the byte completes, and none where the byte
    /// completes no event or is rejected.
    pub open spec fn decodes(self, scancode: u8) -> Option<DecodedKey> {
        match key_event(fed(self), scancode) {
            Ok(Some(event)) => decoded_key(pressed(self), event),
            _ => None,
        }
    }

    /// Whether `after` is this decoder once it has been fed `scancode`: the
    /// byte is the last one fed, and the event that it completes, if any, is
    /// the last one turned into a key.
    pub open spec fn takes(self, scancode: u8, after: KeyboardDecoder) -> bool {
        &&& fed(after) == fed(self).push(scancode)
        &&& pressed(after) == match key_event(fed(self), scancode) {
            Ok(Some(event)) => pressed(self).push(event),
            _ => pressed(self),
        }
    }

    /// A decoder that has seen no byte yet.
    pub fn new() -> (keyboard: KeyboardDecoder)
        ensures
            fed(keyboard) == Seq::<u8>::empty(),
            pressed(keyboard) == Seq::<pc_keyboard::KeyEvent>::empty(),
    {
        keyboard_new()
    }

    /// The key that the scancode byte completes, if it completes one. A byte
    /// that the decoder rejects gives none.
    pub fn decode(&mut self, scancode: u8) -> (key: Option<DecodedKey>)
        ensures
            key == old(self).decodes(scancode),
            old(self).takes(scancode, *final(self)),
    {
        match keyboard_add_byte(self, scancode) {
            Ok(Some(event)) => keyboard_process_keyevent(self, event),
            _ => None,
        }
    }
}

/// Handles one keyboard interrupt: feeds the byte that was read from the data
/// port to the decoder, and gives the character to print, if the byte
/// completes a key that has one.
pub fn keyboard_interrupt_handler(keyboard: &mut KeyboardDecoder, scancode: u8) -> (output: Option<char>)
    ensures
        output == printed(old(keyboard).decodes(scancode)),
        old(keyboard).takes(scancode, *final(keyboard)),
{
    let key = keyboard.decode(scancode);
    printable(key)
}

} // verus!
