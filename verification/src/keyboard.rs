//! The scan-code decoder behind the input loop: raw keyboard bytes go in,
//! decoded Unicode characters come out. The binary around this crate busy-
//! polls the hardware port and hands each byte to `poll_step`; bytes that do
//! not complete a key event, and key events with no character meaning, are
//! consumed silently and polling goes on.

use vstd::prelude::*;

verus! {

/// What one decoded step of the keyboard state machine yielded.
#[derive(Clone, Copy, PartialEq, Eq, Structural, Debug)]
pub enum KeySignal {
    /// A complete key event that decodes to a Unicode character.
    Character(char),
    /// A complete key event with no character meaning (a modifier, a raw key).
    Control,
    /// The byte did not complete a key event, or could not be decoded.
    Incomplete,
}

/// A complete key press or release event of the keyboard support crate.
#[verifier::external_type_specification]
#[verifier::external_body]
pub struct ExKeyEvent(pc_keyboard::KeyEvent);

/// The character a decoded signal yields, if any: the decision the input
/// loop applies to every outcome the hardware decoder can produce.
pub fn char_of_signal(signal: KeySignal) -> (r: Option<char>)
    ensures
        r == (match signal {
            KeySignal::Character(c) => Some(c),
            KeySignal::Control => None::<char>,
            KeySignal::Incomplete => None::<char>,
        }),
{
    match signal {
        KeySignal::Character(c) => Some(c),
        _ => None,
    }
}

/// The scan-code decoder state held across polls, opaque to the verifier
/// (its type parameters carry trait bounds the verifier cannot state). At
/// most one caller may decode at a time; the binary keeps the single
/// instance behind a mutual-exclusion guard.
#[verifier::external_body]
pub struct KeyDecoder {
    kb: pc_keyboard::PS2Keyboard<pc_keyboard::layouts::Us104Key, pc_keyboard::ScancodeSet1>,
}

impl KeyDecoder {
    /// Relies on pc_keyboard::PS2Keyboard::new: builds a fresh decoder for
    /// the US 104-key layout and scan-code set 1, with control-key mapping
    /// ignored and no partial scan-code sequence pending.
    #[verifier::external_body]
    pub fn new() -> KeyDecoder {
        KeyDecoder {
            kb: pc_keyboard::PS2Keyboard::new(
                pc_keyboard::ScancodeSet1::new(),
                pc_keyboard::layouts::Us104Key,
                pc_keyboard::HandleControl::Ignore,
            ),
        }
    }

    /// Relies on pc_keyboard::PS2Keyboard::add_byte: advances the scan-code
    /// state machine by one byte. A completed key event comes back as Some;
    /// an incomplete prefix, or a byte the set cannot decode, comes back as
    /// None and is thereby discarded, as the poll loop calls for.
    #[verifier::external_body]
    fn add_byte(&mut self, scancode: u8) -> Option<pc_keyboard::KeyEvent> {
        match self.kb.add_byte(scancode) {
            Ok(Some(ev)) => Some(ev),
            Ok(None) => None,
            Err(_) => None,
        }
    }

    /// Relies on pc_keyboard::PS2Keyboard::process_keyevent: applies the
    /// current modifier state to a key event. A Unicode character comes
    /// back as Character, a key with no Unicode meaning as Control, and an
    /// event the modifier state consumed as Incomplete.
    #[verifier::external_body]
    fn process(&mut self, ev: pc_keyboard::KeyEvent) -> KeySignal {
        match self.kb.process_keyevent(ev) {
            Some(pc_keyboard::DecodedKey::Unicode(c)) => KeySignal::Character(c),
            Some(pc_keyboard::DecodedKey::RawKey(_)) => KeySignal::Control,
            None => KeySignal::Incomplete,
        }
    }

    /// Feeds one scan-code byte to the decoder. Some when the byte
    /// completed a key event that decodes to a concrete character — there
    /// the input loop stops — and None when the byte was consumed silently,
    /// whereupon polling goes on. Which of the two comes back is the
    /// hardware decoder's decision, not stated here.
    pub fn poll_step(&mut self, scancode: u8) -> (r: Option<char>) {
        match self.add_byte(scancode) {
            Some(ev) => {
                let signal = self.process(ev);
                char_of_signal(signal)
            },
            None => None,
        }
    }
}

} // verus!
