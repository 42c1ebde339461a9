use kernel_with_bootloader::keyboard::{char_of_signal, KeyDecoder, KeySignal};
use kernel_with_bootloader::traps::{
    init_idt, TrapHandler, BREAKPOINT_VECTOR, DOUBLE_FAULT_VECTOR, TRAP_VECTOR_COUNT,
};

#[test]
fn trap_table_populates_exactly_two_vectors() {
    let table = init_idt();
    assert_eq!(table.entries.len(), TRAP_VECTOR_COUNT);
    assert_eq!(table.entries[BREAKPOINT_VECTOR], TrapHandler::Breakpoint);
    assert_eq!(table.entries[DOUBLE_FAULT_VECTOR], TrapHandler::DoubleFault);
    for (vector, entry) in table.entries.iter().enumerate() {
        if vector != BREAKPOINT_VECTOR && vector != DOUBLE_FAULT_VECTOR {
            assert_eq!(*entry, TrapHandler::Missing);
        }
    }
}

#[test]
fn char_of_signal_keeps_characters_only() {
    assert_eq!(char_of_signal(KeySignal::Character('x')), Some('x'));
    assert_eq!(char_of_signal(KeySignal::Control), None);
    assert_eq!(char_of_signal(KeySignal::Incomplete), None);
}

#[test]
fn a_key_press_decodes_to_a_character() {
    let mut decoder = KeyDecoder::new();
    // Scan-code set 1: 0x1E is the press of the A key.
    assert_eq!(decoder.poll_step(0x1e), Some('a'));
}

#[test]
fn shift_is_consumed_silently_and_applied() {
    let mut decoder = KeyDecoder::new();
    // 0x2A is the left-shift press: a complete event with no character.
    assert_eq!(decoder.poll_step(0x2a), None);
    assert_eq!(decoder.poll_step(0x1e), Some('A'));
}
