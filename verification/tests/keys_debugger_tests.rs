//! Tests of the joypad latch and of the debugger's pure state.

use gb_core::bus::Bus;
use gb_core::debugger::{Command, CommandType, Debugger};
use gb_core::keys::{GbKey, Keys};

fn empty_bus() -> Bus {
    let rom: Vec<u8> = vec![0u8; 0x8000];
    Bus::new_bus(&rom)
}

#[test]
fn the_direction_row_projects_when_bit_4_is_clear() {
    let mut bus = empty_bus();
    let mut keys = Keys::new_keys();
    keys.key_down(GbKey::Right);
    keys.key_down(GbKey::Down);
    bus.poke(0xFF00, 0x20); // select the direction row (bit 4 low)
    keys.update_register(&mut bus);
    assert_eq!(bus.fetch_byte(0xFF00), 0xF0 | 0b0110);
}

#[test]
fn the_button_row_projects_when_bit_5_is_clear() {
    let mut bus = empty_bus();
    let mut keys = Keys::new_keys();
    keys.key_down(GbKey::A);
    keys.key_down(GbKey::Start);
    bus.poke(0xFF00, 0x10); // select the button row (bit 5 low)
    keys.update_register(&mut bus);
    assert_eq!(bus.fetch_byte(0xFF00), 0xF0 | 0b0110);
}

#[test]
fn releasing_a_key_restores_its_bit() {
    let mut keys = Keys::new_keys();
    keys.key_down(GbKey::Left);
    assert_eq!(keys.row_1, 0b1101);
    keys.key_up(GbKey::Left);
    assert_eq!(keys.row_1, 0b1111);
    keys.key_down(GbKey::B);
    assert_eq!(keys.row_2, 0b1101);
    keys.key_up(GbKey::B);
    assert_eq!(keys.row_2, 0b1111);
}

#[test]
fn a_fresh_press_requests_the_joypad_interrupt() {
    let mut bus = empty_bus();
    let mut keys = Keys::new_keys();
    bus.poke(0xFF00, 0x2F); // direction row selected, all bits released
    keys.key_down(GbKey::Right);
    keys.update_register(&mut bus);
    assert_ne!(bus.fetch_byte(0xFF0F) & 0x10, 0, "joypad interrupt requested");
}

#[test]
fn an_unselected_register_is_left_alone() {
    let mut bus = empty_bus();
    bus.poke(0xFF00, 0x30); // neither row selected
    let keys = Keys::new_keys();
    keys.update_register(&mut bus);
    assert_eq!(bus.fetch_byte(0xFF00), 0x30);
    assert_eq!(bus.fetch_byte(0xFF0F), 0);
}

#[test]
fn breakpoints_are_added_once_and_removed_by_address() {
    let mut d = Debugger::new_debugger();
    assert_eq!(d.add_breakpoint(0x1234), 0);
    assert_eq!(d.add_breakpoint(0x2345), 1);
    assert_eq!(d.add_breakpoint(0x1234), -1, "duplicates are refused");
    assert!(d.is_a_breakpoint(0x1234));
    assert!(!d.is_a_breakpoint(0x9999));
    assert_eq!(d.remove_breakpoint(0x9999), -1);
    assert_eq!(d.remove_breakpoint(0x1234), 0);
    assert!(!d.is_a_breakpoint(0x1234));
    assert!(d.is_a_breakpoint(0x2345));
}

#[test]
fn value_breakpoints_match_de() {
    let mut d = Debugger::new_debugger();
    d.value_bp_de.push(0xBEEF);
    assert!(d.is_a_de_val_bp(0xBEEF));
    assert!(!d.is_a_de_val_bp(0xBEEE));
}

#[test]
fn pausing_is_remembered() {
    let mut d = Debugger::new_debugger();
    assert!(!d.paused);
    d.set_paused(true);
    assert!(d.paused);
    d.set_paused(false);
    assert!(!d.paused);
}

#[test]
fn number_tokens_parse_in_both_bases() {
    assert_eq!(Debugger::string_to_decimal(&String::from("0x1a2B")), 0x1A2B);
    assert_eq!(Debugger::string_to_decimal(&String::from("0xffff")), 0xFFFF);
    assert_eq!(Debugger::string_to_decimal(&String::from("123")), 123);
    assert_eq!(Debugger::string_to_decimal(&String::from("0")), 0);
    assert_eq!(Debugger::string_to_decimal(&String::from("65535")), 65535);
}

#[test]
fn commands_are_classified_by_their_first_token() {
    let tokens = vec![String::from("b"), String::from("add"), String::from("0x100")];
    let c = Command::parse_command(&tokens);
    assert!(matches!(c.name, CommandType::Breakpoint));
    assert_eq!(c.args.len(), 2);
    assert_eq!(c.args[0], "add");
    assert_eq!(c.args[1], "0x100");
    let c2 = Command::parse_command(&vec![String::from("s")]);
    assert!(matches!(c2.name, CommandType::Step));
    assert_eq!(c2.args.len(), 0);
    let c3 = Command::parse_command(&vec![String::from("bogus")]);
    assert!(matches!(c3.name, CommandType::Invalid));
    let c4 = Command::new_command();
    assert!(matches!(c4.name, CommandType::Invalid));
}
