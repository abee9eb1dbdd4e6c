use m6502::bus::{Bus, Ram};
use m6502::CPU;

fn machine_with(program: &[u8], at: u16) -> CPU<Ram> {
    let mut ram = Ram::new();
    ram.load(program, at as usize);
    let mut cpu = CPU::new(ram);
    cpu.pc = at;
    cpu
}

#[test]
fn lda_immediate_sets_negative() {
    let mut cpu = machine_with(&[0xA9, 0x80], 0x0600);
    assert_eq!(cpu.execute(), Ok(()));
    assert_eq!(cpu.ac, 0x80);
    assert_eq!(cpu.pc, 0x0602);
    assert!(!cpu.status.zero());
    assert!(cpu.status.negative());
    assert_eq!(cpu.status.byte, 0xA0);
    assert_eq!(cpu.cycles_left, 2);
}

#[test]
fn adc_with_carry_in_and_overflow() {
    let mut cpu = machine_with(&[0x69, 0x50], 0x0600);
    cpu.ac = 0x50;
    cpu.status.byte = 0x21;
    assert_eq!(cpu.execute(), Ok(()));
    assert_eq!(cpu.ac, 0xA1);
    assert!(!cpu.status.carry());
    assert!(!cpu.status.zero());
    assert!(cpu.status.negative());
    assert!(cpu.status.overflow());
    assert_eq!(cpu.status.byte, 0xE0);
}

#[test]
fn sbc_without_borrow() {
    let mut cpu = machine_with(&[0xE9, 0x30], 0x0600);
    cpu.ac = 0x50;
    cpu.status.set_carry(true);
    assert_eq!(cpu.execute(), Ok(()));
    assert_eq!(cpu.ac, 0x20);
    assert!(cpu.status.carry());
    assert!(!cpu.status.zero());
    assert!(!cpu.status.negative());
    assert!(!cpu.status.overflow());
}

#[test]
fn branch_taken_updates_pc_by_signed_offset() {
    let mut cpu = machine_with(&[0xF0, 0xFE], 0x0600);
    cpu.status.set_zero(true);
    assert_eq!(cpu.execute(), Ok(()));
    assert_eq!(cpu.pc, 0x0600);
}

#[test]
fn branch_not_taken_stays_past_operand() {
    let mut cpu = machine_with(&[0xF0, 0xFE], 0x0600);
    assert_eq!(cpu.execute(), Ok(()));
    assert_eq!(cpu.pc, 0x0602);
}

#[test]
fn branch_forward_adds_offset() {
    let mut cpu = machine_with(&[0xD0, 0x05], 0x0600);
    assert_eq!(cpu.execute(), Ok(()));
    assert_eq!(cpu.pc, 0x0607);
}

#[test]
fn jsr_then_rts_round_trip() {
    let mut cpu = machine_with(&[0x20, 0x10, 0x06], 0x0600);
    cpu.bus.write(0x0610, 0x60);
    cpu.stack_pointer = 0x40;
    assert_eq!(cpu.execute(), Ok(()));
    assert_eq!(cpu.pc, 0x0610);
    assert_eq!(cpu.stack_pointer, 0x42);
    assert_eq!(cpu.bus.read_word(0x0140), 0x0603);
    assert_eq!(cpu.execute(), Ok(()));
    assert_eq!(cpu.pc, 0x0603);
    assert_eq!(cpu.stack_pointer, 0x40);
}

#[test]
fn indirect_x_load() {
    let mut cpu = machine_with(&[0xA1, 0x20], 0x0600);
    cpu.x = 0x04;
    cpu.bus.write(0x0024, 0x74);
    cpu.bus.write(0x0025, 0x20);
    cpu.bus.write(0x2074, 0x99);
    assert_eq!(cpu.execute(), Ok(()));
    assert_eq!(cpu.ac, 0x99);
    assert!(!cpu.status.zero());
    assert!(cpu.status.negative());
}

#[test]
fn indirect_y_load_adds_y_after_the_pointer() {
    let mut cpu = machine_with(&[0xB1, 0x20], 0x0600);
    cpu.y = 0x10;
    cpu.bus.write_word(0x0020, 0x20F8);
    cpu.bus.write(0x2108, 0x07);
    assert_eq!(cpu.execute(), Ok(()));
    assert_eq!(cpu.ac, 0x07);
}

#[test]
fn zero_page_x_wraps_within_the_zero_page() {
    let mut cpu = machine_with(&[0xB5, 0xF0], 0x0600);
    cpu.x = 0x20;
    cpu.bus.write(0x0010, 0x33);
    cpu.bus.write(0x0110, 0x44);
    assert_eq!(cpu.execute(), Ok(()));
    assert_eq!(cpu.ac, 0x33);
}

#[test]
fn absolute_x_wraps_at_the_end_of_the_address_space() {
    let mut cpu = machine_with(&[0xBD, 0xFF, 0xFF], 0x0600);
    cpu.x = 0x02;
    cpu.bus.write(0x0001, 0x5A);
    assert_eq!(cpu.execute(), Ok(()));
    assert_eq!(cpu.ac, 0x5A);
    assert_eq!(cpu.pc, 0x0603);
}

#[test]
fn indirect_jump_reads_its_target() {
    let mut cpu = machine_with(&[0x6C, 0x00, 0x30], 0x0600);
    cpu.bus.write_word(0x3000, 0x1234);
    assert_eq!(cpu.execute(), Ok(()));
    assert_eq!(cpu.pc, 0x1234);
    assert_eq!(cpu.cycles_left, 5);
}

#[test]
fn store_is_visible_on_the_bus() {
    let mut cpu = machine_with(&[0x8D, 0x00, 0x02], 0x0600);
    cpu.ac = 0x7B;
    assert_eq!(cpu.execute(), Ok(()));
    assert_eq!(cpu.bus.read(0x0200), 0x7B);
    assert_eq!(cpu.status.byte, 0x20);
}

#[test]
fn increment_memory_wraps_and_sets_zero() {
    let mut cpu = machine_with(&[0xE6, 0x10], 0x0600);
    cpu.bus.write(0x0010, 0xFF);
    assert_eq!(cpu.execute(), Ok(()));
    assert_eq!(cpu.bus.read(0x0010), 0x00);
    assert!(cpu.status.zero());
    assert!(!cpu.status.negative());
}

#[test]
fn program_counter_wraps_while_fetching() {
    let mut cpu = machine_with(&[], 0xFFFF);
    cpu.bus.write(0xFFFF, 0xA9);
    cpu.bus.write(0x0000, 0x11);
    assert_eq!(cpu.execute(), Ok(()));
    assert_eq!(cpu.ac, 0x11);
    assert_eq!(cpu.pc, 0x0001);
}
