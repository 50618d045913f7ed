// Every fault the dispatch engine can report, each provoked by a program
// that reaches the unsafe condition; the machine is left unchanged.

use chip8::machine::Chip8;
use chip8::flow::Fault;

fn machine_with(rom: Vec<u8>) -> Chip8 {
    let mut c = Chip8::new();
    c.load(&rom);
    c
}

#[test]
fn fault_pc_out_of_range() {
    let mut c = machine_with(vec![0x1F, 0xFF]); // jump to 0xFFF
    c.emulate_cycle(0).unwrap();
    assert_eq!(c.pc, 0xFFF); // second fetch byte would be at 0x1000
    assert_eq!(c.emulate_cycle(0), Err(Fault::PcOutOfRange));
    assert_eq!(c.pc, 0xFFF);
}

#[test]
fn fault_stack_overflow() {
    // 0x200: 2200 calls itself forever; the 17th call finds no slot.
    let mut c = machine_with(vec![0x22, 0x00]);
    for _ in 0..16 {
        c.emulate_cycle(0).unwrap();
    }
    assert_eq!(c.sp, 16);
    assert_eq!(c.emulate_cycle(0), Err(Fault::StackOverflow));
    assert_eq!(c.sp, 16);
}

#[test]
fn fault_stack_underflow() {
    let mut c = machine_with(vec![0x00, 0xEE]); // ret with no call
    assert_eq!(c.emulate_cycle(0), Err(Fault::StackUnderflow));
    assert_eq!(c.pc, 0x200);
}

#[test]
fn fault_draw_out_of_range() {
    // Draw at (200, 30): set bits would leave the framebuffer.
    let mut c = machine_with(vec![0xD0, 0x15]);
    c.i = 0x50; // glyph 0, all rows have set bits
    c.v[0] = 200;
    c.v[1] = 30;
    assert_eq!(c.emulate_cycle(0), Err(Fault::DrawOutOfRange));
    assert!(c.gfx.iter().all(|&p| p == 0));
}

#[test]
fn fault_draw_memory_read_out_of_range() {
    let mut c = machine_with(vec![0xD0, 0x15]);
    c.i = 4094; // five sprite rows would read past memory
    assert_eq!(c.emulate_cycle(0), Err(Fault::DrawOutOfRange));
}

#[test]
fn fault_memory_out_of_range_bcd() {
    let mut c = machine_with(vec![0xF0, 0x33]);
    c.i = 4094;
    assert_eq!(c.emulate_cycle(0), Err(Fault::MemoryOutOfRange));
}

#[test]
fn fault_memory_out_of_range_store() {
    let mut c = machine_with(vec![0xF3, 0x55]);
    c.i = 4093; // four registers would end past memory
    assert_eq!(c.emulate_cycle(0), Err(Fault::MemoryOutOfRange));
}

#[test]
fn fault_flags_out_of_range() {
    // F375 with I = 20: the flag file has 16 slots.
    let mut c = machine_with(vec![0xF3, 0x75]);
    c.i = 20;
    assert_eq!(c.emulate_cycle(0), Err(Fault::FlagsOutOfRange));
}

#[test]
fn fault_key_out_of_range() {
    let mut c = machine_with(vec![0xE0, 0x9E]);
    c.v[0] = 200;
    assert_eq!(c.emulate_cycle(0), Err(Fault::KeyOutOfRange));
    let mut d = machine_with(vec![0xE0, 0xA1]);
    d.v[0] = 16;
    assert_eq!(d.emulate_cycle(0), Err(Fault::KeyOutOfRange));
}

#[test]
fn fault_index_overflow() {
    let mut c = machine_with(vec![0xF0, 0x1E]);
    c.i = 0xFFFF;
    c.v[0] = 1;
    assert_eq!(c.emulate_cycle(0), Err(Fault::IndexOverflow));
    assert_eq!(c.i, 0xFFFF);
}

#[test]
fn fault_unknown_opcode() {
    let mut c = machine_with(vec![0x5A, 0xB1]); // 5xy1 matches nothing
    assert_eq!(c.emulate_cycle(0), Err(Fault::UnknownOpcode));
    assert_eq!(c.pc, 0x200);

    let mut d = machine_with(vec![0x8A, 0xB9]); // 8xy9 matches nothing
    assert_eq!(d.emulate_cycle(0), Err(Fault::UnknownOpcode));
}

#[test]
fn fault_native_call() {
    let mut c = machine_with(vec![0x01, 0x23]); // 0nnn not otherwise matched
    assert_eq!(c.emulate_cycle(0), Err(Fault::NativeCall));
    assert_eq!(c.pc, 0x200);
}

#[test]
fn in_range_draw_still_succeeds_near_edge() {
    // Sprite with one set bit at the bottom-right corner: stays in range.
    let mut c = machine_with(vec![0xD0, 0x11]);
    c.memory[0x300] = 0x01; // bit at col 7
    c.i = 0x300;
    c.v[0] = 56;
    c.v[1] = 31;
    c.emulate_cycle(0).unwrap();
    assert_eq!(c.gfx[31 * 64 + 63], 1);
}
