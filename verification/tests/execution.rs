//! Single instructions: flags, addressing, bit numbers, and the
//! condition table.

use m68k::M68k;
use m68k::flags::condition;
use m68k::machine::HaltCause;
use m68k::machine::Status;

/// Loads an image and returns a machine ready to run it.
fn boot(image: &[u8]) -> M68k {
    let mut cpu = M68k::init();
    cpu.load(image.to_vec()).unwrap();
    cpu
}

#[test]
fn byte_add_overflow_boundary() {
    // 0x7F + 0x01: signed overflow and negative set, zero and carry clear.
    let mut cpu = boot(&[0x70, 0x7F, 0x06, 0x00, 0x00, 0x01]);
    assert!(cpu.run()); // moveq #0x7F, D0
    assert!(cpu.run()); // addi.b #1, D0
    assert_eq!(cpu.d_reg(0), 0x80);
    assert_eq!(cpu.sr_value() & 0x1F, 0b01010); // N and V
}

#[test]
fn byte_add_carry_boundary() {
    // 0xFF + 0x01: carry and zero set (extend aliases carry), overflow clear.
    let mut cpu = boot(&[0x70, 0xFF, 0x06, 0x00, 0x00, 0x01]);
    assert!(cpu.run()); // moveq #0xFF, D0
    assert!(cpu.run()); // addi.b #1, D0
    assert_eq!(cpu.d_reg(0), 0x00);
    assert_eq!(cpu.sr_value() & 0x1F, 0b10101); // X, Z and C
}

#[test]
fn byte_subtract_borrow() {
    // 0x00 - 0x01: borrow set, negative set.
    let mut cpu = boot(&[0x04, 0x00, 0x00, 0x01]);
    assert!(cpu.run()); // subi.b #1, D0
    assert_eq!(cpu.d_reg(0), 0xFF);
    assert_eq!(cpu.sr_value() & 0x1F, 0b11001); // X, N and C
}

#[test]
fn word_add_keeps_high_half() {
    // A word add into a register must not disturb the high 16 bits.
    let mut cpu = boot(&[
        0x20, 0x3C, 0xAB, 0xCD, 0xFF, 0xFF, // move.l #0xABCDFFFF, D0
        0x06, 0x40, 0x00, 0x01, // addi.w #1, D0
    ]);
    assert!(cpu.run());
    assert!(cpu.run());
    assert_eq!(cpu.d_reg(0), 0xABCD_0000);
    assert_eq!(cpu.sr_value() & 0x1F, 0b10101); // X, Z and C
}

#[test]
fn cmpi_equal_sets_zero_only() {
    let mut cpu = boot(&[0x70, 0x05, 0x0C, 0x00, 0x00, 0x05]);
    assert!(cpu.run()); // moveq #5, D0
    assert!(cpu.run()); // cmpi.b #5, D0
    assert_eq!(cpu.d_reg(0), 5); // compare writes nothing back
    assert_eq!(cpu.sr_value() & 0x1F, 0b00100); // Z alone, X untouched
}

#[test]
fn andi_long_masks_register() {
    let mut cpu = boot(&[
        0x20, 0x3C, 0xFF, 0x00, 0xFF, 0x00, // move.l #0xFF00FF00, D0
        0x02, 0x80, 0x0F, 0x0F, 0x0F, 0x0F, // andi.l #0x0F0F0F0F, D0
    ]);
    assert!(cpu.run());
    assert!(cpu.run());
    assert_eq!(cpu.d_reg(0), 0x0F00_0F00);
    assert_eq!(cpu.sr_value() & 0x0F, 0); // C, V, Z, N all clear
}

#[test]
fn andi_to_zero_sets_zero_flag() {
    let mut cpu = boot(&[0x70, 0x2A, 0x02, 0x80, 0x00, 0x00, 0x00, 0x00]);
    assert!(cpu.run()); // moveq #0x2A, D0
    assert!(cpu.run()); // andi.l #0, D0
    assert_eq!(cpu.d_reg(0), 0);
    assert_eq!(cpu.sr_value() & 0x0F, 0b0100); // Z set
}

#[test]
fn invalid_size_field_halts() {
    // An immediate op with size 0b11 must halt, not guess.
    let mut cpu = boot(&[0x06, 0xC0]);
    assert!(!cpu.run());
    assert_eq!(
        cpu.current_status(),
        Status::Halted(HaltCause::DecodeFault { op: 0x06C0, at: 0 })
    );
}

#[test]
fn eori_to_condition_codes() {
    let mut cpu = boot(&[0x0A, 0x3C, 0x00, 0x01]);
    assert!(cpu.run()); // eori.b #1, CCR
    assert_eq!(cpu.sr_value(), 0x0001); // carry now set
}

#[test]
fn moveq_loads_register() {
    let mut cpu = boot(&[0x70, 0x2A]);
    assert!(cpu.run());
    assert_eq!(cpu.d_reg(0), 0x2A);
    assert_eq!(cpu.sr_value(), 0); // quick load leaves the flags alone
}

#[test]
fn post_increment_steps_by_operand_width() {
    // move.b (A0)+; move.w (A0)+; move.l (A0)+ from address 0x100.
    let mut cpu = boot(&[
        0x20, 0x7C, 0x00, 0x00, 0x01, 0x00, // movea.l #0x100, A0
        0x10, 0x18, // move.b (A0)+, D0
        0x30, 0x18, // move.w (A0)+, D0
        0x20, 0x18, // move.l (A0)+, D0
    ]);
    assert!(cpu.run());
    assert_eq!(cpu.a_reg(0), 0x100);
    assert!(cpu.run());
    assert_eq!(cpu.a_reg(0), 0x101);
    assert!(cpu.run());
    assert_eq!(cpu.a_reg(0), 0x103);
    assert!(cpu.run());
    assert_eq!(cpu.a_reg(0), 0x107);
}

#[test]
fn pre_decrement_steps_by_operand_width() {
    let mut cpu = boot(&[
        0x20, 0x7C, 0x00, 0x00, 0x01, 0x00, // movea.l #0x100, A0
        0x10, 0x20, // move.b -(A0), D0
        0x30, 0x20, // move.w -(A0), D0
        0x20, 0x20, // move.l -(A0), D0
    ]);
    assert!(cpu.run());
    assert!(cpu.run());
    assert_eq!(cpu.a_reg(0), 0xFF);
    assert!(cpu.run());
    assert_eq!(cpu.a_reg(0), 0xFD);
    assert!(cpu.run());
    assert_eq!(cpu.a_reg(0), 0xF9);
}

#[test]
fn store_and_load_through_memory() {
    // A longword written through an absolute address reads back intact.
    let mut cpu = boot(&[
        0x20, 0x3C, 0xDE, 0xAD, 0xBE, 0xEF, // move.l #0xDEADBEEF, D0
        0x21, 0xC0, 0x01, 0x00, // move.l D0, (0x100).W
        0x22, 0x38, 0x01, 0x00, // move.l (0x100).W, D1
    ]);
    assert!(cpu.run());
    assert!(cpu.run());
    assert!(cpu.run());
    assert_eq!(cpu.d_reg(1), 0xDEAD_BEEF);
}

#[test]
fn byte_move_keeps_high_register_bytes() {
    let mut cpu = boot(&[
        0x20, 0x3C, 0x11, 0x22, 0x33, 0x44, // move.l #0x11223344, D0
        0x10, 0x3C, 0x00, 0x99, // move.b #0x99, D0
    ]);
    assert!(cpu.run());
    assert!(cpu.run());
    assert_eq!(cpu.d_reg(0), 0x1122_3399);
}

#[test]
fn bit_forty_of_register_is_bit_eight() {
    let mut cpu = boot(&[
        0x20, 0x3C, 0x00, 0x00, 0x01, 0x00, // move.l #0x100, D0
        0x08, 0x00, 0x00, 0x28, // btst #40, D0
        0x08, 0x00, 0x00, 0x08, // btst #8, D0
        0x08, 0x00, 0x00, 0x00, // btst #0, D0
    ]);
    assert!(cpu.run());
    assert!(cpu.run()); // bit 40 of a register is bit 8: set
    assert_eq!(cpu.sr_value() & 0b100, 0);
    assert!(cpu.run()); // bit 8: the same answer
    assert_eq!(cpu.sr_value() & 0b100, 0);
    assert!(cpu.run()); // bit 0 is clear
    assert_eq!(cpu.sr_value() & 0b100, 0b100);
}

#[test]
fn bit_forty_of_memory_byte_is_bit_zero() {
    let mut cpu = boot(&[
        0x08, 0x10, 0x00, 0x28, // btst #40, (A0): bit 0 of byte 0, clear
        0x08, 0xD0, 0x00, 0x28, // bset #40, (A0): sets bit 0
        0x08, 0x10, 0x00, 0x00, // btst #0, (A0): the very same bit, now set
    ]);
    assert!(cpu.run());
    assert_eq!(cpu.sr_value() & 0b100, 0b100); // tested bit was clear
    assert!(cpu.run());
    assert!(cpu.run());
    assert_eq!(cpu.sr_value() & 0b100, 0); // tested bit was set
}

#[test]
fn bclr_and_bchg_update_register_bits() {
    let mut cpu = boot(&[
        0x70, 0x03, // moveq #3, D0
        0x08, 0x80, 0x00, 0x00, // bclr #0, D0
        0x08, 0x40, 0x00, 0x02, // bchg #2, D0
    ]);
    assert!(cpu.run());
    assert!(cpu.run());
    assert_eq!(cpu.d_reg(0), 2);
    assert_eq!(cpu.sr_value() & 0b100, 0); // bit 0 was set before clearing
    assert!(cpu.run());
    assert_eq!(cpu.d_reg(0), 6);
    assert_eq!(cpu.sr_value() & 0b100, 0b100); // bit 2 was clear before flipping
}

#[test]
fn displacement_addressing() {
    // A signed 16-bit displacement on an address register.
    let mut cpu = boot(&[
        0x11, 0xFC, 0x00, 0x5A, 0x01, 0x02, // move.b #0x5A, (0x102).W
        0x20, 0x7C, 0x00, 0x00, 0x01, 0x00, // movea.l #0x100, A0
        0x10, 0x28, 0x00, 0x02, // move.b (2,A0), D0
        0x12, 0x28, 0xFF, 0xFE, // move.b (-2,A0), D1 reads 0xFE
    ]);
    assert!(cpu.run());
    assert!(cpu.run());
    assert!(cpu.run());
    assert_eq!(cpu.d_reg(0), 0x5A);
    assert!(cpu.run());
    assert_eq!(cpu.d_reg(1), 0); // byte at 0xFE is still zero
    assert_eq!(cpu.a_reg(0), 0x100); // displacement leaves the register alone
}

#[test]
fn indexed_addressing() {
    // An 8-bit displacement plus a data-register index.
    let mut cpu = boot(&[
        0x11, 0xFC, 0x00, 0x77, 0x01, 0x06, // move.b #0x77, (0x106).W
        0x20, 0x7C, 0x00, 0x00, 0x01, 0x00, // movea.l #0x100, A0
        0x72, 0x04, // moveq #4, D1
        0x10, 0x30, 0x10, 0x02, // move.b (2,A0,D1), D0
    ]);
    assert!(cpu.run());
    assert!(cpu.run());
    assert!(cpu.run());
    assert!(cpu.run());
    assert_eq!(cpu.d_reg(0), 0x77);
}

#[test]
fn pc_relative_addressing() {
    // The displacement counts from the extension word's own address; the
    // access goes to data memory.
    let mut cpu = boot(&[
        0x11, 0xFC, 0x00, 0x42, 0x01, 0x08, // move.b #0x42, (0x108).W
        0x10, 0x3A, 0x01, 0x00, // move.b (0x100,PC), D0: 8 + 0x100 = 0x108
    ]);
    assert!(cpu.run());
    assert!(cpu.run());
    assert_eq!(cpu.d_reg(0), 0x42);
}

#[test]
fn register_indirect_store() {
    let mut cpu = boot(&[
        0x20, 0x7C, 0x00, 0x00, 0x02, 0x00, // movea.l #0x200, A0
        0x70, 0x66, // moveq #0x66, D0
        0x10, 0x80, // move.b D0, (A0)
        0x12, 0x10, // move.b (A0), D1
    ]);
    assert!(cpu.run());
    assert!(cpu.run());
    assert!(cpu.run());
    assert!(cpu.run());
    assert_eq!(cpu.d_reg(1), 0x66);
}

#[test]
fn condition_table() {
    // status bits: carry 1, overflow 2, zero 4, negative 8
    assert!(condition(0, 0)); // always
    assert!(!condition(1, 0)); // never
    assert!(condition(2, 0)); // higher: no carry, not zero
    assert!(!condition(2, 0b100));
    assert!(condition(3, 0b001)); // lower or same
    assert!(condition(3, 0b100));
    assert!(!condition(3, 0));
    assert!(condition(4, 0) && !condition(4, 1)); // carry clear
    assert!(condition(5, 1) && !condition(5, 0)); // carry set
    assert!(condition(6, 0) && !condition(6, 0b100)); // not equal
    assert!(condition(7, 0b100) && !condition(7, 0)); // equal
    assert!(condition(8, 0) && !condition(8, 0b10)); // overflow clear
    assert!(condition(9, 0b10) && !condition(9, 0)); // overflow set
    assert!(condition(10, 0) && !condition(10, 0b1000)); // plus
    assert!(condition(11, 0b1000) && !condition(11, 0)); // minus
    assert!(condition(12, 0) && condition(12, 0b1010)); // greater or equal
    assert!(!condition(12, 0b1000) && !condition(12, 0b10));
    assert!(condition(13, 0b1000) && condition(13, 0b10)); // less than
    assert!(!condition(13, 0) && !condition(13, 0b1010));
    assert!(condition(14, 0) && !condition(14, 0b100)); // greater than
    assert!(!condition(14, 0b1000));
    assert!(condition(15, 0b100) && condition(15, 0b1000)); // less or equal
    assert!(!condition(15, 0));
}
