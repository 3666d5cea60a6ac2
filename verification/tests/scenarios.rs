//! End-to-end programs: whole images run to a halting condition.

use m68k::M68k;
use m68k::machine::HaltCause;
use m68k::machine::Status;

fn boot(image: &[u8]) -> M68k {
    let mut cpu = M68k::init();
    cpu.load(image.to_vec()).unwrap();
    cpu
}

#[test]
fn move_immediate_then_halt() {
    // Two instructions: move.w #0x1234, D0; then the all-zero word, a
    // halting condition. Everything else stays at its initial value.
    let mut cpu = boot(&[0x30, 0x3C, 0x12, 0x34, 0x00, 0x00]);
    let steps = cpu.run_to_halt(10);
    assert_eq!(steps, 2);
    assert_eq!(cpu.d_reg(0), 0x1234);
    assert_eq!(
        cpu.current_status(),
        Status::Halted(HaltCause::DecodeFault { op: 0, at: 4 })
    );
    for i in 1..8 {
        assert_eq!(cpu.d_reg(i), 0);
    }
    for i in 0..7 {
        assert_eq!(cpu.a_reg(i), 0);
    }
    assert_eq!(cpu.a_reg(7), 0xFF_FFFF);
    assert_eq!(cpu.sr_value(), 0);
}

#[test]
fn jsr_and_rts_round_trip() {
    // jsr (0x0008).W; the word after it is where rts must come back to,
    // with the stack pointer restored.
    let mut cpu = boot(&[
        0x4E, 0xB8, 0x00, 0x08, // 0: jsr (0x0008).W
        0xFF, 0xFF, 0xFF, 0xFF, // 4: never executed before the return
        0x4E, 0x75, // 8: rts
    ]);
    let sp0 = cpu.a_reg(7);
    assert!(cpu.run()); // jsr
    assert_eq!(cpu.pc_value(), 8);
    assert_eq!(cpu.a_reg(7), sp0 - 4);
    assert!(cpu.run()); // rts
    assert_eq!(cpu.pc_value(), 4); // just past the jsr encoding
    assert_eq!(cpu.a_reg(7), sp0);
}

#[test]
fn bsr_and_rts_round_trip() {
    let mut cpu = boot(&[
        0x61, 0x00, 0x00, 0x04, // 0: bsr.w +4 (target 6)
        0xFF, 0xFF, // 4: never reached before the return
        0x4E, 0x75, // 6: rts
    ]);
    let sp0 = cpu.a_reg(7);
    assert!(cpu.run()); // bsr
    assert_eq!(cpu.pc_value(), 6);
    assert_eq!(cpu.a_reg(7), sp0 - 4);
    assert!(cpu.run()); // rts
    assert_eq!(cpu.pc_value(), 4);
    assert_eq!(cpu.a_reg(7), sp0);
}

#[test]
fn short_branch_taken_and_not_taken() {
    // bne.s +2 with the zero flag clear: taken, landing past the nop.
    let mut cpu = boot(&[0x66, 0x02, 0xFF, 0xFF, 0x4E, 0x71]);
    assert!(cpu.run());
    assert_eq!(cpu.pc_value(), 4); // 2 (after opcode) + 2
    // beq.s +2 with the zero flag clear: not taken.
    let mut cpu2 = boot(&[0x67, 0x02, 0x4E, 0x71, 0x4E, 0x71]);
    assert!(cpu2.run());
    assert_eq!(cpu2.pc_value(), 2);
}

#[test]
fn zero_displacement_uses_extension_word() {
    // bra with an 8-bit field of zero: the 16-bit extension word is the
    // displacement, counted from the address after the opcode word.
    let mut cpu = boot(&[0x60, 0x00, 0x00, 0x04, 0xFF, 0xFF, 0x4E, 0x71]);
    assert!(cpu.run());
    assert_eq!(cpu.pc_value(), 6); // 2 + 4
}

#[test]
fn backward_branch_sign_extends() {
    // A nop, then bra.s back to it: displacement 0xFC is -4 from address 4.
    let mut cpu = boot(&[0x4E, 0x71, 0x60, 0xFC, 0x4E, 0x71]);
    assert!(cpu.run()); // nop
    assert!(cpu.run()); // bra.s -4
    assert_eq!(cpu.pc_value(), 0);
}

#[test]
fn link_and_unlk_restore_frame() {
    let mut cpu = boot(&[
        0x4E, 0x51, 0xFF, 0xF8, // link A1, #-8
        0x4E, 0x59, // unlk A1
    ]);
    assert!(cpu.run());
    assert_eq!(cpu.a_reg(1), 0xFF_FFFB); // aliases the new stack top
    assert_eq!(cpu.a_reg(7), 0xFF_FFF3); // eight more bytes reserved
    assert!(cpu.run());
    assert_eq!(cpu.a_reg(1), 0); // saved value restored
    assert_eq!(cpu.a_reg(7), 0xFF_FFFF);
}

#[test]
fn trap_pushes_frame_and_halts() {
    let mut cpu = boot(&[0x4E, 0x43]);
    assert!(!cpu.run());
    assert_eq!(cpu.current_status(), Status::Halted(HaltCause::Trap { vector: 3 }));
    assert_eq!(cpu.a_reg(7), 0xFF_FFFF - 8); // saved PC and SR, a longword each
}

#[test]
fn illegal_instruction_pushes_frame_and_halts() {
    let mut cpu = boot(&[0x4A, 0xFC]);
    assert!(!cpu.run());
    assert_eq!(cpu.current_status(), Status::Halted(HaltCause::IllegalTrap { at: 0 }));
    assert_eq!(cpu.a_reg(7), 0xFF_FFFF - 8);
}

#[test]
fn stop_outside_supervisor_is_privilege_trap() {
    let mut cpu = boot(&[0x4E, 0x72, 0x27, 0x00]);
    assert!(!cpu.run());
    assert_eq!(
        cpu.current_status(),
        Status::Halted(HaltCause::PrivilegeTrap { at: 0 })
    );
    assert_eq!(cpu.a_reg(7), 0xFF_FFFF - 8);
}

#[test]
fn stop_in_supervisor_loads_status_word() {
    let mut cpu = boot(&[
        0x00, 0x7C, 0x20, 0x00, // ori.w #0x2000, SR: enter supervisor mode
        0x4E, 0x72, 0x27, 0x00, // stop #0x2700
    ]);
    assert!(cpu.run());
    assert_eq!(cpu.sr_value(), 0x2000);
    assert!(!cpu.run());
    assert_eq!(cpu.current_status(), Status::Halted(HaltCause::Stopped));
    assert_eq!(cpu.sr_value(), 0x2700);
    assert_eq!(cpu.a_reg(7), 0xFF_FFFF); // no frame on the orderly path
}

#[test]
fn fetch_past_end_halts() {
    let mut cpu = boot(&[0x4E, 0x71]);
    assert!(cpu.run()); // nop consumes the whole image
    assert!(!cpu.run());
    assert_eq!(cpu.current_status(), Status::Halted(HaltCause::EndOfImage { at: 2 }));
}

#[test]
fn empty_image_halts_at_once() {
    let mut cpu = boot(&[]);
    assert!(!cpu.run());
    assert_eq!(cpu.current_status(), Status::Halted(HaltCause::EndOfImage { at: 0 }));
}

#[test]
fn out_of_region_store_is_memory_fault() {
    // move.l D0, (0xFFFFFD).L: the last byte would fall past the region.
    let mut cpu = boot(&[0x23, 0xC0, 0x00, 0xFF, 0xFF, 0xFD]);
    assert!(!cpu.run());
    assert_eq!(
        cpu.current_status(),
        Status::Halted(HaltCause::MemFault { at: 0xFF_FFFD })
    );
}

#[test]
fn oversized_image_is_rejected() {
    let mut cpu = M68k::init();
    assert!(cpu.load(vec![0u8; 0x100_0000]).is_err());
    assert!(cpu.load(vec![0x4E, 0x71]).is_ok());
}

#[test]
fn halted_machine_stays_halted() {
    let mut cpu = boot(&[0x4E, 0x40]);
    assert!(!cpu.run());
    let st = cpu.current_status();
    assert!(!cpu.run()); // a second step changes nothing
    assert_eq!(cpu.current_status(), st);
    assert_eq!(cpu.run_to_halt(5), 0);
}

#[test]
fn jmp_absolute_and_register_indirect() {
    let mut cpu = boot(&[
        0x4E, 0xF8, 0x00, 0x06, // 0: jmp (0x0006).W
        0xFF, 0xFF, // 4: skipped
        0x20, 0x7C, 0x00, 0x00, 0x00, 0x0E, // 6: movea.l #0x0E, A0
        0x4E, 0xD0, // 12: jmp (A0)
        0x4E, 0x71, // 14: nop
    ]);
    assert!(cpu.run());
    assert_eq!(cpu.pc_value(), 6);
    assert!(cpu.run());
    assert!(cpu.run());
    assert_eq!(cpu.pc_value(), 14);
    let sp = cpu.a_reg(7);
    assert_eq!(sp, 0xFF_FFFF); // plain jumps push nothing
}

#[test]
fn jmp_to_data_register_is_undefined() {
    let mut cpu = boot(&[0x4E, 0xC0]); // jmp D0: no control address
    assert!(!cpu.run());
    assert_eq!(
        cpu.current_status(),
        Status::Halted(HaltCause::DecodeFault { op: 0x4EC0, at: 0 })
    );
}

#[test]
fn andi_to_status_word_leaves_supervisor_mode() {
    let mut cpu = boot(&[
        0x00, 0x7C, 0x20, 0x00, // ori.w #0x2000, SR
        0x02, 0x7C, 0xDF, 0xFF, // andi.w #0xDFFF, SR
        0x4E, 0x72, 0x00, 0x00, // stop: no longer privileged
    ]);
    assert!(cpu.run());
    assert!(cpu.run());
    assert_eq!(cpu.sr_value(), 0);
    assert!(!cpu.run());
    assert_eq!(
        cpu.current_status(),
        Status::Halted(HaltCause::PrivilegeTrap { at: 8 })
    );
}

#[test]
fn reload_revives_a_halted_machine() {
    let mut cpu = boot(&[0x4E, 0x40]);
    assert!(!cpu.run());
    cpu.load(vec![0x70, 0x07]).unwrap();
    assert!(cpu.is_running());
    assert_eq!(cpu.pc_value(), 0);
    assert_eq!(cpu.a_reg(7), 0xFF_FFFF); // stack pointer reset on load
    assert!(cpu.run());
    assert_eq!(cpu.d_reg(0), 7);
}

#[test]
fn run_to_halt_counts_steps() {
    let mut cpu = boot(&[0x4E, 0x71, 0x4E, 0x71, 0x4E, 0x71]);
    assert_eq!(cpu.run_to_halt(2), 2); // budget exhausted while running
    assert!(cpu.is_running());
    assert_eq!(cpu.run_to_halt(10), 2); // one nop, then the end of the image
    assert!(!cpu.is_running());
}
