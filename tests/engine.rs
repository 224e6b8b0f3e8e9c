use i8080_emu::{
    decode_opcode, emulate_8080_op, parity, shift_nn, Cond, ConditionCodes, ImageTooLarge,
    Instruction, Pair, Reg, State8080, StepOutcome, MEMORY_SIZE, PROGRAM_LIMIT,
};

fn loaded(image: &[u8]) -> State8080 {
    let mut state = State8080::new();
    state.load_program(image).unwrap();
    state
}

#[test]
fn new_condition_codes_reset_pattern() {
    let cc = ConditionCodes::new();
    assert!(cc.z);
    assert!(cc.s);
    assert_eq!(cc.p, 1);
    assert_eq!(cc.cy, 1);
    assert_eq!(cc.ac, 1);
    assert_eq!(cc.pad, 3);
}

#[test]
fn new_state_is_zeroed() {
    let state = State8080::new();
    assert_eq!(
        (state.a, state.b, state.c, state.d, state.e, state.h, state.l),
        (0, 0, 0, 0, 0, 0, 0)
    );
    assert_eq!(state.sp, 0);
    assert_eq!(state.pc, 0);
    assert!(state.memory.iter().all(|&b| b == 0));
    assert_eq!(state.memory.len(), MEMORY_SIZE);
    assert_eq!(state.cc, ConditionCodes::new());
    assert!(state.int_enable);
}

#[test]
fn lxi_b_scenario() {
    let mut state = loaded(&[0x01, 0x34, 0x12, 0x00]);
    assert_eq!(emulate_8080_op(&mut state), StepOutcome::Continue);
    assert_eq!(state.c, 0x34);
    assert_eq!(state.b, 0x12);
    assert_eq!(state.pc, 3);
}

#[test]
fn lxi_sp_scenario() {
    let mut state = loaded(&[0x31, 0x00, 0x20]);
    assert_eq!(emulate_8080_op(&mut state), StepOutcome::Continue);
    assert_eq!(state.sp, 0x2000);
    assert_eq!(state.pc, 3);
}

#[test]
fn undefined_opcode_faults_without_change() {
    let mut state = loaded(&[0x02, 0x11, 0x22]);
    state.b = 0x40;
    state.c = 0x00;
    state.a = 0x99;
    let out = emulate_8080_op(&mut state);
    assert_eq!(out, StepOutcome::Fault { opcode: 0x02, address: 0 });
    assert_eq!(state.pc, 0);
    assert_eq!(state.a, 0x99);
    assert_eq!((state.b, state.c), (0x40, 0x00));
    assert_eq!(state.memory[0x4000 - 1], 0);
    assert_eq!(&state.memory[0..3], &[0x02, 0x11, 0x22]);
    assert!(state.memory[3..].iter().all(|&b| b == 0));
}

#[test]
fn halt_opcode_is_undefined() {
    let mut state = loaded(&[0x00, 0x76]);
    assert_eq!(emulate_8080_op(&mut state), StepOutcome::Continue);
    assert_eq!(state.pc, 1);
    assert_eq!(emulate_8080_op(&mut state), StepOutcome::Fault { opcode: 0x76, address: 1 });
    assert_eq!(state.pc, 1);
}

#[test]
fn pc_at_limit_halts() {
    let mut state = State8080::new();
    state.pc = PROGRAM_LIMIT;
    assert_eq!(emulate_8080_op(&mut state), StepOutcome::Halted);
    assert_eq!(state.pc, 0x2000);
    state.pc = 0x1fff;
    assert_eq!(emulate_8080_op(&mut state), StepOutcome::Continue);
    assert_eq!(state.pc, 0x2000);
}

#[test]
fn nop_advances_pc_only() {
    let mut state = loaded(&[0x00]);
    assert_eq!(emulate_8080_op(&mut state), StepOutcome::Continue);
    assert_eq!(state.pc, 1);
    assert_eq!(state.cc, ConditionCodes::new());
}

#[test]
fn lxi_d_and_h() {
    let mut state = loaded(&[0x11, 0xcd, 0xab, 0x21, 0x01, 0x02]);
    emulate_8080_op(&mut state);
    assert_eq!((state.d, state.e), (0xab, 0xcd));
    emulate_8080_op(&mut state);
    assert_eq!((state.h, state.l), (0x02, 0x01));
    assert_eq!(state.pc, 6);
}

#[test]
fn mvi_loads_each_register() {
    let mut state = loaded(&[
        0x06, 0x11, 0x0e, 0x22, 0x16, 0x33, 0x1e, 0x44, 0x26, 0x00, 0x2e, 0x80, 0x3e, 0x77,
        0x36, 0x5a,
    ]);
    for _ in 0..8 {
        assert_eq!(emulate_8080_op(&mut state), StepOutcome::Continue);
    }
    assert_eq!(
        (state.b, state.c, state.d, state.e, state.h, state.l, state.a),
        (0x11, 0x22, 0x33, 0x44, 0x00, 0x80, 0x77)
    );
    assert_eq!(state.memory[0x0080], 0x5a);
    assert_eq!(state.pc, 16);
}

#[test]
fn inx_wraps_at_sixteen_bits() {
    let mut state = loaded(&[0x13, 0x23, 0x03, 0x33]);
    state.d = 0x12;
    state.e = 0xff;
    state.h = 0xff;
    state.l = 0xff;
    state.b = 0x00;
    state.c = 0x00;
    state.sp = 0xffff;
    let cc = state.cc;
    for _ in 0..4 {
        emulate_8080_op(&mut state);
    }
    assert_eq!((state.d, state.e), (0x13, 0x00));
    assert_eq!((state.h, state.l), (0x00, 0x00));
    assert_eq!((state.b, state.c), (0x00, 0x01));
    assert_eq!(state.sp, 0x0000);
    assert_eq!(state.cc, cc);
    assert_eq!(state.pc, 4);
}

#[test]
fn dcr_b_wraps_and_sets_flags() {
    let mut state = loaded(&[0x05, 0x05]);
    state.b = 1;
    emulate_8080_op(&mut state);
    assert_eq!(state.b, 0);
    assert!(state.cc.z);
    assert!(!state.cc.s);
    assert_eq!(state.cc.p, 1);
    assert_eq!(state.cc.ac, 1);
    emulate_8080_op(&mut state);
    assert_eq!(state.b, 0xff);
    assert!(!state.cc.z);
    assert!(state.cc.s);
    assert_eq!(state.cc.p, 1);
    assert_eq!(state.cc.ac, 0);
    assert_eq!(state.cc.cy, 1);
}

#[test]
fn inr_h_wraps_and_sets_flags() {
    let mut state = loaded(&[0x24, 0x24]);
    state.h = 0xfe;
    state.cc.cy = 0;
    emulate_8080_op(&mut state);
    assert_eq!(state.h, 0xff);
    assert!(!state.cc.z);
    assert!(state.cc.s);
    assert_eq!(state.cc.p, 1);
    assert_eq!(state.cc.ac, 0);
    emulate_8080_op(&mut state);
    assert_eq!(state.h, 0x00);
    assert!(state.cc.z);
    assert!(!state.cc.s);
    assert_eq!(state.cc.ac, 1);
    assert_eq!(state.cc.cy, 0);
}

#[test]
fn inr_a_odd_parity() {
    let mut state = loaded(&[0x3c]);
    state.a = 0x06;
    emulate_8080_op(&mut state);
    assert_eq!(state.a, 0x07);
    assert_eq!(state.cc.p, 0);
    assert!(!state.cc.z);
}

#[test]
fn inr_dcr_zero_and_sign_for_every_value() {
    for v in 0..=255u8 {
        let mut state = loaded(&[0x0c, 0x0d, 0x0d]);
        state.c = v;
        emulate_8080_op(&mut state);
        assert_eq!(state.c, v.wrapping_add(1));
        assert_eq!(state.cc.z, state.c == 0);
        assert_eq!(state.cc.s, state.c & 0x80 == 0x80);
        emulate_8080_op(&mut state);
        emulate_8080_op(&mut state);
        assert_eq!(state.c, v.wrapping_sub(1));
        assert_eq!(state.cc.z, state.c == 0);
        assert_eq!(state.cc.s, state.c & 0x80 == 0x80);
        assert_eq!(state.cc.p, if state.c.count_ones() % 2 == 0 { 1 } else { 0 });
    }
}

#[test]
fn inr_m_changes_memory() {
    let mut state = loaded(&[0x34, 0x35, 0x35]);
    state.h = 0x01;
    state.l = 0x00;
    emulate_8080_op(&mut state);
    assert_eq!(state.memory[0x0100], 1);
    emulate_8080_op(&mut state);
    emulate_8080_op(&mut state);
    assert_eq!(state.memory[0x0100], 0xff);
    assert!(state.cc.s);
}

#[test]
fn mov_between_registers() {
    let mut state = loaded(&[0x41, 0x42, 0x43, 0x78]);
    state.c = 1;
    state.d = 2;
    state.e = 3;
    let cc = state.cc;
    emulate_8080_op(&mut state);
    assert_eq!(state.b, 1);
    emulate_8080_op(&mut state);
    assert_eq!(state.b, 2);
    emulate_8080_op(&mut state);
    assert_eq!(state.b, 3);
    emulate_8080_op(&mut state);
    assert_eq!(state.a, 3);
    assert_eq!(state.cc, cc);
}

#[test]
fn mov_m_a_stores_through_hl() {
    let mut state = loaded(&[0x77, 0x7e]);
    state.h = 0x12;
    state.l = 0x34;
    state.a = 0xab;
    emulate_8080_op(&mut state);
    assert_eq!(state.memory[0x1234], 0xab);
    state.a = 0;
    emulate_8080_op(&mut state);
    assert_eq!(state.a, 0xab);
}

#[test]
fn store_address_wraps_to_memory_size() {
    let mut state = loaded(&[0x77]);
    state.h = 0xc0;
    state.l = 0x05;
    state.a = 0x5e;
    emulate_8080_op(&mut state);
    assert_eq!(state.memory[0x0005], 0x5e);
}

#[test]
fn ldax_d_and_b() {
    let mut state = loaded(&[0x1a, 0x0a]);
    state.memory[0x0300] = 0x42;
    state.memory[0x0301] = 0x24;
    state.d = 0x03;
    state.e = 0x00;
    state.b = 0x03;
    state.c = 0x01;
    emulate_8080_op(&mut state);
    assert_eq!(state.a, 0x42);
    emulate_8080_op(&mut state);
    assert_eq!(state.a, 0x24);
}

#[test]
fn jmp_sets_pc() {
    let mut state = loaded(&[0xc3, 0x34, 0x12]);
    emulate_8080_op(&mut state);
    assert_eq!(state.pc, 0x1234);
}

#[test]
fn conditional_jump_taken_and_not_taken() {
    let image = [0xc2, 0x00, 0x10];
    let mut taken = loaded(&image);
    taken.cc.z = false;
    emulate_8080_op(&mut taken);
    assert_eq!(taken.pc, 0x1000);
    let mut skipped = loaded(&image);
    skipped.cc.z = true;
    emulate_8080_op(&mut skipped);
    assert_eq!(skipped.pc, 3);
    assert_eq!((skipped.a, skipped.b, skipped.c, skipped.sp), (0, 0, 0, 0));
    assert_eq!(skipped.memory, taken.memory);
}

#[test]
fn other_conditional_jumps() {
    let cases: [(u8, fn(&mut ConditionCodes), bool); 8] = [
        (0xca, |cc| cc.z = true, true),
        (0xd2, |cc| cc.cy = 1, false),
        (0xda, |cc| cc.cy = 1, true),
        (0xe2, |cc| cc.p = 0, true),
        (0xea, |cc| cc.p = 0, false),
        (0xf2, |cc| cc.s = false, true),
        (0xfa, |cc| cc.s = false, false),
        (0xc2, |cc| cc.z = true, false),
    ];
    for (op, set, jumps) in cases.iter() {
        let mut state = loaded(&[*op, 0x50, 0x00]);
        set(&mut state.cc);
        assert_eq!(emulate_8080_op(&mut state), StepOutcome::Continue);
        assert_eq!(state.pc, if *jumps { 0x0050 } else { 3 }, "opcode {:02x}", op);
    }
}

#[test]
fn call_pushes_return_address() {
    let mut state = loaded(&[0x31, 0x00, 0x20, 0xcd, 0x00, 0x01]);
    emulate_8080_op(&mut state);
    emulate_8080_op(&mut state);
    assert_eq!(state.pc, 0x0100);
    assert_eq!(state.sp, 0x1ffe);
    assert_eq!(state.memory[0x1fff], 0x00);
    assert_eq!(state.memory[0x1ffe], 0x06);
}

#[test]
fn call_then_return_restores_pc_and_sp() {
    let mut state = loaded(&[0x31, 0x00, 0x20, 0xcd, 0x00, 0x01]);
    state.memory[0x0100] = 0xc9;
    emulate_8080_op(&mut state);
    emulate_8080_op(&mut state);
    assert_eq!(emulate_8080_op(&mut state), StepOutcome::Continue);
    assert_eq!(state.pc, 6);
    assert_eq!(state.sp, 0x2000);
}

#[test]
fn call_with_zero_sp_wraps() {
    let mut state = loaded(&[0xcd, 0x10, 0x00]);
    state.memory[0x0010] = 0xc9;
    emulate_8080_op(&mut state);
    assert_eq!(state.sp, 0xfffe);
    assert_eq!(state.memory[0x3fff], 0x00);
    assert_eq!(state.memory[0x3ffe], 0x03);
    emulate_8080_op(&mut state);
    assert_eq!(state.pc, 3);
    assert_eq!(state.sp, 0);
}

#[test]
fn shift_nn_joins_bytes() {
    assert_eq!(shift_nn(0x12, 0x34), 0x1234);
    assert_eq!(shift_nn(0xff, 0x00), 0xff00);
    assert_eq!(shift_nn(0x00, 0xff), 0x00ff);
}

#[test]
fn byte_pair_round_trip() {
    for v in [0u16, 1, 0x00ff, 0x0100, 0x1234, 0xfffe, 0xffff] {
        assert_eq!(shift_nn((v >> 8) as u8, (v & 0xff) as u8), v);
    }
}

#[test]
fn parity_values() {
    assert_eq!(parity(0x00), 1);
    assert_eq!(parity(0x01), 0);
    assert_eq!(parity(0x03), 1);
    assert_eq!(parity(0x07), 0);
    assert_eq!(parity(0xff), 1);
    assert_eq!(parity(0x80), 0);
}

#[test]
fn decode_classes() {
    assert_eq!(decode_opcode(0x00), Instruction::Nop);
    assert_eq!(decode_opcode(0x31), Instruction::Lxi(Pair::SP));
    assert_eq!(decode_opcode(0x36), Instruction::Mvi(Reg::M));
    assert_eq!(decode_opcode(0x23), Instruction::Inx(Pair::HL));
    assert_eq!(decode_opcode(0x3d), Instruction::Dcr(Reg::A));
    assert_eq!(decode_opcode(0x77), Instruction::Mov(Reg::M, Reg::A));
    assert_eq!(decode_opcode(0x1a), Instruction::Ldax(Pair::DE));
    assert_eq!(decode_opcode(0xc2), Instruction::Jcond(Cond::NotZero));
    assert_eq!(decode_opcode(0xfa), Instruction::Jcond(Cond::Minus));
    assert_eq!(decode_opcode(0xc3), Instruction::Jmp);
    assert_eq!(decode_opcode(0xcd), Instruction::Call);
    assert_eq!(decode_opcode(0xc9), Instruction::Ret);
    assert_eq!(decode_opcode(0x02), Instruction::Unimplemented);
    assert_eq!(decode_opcode(0x76), Instruction::Unimplemented);
    assert_eq!(decode_opcode(0x80), Instruction::Unimplemented);
    assert_eq!(decode_opcode(0xff), Instruction::Unimplemented);
}

#[test]
fn load_program_fills_from_zero() {
    let mut state = State8080::new();
    state.memory[10] = 9;
    assert_eq!(state.load_program(&[1, 2, 3]), Ok(()));
    assert_eq!(&state.memory[0..4], &[1, 2, 3, 0]);
    assert_eq!(state.memory[10], 9);
}

#[test]
fn load_program_full_size_fits() {
    let mut state = State8080::new();
    let image = vec![0xaa; MEMORY_SIZE];
    assert_eq!(state.load_program(&image), Ok(()));
    assert_eq!(state.memory[MEMORY_SIZE - 1], 0xaa);
}

#[test]
fn load_program_too_large_is_refused() {
    let mut state = State8080::new();
    let image = vec![0xaa; MEMORY_SIZE + 1];
    assert_eq!(state.load_program(&image), Err(ImageTooLarge { len: MEMORY_SIZE + 1 }));
    assert!(state.memory.iter().all(|&b| b == 0));
}

