//! End-to-end scenarios on the simulator: register-zero immutability,
//! control-flow redirection, fall-through, arithmetic, memory access,
//! and fault behavior.

use rv32i_sim::cpu::RV32I;
use rv32i_sim::encode::{encode_b, encode_i, encode_j, encode_r, encode_s, encode_u};
use rv32i_sim::Fault;

fn program_bytes(words: &[u32]) -> Vec<u8> {
    let mut bytes = Vec::new();
    for w in words {
        bytes.push((w & 0xFF) as u8);
        bytes.push(((w >> 8) & 0xFF) as u8);
        bytes.push(((w >> 16) & 0xFF) as u8);
        bytes.push(((w >> 24) & 0xFF) as u8);
    }
    bytes
}

fn loaded(words: &[u32]) -> RV32I {
    let mut sim = RV32I::new();
    sim.load_bytes(0, &program_bytes(words)).unwrap();
    sim
}

#[test]
fn addi_places_93_in_register_10() {
    // The word 0x05D00513 encodes an immediate-ALU instruction putting
    // decimal 93 into rd = 10 with rs1 = 0.
    let mut sim = loaded(&[0x05D0_0513]);
    sim.tick().unwrap();
    assert_eq!(sim.read_register(10), 93);
    assert_eq!(sim.read_pc(), 4);
}

#[test]
fn register_zero_stays_zero() {
    let mut sim = loaded(&[
        encode_i(0x13, 0, 0, 0, 93),        // immediate ALU write to x0
        encode_u(0x37, 0, 0xFFFF_F000),     // LUI to x0
        encode_u(0x17, 0, 0x1000),          // AUIPC to x0
        encode_r(0x33, 0, 0, 0, 0, 0),      // register ALU write to x0
        encode_i(0x03, 2, 0, 0, 0x100),     // load into x0
        encode_j(0x6F, 0, 4),               // JAL linking into x0
    ]);
    for _ in 0..6 {
        sim.tick().unwrap();
        assert_eq!(sim.read_register(0), 0);
    }
}

#[test]
fn jal_redirects_without_extra_advance() {
    let mut sim = loaded(&[encode_j(0x6F, 1, 12)]);
    sim.tick().unwrap();
    // The net delta is the target, not target + 4, and rd holds pc + 4.
    assert_eq!(sim.read_pc(), 12);
    assert_eq!(sim.read_register(1), 4);
}

#[test]
fn jal_negative_offset_wraps_back() {
    let mut sim = loaded(&[
        encode_i(0x13, 0, 1, 0, 7), // filler so address 4 holds the jump
        encode_j(0x6F, 0, 0xFFFF_FFFC),
    ]);
    sim.tick().unwrap();
    sim.tick().unwrap();
    assert_eq!(sim.read_pc(), 0);
}

#[test]
fn jalr_redirects_and_clears_bit_zero() {
    let mut sim = loaded(&[
        encode_i(0x13, 0, 1, 0, 100),  // x1 = 100
        encode_i(0x67, 0, 5, 1, 3),    // JALR x5, 3(x1): target (100 + 3) & !1
    ]);
    sim.tick().unwrap();
    sim.tick().unwrap();
    assert_eq!(sim.read_pc(), 102);
    assert_eq!(sim.read_register(5), 8);
}

#[test]
fn branch_taken_redirects_without_extra_advance() {
    let mut sim = loaded(&[encode_b(0x63, 0, 0, 0, 16)]); // BEQ x0, x0, +16
    sim.tick().unwrap();
    assert_eq!(sim.read_pc(), 16);
}

#[test]
fn branch_backward_from_nonzero_pc() {
    let mut sim = loaded(&[
        encode_i(0x13, 0, 1, 0, 1),          // x1 = 1
        encode_b(0x63, 1, 1, 0, 0xFFFF_FFFC), // BNE x1, x0, -4
    ]);
    sim.tick().unwrap();
    sim.tick().unwrap();
    assert_eq!(sim.read_pc(), 0);
}

#[test]
fn branch_not_taken_falls_through_by_4() {
    let mut sim = loaded(&[encode_b(0x63, 1, 0, 0, 16)]); // BNE x0, x0, +16
    sim.tick().unwrap();
    assert_eq!(sim.read_pc(), 4);
}

#[test]
fn signed_and_unsigned_branch_comparisons() {
    // x1 = -1 (signed) = 0xFFFFFFFF (unsigned), x2 = 1.
    let mut sim = loaded(&[
        encode_i(0x13, 0, 1, 0, 0xFFFF_FFFF),
        encode_i(0x13, 0, 2, 0, 1),
        encode_b(0x63, 4, 1, 2, 8), // BLT x1, x2: taken, -1 < 1 signed
    ]);
    sim.tick().unwrap();
    sim.tick().unwrap();
    sim.tick().unwrap();
    assert_eq!(sim.read_pc(), 16);

    let mut sim = loaded(&[
        encode_i(0x13, 0, 1, 0, 0xFFFF_FFFF),
        encode_i(0x13, 0, 2, 0, 1),
        encode_b(0x63, 6, 1, 2, 8), // BLTU x1, x2: not taken, huge > 1 unsigned
    ]);
    sim.tick().unwrap();
    sim.tick().unwrap();
    sim.tick().unwrap();
    assert_eq!(sim.read_pc(), 12);
}

#[test]
fn store_then_load_round_trips() {
    let mut sim = loaded(&[
        encode_i(0x13, 0, 1, 0, 1234),   // x1 = 1234
        encode_s(0x23, 2, 0, 1, 0x100),  // SW x1, 0x100(x0)
        encode_i(0x03, 2, 2, 0, 0x100),  // LW x2, 0x100(x0)
    ]);
    sim.tick().unwrap();
    sim.tick().unwrap();
    sim.tick().unwrap();
    assert_eq!(sim.read_register(2), 1234);
    assert_eq!(sim.read_memory(0x100, 4).unwrap(), 1234);
    assert_eq!(sim.read_pc(), 12);
}

#[test]
fn unaligned_access_is_permitted() {
    let mut sim = loaded(&[
        encode_u(0x37, 1, 0x1234_5000),  // x1 = 0x12345000
        encode_i(0x13, 0, 1, 1, 0x678),  // x1 = 0x12345678
        encode_s(0x23, 2, 0, 1, 0x101),  // SW x1 at the odd address 0x101
        encode_i(0x03, 2, 2, 0, 0x101),  // LW x2 from 0x101
    ]);
    for _ in 0..4 {
        sim.tick().unwrap();
    }
    assert_eq!(sim.read_register(2), 0x1234_5678);
}

#[test]
fn load_sign_and_zero_extension() {
    let mut sim = loaded(&[
        encode_i(0x13, 0, 1, 0, 0x80),   // x1 = 0x80
        encode_s(0x23, 0, 0, 1, 0x200),  // SB x1, 0x200(x0)
        encode_i(0x03, 0, 2, 0, 0x200),  // LB x2: sign-extends 0x80
        encode_i(0x03, 4, 3, 0, 0x200),  // LBU x3: zero-extends 0x80
        encode_u(0x37, 4, 0x8000_0000),  // x4 = 0x80000000
        encode_i(0x13, 5, 4, 4, 0x410),  // SRAI x4, x4, 16 -> 0xFFFF8000
        encode_s(0x23, 1, 0, 4, 0x204),  // SH x4, 0x204(x0): stores 0x8000
        encode_i(0x03, 1, 5, 0, 0x204),  // LH x5: sign-extends 0x8000
        encode_i(0x03, 5, 6, 0, 0x204),  // LHU x6: zero-extends 0x8000
    ]);
    for _ in 0..9 {
        sim.tick().unwrap();
    }
    assert_eq!(sim.read_register(2), 0xFFFF_FF80);
    assert_eq!(sim.read_register(3), 0x80);
    assert_eq!(sim.read_register(5), 0xFFFF_8000);
    assert_eq!(sim.read_register(6), 0x8000);
}

#[test]
fn alu_operations_compute_exact_values() {
    let mut sim = loaded(&[
        encode_i(0x13, 0, 1, 0, 5),          // x1 = 5
        encode_i(0x13, 0, 2, 0, 7),          // x2 = 7
        encode_r(0x33, 0, 0, 3, 1, 2),       // ADD  x3 = 12
        encode_r(0x33, 0, 0x20, 4, 1, 2),    // SUB  x4 = 5 - 7 = -2
        encode_r(0x33, 4, 0, 5, 1, 2),       // XOR  x5 = 2
        encode_r(0x33, 6, 0, 6, 1, 2),       // OR   x6 = 7
        encode_r(0x33, 7, 0, 7, 1, 2),       // AND  x7 = 5
        encode_r(0x33, 1, 0, 8, 2, 1),       // SLL  x8 = 7 << 5 = 224
        encode_r(0x33, 2, 0, 9, 4, 1),       // SLT  x9 = (-2 < 5) = 1
        encode_r(0x33, 3, 0, 10, 4, 1),      // SLTU x10 = (huge < 5) = 0
    ]);
    for _ in 0..10 {
        sim.tick().unwrap();
    }
    assert_eq!(sim.read_register(3), 12);
    assert_eq!(sim.read_register(4), 0xFFFF_FFFE);
    assert_eq!(sim.read_register(5), 2);
    assert_eq!(sim.read_register(6), 7);
    assert_eq!(sim.read_register(7), 5);
    assert_eq!(sim.read_register(8), 224);
    assert_eq!(sim.read_register(9), 1);
    assert_eq!(sim.read_register(10), 0);
}

#[test]
fn shift_right_arithmetic_vs_logical() {
    let mut sim = loaded(&[
        encode_u(0x37, 1, 0x8000_0000),  // x1 = 0x80000000
        encode_i(0x13, 5, 2, 1, 0x404),  // SRAI x2, x1, 4 -> 0xF8000000
        encode_i(0x13, 5, 3, 1, 0x004),  // SRLI x3, x1, 4 -> 0x08000000
    ]);
    sim.tick().unwrap();
    sim.tick().unwrap();
    sim.tick().unwrap();
    assert_eq!(sim.read_register(2), 0xF800_0000);
    assert_eq!(sim.read_register(3), 0x0800_0000);
}

#[test]
fn add_wraps_on_overflow() {
    let mut sim = loaded(&[
        encode_u(0x37, 1, 0x8000_0000),  // x1 = 0x80000000
        encode_r(0x33, 0, 0, 2, 1, 1),   // ADD x2 = x1 + x1 wraps to 0
        encode_i(0x13, 0, 3, 0, 0xFFFF_FFFF), // x3 = -1
        encode_i(0x13, 0, 3, 3, 1),      // x3 = -1 + 1 wraps to 0
    ]);
    for _ in 0..4 {
        sim.tick().unwrap();
    }
    assert_eq!(sim.read_register(2), 0);
    assert_eq!(sim.read_register(3), 0);
}

#[test]
fn lui_and_auipc() {
    let mut sim = loaded(&[
        encode_u(0x37, 1, 0xABCD_E000),  // LUI x1
        encode_u(0x17, 2, 0x0000_1000),  // AUIPC x2 = 0x1000 + 4
    ]);
    sim.tick().unwrap();
    sim.tick().unwrap();
    assert_eq!(sim.read_register(1), 0xABCD_E000);
    assert_eq!(sim.read_register(2), 0x1004);
}

#[test]
fn out_of_bounds_load_at_last_valid_address_plus_one() {
    // Capacity 2048: the last valid byte address is 2047. A one-byte load
    // at 2048 must fault with OutOfBounds, not panic and not truncate.
    let mut sim = RV32I::construct(2048, 0);
    sim.load_bytes(
        0,
        &program_bytes(&[
            encode_i(0x13, 0, 1, 0, 2047), // x1 = 2047
            encode_i(0x03, 0, 2, 1, 1),    // LB x2, 1(x1): address 2048
        ]),
    )
    .unwrap();
    sim.tick().unwrap();
    assert_eq!(sim.tick(), Err(Fault::OutOfBounds));
    // The faulting step leaves the state as it was: pc still at the load.
    assert_eq!(sim.read_pc(), 4);
    assert_eq!(sim.read_register(2), 0);
}

#[test]
fn out_of_bounds_store_at_last_valid_address_plus_one() {
    let mut sim = RV32I::construct(2048, 0);
    sim.load_bytes(
        0,
        &program_bytes(&[
            encode_i(0x13, 0, 1, 0, 2047), // x1 = 2047
            encode_s(0x23, 0, 1, 1, 1),    // SB x1, 1(x1): address 2048
        ]),
    )
    .unwrap();
    sim.tick().unwrap();
    assert_eq!(sim.tick(), Err(Fault::OutOfBounds));
    assert_eq!(sim.read_pc(), 4);
    // Nothing was written anywhere.
    assert_eq!(sim.read_memory(2044, 4).unwrap(), 0);
}

#[test]
fn word_access_straddling_the_end_faults() {
    let sim = RV32I::construct(2048, 0);
    assert_eq!(sim.read_memory(2044, 4), Ok(0));
    assert_eq!(sim.read_memory(2045, 4), Err(Fault::OutOfBounds));
    assert_eq!(sim.read_memory(2047, 1), Ok(0));
    assert_eq!(sim.read_memory(2048, 1), Err(Fault::OutOfBounds));
}

#[test]
fn fetch_past_the_end_faults() {
    let mut sim = RV32I::construct(8, 0);
    sim.load_bytes(0, &program_bytes(&[encode_j(0x6F, 0, 8)])).unwrap();
    sim.tick().unwrap(); // jumps to 8, one past the last full word
    assert_eq!(sim.tick(), Err(Fault::OutOfBounds));
    assert_eq!(sim.read_pc(), 8);
}

#[test]
fn illegal_instruction_faults_and_preserves_state() {
    let mut sim = loaded(&[0x0000_0000]);
    assert_eq!(sim.tick(), Err(Fault::IllegalInstruction));
    assert_eq!(sim.read_pc(), 0);
    let mut sim = loaded(&[0xFFFF_FFFF]);
    assert_eq!(sim.tick(), Err(Fault::IllegalInstruction));
    assert_eq!(sim.read_pc(), 0);
}

#[test]
fn load_bytes_overflow_faults_and_copies_nothing() {
    let mut sim = RV32I::construct(16, 0);
    let too_big = vec![0xAAu8; 17];
    assert_eq!(sim.load_bytes(0, &too_big), Err(Fault::OutOfBounds));
    assert_eq!(sim.read_memory(0, 4).unwrap(), 0);
    let straddling = vec![0xAAu8; 4];
    assert_eq!(sim.load_bytes(13, &straddling), Err(Fault::OutOfBounds));
    assert_eq!(sim.read_memory(12, 4).unwrap(), 0);
    assert_eq!(sim.load_bytes(12, &straddling), Ok(()));
    assert_eq!(sim.read_memory(12, 4).unwrap(), 0xAAAA_AAAA);
}

#[test]
fn construct_sets_entry_pc_and_zeroed_state() {
    let sim = RV32I::construct(64, 16);
    assert_eq!(sim.read_pc(), 16);
    for i in 0..32 {
        assert_eq!(sim.read_register(i), 0);
    }
    assert_eq!(sim.read_memory(0, 4).unwrap(), 0);
    assert_eq!(sim.read_memory(60, 4).unwrap(), 0);
}
