use cookie::instr::{DecodeError, Instr, OpGroup};
use cookie::registers::Register;

fn x(i: u8) -> Register {
    Register { index: i }
}

fn ok(w: u32) -> Instr {
    Instr::decode(w).expect("word should decode")
}

#[test]
fn addi_all_zero_fields() {
    assert_eq!(ok(0x0000_0013), Instr::Addi(0, x(0), x(0)));
}

#[test]
fn upper_immediates_use_top_twelve_bits() {
    // lui x5, 0x12345
    assert_eq!(ok(0x1234_52b7), Instr::Lui(0x123, x(5)));
    // auipc a0, 0
    assert_eq!(ok(0x0000_0517), Instr::AUIPC(0, x(10)));
    assert_eq!(ok(0xfff0_0537), Instr::Lui(-1, x(10)));
}

#[test]
fn jumps() {
    // jal ra, -4
    assert_eq!(ok(0xffdf_f0ef), Instr::Jal(-4, x(1)));
    // jal x0, 2048: only offset bit 11 (word bit 20) set
    assert_eq!(ok(0x0010_006f), Instr::Jal(2048, x(0)));
    // jalr x0, 0(x1)
    assert_eq!(ok(0x0000_8067), Instr::Jalr(0, x(1), x(0)));
    assert_eq!(ok(0xffc0_8067), Instr::Jalr(-4, x(1), x(0)));
}

#[test]
fn jump_with_top_bit_set_is_negative() {
    assert_eq!(ok(0x8000_006f), Instr::Jal(-1_048_576, x(0)));
}

#[test]
fn branches_list_second_source_first() {
    // beq x1, x2, 8 and the other comparisons with the same operands
    assert_eq!(ok(0x0020_8463), Instr::Beq(8, x(2), x(1)));
    assert_eq!(ok(0x0020_9463), Instr::Bne(8, x(2), x(1)));
    assert_eq!(ok(0x0020_c463), Instr::Blt(8, x(2), x(1)));
    assert_eq!(ok(0x0020_d463), Instr::Bge(8, x(2), x(1)));
    assert_eq!(ok(0x0020_e463), Instr::Bltu(8, x(2), x(1)));
    assert_eq!(ok(0x0020_f463), Instr::Bgeu(8, x(2), x(1)));
}

#[test]
fn branch_offset_bit_twelve_is_sign() {
    assert_eq!(ok(0x8000_0063), Instr::Beq(-4096, x(0), x(0)));
    // beq x0, x0, -2: every offset bit set
    assert_eq!(ok(0xfe00_0fe3), Instr::Beq(-2, x(0), x(0)));
    // offset bit 11 alone comes from word bit 7
    assert_eq!(ok(0x0000_00e3), Instr::Beq(2048, x(0), x(0)));
}

#[test]
fn loads() {
    assert_eq!(ok(0x0041_0183), Instr::Lb(4, x(2), x(3)));
    assert_eq!(ok(0x0041_1183), Instr::Lh(4, x(2), x(3)));
    assert_eq!(ok(0x0041_2183), Instr::Lw(4, x(2), x(3)));
    assert_eq!(ok(0x0041_4183), Instr::Lbu(4, x(2), x(3)));
    assert_eq!(ok(0x0041_5183), Instr::Lhu(4, x(2), x(3)));
    assert_eq!(ok(0xffc1_2183), Instr::Lw(-4, x(2), x(3)));
}

#[test]
fn stores_carry_two_sub_fields() {
    // sw x5, 12(x2): the high sub-field is the word's top twelve bits
    assert_eq!(ok(0x0051_2623), Instr::Sw(5, x(5), x(2), 12));
    assert_eq!(ok(0x0051_0623), Instr::Sb(5, x(5), x(2), 12));
    assert_eq!(ok(0x0051_1623), Instr::Sh(5, x(5), x(2), 12));
    // sw x0, -1(x0)
    assert_eq!(ok(0xfe00_2fa3), Instr::Sw(-32, x(0), x(0), 31));
}

#[test]
fn immediate_arithmetic() {
    assert_eq!(ok(0xfff1_0093), Instr::Addi(-1, x(2), x(1)));
    assert_eq!(ok(0xfff1_2093), Instr::Slti(-1, x(2), x(1)));
    assert_eq!(ok(0xfff1_3093), Instr::Sltiu(-1, x(2), x(1)));
    assert_eq!(ok(0xfff1_4093), Instr::Xori(-1, x(2), x(1)));
    assert_eq!(ok(0xfff1_6093), Instr::Ori(-1, x(2), x(1)));
    assert_eq!(ok(0xfff1_7093), Instr::Andi(-1, x(2), x(1)));
    assert_eq!(ok(0x7ff1_0093), Instr::Addi(2047, x(2), x(1)));
    assert_eq!(ok(0x8001_0093), Instr::Addi(-2048, x(2), x(1)));
}

#[test]
fn immediate_shifts() {
    assert_eq!(ok(0x0031_1093), Instr::Slli(3, x(2), x(1)));
    assert_eq!(ok(0x0031_5093), Instr::Srli(3, x(2), x(1)));
    assert_eq!(ok(0x4031_5093), Instr::Srai(3, x(2), x(1)));
    assert_eq!(ok(0x01f1_5093), Instr::Srli(31, x(2), x(1)));
}

#[test]
fn register_arithmetic() {
    assert_eq!(ok(0x0020_81b3), Instr::Add(x(2), x(1), x(3)));
    assert_eq!(ok(0x4020_81b3), Instr::Sub(x(2), x(1), x(3)));
    assert_eq!(ok(0x0020_91b3), Instr::Sll(2, x(1), x(3)));
    assert_eq!(ok(0x0020_a1b3), Instr::Slt(2, x(1), x(3)));
    assert_eq!(ok(0x0020_b1b3), Instr::Sltu(2, x(1), x(3)));
    assert_eq!(ok(0x0020_c1b3), Instr::Xor(x(2), x(1), x(3)));
    assert_eq!(ok(0x0020_d1b3), Instr::Srl(x(2), x(1), x(3)));
    assert_eq!(ok(0x4020_d1b3), Instr::Sra(x(2), x(1), x(3)));
    assert_eq!(ok(0x0020_e1b3), Instr::Or(x(2), x(1), x(3)));
    assert_eq!(ok(0x0020_f1b3), Instr::And(x(2), x(1), x(3)));
}

#[test]
fn fences() {
    assert_eq!(ok(0x03a0_000f), Instr::Fence(3, 10));
    assert_eq!(ok(0x0ff0_000f), Instr::Fence(15, 15));
    assert_eq!(ok(0x0000_100f), Instr::FenceI);
}

#[test]
fn system_and_csr() {
    assert_eq!(ok(0x0000_0073), Instr::Ecall);
    assert_eq!(ok(0x4000_0073), Instr::Ebreak);
    assert_eq!(ok(0x3001_10f3), Instr::Csrrw(0x300, x(2), x(1)));
    assert_eq!(ok(0x3001_20f3), Instr::Csrrs(0x300, x(2), x(1)));
    assert_eq!(ok(0x3001_30f3), Instr::Csrrc(0x300, x(2), x(1)));
    assert_eq!(ok(0x3002_d0f3), Instr::Cssrwi(0x300, 5, x(1)));
    assert_eq!(ok(0x3002_e0f3), Instr::Cssrsi(0x300, 5, x(1)));
    assert_eq!(ok(0x3002_f0f3), Instr::Cssrci(0x300, 5, x(1)));
    // the CSR address is never sign-extended
    assert_eq!(ok(0xc000_20f3), Instr::Csrrs(0xc00, x(0), x(1)));
    assert_eq!(ok(0xfff7_f0f3), Instr::Cssrci(0xfff, 15, x(1)));
}

#[test]
fn registers_cover_all_indices() {
    assert_eq!(ok(0xfff0_0f93), Instr::Addi(-1, x(0), x(31)));
    assert_eq!(ok(0x01ff_8fb3), Instr::Add(x(31), x(31), x(31)));
}

#[test]
fn unrecognized_opcodes() {
    assert_eq!(Instr::decode(0x0000_007f), Err(DecodeError::UnrecognizedOpcode(0x7f)));
    assert_eq!(Instr::decode(0xffff_ffff), Err(DecodeError::UnrecognizedOpcode(0x7f)));
    assert_eq!(Instr::decode(0x0000_0000), Err(DecodeError::UnrecognizedOpcode(0x00)));
}

#[test]
fn unused_function_fields() {
    assert_eq!(
        Instr::decode(0x0020_a463),
        Err(DecodeError::InvalidFunction(OpGroup::Branch, 2, 0x0020_a463))
    );
    assert_eq!(
        Instr::decode(0x0020_b463),
        Err(DecodeError::InvalidFunction(OpGroup::Branch, 3, 0x0020_b463))
    );
    assert_eq!(
        Instr::decode(0x0041_3183),
        Err(DecodeError::InvalidFunction(OpGroup::Load, 3, 0x0041_3183))
    );
    assert_eq!(
        Instr::decode(0x0041_7183),
        Err(DecodeError::InvalidFunction(OpGroup::Load, 7, 0x0041_7183))
    );
    assert_eq!(
        Instr::decode(0x0051_3623),
        Err(DecodeError::InvalidFunction(OpGroup::Store, 3, 0x0051_3623))
    );
    assert_eq!(
        Instr::decode(0x0000_200f),
        Err(DecodeError::InvalidFunction(OpGroup::Fence, 2, 0x0000_200f))
    );
    assert_eq!(
        Instr::decode(0x0000_4073),
        Err(DecodeError::InvalidFunction(OpGroup::System, 4, 0x0000_4073))
    );
}

#[test]
fn decoding_twice_agrees() {
    for w in [0x0000_0013u32, 0xffdf_f0ef, 0x8000_0063, 0x0000_007f, 0x0000_4073] {
        assert_eq!(Instr::decode(w), Instr::decode(w));
    }
}

#[test]
fn register_from_bits_keeps_low_five_bits() {
    assert_eq!(Register::from_bits(0x25).index(), 5);
    assert_eq!(Register::from_bits(31).index(), 31);
}
