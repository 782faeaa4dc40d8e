//! RV32I instruction words: field extraction, immediate reconstruction and
//! the decode table from a 32-bit word to an [`Instr`].
use vstd::prelude::*;

use crate::registers::Register;

verus! {

/// A signed immediate operand.
pub type Imm = i32;

/// A shift amount.
pub type Shamt = i32;

/// A fence predecessor-ordering mask.
pub type Pred = u8;

/// A fence successor-ordering mask.
pub type Succ = u8;

/// A zero-extended CSR immediate.
pub type Zimm = u32;

/// A CSR address.
pub type Csr = u32;

/// One decoded instruction.  Branches and stores list the second source
/// register before the first; stores carry the high and low immediate
/// sub-fields separately, as (high, rs2, rs1, low).
#[derive(Debug, Clone, Copy, PartialEq, Eq, Structural)]
pub enum Instr {
    Lui(Imm, Register),
    AUIPC(Imm, Register),
    Jal(Imm, Register),
    Jalr(Imm, Register, Register),
    Beq(Imm, Register, Register),
    Bne(Imm, Register, Register),
    Blt(Imm, Register, Register),
    Bge(Imm, Register, Register),
    Bltu(Imm, Register, Register),
    Bgeu(Imm, Register, Register),
    Lb(Imm, Register, Register),
    Lh(Imm, Register, Register),
    Lw(Imm, Register, Register),
    Lbu(Imm, Register, Register),
    Lhu(Imm, Register, Register),
    Sb(Imm, Register, Register, Imm),
    Sh(Imm, Register, Register, Imm),
    Sw(Imm, Register, Register, Imm),
    Addi(Imm, Register, Register),
    Slti(Imm, Register, Register),
    Sltiu(Imm, Register, Register),
    Xori(Imm, Register, Register),
    Ori(Imm, Register, Register),
    Andi(Imm, Register, Register),
    Slli(Shamt, Register, Register),
    Srli(Shamt, Register, Register),
    Srai(Shamt, Register, Register),
    Add(Register, Register, Register),
    Sub(Register, Register, Register),
    Sll(Shamt, Register, Register),
    Slt(Shamt, Register, Register),
    Sltu(Shamt, Register, Register),
    Xor(Register, Register, Register),
    Srl(Register, Register, Register),
    Sra(Register, Register, Register),
    Or(Register, Register, Register),
    And(Register, Register, Register),
    Fence(Pred, Succ),
    FenceI,
    Ecall,
    Ebreak,
    Csrrw(Csr, Register, Register),
    Csrrs(Csr, Register, Register),
    Csrrc(Csr, Register, Register),
    Cssrwi(Csr, Zimm, Register),
    Cssrsi(Csr, Zimm, Register),
    Cssrci(Csr, Zimm, Register),
}

/// The opcode groups whose function field selects among several operations.
#[derive(Debug, Clone, Copy, PartialEq, Eq, Structural)]
pub enum OpGroup {
    Branch,
    Load,
    Store,
    ImmArith,
    Fence,
    System,
}

/// Why a word does not denote an instruction.
#[derive(Debug, Clone, Copy, PartialEq, Eq, Structural)]
pub enum DecodeError {
    /// The low seven bits name no opcode group; carries those seven bits.
    UnrecognizedOpcode(u8),
    /// The function field (bits 12..=14) is not used by the group; carries
    /// the group, the function field and the whole word.
    InvalidFunction(OpGroup, u8, u32),
}

/// Opcode values (bits 0..=6) of the eleven instruction groups.
pub const OP_LUI: u32 = 0x37;
pub const OP_AUIPC: u32 = 0x17;
pub const OP_JAL: u32 = 0x6f;
pub const OP_JALR: u32 = 0x67;
pub const OP_BRANCH: u32 = 0x63;
pub const OP_LOAD: u32 = 0x03;
pub const OP_STORE: u32 = 0x23;
pub const OP_IMM: u32 = 0x13;
pub const OP_REG: u32 = 0x33;
pub const OP_FENCE: u32 = 0x0f;
pub const OP_SYSTEM: u32 = 0x73;

/// Bits 0..=6.
pub open spec fn opcode_of(w: u32) -> u32 {
    w & 0x7f
}

/// Bits 12..=14, the function field.
pub open spec fn funct3_of(w: u32) -> u32 {
    (w >> 12) & 0x7
}

/// Bit 30, which tells apart the two operations sharing a function field.
pub open spec fn bit30_of(w: u32) -> u32 {
    (w >> 30) & 0x1
}

/// Destination register, bits 7..=11.
pub open spec fn rd_of(w: u32) -> Register {
    Register::spec_from_bits(w >> 7)
}

/// First source register, bits 15..=19.
pub open spec fn rs1_of(w: u32) -> Register {
    Register::spec_from_bits(w >> 15)
}

/// Second source register, bits 20..=24.
pub open spec fn rs2_of(w: u32) -> Register {
    Register::spec_from_bits(w >> 20)
}

/// Bits 20..=31 read as a 12-bit two's-complement number.
pub open spec fn imm_i_of(w: u32) -> i32 {
    let raw = (w >> 20) as int;
    (if raw >= 0x800 { raw - 0x1000 } else { raw }) as i32
}

/// Bits 7..=11, the low sub-field of a store offset, unsigned.
pub open spec fn imm_s_low_of(w: u32) -> i32 {
    ((w >> 7) & 0x1f) as i32
}

/// The branch offset before sign extension: bit 31 gives offset bit 12,
/// bit 7 gives bit 11, bits 25..=30 give bits 10..=5, bits 8..=11 give
/// bits 4..=1, and bit 0 is zero.
pub open spec fn branch_raw_of(w: u32) -> int {
    ((w >> 31) & 0x1) * 0x1000 + ((w >> 7) & 0x1) * 0x800 + ((w >> 25) & 0x3f) * 0x20
        + ((w >> 8) & 0xf) * 0x2
}

/// The branch offset, sign-extended from bit 12.
pub open spec fn imm_b_of(w: u32) -> i32 {
    let raw = branch_raw_of(w);
    (if raw >= 0x1000 { raw - 0x2000 } else { raw }) as i32
}

/// The jump offset before sign extension: bit 31 gives offset bit 20,
/// bits 12..=19 give bits 19..=12, bit 20 gives bit 11, bits 21..=30 give
/// bits 10..=1, and bit 0 is zero.
pub open spec fn jal_raw_of(w: u32) -> int {
    ((w >> 31) & 0x1) * 0x10_0000 + ((w >> 12) & 0xff) * 0x1000 + ((w >> 20) & 0x1) * 0x800
        + ((w >> 21) & 0x3ff) * 0x2
}

/// The jump offset, sign-extended from bit 20.
pub open spec fn imm_j_of(w: u32) -> i32 {
    let raw = jal_raw_of(w);
    (if raw >= 0x10_0000 { raw - 0x20_0000 } else { raw }) as i32
}

/// Bits 20..=24, an unsigned shift amount.
pub open spec fn shamt_of(w: u32) -> i32 {
    ((w >> 20) & 0x1f) as i32
}

/// Bits 24..=27, the fence predecessor set.
pub open spec fn pred_of(w: u32) -> u8 {
    ((w >> 24) & 0xf) as u8
}

/// Bits 20..=23, the fence successor set.
pub open spec fn succ_of(w: u32) -> u8 {
    ((w >> 20) & 0xf) as u8
}

/// Bits 15..=19, zero-extended.
pub open spec fn zimm_of(w: u32) -> u32 {
    (w >> 15) & 0x1f
}

/// Bits 20..=31, the CSR address, unsigned.
pub open spec fn csr_of(w: u32) -> u32 {
    (w >> 20) & 0xfff
}

/// The error for a function field that `group` does not use.
pub open spec fn bad_function(group: OpGroup, w: u32) -> Result<Instr, DecodeError> {
    Err(DecodeError::InvalidFunction(group, funct3_of(w) as u8, w))
}

/// What a word denotes: the RV32I decode table.
pub open spec fn decoded(w: u32) -> Result<Instr, DecodeError> {
    let op = opcode_of(w);
    let f = funct3_of(w);
    if op == OP_LUI {
        Ok(Instr::Lui(imm_i_of(w), rd_of(w)))
    } else if op == OP_AUIPC {
        Ok(Instr::AUIPC(imm_i_of(w), rd_of(w)))
    } else if op == OP_JAL {
        Ok(Instr::Jal(imm_j_of(w), rd_of(w)))
    } else if op == OP_JALR {
        Ok(Instr::Jalr(imm_i_of(w), rs1_of(w), rd_of(w)))
    } else if op == OP_BRANCH {
        let (imm, a, b) = (imm_b_of(w), rs2_of(w), rs1_of(w));
        if f == 0 { Ok(Instr::Beq(imm, a, b)) }
        else if f == 1 { Ok(Instr::Bne(imm, a, b)) }
        else if f == 4 { Ok(Instr::Blt(imm, a, b)) }
        else if f == 5 { Ok(Instr::Bge(imm, a, b)) }
        else if f == 6 { Ok(Instr::Bltu(imm, a, b)) }
        else if f == 7 { Ok(Instr::Bgeu(imm, a, b)) }
        else { bad_function(OpGroup::Branch, w) }
    } else if op == OP_LOAD {
        let (imm, s, d) = (imm_i_of(w), rs1_of(w), rd_of(w));
        if f == 0 { Ok(Instr::Lb(imm, s, d)) }
        else if f == 1 { Ok(Instr::Lh(imm, s, d)) }
        else if f == 2 { Ok(Instr::Lw(imm, s, d)) }
        else if f == 4 { Ok(Instr::Lbu(imm, s, d)) }
        else if f == 5 { Ok(Instr::Lhu(imm, s, d)) }
        else { bad_function(OpGroup::Load, w) }
    } else if op == OP_STORE {
        let (hi, a, b, lo) = (imm_i_of(w), rs2_of(w), rs1_of(w), imm_s_low_of(w));
        if f == 0 { Ok(Instr::Sb(hi, a, b, lo)) }
        else if f == 1 { Ok(Instr::Sh(hi, a, b, lo)) }
        else if f == 2 { Ok(Instr::Sw(hi, a, b, lo)) }
        else { bad_function(OpGroup::Store, w) }
    } else if op == OP_IMM {
        let (imm, s, d) = (imm_i_of(w), rs1_of(w), rd_of(w));
        if f == 0 { Ok(Instr::Addi(imm, s, d)) }
        else if f == 1 { Ok(Instr::Slli(shamt_of(w), s, d)) }
        else if f == 2 { Ok(Instr::Slti(imm, s, d)) }
        else if f == 3 { Ok(Instr::Sltiu(imm, s, d)) }
        else if f == 4 { Ok(Instr::Xori(imm, s, d)) }
        else if f == 5 {
            if bit30_of(w) == 0 { Ok(Instr::Srli(shamt_of(w), s, d)) }
            else { Ok(Instr::Srai(shamt_of(w), s, d)) }
        }
        else if f == 6 { Ok(Instr::Ori(imm, s, d)) }
        else { Ok(Instr::Andi(imm, s, d)) }
    } else if op == OP_REG {
        let (a, b, d) = (rs2_of(w), rs1_of(w), rd_of(w));
        if f == 0 {
            if bit30_of(w) == 0 { Ok(Instr::Add(a, b, d)) } else { Ok(Instr::Sub(a, b, d)) }
        }
        else if f == 1 { Ok(Instr::Sll(shamt_of(w), b, d)) }
        else if f == 2 { Ok(Instr::Slt(shamt_of(w), b, d)) }
        else if f == 3 { Ok(Instr::Sltu(shamt_of(w), b, d)) }
        else if f == 4 { Ok(Instr::Xor(a, b, d)) }
        else if f == 5 {
            if bit30_of(w) == 0 { Ok(Instr::Srl(a, b, d)) } else { Ok(Instr::Sra(a, b, d)) }
        }
        else if f == 6 { Ok(Instr::Or(a, b, d)) }
        else { Ok(Instr::And(a, b, d)) }
    } else if op == OP_FENCE {
        if f == 0 { Ok(Instr::Fence(pred_of(w), succ_of(w))) }
        else if f == 1 { Ok(Instr::FenceI) }
        else { bad_function(OpGroup::Fence, w) }
    } else if op == OP_SYSTEM {
        let (c, s, d) = (csr_of(w), rs1_of(w), rd_of(w));
        if f == 0 {
            if bit30_of(w) == 0 { Ok(Instr::Ecall) } else { Ok(Instr::Ebreak) }
        }
        else if f == 1 { Ok(Instr::Csrrw(c, s, d)) }
        else if f == 2 { Ok(Instr::Csrrs(c, s, d)) }
        else if f == 3 { Ok(Instr::Csrrc(c, s, d)) }
        else if f == 5 { Ok(Instr::Cssrwi(c, zimm_of(w), d)) }
        else if f == 6 { Ok(Instr::Cssrsi(c, zimm_of(w), d)) }
        else if f == 7 { Ok(Instr::Cssrci(c, zimm_of(w), d)) }
        else { bad_function(OpGroup::System, w) }
    } else {
        Err(DecodeError::UnrecognizedOpcode(op as u8))
    }
}

/// Whether `op` is one of the eleven opcode groups.
pub open spec fn is_known_opcode(op: u32) -> bool {
    op == OP_LUI || op == OP_AUIPC || op == OP_JAL || op == OP_JALR || op == OP_BRANCH || op
        == OP_LOAD || op == OP_STORE || op == OP_IMM || op == OP_REG || op == OP_FENCE || op
        == OP_SYSTEM
}

/// The offset carried by a conditional branch.
pub open spec fn branch_offset(i: Instr) -> Option<i32> {
    match i {
        Instr::Beq(imm, _, _) => Some(imm),
        Instr::Bne(imm, _, _) => Some(imm),
        Instr::Blt(imm, _, _) => Some(imm),
        Instr::Bge(imm, _, _) => Some(imm),
        Instr::Bltu(imm, _, _) => Some(imm),
        Instr::Bgeu(imm, _, _) => Some(imm),
        _ => None,
    }
}

/// A conditional-branch word with bit 31 (offset bit 12) set decodes to a
/// negative offset, the two's-complement reading of its 13-bit field.
pub proof fn lemma_branch_offset_negative(w: u32)
    requires
        opcode_of(w) == OP_BRANCH,
        funct3_of(w) != 2 && funct3_of(w) != 3,
        (w >> 31) & 0x1 == 1,
    ensures
        decoded(w) is Ok,
        branch_offset(decoded(w)->Ok_0) == Some(imm_b_of(w)),
        imm_b_of(w) < 0,
        imm_b_of(w) == branch_raw_of(w) - 0x2000,
{
    assert(funct3_of(w) <= 7) by (bit_vector);
    assert((w >> 7) & 0x1 <= 1 && (w >> 25) & 0x3f <= 0x3f && (w >> 8) & 0xf <= 0xf)
        by (bit_vector);
}

/// A jump-and-link word with bit 31 (offset bit 20) set decodes to a negative
/// offset, the two's-complement reading of its 21-bit field.
pub proof fn lemma_jump_offset_negative(w: u32)
    requires
        opcode_of(w) == OP_JAL,
        (w >> 31) & 0x1 == 1,
    ensures
        decoded(w) == Ok::<Instr, DecodeError>(Instr::Jal(imm_j_of(w), rd_of(w))),
        imm_j_of(w) < 0,
        imm_j_of(w) == jal_raw_of(w) - 0x20_0000,
{
    assert((w >> 12) & 0xff <= 0xff && (w >> 20) & 0x1 <= 1 && (w >> 21) & 0x3ff <= 0x3ff)
        by (bit_vector);
}

/// A word whose low seven bits name no opcode group is rejected with
/// those seven bits, whatever its other bits hold.
pub proof fn lemma_unknown_opcode_rejected(w: u32)
    requires
        !is_known_opcode(opcode_of(w)),
    ensures
        decoded(w) == Err::<Instr, DecodeError>(DecodeError::UnrecognizedOpcode((w & 0x7f) as u8)),
{
}

/// Decoding keeps no state: two decodings of the same word agree.
pub proof fn lemma_decode_deterministic(
    w: u32,
    first: Result<Instr, DecodeError>,
    second: Result<Instr, DecodeError>,
)
    requires
        first == decoded(w),
        second == decoded(w),
    ensures
        first == second,
{
}

fn opcode(w: u32) -> (r: u32)
    ensures
        r == opcode_of(w),
        r <= 0x7f,
{
    assert(w & 0x7f <= 0x7f) by (bit_vector);
    w & 0x7f
}

fn funct3(w: u32) -> (r: u32)
    ensures
        r == funct3_of(w),
        r <= 7,
{
    assert((w >> 12) & 0x7 <= 7) by (bit_vector);
    (w >> 12) & 0x7
}

fn bit30(w: u32) -> (r: u32)
    ensures
        r == bit30_of(w),
        r <= 1,
{
    assert((w >> 30) & 0x1 <= 1) by (bit_vector);
    (w >> 30) & 0x1
}

fn rd(w: u32) -> (r: Register)
    ensures
        r == rd_of(w),
{
    Register::from_bits(w >> 7)
}

fn rs1(w: u32) -> (r: Register)
    ensures
        r == rs1_of(w),
{
    Register::from_bits(w >> 15)
}

fn rs2(w: u32) -> (r: Register)
    ensures
        r == rs2_of(w),
{
    Register::from_bits(w >> 20)
}

/// Sign-extends bits 20..=31; the high store sub-field and the upper
/// immediates use the same transform.
fn imm_left(w: u32) -> (r: Imm)
    ensures
        r == imm_i_of(w),
{
    let raw: u32 = w >> 20;
    assert(w >> 20 < 0x1000) by (bit_vector);
    if raw >= 0x800 {
        raw as i32 - 0x1000
    } else {
        raw as i32
    }
}

fn imm_right(w: u32) -> (r: Imm)
    ensures
        r == imm_s_low_of(w),
{
    ((w >> 7) & 0x1f) as i32
}

fn imm_sb(w: u32) -> (r: Imm)
    ensures
        r == imm_b_of(w),
{
    let imm_12: u32 = (w >> 31) & 0x1;
    let imm_11: u32 = (w >> 7) & 0x1;
    let imm_10_5: u32 = (w >> 25) & 0x3f;
    let imm_4_1: u32 = (w >> 8) & 0xf;
    assert(imm_12 <= 1 && imm_11 <= 1 && imm_10_5 <= 0x3f && imm_4_1 <= 0xf) by (bit_vector)
        requires
            imm_12 == (w >> 31) & 0x1,
            imm_11 == (w >> 7) & 0x1,
            imm_10_5 == (w >> 25) & 0x3f,
            imm_4_1 == (w >> 8) & 0xf,
    ;
    let raw: u32 = imm_12 * 0x1000 + imm_11 * 0x800 + imm_10_5 * 0x20 + imm_4_1 * 0x2;
    if raw >= 0x1000 {
        raw as i32 - 0x2000
    } else {
        raw as i32
    }
}

fn imm_uj(w: u32) -> (r: Imm)
    ensures
        r == imm_j_of(w),
{
    let imm_20: u32 = (w >> 31) & 0x1;
    let imm_19_12: u32 = (w >> 12) & 0xff;
    let imm_11: u32 = (w >> 20) & 0x1;
    let imm_10_1: u32 = (w >> 21) & 0x3ff;
    assert(imm_20 <= 1 && imm_19_12 <= 0xff && imm_11 <= 1 && imm_10_1 <= 0x3ff) by (bit_vector)
        requires
            imm_20 == (w >> 31) & 0x1,
            imm_19_12 == (w >> 12) & 0xff,
            imm_11 == (w >> 20) & 0x1,
            imm_10_1 == (w >> 21) & 0x3ff,
    ;
    let raw: u32 = imm_20 * 0x10_0000 + imm_19_12 * 0x1000 + imm_11 * 0x800 + imm_10_1 * 0x2;
    if raw >= 0x10_0000 {
        raw as i32 - 0x20_0000
    } else {
        raw as i32
    }
}

fn shamt(w: u32) -> (r: Shamt)
    ensures
        r == shamt_of(w),
{
    ((w >> 20) & 0x1f) as i32
}

fn pred(w: u32) -> (r: Pred)
    ensures
        r == pred_of(w),
{
    ((w >> 24) & 0xf) as u8
}

fn succ(w: u32) -> (r: Succ)
    ensures
        r == succ_of(w),
{
    ((w >> 20) & 0xf) as u8
}

fn zimm(w: u32) -> (r: Zimm)
    ensures
        r == zimm_of(w),
{
    (w >> 15) & 0x1f
}

fn csr(w: u32) -> (r: Csr)
    ensures
        r == csr_of(w),
{
    (w >> 20) & 0xfff
}

impl Instr {
    /// Decodes one instruction word.  Every word yields either exactly one
    /// instruction or exactly one error, as [`decoded`] states.
    pub fn decode(instr: u32) -> (r: Result<Instr, DecodeError>)
        ensures
            r == decoded(instr),
    {
        let w = instr;
        let op = opcode(w);
        let f = funct3(w);
        if op == OP_LUI {
            Ok(Instr::Lui(imm_left(w), rd(w)))
        } else if op == OP_AUIPC {
            Ok(Instr::AUIPC(imm_left(w), rd(w)))
        } else if op == OP_JAL {
            Ok(Instr::Jal(imm_uj(w), rd(w)))
        } else if op == OP_JALR {
            Ok(Instr::Jalr(imm_left(w), rs1(w), rd(w)))
        } else if op == OP_BRANCH {
            let (imm, a, b) = (imm_sb(w), rs2(w), rs1(w));
            match f {
                0 => Ok(Instr::Beq(imm, a, b)),
                1 => Ok(Instr::Bne(imm, a, b)),
                4 => Ok(Instr::Blt(imm, a, b)),
                5 => Ok(Instr::Bge(imm, a, b)),
                6 => Ok(Instr::Bltu(imm, a, b)),
                7 => Ok(Instr::Bgeu(imm, a, b)),
                _ => Err(DecodeError::InvalidFunction(OpGroup::Branch, f as u8, w)),
            }
        } else if op == OP_LOAD {
            let (imm, s, d) = (imm_left(w), rs1(w), rd(w));
            match f {
                0 => Ok(Instr::Lb(imm, s, d)),
                1 => Ok(Instr::Lh(imm, s, d)),
                2 => Ok(Instr::Lw(imm, s, d)),
                4 => Ok(Instr::Lbu(imm, s, d)),
                5 => Ok(Instr::Lhu(imm, s, d)),
                _ => Err(DecodeError::InvalidFunction(OpGroup::Load, f as u8, w)),
            }
        } else if op == OP_STORE {
            let (hi, a, b, lo) = (imm_left(w), rs2(w), rs1(w), imm_right(w));
            match f {
                0 => Ok(Instr::Sb(hi, a, b, lo)),
                1 => Ok(Instr::Sh(hi, a, b, lo)),
                2 => Ok(Instr::Sw(hi, a, b, lo)),
                _ => Err(DecodeError::InvalidFunction(OpGroup::Store, f as u8, w)),
            }
        } else if op == OP_IMM {
            let (imm, s, d) = (imm_left(w), rs1(w), rd(w));
            match f {
                0 => Ok(Instr::Addi(imm, s, d)),
                1 => Ok(Instr::Slli(shamt(w), s, d)),
                2 => Ok(Instr::Slti(imm, s, d)),
                3 => Ok(Instr::Sltiu(imm, s, d)),
                4 => Ok(Instr::Xori(imm, s, d)),
                5 => if bit30(w) == 0 {
                    Ok(Instr::Srli(shamt(w), s, d))
                } else {
                    Ok(Instr::Srai(shamt(w), s, d))
                },
                6 => Ok(Instr::Ori(imm, s, d)),
                _ => Ok(Instr::Andi(imm, s, d)),
            }
        } else if op == OP_REG {
            let (a, b, d) = (rs2(w), rs1(w), rd(w));
            match f {
                0 => if bit30(w) == 0 {
                    Ok(Instr::Add(a, b, d))
                } else {
                    Ok(Instr::Sub(a, b, d))
                },
                1 => Ok(Instr::Sll(shamt(w), b, d)),
                2 => Ok(Instr::Slt(shamt(w), b, d)),
                3 => Ok(Instr::Sltu(shamt(w), b, d)),
                4 => Ok(Instr::Xor(a, b, d)),
                5 => if bit30(w) == 0 {
                    Ok(Instr::Srl(a, b, d))
                } else {
                    Ok(Instr::Sra(a, b, d))
                },
                6 => Ok(Instr::Or(a, b, d)),
                _ => Ok(Instr::And(a, b, d)),
            }
        } else if op == OP_FENCE {
            match f {
                0 => Ok(Instr::Fence(pred(w), succ(w))),
                1 => Ok(Instr::FenceI),
                _ => Err(DecodeError::InvalidFunction(OpGroup::Fence, f as u8, w)),
            }
        } else if op == OP_SYSTEM {
            let (c, s, d) = (csr(w), rs1(w), rd(w));
            match f {
                0 => if bit30(w) == 0 {
                    Ok(Instr::Ecall)
                } else {
                    Ok(Instr::Ebreak)
                },
                1 => Ok(Instr::Csrrw(c, s, d)),
                2 => Ok(Instr::Csrrs(c, s, d)),
                3 => Ok(Instr::Csrrc(c, s, d)),
                5 => Ok(Instr::Cssrwi(c, zimm(w), d)),
                6 => Ok(Instr::Cssrsi(c, zimm(w), d)),
                7 => Ok(Instr::Cssrci(c, zimm(w), d)),
                _ => Err(DecodeError::InvalidFunction(OpGroup::System, f as u8, w)),
            }
        } else {
            Err(DecodeError::UnrecognizedOpcode(op as u8))
        }
    }
}

} // verus!
