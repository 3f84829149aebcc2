//! eBPF instruction encoding: the opcodes and the decoding of one 8-byte
//! instruction slot.
use vstd::prelude::*;

verus! {

/// Size of an eBPF instruction slot, in bytes.
pub const INSN_SIZE: usize = 8;

/// Class of jump instructions (the low three bits of the opcode).
pub const BPF_JMP: u8 = 0x05;

/// Class of jump instructions that compare 32-bit values.
pub const BPF_JMP32: u8 = 0x06;

/// `BPF_LD | BPF_ABS | BPF_B`
pub const LD_ABS_B: u8 = 0x30;

/// `BPF_LD | BPF_ABS | BPF_H`
pub const LD_ABS_H: u8 = 0x28;

/// `BPF_LD | BPF_ABS | BPF_W`
pub const LD_ABS_W: u8 = 0x20;

/// `BPF_LD | BPF_ABS | BPF_DW`
pub const LD_ABS_DW: u8 = 0x38;

/// `BPF_LD | BPF_IND | BPF_B`
pub const LD_IND_B: u8 = 0x50;

/// `BPF_LD | BPF_IND | BPF_H`
pub const LD_IND_H: u8 = 0x48;

/// `BPF_LD | BPF_IND | BPF_W`
pub const LD_IND_W: u8 = 0x40;

/// `BPF_LD | BPF_IND | BPF_DW`
pub const LD_IND_DW: u8 = 0x58;

/// `BPF_LD | BPF_IMM | BPF_DW`
pub const LD_DW_IMM: u8 = 0x18;

/// `BPF_LDX | BPF_MEM | BPF_B`
pub const LD_B_REG: u8 = 0x71;

/// `BPF_LDX | BPF_MEM | BPF_H`
pub const LD_H_REG: u8 = 0x69;

/// `BPF_LDX | BPF_MEM | BPF_W`
pub const LD_W_REG: u8 = 0x61;

/// `BPF_LDX | BPF_MEM | BPF_DW`
pub const LD_DW_REG: u8 = 0x79;

/// `BPF_ST | BPF_MEM | BPF_B`
pub const ST_B_IMM: u8 = 0x72;

/// `BPF_ST | BPF_MEM | BPF_H`
pub const ST_H_IMM: u8 = 0x6a;

/// `BPF_ST | BPF_MEM | BPF_W`
pub const ST_W_IMM: u8 = 0x62;

/// `BPF_ST | BPF_MEM | BPF_DW`
pub const ST_DW_IMM: u8 = 0x7a;

/// `BPF_STX | BPF_MEM | BPF_B`
pub const ST_B_REG: u8 = 0x73;

/// `BPF_STX | BPF_MEM | BPF_H`
pub const ST_H_REG: u8 = 0x6b;

/// `BPF_STX | BPF_MEM | BPF_W`
pub const ST_W_REG: u8 = 0x63;

/// `BPF_STX | BPF_MEM | BPF_DW`
pub const ST_DW_REG: u8 = 0x7b;

/// `BPF_STX | BPF_XADD | BPF_W`
pub const ST_W_XADD: u8 = 0xc3;

/// `BPF_STX | BPF_XADD | BPF_DW`
pub const ST_DW_XADD: u8 = 0xdb;

/// `BPF_ALU | BPF_K | BPF_ADD`
pub const ADD32_IMM: u8 = 0x04;

/// `BPF_ALU | BPF_X | BPF_ADD`
pub const ADD32_REG: u8 = 0x0c;

/// `BPF_ALU | BPF_K | BPF_SUB`
pub const SUB32_IMM: u8 = 0x14;

/// `BPF_ALU | BPF_X | BPF_SUB`
pub const SUB32_REG: u8 = 0x1c;

/// `BPF_ALU | BPF_K | BPF_MUL`
pub const MUL32_IMM: u8 = 0x24;

/// `BPF_ALU | BPF_X | BPF_MUL`
pub const MUL32_REG: u8 = 0x2c;

/// `BPF_ALU | BPF_K | BPF_DIV`
pub const DIV32_IMM: u8 = 0x34;

/// `BPF_ALU | BPF_X | BPF_DIV`
pub const DIV32_REG: u8 = 0x3c;

/// `BPF_ALU | BPF_K | BPF_OR`
pub const OR32_IMM: u8 = 0x44;

/// `BPF_ALU | BPF_X | BPF_OR`
pub const OR32_REG: u8 = 0x4c;

/// `BPF_ALU | BPF_K | BPF_AND`
pub const AND32_IMM: u8 = 0x54;

/// `BPF_ALU | BPF_X | BPF_AND`
pub const AND32_REG: u8 = 0x5c;

/// `BPF_ALU | BPF_K | BPF_LSH`
pub const LSH32_IMM: u8 = 0x64;

/// `BPF_ALU | BPF_X | BPF_LSH`
pub const LSH32_REG: u8 = 0x6c;

/// `BPF_ALU | BPF_K | BPF_RSH`
pub const RSH32_IMM: u8 = 0x74;

/// `BPF_ALU | BPF_X | BPF_RSH`
pub const RSH32_REG: u8 = 0x7c;

/// `BPF_ALU | BPF_NEG`
pub const NEG32: u8 = 0x84;

/// `BPF_ALU | BPF_K | BPF_MOD`
pub const MOD32_IMM: u8 = 0x94;

/// `BPF_ALU | BPF_X | BPF_MOD`
pub const MOD32_REG: u8 = 0x9c;

/// `BPF_ALU | BPF_K | BPF_XOR`
pub const XOR32_IMM: u8 = 0xa4;

/// `BPF_ALU | BPF_X | BPF_XOR`
pub const XOR32_REG: u8 = 0xac;

/// `BPF_ALU | BPF_K | BPF_MOV`
pub const MOV32_IMM: u8 = 0xb4;

/// `BPF_ALU | BPF_X | BPF_MOV`
pub const MOV32_REG: u8 = 0xbc;

/// `BPF_ALU | BPF_K | BPF_ARSH`
pub const ARSH32_IMM: u8 = 0xc4;

/// `BPF_ALU | BPF_X | BPF_ARSH`
pub const ARSH32_REG: u8 = 0xcc;

/// `BPF_ALU | BPF_K | BPF_END`
pub const LE: u8 = 0xd4;

/// `BPF_ALU | BPF_X | BPF_END`
pub const BE: u8 = 0xdc;

/// `BPF_ALU64 | BPF_K | BPF_ADD`
pub const ADD64_IMM: u8 = 0x07;

/// `BPF_ALU64 | BPF_X | BPF_ADD`
pub const ADD64_REG: u8 = 0x0f;

/// `BPF_ALU64 | BPF_K | BPF_SUB`
pub const SUB64_IMM: u8 = 0x17;

/// `BPF_ALU64 | BPF_X | BPF_SUB`
pub const SUB64_REG: u8 = 0x1f;

/// `BPF_ALU64 | BPF_K | BPF_MUL`
pub const MUL64_IMM: u8 = 0x27;

/// `BPF_ALU64 | BPF_X | BPF_MUL`
pub const MUL64_REG: u8 = 0x2f;

/// `BPF_ALU64 | BPF_K | BPF_DIV`
pub const DIV64_IMM: u8 = 0x37;

/// `BPF_ALU64 | BPF_X | BPF_DIV`
pub const DIV64_REG: u8 = 0x3f;

/// `BPF_ALU64 | BPF_K | BPF_OR`
pub const OR64_IMM: u8 = 0x47;

/// `BPF_ALU64 | BPF_X | BPF_OR`
pub const OR64_REG: u8 = 0x4f;

/// `BPF_ALU64 | BPF_K | BPF_AND`
pub const AND64_IMM: u8 = 0x57;

/// `BPF_ALU64 | BPF_X | BPF_AND`
pub const AND64_REG: u8 = 0x5f;

/// `BPF_ALU64 | BPF_K | BPF_LSH`
pub const LSH64_IMM: u8 = 0x67;

/// `BPF_ALU64 | BPF_X | BPF_LSH`
pub const LSH64_REG: u8 = 0x6f;

/// `BPF_ALU64 | BPF_K | BPF_RSH`
pub const RSH64_IMM: u8 = 0x77;

/// `BPF_ALU64 | BPF_X | BPF_RSH`
pub const RSH64_REG: u8 = 0x7f;

/// `BPF_ALU64 | BPF_NEG`
pub const NEG64: u8 = 0x87;

/// `BPF_ALU64 | BPF_K | BPF_MOD`
pub const MOD64_IMM: u8 = 0x97;

/// `BPF_ALU64 | BPF_X | BPF_MOD`
pub const MOD64_REG: u8 = 0x9f;

/// `BPF_ALU64 | BPF_K | BPF_XOR`
pub const XOR64_IMM: u8 = 0xa7;

/// `BPF_ALU64 | BPF_X | BPF_XOR`
pub const XOR64_REG: u8 = 0xaf;

/// `BPF_ALU64 | BPF_K | BPF_MOV`
pub const MOV64_IMM: u8 = 0xb7;

/// `BPF_ALU64 | BPF_X | BPF_MOV`
pub const MOV64_REG: u8 = 0xbf;

/// `BPF_ALU64 | BPF_K | BPF_ARSH`
pub const ARSH64_IMM: u8 = 0xc7;

/// `BPF_ALU64 | BPF_X | BPF_ARSH`
pub const ARSH64_REG: u8 = 0xcf;

/// `BPF_JMP | BPF_JA`
pub const JA: u8 = 0x05;

/// `BPF_JMP | BPF_K | BPF_JEQ`
pub const JEQ_IMM: u8 = 0x15;

/// `BPF_JMP | BPF_X | BPF_JEQ`
pub const JEQ_REG: u8 = 0x1d;

/// `BPF_JMP | BPF_K | BPF_JGT`
pub const JGT_IMM: u8 = 0x25;

/// `BPF_JMP | BPF_X | BPF_JGT`
pub const JGT_REG: u8 = 0x2d;

/// `BPF_JMP | BPF_K | BPF_JGE`
pub const JGE_IMM: u8 = 0x35;

/// `BPF_JMP | BPF_X | BPF_JGE`
pub const JGE_REG: u8 = 0x3d;

/// `BPF_JMP | BPF_K | BPF_JLT`
pub const JLT_IMM: u8 = 0xa5;

/// `BPF_JMP | BPF_X | BPF_JLT`
pub const JLT_REG: u8 = 0xad;

/// `BPF_JMP | BPF_K | BPF_JLE`
pub const JLE_IMM: u8 = 0xb5;

/// `BPF_JMP | BPF_X | BPF_JLE`
pub const JLE_REG: u8 = 0xbd;

/// `BPF_JMP | BPF_K | BPF_JSET`
pub const JSET_IMM: u8 = 0x45;

/// `BPF_JMP | BPF_X | BPF_JSET`
pub const JSET_REG: u8 = 0x4d;

/// `BPF_JMP | BPF_K | BPF_JNE`
pub const JNE_IMM: u8 = 0x55;

/// `BPF_JMP | BPF_X | BPF_JNE`
pub const JNE_REG: u8 = 0x5d;

/// `BPF_JMP | BPF_K | BPF_JSGT`
pub const JSGT_IMM: u8 = 0x65;

/// `BPF_JMP | BPF_X | BPF_JSGT`
pub const JSGT_REG: u8 = 0x6d;

/// `BPF_JMP | BPF_K | BPF_JSGE`
pub const JSGE_IMM: u8 = 0x75;

/// `BPF_JMP | BPF_X | BPF_JSGE`
pub const JSGE_REG: u8 = 0x7d;

/// `BPF_JMP | BPF_K | BPF_JSLT`
pub const JSLT_IMM: u8 = 0xc5;

/// `BPF_JMP | BPF_X | BPF_JSLT`
pub const JSLT_REG: u8 = 0xcd;

/// `BPF_JMP | BPF_K | BPF_JSLE`
pub const JSLE_IMM: u8 = 0xd5;

/// `BPF_JMP | BPF_X | BPF_JSLE`
pub const JSLE_REG: u8 = 0xdd;

/// `BPF_JMP | BPF_CALL`
pub const CALL: u8 = 0x85;

/// `BPF_JMP | BPF_X | BPF_CALL`
pub const TAIL_CALL: u8 = 0x8d;

/// `BPF_JMP | BPF_EXIT`
pub const EXIT: u8 = 0x95;

/// `BPF_JMP32 | BPF_K | BPF_JEQ`
pub const JEQ_IMM32: u8 = 0x16;

/// `BPF_JMP32 | BPF_X | BPF_JEQ`
pub const JEQ_REG32: u8 = 0x1e;

/// `BPF_JMP32 | BPF_K | BPF_JGT`
pub const JGT_IMM32: u8 = 0x26;

/// `BPF_JMP32 | BPF_X | BPF_JGT`
pub const JGT_REG32: u8 = 0x2e;

/// `BPF_JMP32 | BPF_K | BPF_JGE`
pub const JGE_IMM32: u8 = 0x36;

/// `BPF_JMP32 | BPF_X | BPF_JGE`
pub const JGE_REG32: u8 = 0x3e;

/// `BPF_JMP32 | BPF_K | BPF_JLT`
pub const JLT_IMM32: u8 = 0xa6;

/// `BPF_JMP32 | BPF_X | BPF_JLT`
pub const JLT_REG32: u8 = 0xae;

/// `BPF_JMP32 | BPF_K | BPF_JLE`
pub const JLE_IMM32: u8 = 0xb6;

/// `BPF_JMP32 | BPF_X | BPF_JLE`
pub const JLE_REG32: u8 = 0xbe;

/// `BPF_JMP32 | BPF_K | BPF_JSET`
pub const JSET_IMM32: u8 = 0x46;

/// `BPF_JMP32 | BPF_X | BPF_JSET`
pub const JSET_REG32: u8 = 0x4e;

/// `BPF_JMP32 | BPF_K | BPF_JNE`
pub const JNE_IMM32: u8 = 0x56;

/// `BPF_JMP32 | BPF_X | BPF_JNE`
pub const JNE_REG32: u8 = 0x5e;

/// `BPF_JMP32 | BPF_K | BPF_JSGT`
pub const JSGT_IMM32: u8 = 0x66;

/// `BPF_JMP32 | BPF_X | BPF_JSGT`
pub const JSGT_REG32: u8 = 0x6e;

/// `BPF_JMP32 | BPF_K | BPF_JSGE`
pub const JSGE_IMM32: u8 = 0x76;

/// `BPF_JMP32 | BPF_X | BPF_JSGE`
pub const JSGE_REG32: u8 = 0x7e;

/// `BPF_JMP32 | BPF_K | BPF_JSLT`
pub const JSLT_IMM32: u8 = 0xc6;

/// `BPF_JMP32 | BPF_X | BPF_JSLT`
pub const JSLT_REG32: u8 = 0xce;

/// `BPF_JMP32 | BPF_K | BPF_JSLE`
pub const JSLE_IMM32: u8 = 0xd6;

/// `BPF_JMP32 | BPF_X | BPF_JSLE`
pub const JSLE_REG32: u8 = 0xde;

/// An eBPF instruction as it is encoded in one 8-byte slot.
#[derive(Debug, PartialEq, Eq, Clone, Copy)]
pub struct Insn {
    /// Operation code.
    pub opc: u8,
    /// Destination register operand.
    pub dst: u8,
    /// Source register operand.
    pub src: u8,
    /// Offset operand.
    pub off: i16,
    /// Immediate value operand.
    pub imm: i32,
}

/// The value of two bytes read as a little-endian signed 16-bit integer.
pub open spec fn le_i16(b0: u8, b1: u8) -> int {
    let u = b0 + 0x100 * b1;
    if u >= 0x8000 {
        u - 0x1_0000
    } else {
        u
    }
}

/// The value of four bytes read as a little-endian signed 32-bit integer.
pub open spec fn le_i32(b0: u8, b1: u8, b2: u8, b3: u8) -> int {
    let u = b0 + 0x100 * b1 + 0x1_0000 * b2 + 0x100_0000 * b3;
    if u >= 0x8000_0000 {
        u - 0x1_0000_0000
    } else {
        u
    }
}

/// The instruction in slot `idx` of `prog`: the opcode byte, then the
/// destination register in the low and the source register in the high
/// nibble of the second byte, then the offset and the immediate in little
/// endian.
pub open spec fn spec_get_insn(prog: Seq<u8>, idx: int) -> Insn {
    let b = idx * 8;
    Insn {
        opc: prog[b],
        dst: (prog[b + 1] % 16) as u8,
        src: (prog[b + 1] / 16) as u8,
        off: le_i16(prog[b + 2], prog[b + 3]) as i16,
        imm: le_i32(prog[b + 4], prog[b + 5], prog[b + 6], prog[b + 7]) as i32,
    }
}

/// Decodes the instruction in slot `idx` of `prog`.
pub fn get_insn(prog: &[u8], idx: usize) -> (insn: Insn)
    requires
        (idx + 1) * INSN_SIZE <= prog@.len(),
    ensures
        insn == spec_get_insn(prog@, idx as int),
{
    let len = prog.len();
    assert(idx * 8 + 8 <= len);
    let b = idx * INSN_SIZE;
    let regs = prog[b + 1];
    let dst = regs & 0x0f;
    let src = (regs & 0xf0) >> 4;
    assert(dst == regs % 16 && src == regs / 16) by (bit_vector)
        requires
            dst == regs & 0x0f,
            src == (regs & 0xf0) >> 4,
    ;
    let off_bits: i32 = prog[b + 2] as i32 + 0x100 * (prog[b + 3] as i32);
    let off: i16 = if off_bits >= 0x8000 {
        (off_bits - 0x1_0000) as i16
    } else {
        off_bits as i16
    };
    let imm_bits: i64 = prog[b + 4] as i64 + 0x100 * (prog[b + 5] as i64) + 0x1_0000 * (
    prog[b + 6] as i64) + 0x100_0000 * (prog[b + 7] as i64);
    let imm: i32 = if imm_bits >= 0x8000_0000 {
        (imm_bits - 0x1_0000_0000) as i32
    } else {
        imm_bits as i32
    };
    Insn { opc: prog[b], dst, src, off, imm }
}

} // verus!
