//! Disassembler for eBPF programs: turns the bytes of a program into a list
//! of high-level instructions, each with a mnemonic and a textual description.
use crate::rbpf::ebpf;
use crate::rbpf::ebpf::{get_insn, spec_get_insn, Insn, INSN_SIZE};
use crate::text::{
    bits32, bits64, dec_signed, hex_lit, push_dec_signed, push_hex_lit, push_reg, push_signed_hex,
    dec_digits, hex_digits, reg, signed_hex, u32_bits, u64_bits,
};
use vstd::prelude::*;

verus! {

/// How the description of an instruction is laid out, after its mnemonic.
#[derive(Debug, Clone, Copy, PartialEq, Eq)]
pub enum Layout {
    /// `name rD, IMM`
    AluImm,
    /// `name rD, rS`
    AluReg,
    /// `nameIMM rD` (the immediate is the width of the swap, in decimal)
    ByteSwap,
    /// `name [rD+OFF], IMM`
    StImm,
    /// `name rD, [rS+OFF]`
    LdReg,
    /// `name [rD+OFF], rS`
    StReg,
    /// `name IMM`
    LdAbs,
    /// `name rS, IMM`
    LdInd,
    /// `name rD, IMM, +OFF`
    JmpImm,
    /// `name rD, rS, +OFF`
    JmpReg,
    /// `name rD`
    Unary,
    /// `name +OFF`
    Ja,
    /// `name IMM`, for calls
    Call,
    /// `name` alone
    Bare,
    /// `name rD, IMM64`, where the 64-bit immediate spans two slots
    WideImm,
}

/// The mnemonic and the layout of the description of each known opcode.
pub open spec fn opcode_table(opc: u8) -> Option<(Seq<char>, Layout)> {
    match opc {
        ebpf::LD_ABS_B => Some(("ldabsb"@, Layout::LdAbs)),
        ebpf::LD_ABS_H => Some(("ldabsh"@, Layout::LdAbs)),
        ebpf::LD_ABS_W => Some(("ldabsw"@, Layout::LdAbs)),
        ebpf::LD_ABS_DW => Some(("ldabsdw"@, Layout::LdAbs)),
        ebpf::LD_IND_B => Some(("ldindb"@, Layout::LdInd)),
        ebpf::LD_IND_H => Some(("ldindh"@, Layout::LdInd)),
        ebpf::LD_IND_W => Some(("ldindw"@, Layout::LdInd)),
        ebpf::LD_IND_DW => Some(("ldinddw"@, Layout::LdInd)),
        ebpf::LD_DW_IMM => Some(("lddw"@, Layout::WideImm)),
        ebpf::LD_B_REG => Some(("ldxb"@, Layout::LdReg)),
        ebpf::LD_H_REG => Some(("ldxh"@, Layout::LdReg)),
        ebpf::LD_W_REG => Some(("ldxw"@, Layout::LdReg)),
        ebpf::LD_DW_REG => Some(("ldxdw"@, Layout::LdReg)),
        ebpf::ST_B_IMM => Some(("stb"@, Layout::StImm)),
        ebpf::ST_H_IMM => Some(("sth"@, Layout::StImm)),
        ebpf::ST_W_IMM => Some(("stw"@, Layout::StImm)),
        ebpf::ST_DW_IMM => Some(("stdw"@, Layout::StImm)),
        ebpf::ST_B_REG => Some(("stxb"@, Layout::StReg)),
        ebpf::ST_H_REG => Some(("stxh"@, Layout::StReg)),
        ebpf::ST_W_REG => Some(("stxw"@, Layout::StReg)),
        ebpf::ST_DW_REG => Some(("stxdw"@, Layout::StReg)),
        ebpf::ST_W_XADD => Some(("stxxaddw"@, Layout::StReg)),
        ebpf::ST_DW_XADD => Some(("stxxadddw"@, Layout::StReg)),
        ebpf::ADD32_IMM => Some(("add32"@, Layout::AluImm)),
        ebpf::ADD32_REG => Some(("add32"@, Layout::AluReg)),
        ebpf::SUB32_IMM => Some(("sub32"@, Layout::AluImm)),
        ebpf::SUB32_REG => Some(("sub32"@, Layout::AluReg)),
        ebpf::MUL32_IMM => Some(("mul32"@, Layout::AluImm)),
        ebpf::MUL32_REG => Some(("mul32"@, Layout::AluReg)),
        ebpf::DIV32_IMM => Some(("div32"@, Layout::AluImm)),
        ebpf::DIV32_REG => Some(("div32"@, Layout::AluReg)),
        ebpf::OR32_IMM => Some(("or32"@, Layout::AluImm)),
        ebpf::OR32_REG => Some(("or32"@, Layout::AluReg)),
        ebpf::AND32_IMM => Some(("and32"@, Layout::AluImm)),
        ebpf::AND32_REG => Some(("and32"@, Layout::AluReg)),
        ebpf::LSH32_IMM => Some(("lsh32"@, Layout::AluImm)),
        ebpf::LSH32_REG => Some(("lsh32"@, Layout::AluReg)),
        ebpf::RSH32_IMM => Some(("rsh32"@, Layout::AluImm)),
        ebpf::RSH32_REG => Some(("rsh32"@, Layout::AluReg)),
        ebpf::NEG32 => Some(("neg32"@, Layout::Unary)),
        ebpf::MOD32_IMM => Some(("mod32"@, Layout::AluImm)),
        ebpf::MOD32_REG => Some(("mod32"@, Layout::AluReg)),
        ebpf::XOR32_IMM => Some(("xor32"@, Layout::AluImm)),
        ebpf::XOR32_REG => Some(("xor32"@, Layout::AluReg)),
        ebpf::MOV32_IMM => Some(("mov32"@, Layout::AluImm)),
        ebpf::MOV32_REG => Some(("mov32"@, Layout::AluReg)),
        ebpf::ARSH32_IMM => Some(("arsh32"@, Layout::AluImm)),
        ebpf::ARSH32_REG => Some(("arsh32"@, Layout::AluReg)),
        ebpf::LE => Some(("le"@, Layout::ByteSwap)),
        ebpf::BE => Some(("be"@, Layout::ByteSwap)),
        ebpf::ADD64_IMM => Some(("add64"@, Layout::AluImm)),
        ebpf::ADD64_REG => Some(("add64"@, Layout::AluReg)),
        ebpf::SUB64_IMM => Some(("sub64"@, Layout::AluImm)),
        ebpf::SUB64_REG => Some(("sub64"@, Layout::AluReg)),
        ebpf::MUL64_IMM => Some(("mul64"@, Layout::AluImm)),
        ebpf::MUL64_REG => Some(("mul64"@, Layout::AluReg)),
        ebpf::DIV64_IMM => Some(("div64"@, Layout::AluImm)),
        ebpf::DIV64_REG => Some(("div64"@, Layout::AluReg)),
        ebpf::OR64_IMM => Some(("or64"@, Layout::AluImm)),
        ebpf::OR64_REG => Some(("or64"@, Layout::AluReg)),
        ebpf::AND64_IMM => Some(("and64"@, Layout::AluImm)),
        ebpf::AND64_REG => Some(("and64"@, Layout::AluReg)),
        ebpf::LSH64_IMM => Some(("lsh64"@, Layout::AluImm)),
        ebpf::LSH64_REG => Some(("lsh64"@, Layout::AluReg)),
        ebpf::RSH64_IMM => Some(("rsh64"@, Layout::AluImm)),
        ebpf::RSH64_REG => Some(("rsh64"@, Layout::AluReg)),
        ebpf::NEG64 => Some(("neg64"@, Layout::Unary)),
        ebpf::MOD64_IMM => Some(("mod64"@, Layout::AluImm)),
        ebpf::MOD64_REG => Some(("mod64"@, Layout::AluReg)),
        ebpf::XOR64_IMM => Some(("xor64"@, Layout::AluImm)),
        ebpf::XOR64_REG => Some(("xor64"@, Layout::AluReg)),
        ebpf::MOV64_IMM => Some(("mov64"@, Layout::AluImm)),
        ebpf::MOV64_REG => Some(("mov64"@, Layout::AluReg)),
        ebpf::ARSH64_IMM => Some(("arsh64"@, Layout::AluImm)),
        ebpf::ARSH64_REG => Some(("arsh64"@, Layout::AluReg)),
        ebpf::JA => Some(("ja"@, Layout::Ja)),
        ebpf::JEQ_IMM => Some(("jeq"@, Layout::JmpImm)),
        ebpf::JEQ_REG => Some(("jeq"@, Layout::JmpReg)),
        ebpf::JGT_IMM => Some(("jgt"@, Layout::JmpImm)),
        ebpf::JGT_REG => Some(("jgt"@, Layout::JmpReg)),
        ebpf::JGE_IMM => Some(("jge"@, Layout::JmpImm)),
        ebpf::JGE_REG => Some(("jge"@, Layout::JmpReg)),
        ebpf::JLT_IMM => Some(("jlt"@, Layout::JmpImm)),
        ebpf::JLT_REG => Some(("jlt"@, Layout::JmpReg)),
        ebpf::JLE_IMM => Some(("jle"@, Layout::JmpImm)),
        ebpf::JLE_REG => Some(("jle"@, Layout::JmpReg)),
        ebpf::JSET_IMM => Some(("jset"@, Layout::JmpImm)),
        ebpf::JSET_REG => Some(("jset"@, Layout::JmpReg)),
        ebpf::JNE_IMM => Some(("jne"@, Layout::JmpImm)),
        ebpf::JNE_REG => Some(("jne"@, Layout::JmpReg)),
        ebpf::JSGT_IMM => Some(("jsgt"@, Layout::JmpImm)),
        ebpf::JSGT_REG => Some(("jsgt"@, Layout::JmpReg)),
        ebpf::JSGE_IMM => Some(("jsge"@, Layout::JmpImm)),
        ebpf::JSGE_REG => Some(("jsge"@, Layout::JmpReg)),
        ebpf::JSLT_IMM => Some(("jslt"@, Layout::JmpImm)),
        ebpf::JSLT_REG => Some(("jslt"@, Layout::JmpReg)),
        ebpf::JSLE_IMM => Some(("jsle"@, Layout::JmpImm)),
        ebpf::JSLE_REG => Some(("jsle"@, Layout::JmpReg)),
        ebpf::CALL => Some(("call"@, Layout::Call)),
        ebpf::TAIL_CALL => Some(("tail_call"@, Layout::Bare)),
        ebpf::EXIT => Some(("exit"@, Layout::Bare)),
        ebpf::JEQ_IMM32 => Some(("jeq32"@, Layout::JmpImm)),
        ebpf::JEQ_REG32 => Some(("jeq32"@, Layout::JmpReg)),
        ebpf::JGT_IMM32 => Some(("jgt32"@, Layout::JmpImm)),
        ebpf::JGT_REG32 => Some(("jgt32"@, Layout::JmpReg)),
        ebpf::JGE_IMM32 => Some(("jge32"@, Layout::JmpImm)),
        ebpf::JGE_REG32 => Some(("jge32"@, Layout::JmpReg)),
        ebpf::JLT_IMM32 => Some(("jlt32"@, Layout::JmpImm)),
        ebpf::JLT_REG32 => Some(("jlt32"@, Layout::JmpReg)),
        ebpf::JLE_IMM32 => Some(("jle32"@, Layout::JmpImm)),
        ebpf::JLE_REG32 => Some(("jle32"@, Layout::JmpReg)),
        ebpf::JSET_IMM32 => Some(("jset32"@, Layout::JmpImm)),
        ebpf::JSET_REG32 => Some(("jset32"@, Layout::JmpReg)),
        ebpf::JNE_IMM32 => Some(("jne32"@, Layout::JmpImm)),
        ebpf::JNE_REG32 => Some(("jne32"@, Layout::JmpReg)),
        ebpf::JSGT_IMM32 => Some(("jsgt32"@, Layout::JmpImm)),
        ebpf::JSGT_REG32 => Some(("jsgt32"@, Layout::JmpReg)),
        ebpf::JSGE_IMM32 => Some(("jsge32"@, Layout::JmpImm)),
        ebpf::JSGE_REG32 => Some(("jsge32"@, Layout::JmpReg)),
        ebpf::JSLT_IMM32 => Some(("jslt32"@, Layout::JmpImm)),
        ebpf::JSLT_REG32 => Some(("jslt32"@, Layout::JmpReg)),
        ebpf::JSLE_IMM32 => Some(("jsle32"@, Layout::JmpImm)),
        ebpf::JSLE_REG32 => Some(("jsle32"@, Layout::JmpReg)),
        _ => None,
    }
}

/// Looks `opc` up in the opcode table.
pub fn mnemonic(opc: u8) -> (r: Option<(&'static str, Layout)>)
    ensures
        match r {
            Some((name, layout)) => opcode_table(opc) == Some((name@, layout)),
            None => opcode_table(opc) is None,
        },
{
    match opc {
        ebpf::LD_ABS_B => Some(("ldabsb", Layout::LdAbs)),
        ebpf::LD_ABS_H => Some(("ldabsh", Layout::LdAbs)),
        ebpf::LD_ABS_W => Some(("ldabsw", Layout::LdAbs)),
        ebpf::LD_ABS_DW => Some(("ldabsdw", Layout::LdAbs)),
        ebpf::LD_IND_B => Some(("ldindb", Layout::LdInd)),
        ebpf::LD_IND_H => Some(("ldindh", Layout::LdInd)),
        ebpf::LD_IND_W => Some(("ldindw", Layout::LdInd)),
        ebpf::LD_IND_DW => Some(("ldinddw", Layout::LdInd)),
        ebpf::LD_DW_IMM => Some(("lddw", Layout::WideImm)),
        ebpf::LD_B_REG => Some(("ldxb", Layout::LdReg)),
        ebpf::LD_H_REG => Some(("ldxh", Layout::LdReg)),
        ebpf::LD_W_REG => Some(("ldxw", Layout::LdReg)),
        ebpf::LD_DW_REG => Some(("ldxdw", Layout::LdReg)),
        ebpf::ST_B_IMM => Some(("stb", Layout::StImm)),
        ebpf::ST_H_IMM => Some(("sth", Layout::StImm)),
        ebpf::ST_W_IMM => Some(("stw", Layout::StImm)),
        ebpf::ST_DW_IMM => Some(("stdw", Layout::StImm)),
        ebpf::ST_B_REG => Some(("stxb", Layout::StReg)),
        ebpf::ST_H_REG => Some(("stxh", Layout::StReg)),
        ebpf::ST_W_REG => Some(("stxw", Layout::StReg)),
        ebpf::ST_DW_REG => Some(("stxdw", Layout::StReg)),
        ebpf::ST_W_XADD => Some(("stxxaddw", Layout::StReg)),
        ebpf::ST_DW_XADD => Some(("stxxadddw", Layout::StReg)),
        ebpf::ADD32_IMM => Some(("add32", Layout::AluImm)),
        ebpf::ADD32_REG => Some(("add32", Layout::AluReg)),
        ebpf::SUB32_IMM => Some(("sub32", Layout::AluImm)),
        ebpf::SUB32_REG => Some(("sub32", Layout::AluReg)),
        ebpf::MUL32_IMM => Some(("mul32", Layout::AluImm)),
        ebpf::MUL32_REG => Some(("mul32", Layout::AluReg)),
        ebpf::DIV32_IMM => Some(("div32", Layout::AluImm)),
        ebpf::DIV32_REG => Some(("div32", Layout::AluReg)),
        ebpf::OR32_IMM => Some(("or32", Layout::AluImm)),
        ebpf::OR32_REG => Some(("or32", Layout::AluReg)),
        ebpf::AND32_IMM => Some(("and32", Layout::AluImm)),
        ebpf::AND32_REG => Some(("and32", Layout::AluReg)),
        ebpf::LSH32_IMM => Some(("lsh32", Layout::AluImm)),
        ebpf::LSH32_REG => Some(("lsh32", Layout::AluReg)),
        ebpf::RSH32_IMM => Some(("rsh32", Layout::AluImm)),
        ebpf::RSH32_REG => Some(("rsh32", Layout::AluReg)),
        ebpf::NEG32 => Some(("neg32", Layout::Unary)),
        ebpf::MOD32_IMM => Some(("mod32", Layout::AluImm)),
        ebpf::MOD32_REG => Some(("mod32", Layout::AluReg)),
        ebpf::XOR32_IMM => Some(("xor32", Layout::AluImm)),
        ebpf::XOR32_REG => Some(("xor32", Layout::AluReg)),
        ebpf::MOV32_IMM => Some(("mov32", Layout::AluImm)),
        ebpf::MOV32_REG => Some(("mov32", Layout::AluReg)),
        ebpf::ARSH32_IMM => Some(("arsh32", Layout::AluImm)),
        ebpf::ARSH32_REG => Some(("arsh32", Layout::AluReg)),
        ebpf::LE => Some(("le", Layout::ByteSwap)),
        ebpf::BE => Some(("be", Layout::ByteSwap)),
        ebpf::ADD64_IMM => Some(("add64", Layout::AluImm)),
        ebpf::ADD64_REG => Some(("add64", Layout::AluReg)),
        ebpf::SUB64_IMM => Some(("sub64", Layout::AluImm)),
        ebpf::SUB64_REG => Some(("sub64", Layout::AluReg)),
        ebpf::MUL64_IMM => Some(("mul64", Layout::AluImm)),
        ebpf::MUL64_REG => Some(("mul64", Layout::AluReg)),
        ebpf::DIV64_IMM => Some(("div64", Layout::AluImm)),
        ebpf::DIV64_REG => Some(("div64", Layout::AluReg)),
        ebpf::OR64_IMM => Some(("or64", Layout::AluImm)),
        ebpf::OR64_REG => Some(("or64", Layout::AluReg)),
        ebpf::AND64_IMM => Some(("and64", Layout::AluImm)),
        ebpf::AND64_REG => Some(("and64", Layout::AluReg)),
        ebpf::LSH64_IMM => Some(("lsh64", Layout::AluImm)),
        ebpf::LSH64_REG => Some(("lsh64", Layout::AluReg)),
        ebpf::RSH64_IMM => Some(("rsh64", Layout::AluImm)),
        ebpf::RSH64_REG => Some(("rsh64", Layout::AluReg)),
        ebpf::NEG64 => Some(("neg64", Layout::Unary)),
        ebpf::MOD64_IMM => Some(("mod64", Layout::AluImm)),
        ebpf::MOD64_REG => Some(("mod64", Layout::AluReg)),
        ebpf::XOR64_IMM => Some(("xor64", Layout::AluImm)),
        ebpf::XOR64_REG => Some(("xor64", Layout::AluReg)),
        ebpf::MOV64_IMM => Some(("mov64", Layout::AluImm)),
        ebpf::MOV64_REG => Some(("mov64", Layout::AluReg)),
        ebpf::ARSH64_IMM => Some(("arsh64", Layout::AluImm)),
        ebpf::ARSH64_REG => Some(("arsh64", Layout::AluReg)),
        ebpf::JA => Some(("ja", Layout::Ja)),
        ebpf::JEQ_IMM => Some(("jeq", Layout::JmpImm)),
        ebpf::JEQ_REG => Some(("jeq", Layout::JmpReg)),
        ebpf::JGT_IMM => Some(("jgt", Layout::JmpImm)),
        ebpf::JGT_REG => Some(("jgt", Layout::JmpReg)),
        ebpf::JGE_IMM => Some(("jge", Layout::JmpImm)),
        ebpf::JGE_REG => Some(("jge", Layout::JmpReg)),
        ebpf::JLT_IMM => Some(("jlt", Layout::JmpImm)),
        ebpf::JLT_REG => Some(("jlt", Layout::JmpReg)),
        ebpf::JLE_IMM => Some(("jle", Layout::JmpImm)),
        ebpf::JLE_REG => Some(("jle", Layout::JmpReg)),
        ebpf::JSET_IMM => Some(("jset", Layout::JmpImm)),
        ebpf::JSET_REG => Some(("jset", Layout::JmpReg)),
        ebpf::JNE_IMM => Some(("jne", Layout::JmpImm)),
        ebpf::JNE_REG => Some(("jne", Layout::JmpReg)),
        ebpf::JSGT_IMM => Some(("jsgt", Layout::JmpImm)),
        ebpf::JSGT_REG => Some(("jsgt", Layout::JmpReg)),
        ebpf::JSGE_IMM => Some(("jsge", Layout::JmpImm)),
        ebpf::JSGE_REG => Some(("jsge", Layout::JmpReg)),
        ebpf::JSLT_IMM => Some(("jslt", Layout::JmpImm)),
        ebpf::JSLT_REG => Some(("jslt", Layout::JmpReg)),
        ebpf::JSLE_IMM => Some(("jsle", Layout::JmpImm)),
        ebpf::JSLE_REG => Some(("jsle", Layout::JmpReg)),
        ebpf::CALL => Some(("call", Layout::Call)),
        ebpf::TAIL_CALL => Some(("tail_call", Layout::Bare)),
        ebpf::EXIT => Some(("exit", Layout::Bare)),
        ebpf::JEQ_IMM32 => Some(("jeq32", Layout::JmpImm)),
        ebpf::JEQ_REG32 => Some(("jeq32", Layout::JmpReg)),
        ebpf::JGT_IMM32 => Some(("jgt32", Layout::JmpImm)),
        ebpf::JGT_REG32 => Some(("jgt32", Layout::JmpReg)),
        ebpf::JGE_IMM32 => Some(("jge32", Layout::JmpImm)),
        ebpf::JGE_REG32 => Some(("jge32", Layout::JmpReg)),
        ebpf::JLT_IMM32 => Some(("jlt32", Layout::JmpImm)),
        ebpf::JLT_REG32 => Some(("jlt32", Layout::JmpReg)),
        ebpf::JLE_IMM32 => Some(("jle32", Layout::JmpImm)),
        ebpf::JLE_REG32 => Some(("jle32", Layout::JmpReg)),
        ebpf::JSET_IMM32 => Some(("jset32", Layout::JmpImm)),
        ebpf::JSET_REG32 => Some(("jset32", Layout::JmpReg)),
        ebpf::JNE_IMM32 => Some(("jne32", Layout::JmpImm)),
        ebpf::JNE_REG32 => Some(("jne32", Layout::JmpReg)),
        ebpf::JSGT_IMM32 => Some(("jsgt32", Layout::JmpImm)),
        ebpf::JSGT_REG32 => Some(("jsgt32", Layout::JmpReg)),
        ebpf::JSGE_IMM32 => Some(("jsge32", Layout::JmpImm)),
        ebpf::JSGE_REG32 => Some(("jsge32", Layout::JmpReg)),
        ebpf::JSLT_IMM32 => Some(("jslt32", Layout::JmpImm)),
        ebpf::JSLT_REG32 => Some(("jslt32", Layout::JmpReg)),
        ebpf::JSLE_IMM32 => Some(("jsle32", Layout::JmpImm)),
        ebpf::JSLE_REG32 => Some(("jsle32", Layout::JmpReg)),
        _ => None,
    }
}

/// The description of an instruction with mnemonic `name`, laid out as
/// `layout`, where `imm` is the immediate value (merged over two slots for
/// `Layout::WideImm`).
pub open spec fn describe(name: Seq<char>, layout: Layout, insn: Insn, imm: i64) -> Seq<char> {
    match layout {
        Layout::AluImm => name + seq![' '] + reg(insn.dst) + seq![',', ' '] + hex_lit(bits32(insn.imm)),
        Layout::AluReg => name + seq![' '] + reg(insn.dst) + seq![',', ' '] + reg(insn.src),
        Layout::ByteSwap => name + dec_signed(insn.imm as int) + seq![' '] + reg(insn.dst),
        Layout::StImm => name + seq![' ', '['] + reg(insn.dst) + signed_hex(insn.off) + seq![
            ']',
            ',',
            ' ',
        ] + hex_lit(bits32(insn.imm)),
        Layout::LdReg => name + seq![' '] + reg(insn.dst) + seq![',', ' ', '['] + reg(insn.src)
            + signed_hex(insn.off) + seq![']'],
        Layout::StReg => name + seq![' ', '['] + reg(insn.dst) + signed_hex(insn.off) + seq![
            ']',
            ',',
            ' ',
        ] + reg(insn.src),
        Layout::LdAbs => name + seq![' '] + hex_lit(bits32(insn.imm)),
        Layout::LdInd => name + seq![' '] + reg(insn.src) + seq![',', ' '] + hex_lit(bits32(insn.imm)),
        Layout::JmpImm => name + seq![' '] + reg(insn.dst) + seq![',', ' '] + hex_lit(
            bits32(insn.imm),
        ) + seq![',', ' '] + signed_hex(insn.off),
        Layout::JmpReg => name + seq![' '] + reg(insn.dst) + seq![',', ' '] + reg(insn.src) + seq![
            ',',
            ' ',
        ] + signed_hex(insn.off),
        Layout::Unary => name + seq![' '] + reg(insn.dst),
        Layout::Ja => name + seq![' '] + signed_hex(insn.off),
        Layout::Call => name + seq![' '] + hex_lit(bits32(insn.imm)),
        Layout::Bare => name,
        Layout::WideImm => name + seq![' '] + reg(insn.dst) + seq![',', ' '] + hex_lit(bits64(imm)),
    }
}

/// `name rD, 0xIMM`
pub fn alu_imm_str(name: &str, insn: &Insn) -> (s: String)
    ensures
        s@ == describe(name@, Layout::AluImm, *insn, insn.imm as i64),
{
    let mut s = name.to_owned();
    proof { reveal_strlit(" "); reveal_strlit(", "); }
    s.append(" ");
    push_reg(&mut s, insn.dst);
    s.append(", ");
    push_hex_lit(&mut s, u32_bits(insn.imm) as u64);
    assert(s@ =~= describe(name@, Layout::AluImm, *insn, insn.imm as i64));
    s
}


/// `name rD, rS`
pub fn alu_reg_str(name: &str, insn: &Insn) -> (s: String)
    ensures
        s@ == describe(name@, Layout::AluReg, *insn, insn.imm as i64),
{
    let mut s = name.to_owned();
    proof { reveal_strlit(" "); reveal_strlit(", "); }
    s.append(" ");
    push_reg(&mut s, insn.dst);
    s.append(", ");
    push_reg(&mut s, insn.src);
    assert(s@ =~= describe(name@, Layout::AluReg, *insn, insn.imm as i64));
    s
}

/// `nameIMM rD`, for the byte swaps, whose immediate is the width in bits.
pub fn byteswap_str(name: &str, insn: &Insn) -> (s: String)
    ensures
        s@ == describe(name@, Layout::ByteSwap, *insn, insn.imm as i64),
{
    let mut s = name.to_owned();
    proof { reveal_strlit(" "); }
    push_dec_signed(&mut s, insn.imm as i64);
    s.append(" ");
    push_reg(&mut s, insn.dst);
    assert(s@ =~= describe(name@, Layout::ByteSwap, *insn, insn.imm as i64));
    s
}

/// `name [rD+0xOFF], 0xIMM`
pub fn ld_st_imm_str(name: &str, insn: &Insn) -> (s: String)
    ensures
        s@ == describe(name@, Layout::StImm, *insn, insn.imm as i64),
{
    let mut s = name.to_owned();
    proof { reveal_strlit(" ["); reveal_strlit("], "); }
    s.append(" [");
    push_reg(&mut s, insn.dst);
    push_signed_hex(&mut s, insn.off);
    s.append("], ");
    push_hex_lit(&mut s, u32_bits(insn.imm) as u64);
    assert(s@ =~= describe(name@, Layout::StImm, *insn, insn.imm as i64));
    s
}

/// `name rD, [rS+0xOFF]`
pub fn ld_reg_str(name: &str, insn: &Insn) -> (s: String)
    ensures
        s@ == describe(name@, Layout::LdReg, *insn, insn.imm as i64),
{
    let mut s = name.to_owned();
    proof { reveal_strlit(" "); reveal_strlit(", ["); reveal_strlit("]"); }
    s.append(" ");
    push_reg(&mut s, insn.dst);
    s.append(", [");
    push_reg(&mut s, insn.src);
    push_signed_hex(&mut s, insn.off);
    s.append("]");
    assert(s@ =~= describe(name@, Layout::LdReg, *insn, insn.imm as i64));
    s
}

/// `name [rD+0xOFF], rS`
pub fn st_reg_str(name: &str, insn: &Insn) -> (s: String)
    ensures
        s@ == describe(name@, Layout::StReg, *insn, insn.imm as i64),
{
    let mut s = name.to_owned();
    proof { reveal_strlit(" ["); reveal_strlit("], "); }
    s.append(" [");
    push_reg(&mut s, insn.dst);
    push_signed_hex(&mut s, insn.off);
    s.append("], ");
    push_reg(&mut s, insn.src);
    assert(s@ =~= describe(name@, Layout::StReg, *insn, insn.imm as i64));
    s
}

/// `name 0xIMM`, for the absolute loads.
pub fn ldabs_str(name: &str, insn: &Insn) -> (s: String)
    ensures
        s@ == describe(name@, Layout::LdAbs, *insn, insn.imm as i64),
{
    let mut s = name.to_owned();
    proof { reveal_strlit(" "); }
    s.append(" ");
    push_hex_lit(&mut s, u32_bits(insn.imm) as u64);
    assert(s@ =~= describe(name@, Layout::LdAbs, *insn, insn.imm as i64));
    s
}

/// `name rS, 0xIMM`, for the indirect loads.
pub fn ldind_str(name: &str, insn: &Insn) -> (s: String)
    ensures
        s@ == describe(name@, Layout::LdInd, *insn, insn.imm as i64),
{
    let mut s = name.to_owned();
    proof { reveal_strlit(" "); reveal_strlit(", "); }
    s.append(" ");
    push_reg(&mut s, insn.src);
    s.append(", ");
    push_hex_lit(&mut s, u32_bits(insn.imm) as u64);
    assert(s@ =~= describe(name@, Layout::LdInd, *insn, insn.imm as i64));
    s
}

/// `name rD, 0xIMM, +0xOFF`
pub fn jmp_imm_str(name: &str, insn: &Insn) -> (s: String)
    ensures
        s@ == describe(name@, Layout::JmpImm, *insn, insn.imm as i64),
{
    let mut s = name.to_owned();
    proof { reveal_strlit(" "); reveal_strlit(", "); }
    s.append(" ");
    push_reg(&mut s, insn.dst);
    s.append(", ");
    push_hex_lit(&mut s, u32_bits(insn.imm) as u64);
    s.append(", ");
    push_signed_hex(&mut s, insn.off);
    assert(s@ =~= describe(name@, Layout::JmpImm, *insn, insn.imm as i64));
    s
}

/// `name rD, rS, +0xOFF`
pub fn jmp_reg_str(name: &str, insn: &Insn) -> (s: String)
    ensures
        s@ == describe(name@, Layout::JmpReg, *insn, insn.imm as i64),
{
    let mut s = name.to_owned();
    proof { reveal_strlit(" "); reveal_strlit(", "); }
    s.append(" ");
    push_reg(&mut s, insn.dst);
    s.append(", ");
    push_reg(&mut s, insn.src);
    s.append(", ");
    push_signed_hex(&mut s, insn.off);
    assert(s@ =~= describe(name@, Layout::JmpReg, *insn, insn.imm as i64));
    s
}

/// The description of an instruction, dispatched on its layout; `imm` is the
/// immediate value (merged over two slots for `Layout::WideImm`).
fn describe_insn(name: &str, layout: Layout, insn: &Insn, imm: i64) -> (s: String)
    requires
        layout != Layout::WideImm ==> imm == insn.imm as i64,
    ensures
        s@ == describe(name@, layout, *insn, imm),
{
    match layout {
        Layout::AluImm => alu_imm_str(name, insn),
        Layout::AluReg => alu_reg_str(name, insn),
        Layout::ByteSwap => byteswap_str(name, insn),
        Layout::StImm => ld_st_imm_str(name, insn),
        Layout::LdReg => ld_reg_str(name, insn),
        Layout::StReg => st_reg_str(name, insn),
        Layout::LdAbs => ldabs_str(name, insn),
        Layout::LdInd => ldind_str(name, insn),
        Layout::JmpImm => jmp_imm_str(name, insn),
        Layout::JmpReg => jmp_reg_str(name, insn),
        Layout::Bare => name.to_owned(),
        _ => {
            let mut s = name.to_owned();
            proof { reveal_strlit(" "); reveal_strlit(", "); }
            s.append(" ");
            match layout {
                Layout::Unary => {
                    push_reg(&mut s, insn.dst);
                },
                Layout::Ja => {
                    push_signed_hex(&mut s, insn.off);
                },
                Layout::Call => {
                    push_hex_lit(&mut s, u32_bits(insn.imm) as u64);
                },
                _ => {
                    push_reg(&mut s, insn.dst);
                    s.append(", ");
                    push_hex_lit(&mut s, u64_bits(imm));
                },
            }
            assert(s@ =~= describe(name@, layout, *insn, imm));
            s
        },
    }
}


/// High-level representation of an eBPF instruction.
///
/// In addition to standard operation code and various operand, this struct has the following
/// properties:
///
/// * It stores a name, corresponding to a mnemonic for the operation code.
/// * It also stores a description, which is a mnemonic for the full instruction, using the actual
///   values of the relevant operands, and that can be used for disassembling the eBPF program for
///   example.
/// * Immediate values are stored in an `i64` instead of a traditional i32, in order to merge the
///   two parts of (otherwise double-length) `LD_DW_IMM` instructions.
#[derive(Debug, PartialEq, Eq)]
pub struct HLInsn {
    /// Operation code.
    pub opc: u8,
    /// Name (mnemonic). This name is not canon.
    pub name: String,
    /// Description of the instruction. This is not canon.
    pub desc: String,
    /// Destination register operand.
    pub dst: u8,
    /// Source register operand.
    pub src: u8,
    /// Offset operand.
    pub off: i16,
    /// Immediate value operand. For `LD_DW_IMM` instructions, contains the whole value merged from
    /// the two 8-bytes parts of the instruction.
    pub imm: i64,
}

/// The mathematical content of an `HLInsn`: its strings as character sequences.
pub struct HLInsnView {
    pub opc: u8,
    pub name: Seq<char>,
    pub desc: Seq<char>,
    pub dst: u8,
    pub src: u8,
    pub off: i16,
    pub imm: i64,
}

impl View for HLInsn {
    type V = HLInsnView;

    open spec fn view(&self) -> HLInsnView {
        HLInsnView {
            opc: self.opc,
            name: self.name@,
            desc: self.desc@,
            dst: self.dst,
            src: self.src,
            off: self.off,
            imm: self.imm,
        }
    }
}

/// The views of a sequence of instructions.
pub open spec fn views(v: Seq<HLInsn>) -> Seq<HLInsnView> {
    v.map_values(|h: HLInsn| h@)
}

/// Why a sequence of bytes is not an eBPF program that can be disassembled.
#[derive(Debug, Clone, Copy, PartialEq, Eq)]
pub enum DisasmError {
    /// The length of the program, in bytes, is not a multiple of `INSN_SIZE`.
    BadLength { len: usize },
    /// The opcode `opc` of the instruction in slot `insn_ptr` is not a known one.
    UnknownOpcode { opc: u8, insn_ptr: usize },
    /// The second half of a double-length instruction would be in slot `idx`,
    /// past the end of the program of `prog_len` bytes.
    InsnOutOfBounds { idx: usize, prog_len: usize },
}

/// The 64-bit immediate of a double-length load: the bits of `lo` below
/// those of `hi`.
pub open spec fn merge_imm(lo: i32, hi: i32) -> i64 {
    let u = bits32(lo) + bits32(hi) * 0x1_0000_0000;
    if u >= 0x8000_0000_0000_0000 {
        (u - 0x1_0000_0000_0000_0000) as i64
    } else {
        u as i64
    }
}

/// Number of instruction slots in `prog`.
pub open spec fn slot_count(prog: Seq<u8>) -> int {
    prog.len() as int / 8
}

/// The high-level instruction that starts in slot `ptr`, and the slot after
/// it; or why there is none.
pub open spec fn decode_at(prog: Seq<u8>, ptr: int) -> Result<(HLInsnView, int), DisasmError> {
    let insn = spec_get_insn(prog, ptr);
    match opcode_table(insn.opc) {
        None => Err(DisasmError::UnknownOpcode { opc: insn.opc, insn_ptr: ptr as usize }),
        Some((name, layout)) => if layout == Layout::WideImm && ptr + 1 >= slot_count(prog) {
            Err(DisasmError::InsnOutOfBounds { idx: (ptr + 1) as usize, prog_len: prog.len() as usize })
        } else {
            let wide = layout == Layout::WideImm;
            let imm = if wide {
                merge_imm(insn.imm, spec_get_insn(prog, ptr + 1).imm)
            } else {
                insn.imm as i64
            };
            Ok((
                HLInsnView {
                    opc: insn.opc,
                    name,
                    desc: describe(name, layout, insn, imm),
                    dst: insn.dst,
                    src: insn.src,
                    off: insn.off,
                    imm,
                },
                if wide { ptr + 2 } else { ptr + 1 },
            ))
        },
    }
}

/// The high-level instructions of the slots from `ptr` on, or why they do not decode.
pub open spec fn decode_from(prog: Seq<u8>, ptr: int) -> Result<Seq<HLInsnView>, DisasmError>
    decreases slot_count(prog) - ptr,
{
    if ptr < 0 || ptr >= slot_count(prog) {
        Ok(Seq::empty())
    } else {
        match decode_at(prog, ptr) {
            Err(e) => Err(e),
            Ok((h, next)) => match decode_from(prog, next) {
                Err(e) => Err(e),
                Ok(rest) => Ok(seq![h] + rest),
            },
        }
    }
}

/// The disassembly of `prog`, or why it has none.
pub open spec fn disassemble(prog: Seq<u8>) -> Result<Seq<HLInsnView>, DisasmError> {
    if prog.len() % 8 != 0 {
        Err(DisasmError::BadLength { len: prog.len() as usize })
    } else {
        decode_from(prog, 0)
    }
}

/// `Ok(s)` with `prefix` in front of `s`; an error unchanged.
pub open spec fn prepend(
    prefix: Seq<HLInsnView>,
    r: Result<Seq<HLInsnView>, DisasmError>,
) -> Result<Seq<HLInsnView>, DisasmError> {
    match r {
        Ok(s) => Ok(prefix + s),
        Err(e) => Err(e),
    }
}

/// The view of a result of disassembly.
pub open spec fn view_result(r: Result<Vec<HLInsn>, DisasmError>) -> Result<Seq<HLInsnView>, DisasmError> {
    match r {
        Ok(v) => Ok(views(v@)),
        Err(e) => Err(e),
    }
}

/// The 64-bit immediate of a double-length load (see `merge_imm`).
fn merged_imm(lo: i32, hi: i32) -> (r: i64)
    ensures
        r == merge_imm(lo, hi),
{
    let u: u64 = u32_bits(lo) as u64 + u32_bits(hi) as u64 * 0x1_0000_0000;
    if u >= 0x8000_0000_0000_0000 {
        (u - 0x8000_0000_0000_0000) as i64 + i64::MIN
    } else {
        u as i64
    }
}

/// Disassembles `prog`, or says why it cannot be: its length is not a
/// multiple of `INSN_SIZE`, an opcode is unknown, or a double-length load
/// starts in the last slot. The first problem met, slot by slot, is the one
/// reported.
pub fn try_to_insn_vec(prog: &[u8]) -> (r: Result<Vec<HLInsn>, DisasmError>)
    ensures
        view_result(r) == disassemble(prog@),
{
    let len = prog.len();
    if len % INSN_SIZE != 0 {
        return Err(DisasmError::BadLength { len });
    }
    if len == 0 {
        assert(views(Seq::<HLInsn>::empty()) =~= Seq::empty());
        return Ok(Vec::new());
    }
    let mut res: Vec<HLInsn> = Vec::new();
    let mut insn_ptr: usize = 0;
    assert(prepend(views(res@), decode_from(prog@, 0)) =~= decode_from(prog@, 0)) by {
        assert(views(res@) + Seq::<HLInsnView>::empty() =~= Seq::<HLInsnView>::empty());
        if let Ok(s) = decode_from(prog@, 0) {
            assert(views(res@) + s =~= s);
        }
    }
    while insn_ptr * INSN_SIZE < len
        invariant
            len == prog@.len(),
            len % 8 == 0,
            insn_ptr <= len / 8,
            prepend(views(res@), decode_from(prog@, insn_ptr as int)) == decode_from(prog@, 0),
        decreases len / 8 - insn_ptr,
    {
        let insn = get_insn(prog, insn_ptr);
        let ghost start = insn_ptr as int;
        let (name, layout) = match mnemonic(insn.opc) {
            Some(entry) => entry,
            None => {
                return Err(DisasmError::UnknownOpcode { opc: insn.opc, insn_ptr });
            },
        };
        let mut imm = insn.imm as i64;
        if let Layout::WideImm = layout {
            if insn_ptr + 1 >= len / INSN_SIZE {
                return Err(DisasmError::InsnOutOfBounds { idx: insn_ptr + 1, prog_len: len });
            }
            insn_ptr += 1;
            let next_insn = get_insn(prog, insn_ptr);
            imm = merged_imm(insn.imm, next_insn.imm);
        }
        let desc = describe_insn(name, layout, &insn, imm);
        let hl_insn = HLInsn {
            opc: insn.opc,
            name: name.to_owned(),
            desc,
            dst: insn.dst,
            src: insn.src,
            off: insn.off,
            imm,
        };
        let ghost old_res = res@;
        res.push(hl_insn);
        insn_ptr += 1;
        proof {
            let (h, next) = decode_at(prog@, start).unwrap();
            assert(next == insn_ptr);
            assert(h == hl_insn@);
            assert(views(res@) =~= views(old_res).push(h));
            match decode_from(prog@, next) {
                Ok(rest) => {
                    assert(views(old_res) + (seq![h] + rest) =~= views(res@) + rest);
                },
                Err(e) => {},
            }
        }
    }
    assert(views(res@) + Seq::<HLInsnView>::empty() =~= views(res@));
    Ok(res)
}

/// Disassembles `prog`, which must be an eBPF program that disassembles (see
/// `try_to_insn_vec` for the reasons why one may not).
pub fn to_insn_vec(prog: &[u8]) -> (res: Vec<HLInsn>)
    requires
        disassemble(prog@) is Ok,
    ensures
        disassemble(prog@) == Ok::<Seq<HLInsnView>, DisasmError>(views(res@)),
{
    match try_to_insn_vec(prog) {
        Ok(res) => res,
        Err(_) => Vec::new(),
    }
}


/// The number of slots that the instruction `h` fills: two for a
/// double-length load, one for any other.
pub open spec fn slot_width(h: HLInsnView) -> int {
    if h.opc == ebpf::LD_DW_IMM {
        2
    } else {
        1
    }
}

/// The number of slots that the instructions of `s` fill together.
pub open spec fn slots_filled(s: Seq<HLInsnView>) -> int
    decreases s.len(),
{
    if s.len() == 0 {
        0
    } else {
        slot_width(s[0]) + slots_filled(s.drop_first())
    }
}

/// What holds of each instruction that comes out of the disassembler: its
/// registers are nibbles, its description starts with its mnemonic, and its
/// immediate is a 32-bit one unless it is a double-length load.
pub open spec fn well_formed(h: HLInsnView) -> bool {
    &&& h.dst < 16
    &&& h.src < 16
    &&& h.name.is_prefix_of(h.desc)
    &&& h.opc != ebpf::LD_DW_IMM ==> i32::MIN <= h.imm <= i32::MAX
}

/// Every description starts with the mnemonic it is built from.
pub proof fn lemma_describe_starts_with_name(name: Seq<char>, layout: Layout, insn: Insn, imm: i64)
    ensures
        name.is_prefix_of(describe(name, layout, insn, imm)),
{
    let d = describe(name, layout, insn, imm);
    assert(d.len() >= name.len());
    assert(d.subrange(0, name.len() as int) =~= name);
}

proof fn lemma_decode_from(prog: Seq<u8>, ptr: int)
    requires
        0 <= ptr <= slot_count(prog),
    ensures
        decode_from(prog, ptr) matches Ok(s) ==> {
            &&& slots_filled(s) == slot_count(prog) - ptr
            &&& forall|i: int| 0 <= i < s.len() ==> well_formed(#[trigger] s[i])
        },
    decreases slot_count(prog) - ptr,
{
    if ptr < slot_count(prog) {
        if let Ok((h, next)) = decode_at(prog, ptr) {
            lemma_decode_from(prog, next);
            let insn = spec_get_insn(prog, ptr);
            let (name, layout) = opcode_table(insn.opc).unwrap();
            lemma_describe_starts_with_name(name, layout, insn, h.imm);
            assert(layout == Layout::WideImm <==> insn.opc == ebpf::LD_DW_IMM);
            if let Ok(rest) = decode_from(prog, next) {
                let s = seq![h] + rest;
                assert(s.drop_first() =~= rest);
                assert forall|i: int| 0 <= i < s.len() implies well_formed(#[trigger] s[i]) by {
                    if i > 0 {
                        assert(s[i] == rest[i - 1]);
                    }
                }
            }
        }
    }
}

/// The instructions that a program disassembles to fill its slots exactly:
/// each takes one slot, except a double-length load, which takes two.
pub proof fn law_slots_filled(prog: Seq<u8>)
    requires
        disassemble(prog) is Ok,
    ensures
        slots_filled(disassemble(prog)->Ok_0) == prog.len() / 8,
{
    lemma_decode_from(prog, 0);
}

/// Every instruction that a program disassembles to has register operands
/// below 16, a description that starts with its mnemonic, and, unless it is
/// a double-length load, an immediate within the range of `i32`.
pub proof fn law_well_formed(prog: Seq<u8>, i: int)
    requires
        disassemble(prog) is Ok,
        0 <= i < disassemble(prog)->Ok_0.len(),
    ensures
        well_formed(disassemble(prog)->Ok_0[i]),
{
    lemma_decode_from(prog, 0);
}

/// The immediate of a double-length load holds the immediate of its first
/// slot in its low 32 bits and that of its second slot in its high 32 bits.
pub proof fn law_merged_immediate(lo: i32, hi: i32)
    ensures
        bits64(merge_imm(lo, hi)) == bits32(lo) + bits32(hi) * 0x1_0000_0000,
{
}


proof fn lemma_get_insn_concat(p1: Seq<u8>, p2: Seq<u8>, idx: int)
    requires
        p1.len() % 8 == 0,
        0 <= idx,
        (idx + 1) * 8 <= p1.len() + p2.len(),
    ensures
        (idx + 1) * 8 <= p1.len() ==> spec_get_insn(p1 + p2, idx) == spec_get_insn(p1, idx),
        idx * 8 >= p1.len() ==> spec_get_insn(p1 + p2, idx) == spec_get_insn(
            p2,
            idx - p1.len() / 8,
        ),
{
    let p = p1 + p2;
    let b = idx * 8;
    if (idx + 1) * 8 <= p1.len() {
        assert(p[b] == p1[b] && p[b + 1] == p1[b + 1] && p[b + 2] == p1[b + 2] && p[b + 3] == p1[b
            + 3]);
        assert(p[b + 4] == p1[b + 4] && p[b + 5] == p1[b + 5] && p[b + 6] == p1[b + 6] && p[b + 7]
            == p1[b + 7]);
    }
    if b >= p1.len() {
        let c = b - p1.len();
        assert(c == (idx - p1.len() / 8) * 8);
        assert(p[b] == p2[c] && p[b + 1] == p2[c + 1] && p[b + 2] == p2[c + 2] && p[b + 3] == p2[c
            + 3]);
        assert(p[b + 4] == p2[c + 4] && p[b + 5] == p2[c + 5] && p[b + 6] == p2[c + 6] && p[b + 7]
            == p2[c + 7]);
    }
}

proof fn lemma_decode_from_suffix(p1: Seq<u8>, p2: Seq<u8>, k: int)
    requires
        p1.len() % 8 == 0,
        p2.len() % 8 == 0,
        0 <= k <= slot_count(p2),
        decode_from(p2, k) is Ok,
    ensures
        decode_from(p1 + p2, slot_count(p1) + k) == decode_from(p2, k),
    decreases slot_count(p2) - k,
{
    let p = p1 + p2;
    let n1 = slot_count(p1);
    assert(slot_count(p) == n1 + slot_count(p2));
    if k < slot_count(p2) {
        lemma_get_insn_concat(p1, p2, n1 + k);
        if k + 1 < slot_count(p2) {
            lemma_get_insn_concat(p1, p2, n1 + k + 1);
        }
        let (h, next) = decode_at(p2, k).unwrap();
        assert(decode_at(p, n1 + k) == Ok::<(HLInsnView, int), DisasmError>((h, n1 + next)));
        lemma_decode_from_suffix(p1, p2, next);
    }
}

proof fn lemma_decode_from_prefix(p1: Seq<u8>, p2: Seq<u8>, ptr: int)
    requires
        p1.len() % 8 == 0,
        p2.len() % 8 == 0,
        0 <= ptr <= slot_count(p1),
        decode_from(p1, ptr) is Ok,
        decode_from(p2, 0) is Ok,
    ensures
        decode_from(p1 + p2, ptr) == Ok::<Seq<HLInsnView>, DisasmError>(
            decode_from(p1, ptr)->Ok_0 + decode_from(p2, 0)->Ok_0,
        ),
    decreases slot_count(p1) - ptr,
{
    let p = p1 + p2;
    let n1 = slot_count(p1);
    assert(slot_count(p) == n1 + slot_count(p2));
    if ptr == n1 {
        lemma_decode_from_suffix(p1, p2, 0);
        assert(Seq::<HLInsnView>::empty() + decode_from(p2, 0)->Ok_0 =~= decode_from(p2, 0)->Ok_0);
    } else {
        lemma_get_insn_concat(p1, p2, ptr);
        let (h, next) = decode_at(p1, ptr).unwrap();
        if next == ptr + 2 {
            lemma_get_insn_concat(p1, p2, ptr + 1);
        }
        assert(decode_at(p, ptr) == decode_at(p1, ptr));
        lemma_decode_from_prefix(p1, p2, next);
        let rest = decode_from(p1, next)->Ok_0;
        let tail = decode_from(p2, 0)->Ok_0;
        assert(seq![h] + (rest + tail) =~= (seq![h] + rest) + tail);
    }
}

/// Disassembly works slot by slot: two programs that each disassemble, put
/// one after the other, disassemble to the instructions of the first
/// followed by those of the second.
pub proof fn law_concatenation(p1: Seq<u8>, p2: Seq<u8>)
    requires
        disassemble(p1) is Ok,
        disassemble(p2) is Ok,
    ensures
        disassemble(p1 + p2) == Ok::<Seq<HLInsnView>, DisasmError>(
            disassemble(p1)->Ok_0 + disassemble(p2)->Ok_0,
        ),
{
    assert((p1 + p2).len() % 8 == 0);
    lemma_decode_from_prefix(p1, p2, 0);
}


/// Appending an instruction adds its width to the slots filled.
pub proof fn lemma_slots_filled_push(s: Seq<HLInsnView>, h: HLInsnView)
    ensures
        slots_filled(s.push(h)) == slots_filled(s) + slot_width(h),
    decreases s.len(),
{
    if s.len() > 0 {
        assert(s.push(h).drop_first() =~= s.drop_first().push(h));
        lemma_slots_filled_push(s.drop_first(), h);
        assert(s.push(h)[0] == s[0]);
    } else {
        assert(s.push(h).drop_first() =~= Seq::<HLInsnView>::empty());
        assert(slots_filled(Seq::<HLInsnView>::empty()) == 0);
    }
}

/// Instructions fill at least one and at most two slots each.
pub proof fn lemma_slots_filled_bounds(s: Seq<HLInsnView>)
    ensures
        s.len() <= slots_filled(s) <= 2 * s.len(),
    decreases s.len(),
{
    if s.len() > 0 {
        lemma_slots_filled_bounds(s.drop_first());
    }
}

/// The warning that a byte swap whose width is not 16, 32 or 64 deserves.
pub open spec fn spec_byteswap_warning(h: HLInsnView) -> Option<Seq<char>> {
    if (h.opc == ebpf::LE || h.opc == ebpf::BE) && !(h.imm == 16 || h.imm == 32 || h.imm == 64) {
        Some("[Disassembler] Warning: Invalid offset value for "@ + h.name + " insn"@)
    } else {
        None
    }
}

/// The warning that the disassembler gives for `insn`, if any: a byte swap
/// (`le` or `be`) whose immediate, the width of the swap, is not 16, 32 or 64.
pub fn byteswap_warning(insn: &HLInsn) -> (r: Option<String>)
    ensures
        match r {
            Some(w) => spec_byteswap_warning(insn@) == Some(w@),
            None => spec_byteswap_warning(insn@) is None,
        },
{
    if (insn.opc == ebpf::LE || insn.opc == ebpf::BE) && !(insn.imm == 16 || insn.imm == 32
        || insn.imm == 64) {
        let mut w = "[Disassembler] Warning: Invalid offset value for ".to_owned();
        w.append(insn.name.as_str());
        w.append(" insn");
        Some(w)
    } else {
        None
    }
}

/// `h` is what decoding gives for the instruction that starts in slot `k`
/// of `prog`.
spec fn decoded_from_slot(h: HLInsnView, prog: Seq<u8>, k: int) -> bool {
    let insn = spec_get_insn(prog, k);
    &&& 0 <= k < slot_count(prog)
    &&& opcode_table(insn.opc) is Some
    &&& h.opc == insn.opc
    &&& h.name == opcode_table(insn.opc)->Some_0.0
    &&& h.desc == describe(h.name, opcode_table(insn.opc)->Some_0.1, insn, h.imm)
    &&& h.dst == insn.dst
    &&& h.src == insn.src
    &&& h.off == insn.off
    &&& h.opc != ebpf::LD_DW_IMM ==> h.imm == insn.imm as i64
    &&& h.opc == ebpf::LD_DW_IMM ==> k + 1 < slot_count(prog) && h.imm == merge_imm(
        insn.imm,
        spec_get_insn(prog, k + 1).imm,
    )
}

proof fn lemma_decode_from_slots(prog: Seq<u8>, ptr: int)
    requires
        0 <= ptr <= slot_count(prog),
    ensures
        decode_from(prog, ptr) matches Ok(s) ==> forall|i: int|
            0 <= i < s.len() ==> decoded_from_slot(
                #[trigger] s[i],
                prog,
                ptr + slots_filled(s.take(i)),
            ),
    decreases slot_count(prog) - ptr,
{
    if ptr < slot_count(prog) {
        if let Ok((h, next)) = decode_at(prog, ptr) {
            lemma_decode_from_slots(prog, next);
            let insn = spec_get_insn(prog, ptr);
            let (name, layout) = opcode_table(insn.opc).unwrap();
            assert(layout == Layout::WideImm <==> insn.opc == ebpf::LD_DW_IMM);
            if let Ok(rest) = decode_from(prog, next) {
                let s = seq![h] + rest;
                assert forall|i: int| 0 <= i < s.len() implies decoded_from_slot(
                    #[trigger] s[i],
                    prog,
                    ptr + slots_filled(s.take(i)),
                ) by {
                    if i == 0 {
                        assert(s.take(0) =~= Seq::<HLInsnView>::empty());
                    } else {
                        assert(s[i] == rest[i - 1]);
                        assert(s.take(i)[0] == h);
                        assert(s.take(i).drop_first() =~= rest.take(i - 1));
                        assert(slots_filled(s.take(i)) == slot_width(h) + slots_filled(
                            rest.take(i - 1),
                        ));
                    }
                }
            }
        }
    }
}

/// Each instruction comes from the bytes of the slot where it starts: the
/// slot that the instructions before it have not filled. Its opcode is the
/// slot's first byte; its destination and source registers are the low and
/// the high nibble of the second byte; its offset is the next two bytes,
/// little-endian, and its immediate the last four (for a double-length load,
/// with the last four bytes of the next slot above them), read modulo the
/// size of the field.
pub proof fn law_fields_from_bytes(prog: Seq<u8>, i: int)
    requires
        disassemble(prog) is Ok,
        0 <= i < disassemble(prog)->Ok_0.len(),
    ensures
        ({
            let s = disassemble(prog)->Ok_0;
            let h = s[i];
            let b = 8 * slots_filled(s.take(i));
            &&& 0 <= b && b + 8 <= prog.len()
            &&& h.opc == prog[b]
            &&& h.dst == prog[b + 1] % 16
            &&& h.src == prog[b + 1] / 16
            &&& h.off as int % 0x1_0000 == prog[b + 2] + 0x100 * prog[b + 3]
            &&& h.opc != 0x18 ==> h.imm as int % 0x1_0000_0000 == prog[b + 4] + 0x100 * prog[b
                + 5] + 0x1_0000 * prog[b + 6] + 0x100_0000 * prog[b + 7]
            &&& h.opc == 0x18 ==> b + 16 <= prog.len() && h.imm as int % 0x1_0000_0000_0000_0000
                == prog[b + 4] + 0x100 * prog[b + 5] + 0x1_0000 * prog[b + 6] + 0x100_0000 * prog[b
                + 7] + 0x1_0000_0000 * (prog[b + 12] + 0x100 * prog[b + 13] + 0x1_0000 * prog[b
                + 14] + 0x100_0000 * prog[b + 15])
        }),
{
    let s = disassemble(prog)->Ok_0;
    lemma_decode_from_slots(prog, 0);
    let k = slots_filled(s.take(i));
    assert(decoded_from_slot(s[i], prog, 0 + k));
    let h = s[i];
    let b = 8 * k;
    assert(b + 8 <= prog.len());
    let u16v = prog[b + 2] + 0x100 * prog[b + 3];
    assert(h.off as int % 0x1_0000 == u16v);
    if h.opc == 0x18 {
        assert(b + 16 <= prog.len());
    }
}

/// The description of a jump ends with its offset: `+` and the offset in
/// hex when it is not negative, `-` and its magnitude in hex when it is.
proof fn lemma_jump_description_ends_with_offset(
    name: Seq<char>,
    layout: Layout,
    insn: Insn,
    imm: i64,
)
    requires
        layout == Layout::JmpImm || layout == Layout::JmpReg || layout == Layout::Ja,
    ensures
        ({
            let d = describe(name, layout, insn, imm);
            let t = (if insn.off >= 0 {
                seq!['+']
            } else {
                seq!['-']
            }) + seq!['0', 'x'] + hex_digits(
                (if insn.off >= 0 {
                    insn.off as int
                } else {
                    -insn.off
                }) as nat,
            );
            d.len() >= t.len() && d.subrange(d.len() - t.len(), d.len() as int) == t
        }),
{
    let d = describe(name, layout, insn, imm);
    let t = (if insn.off >= 0 {
        seq!['+']
    } else {
        seq!['-']
    }) + seq!['0', 'x'] + hex_digits(
        (if insn.off >= 0 {
            insn.off as int
        } else {
            -insn.off
        }) as nat,
    );
    assert(signed_hex(insn.off) =~= t);
    assert(d.subrange(d.len() - t.len(), d.len() as int) =~= t);
}

/// The description of every jump (an instruction of either jump class other
/// than a call, a tail call or an exit) ends with its offset, with the sign
/// of the offset: `+0x..` when it is not negative, `-0x..` and its magnitude
/// when it is.
pub proof fn law_jump_offset_rendered(prog: Seq<u8>, i: int)
    requires
        disassemble(prog) is Ok,
        0 <= i < disassemble(prog)->Ok_0.len(),
        ({
            let h = disassemble(prog)->Ok_0[i];
            (h.opc % 8 == 5 || h.opc % 8 == 6) && h.opc != 0x85 && h.opc != 0x8d && h.opc != 0x95
        }),
    ensures
        ({
            let h = disassemble(prog)->Ok_0[i];
            let t = (if h.off >= 0 {
                seq!['+']
            } else {
                seq!['-']
            }) + seq!['0', 'x'] + hex_digits(
                (if h.off >= 0 {
                    h.off as int
                } else {
                    -h.off
                }) as nat,
            );
            h.desc.len() >= t.len() && h.desc.subrange(h.desc.len() - t.len(), h.desc.len() as int)
                == t
        }),
{
    let s = disassemble(prog)->Ok_0;
    lemma_decode_from_slots(prog, 0);
    let k = slots_filled(s.take(i));
    assert(decoded_from_slot(s[i], prog, 0 + k));
    let insn = spec_get_insn(prog, k);
    let (name, layout) = opcode_table(insn.opc)->Some_0;
    assert(layout == Layout::JmpImm || layout == Layout::JmpReg || layout == Layout::Ja);
    lemma_jump_description_ends_with_offset(name, layout, insn, s[i].imm);
}

/// The operation of an arithmetic opcode, by its operation bits (`opc / 16`).
pub open spec fn alu_operation(op: u8) -> Seq<char> {
    match op {
        0 => seq!['a', 'd', 'd'],
        1 => seq!['s', 'u', 'b'],
        2 => seq!['m', 'u', 'l'],
        3 => seq!['d', 'i', 'v'],
        4 => seq!['o', 'r'],
        5 => seq!['a', 'n', 'd'],
        6 => seq!['l', 's', 'h'],
        7 => seq!['r', 's', 'h'],
        8 => seq!['n', 'e', 'g'],
        9 => seq!['m', 'o', 'd'],
        10 => seq!['x', 'o', 'r'],
        11 => seq!['m', 'o', 'v'],
        12 => seq!['a', 'r', 's', 'h'],
        _ => Seq::empty(),
    }
}

/// The operation of a jump opcode, by its operation bits (`opc / 16`).
pub open spec fn jump_operation(op: u8) -> Seq<char> {
    match op {
        0 => seq!['j', 'a'],
        1 => seq!['j', 'e', 'q'],
        2 => seq!['j', 'g', 't'],
        3 => seq!['j', 'g', 'e'],
        4 => seq!['j', 's', 'e', 't'],
        5 => seq!['j', 'n', 'e'],
        6 => seq!['j', 's', 'g', 't'],
        7 => seq!['j', 's', 'g', 'e'],
        8 => seq!['c', 'a', 'l', 'l'],
        9 => seq!['e', 'x', 'i', 't'],
        10 => seq!['j', 'l', 't'],
        11 => seq!['j', 'l', 'e'],
        12 => seq!['j', 's', 'l', 't'],
        13 => seq!['j', 's', 'l', 'e'],
        _ => Seq::empty(),
    }
}

/// The width of a load or store, by its size bits (`(opc / 8) % 4`).
pub open spec fn size_name(size: u8) -> Seq<char> {
    match size {
        0 => seq!['w'],
        1 => seq!['h'],
        2 => seq!['b'],
        _ => seq!['d', 'w'],
    }
}

/// Whether `opc` is an eBPF opcode that the disassembler knows, by its
/// fields: class (`opc % 8`), source bit (`(opc / 8) % 2`), operation
/// (`opc / 16`) and, for loads and stores, mode (`opc / 32`) and size.
pub open spec fn spelled_known(opc: u8) -> bool {
    let class = opc % 8;
    let src = (opc / 8) % 2;
    let op = opc / 16;
    let mode = opc / 32;
    if class == 0 {
        opc == 0x18 || mode == 1 || mode == 2
    } else if class == 1 || class == 2 {
        mode == 3
    } else if class == 3 {
        mode == 3 || (mode == 6 && (opc / 8) % 4 != 1 && (opc / 8) % 4 != 2)
    } else if class == 4 {
        (op <= 12 && (op != 8 || src == 0)) || op == 13
    } else if class == 7 {
        op <= 12 && (op != 8 || src == 0)
    } else if class == 5 {
        op <= 13 && (op != 0 || src == 0) && (op != 9 || src == 0)
    } else {
        class == 6 && op <= 13 && op != 0 && op != 8 && op != 9
    }
}

/// The mnemonic that the fields of `opc` spell: the operation, then the
/// width for loads and stores, `32`/`64` for arithmetic, `32` for 32-bit
/// jumps.
pub open spec fn spelled_mnemonic(opc: u8) -> Seq<char> {
    let class = opc % 8;
    let src = (opc / 8) % 2;
    let op = opc / 16;
    let mode = opc / 32;
    let size = size_name((opc / 8) % 4);
    if class == 0 {
        if opc == 0x18 {
            seq!['l', 'd', 'd', 'w']
        } else if mode == 1 {
            seq!['l', 'd', 'a', 'b', 's'] + size
        } else {
            seq!['l', 'd', 'i', 'n', 'd'] + size
        }
    } else if class == 1 {
        seq!['l', 'd', 'x'] + size
    } else if class == 2 {
        seq!['s', 't'] + size
    } else if class == 3 {
        if mode == 6 {
            seq!['s', 't', 'x', 'x', 'a', 'd', 'd'] + size
        } else {
            seq!['s', 't', 'x'] + size
        }
    } else if class == 4 {
        if op == 13 {
            if src == 0 {
                seq!['l', 'e']
            } else {
                seq!['b', 'e']
            }
        } else {
            alu_operation(op) + seq!['3', '2']
        }
    } else if class == 7 {
        alu_operation(op) + seq!['6', '4']
    } else if class == 5 {
        if op == 8 && src == 1 {
            seq!['t', 'a', 'i', 'l', '_', 'c', 'a', 'l', 'l']
        } else {
            jump_operation(op)
        }
    } else {
        jump_operation(op) + seq!['3', '2']
    }
}

/// The layout that the fields of `opc` call for.
pub open spec fn spelled_layout(opc: u8) -> Layout {
    let class = opc % 8;
    let src = (opc / 8) % 2;
    let op = opc / 16;
    let mode = opc / 32;
    if class == 0 {
        if opc == 0x18 {
            Layout::WideImm
        } else if mode == 1 {
            Layout::LdAbs
        } else {
            Layout::LdInd
        }
    } else if class == 1 {
        Layout::LdReg
    } else if class == 2 {
        Layout::StImm
    } else if class == 3 {
        Layout::StReg
    } else if class == 4 || class == 7 {
        if op == 13 {
            Layout::ByteSwap
        } else if op == 8 {
            Layout::Unary
        } else if src == 0 {
            Layout::AluImm
        } else {
            Layout::AluReg
        }
    } else {
        if op == 0 {
            Layout::Ja
        } else if op == 8 && src == 0 {
            Layout::Call
        } else if op == 8 || op == 9 {
            Layout::Bare
        } else if src == 0 {
            Layout::JmpImm
        } else {
            Layout::JmpReg
        }
    }
}

/// The opcode table is the one that the fields of the opcodes spell out:
/// an opcode is known exactly when its fields make a known instruction, and
/// then its mnemonic names its operation (with the width for loads and
/// stores, and `32`/`64` for arithmetic and 32-bit jumps) and its layout is
/// the one its class, operation and source bit call for. So opcodes with
/// different operation bits, such as `jeq` and `jne`, never share a mnemonic.
pub proof fn law_opcode_table_spelled(opc: u8)
    ensures
        opcode_table(opc) is Some <==> spelled_known(opc),
        opcode_table(opc) matches Some((name, layout)) ==> name =~= spelled_mnemonic(opc) && layout
            == spelled_layout(opc),
{
    reveal_strlit("add32");
    reveal_strlit("add64");
    reveal_strlit("and32");
    reveal_strlit("and64");
    reveal_strlit("arsh32");
    reveal_strlit("arsh64");
    reveal_strlit("be");
    reveal_strlit("call");
    reveal_strlit("div32");
    reveal_strlit("div64");
    reveal_strlit("exit");
    reveal_strlit("ja");
    reveal_strlit("jeq");
    reveal_strlit("jeq32");
    reveal_strlit("jge");
    reveal_strlit("jge32");
    reveal_strlit("jgt");
    reveal_strlit("jgt32");
    reveal_strlit("jle");
    reveal_strlit("jle32");
    reveal_strlit("jlt");
    reveal_strlit("jlt32");
    reveal_strlit("jne");
    reveal_strlit("jne32");
    reveal_strlit("jset");
    reveal_strlit("jset32");
    reveal_strlit("jsge");
    reveal_strlit("jsge32");
    reveal_strlit("jsgt");
    reveal_strlit("jsgt32");
    reveal_strlit("jsle");
    reveal_strlit("jsle32");
    reveal_strlit("jslt");
    reveal_strlit("jslt32");
    reveal_strlit("ldabsb");
    reveal_strlit("ldabsdw");
    reveal_strlit("ldabsh");
    reveal_strlit("ldabsw");
    reveal_strlit("lddw");
    reveal_strlit("ldindb");
    reveal_strlit("ldinddw");
    reveal_strlit("ldindh");
    reveal_strlit("ldindw");
    reveal_strlit("ldxb");
    reveal_strlit("ldxdw");
    reveal_strlit("ldxh");
    reveal_strlit("ldxw");
    reveal_strlit("le");
    reveal_strlit("lsh32");
    reveal_strlit("lsh64");
    reveal_strlit("mod32");
    reveal_strlit("mod64");
    reveal_strlit("mov32");
    reveal_strlit("mov64");
    reveal_strlit("mul32");
    reveal_strlit("mul64");
    reveal_strlit("neg32");
    reveal_strlit("neg64");
    reveal_strlit("or32");
    reveal_strlit("or64");
    reveal_strlit("rsh32");
    reveal_strlit("rsh64");
    reveal_strlit("stb");
    reveal_strlit("stdw");
    reveal_strlit("sth");
    reveal_strlit("stw");
    reveal_strlit("stxb");
    reveal_strlit("stxdw");
    reveal_strlit("stxh");
    reveal_strlit("stxw");
    reveal_strlit("stxxadddw");
    reveal_strlit("stxxaddw");
    reveal_strlit("sub32");
    reveal_strlit("sub64");
    reveal_strlit("tail_call");
    reveal_strlit("xor32");
    reveal_strlit("xor64");
}

/// Register operands come in rbpf order, each as `r` and its number in
/// decimal: right after the mnemonic, the destination register (after ` `,
/// or after ` [` for stores) and then, for the layouts with two registers,
/// the source register after `, ` (after `, [` for register loads, and
/// after `], ` for register stores); indirect loads name only the source.
pub proof fn law_register_operands(name: Seq<char>, layout: Layout, insn: Insn, imm: i64)
    ensures
        ({
            let d = describe(name, layout, insn, imm);
            let n = name.len() as int;
            let dst = seq!['r'] + dec_digits(insn.dst as nat);
            let src = seq!['r'] + dec_digits(insn.src as nat);
            &&& (layout == Layout::AluImm || layout == Layout::AluReg || layout == Layout::LdReg
                || layout == Layout::JmpImm || layout == Layout::JmpReg || layout == Layout::WideImm)
                ==> d.len() >= n + 1 + dst.len() + 2 && d.subrange(n, n + 1 + dst.len() + 2)
                =~= seq![' '] + dst + seq![',', ' ']
            &&& layout == Layout::Unary ==> d =~= name + seq![' '] + dst
            &&& layout == Layout::ByteSwap ==> d.subrange(d.len() - dst.len() - 1, d.len() as int)
                =~= seq![' '] + dst
            &&& (layout == Layout::StImm || layout == Layout::StReg) ==> d.len() >= n + 2
                + dst.len() && d.subrange(n, n + 2 + dst.len()) =~= seq![' ', '['] + dst
            &&& layout == Layout::AluReg ==> d =~= name + seq![' '] + dst + seq![',', ' '] + src
            &&& layout == Layout::JmpReg ==> d.subrange(n, n + 1 + dst.len() + 2 + src.len() + 2)
                =~= seq![' '] + dst + seq![',', ' '] + src + seq![',', ' ']
            &&& layout == Layout::LdReg ==> d.subrange(n, n + 1 + dst.len() + 3 + src.len())
                =~= seq![' '] + dst + seq![',', ' ', '['] + src
            &&& layout == Layout::StReg ==> d.subrange(d.len() - 3 - src.len(), d.len() as int)
                =~= seq![']', ',', ' '] + src
            &&& layout == Layout::LdInd ==> d.subrange(n, n + 1 + src.len() + 2) =~= seq![' ']
                + src + seq![',', ' ']
        }),
{
    let d = describe(name, layout, insn, imm);
    let n = name.len() as int;
    let dst = seq!['r'] + dec_digits(insn.dst as nat);
    let src = seq!['r'] + dec_digits(insn.src as nat);
    assert(reg(insn.dst) == dst);
    assert(reg(insn.src) == src);
    match layout {
        Layout::AluImm => {
            assert(d.subrange(n, n + 1 + dst.len() + 2) =~= seq![' '] + dst + seq![',', ' ']);
        },
        Layout::AluReg => {
            assert(d.subrange(n, n + 1 + dst.len() + 2) =~= seq![' '] + dst + seq![',', ' ']);
        },
        Layout::LdReg => {
            assert(d.subrange(n, n + 1 + dst.len() + 2) =~= seq![' '] + dst + seq![',', ' ']);
            assert(d.subrange(n, n + 1 + dst.len() + 3 + src.len()) =~= seq![' '] + dst + seq![
                ',',
                ' ',
                '[',
            ] + src);
        },
        Layout::JmpImm => {
            assert(d.subrange(n, n + 1 + dst.len() + 2) =~= seq![' '] + dst + seq![',', ' ']);
        },
        Layout::JmpReg => {
            assert(d.subrange(n, n + 1 + dst.len() + 2) =~= seq![' '] + dst + seq![',', ' ']);
            assert(d.subrange(n, n + 1 + dst.len() + 2 + src.len() + 2) =~= seq![' '] + dst
                + seq![',', ' '] + src + seq![',', ' ']);
        },
        Layout::WideImm => {
            assert(d.subrange(n, n + 1 + dst.len() + 2) =~= seq![' '] + dst + seq![',', ' ']);
        },
        Layout::ByteSwap => {
            assert(d.subrange(d.len() - dst.len() - 1, d.len() as int) =~= seq![' '] + dst);
        },
        Layout::StImm => {
            assert(d.subrange(n, n + 2 + dst.len()) =~= seq![' ', '['] + dst);
        },
        Layout::StReg => {
            assert(d.subrange(n, n + 2 + dst.len()) =~= seq![' ', '['] + dst);
            assert(d.subrange(d.len() - 3 - src.len(), d.len() as int) =~= seq![']', ',', ' ']
                + src);
        },
        Layout::LdInd => {
            assert(d.subrange(n, n + 1 + src.len() + 2) =~= seq![' '] + src + seq![',', ' ']);
        },
        _ => {},
    }
}

/// Immediates are shown as `0x` and the hex digits of their bit pattern
/// (the value modulo 2^32, or modulo 2^64 for the merged immediate of a
/// double-length load), and come last, except in a jump, where the offset
/// follows them after `, `.
pub proof fn law_immediate_operand(name: Seq<char>, layout: Layout, insn: Insn, imm: i64)
    ensures
        ({
            let d = describe(name, layout, insn, imm);
            let k = seq!['0', 'x'] + hex_digits((insn.imm as int % 0x1_0000_0000) as nat);
            let t = seq![',', ' '] + signed_hex(insn.off);
            &&& (layout == Layout::AluImm || layout == Layout::StImm || layout == Layout::LdAbs
                || layout == Layout::LdInd || layout == Layout::Call) ==> d.len() >= k.len()
                && d.subrange(d.len() - k.len(), d.len() as int) =~= k
            &&& layout == Layout::JmpImm ==> d.len() >= k.len() + t.len() && d.subrange(
                d.len() - k.len() - t.len(),
                d.len() as int,
            ) =~= k + t
            &&& layout == Layout::WideImm ==> d.subrange(
                d.len() - 2 - hex_digits((imm as int % 0x1_0000_0000_0000_0000) as nat).len(),
                d.len() as int,
            ) =~= seq!['0', 'x'] + hex_digits((imm as int % 0x1_0000_0000_0000_0000) as nat)
        }),
{
    let d = describe(name, layout, insn, imm);
    let k = seq!['0', 'x'] + hex_digits((insn.imm as int % 0x1_0000_0000) as nat);
    let t = seq![',', ' '] + signed_hex(insn.off);
    assert(bits32(insn.imm) == insn.imm as int % 0x1_0000_0000);
    assert(bits64(imm) == imm as int % 0x1_0000_0000_0000_0000);
    assert(hex_lit(bits32(insn.imm)) == k);
    match layout {
        Layout::JmpImm => {
            assert(d.subrange(d.len() - k.len() - t.len(), d.len() as int) =~= k + t);
        },
        Layout::WideImm => {
            let w = seq!['0', 'x'] + hex_digits((imm as int % 0x1_0000_0000_0000_0000) as nat);
            assert(d.subrange(d.len() - w.len(), d.len() as int) =~= w);
        },
        Layout::AluImm | Layout::StImm | Layout::LdAbs | Layout::LdInd | Layout::Call => {
            assert(d.subrange(d.len() - k.len(), d.len() as int) =~= k);
        },
        _ => {},
    }
}

} // verus!
