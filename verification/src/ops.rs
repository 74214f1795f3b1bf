//! Instruction construction helpers: one builder per addressing or
//! operation need, each populating exactly the fields its format requires.

use vstd::prelude::*;

use crate::ais::AddrSize;
use crate::ais::Const;
use crate::ais::DpCntl;
use crate::ais::Function;
use crate::ais::Instruction;
use crate::ais::Offset;
use crate::ais::Opcode;
use crate::ais::Register;
use crate::ais::Sel;
use crate::ais::Size;
use crate::ais::SubFunc;
use crate::ais::SubOp;
use crate::ais::SubOpXalu;
use crate::ais::SubOpXio;
use crate::ais::XjMode;
use crate::ais::XjSize;

verus! {

/// An I-format instruction: source, target and a 16-bit immediate.
pub open spec fn s_i_type(opcode: Opcode, dst: Register, src: Register, imm: u16) -> Instruction {
    Instruction {
        opcode,
        rs: Some(src),
        rt: Some(dst),
        rd: None,
        imm: Some(imm),
        constant: None,
        offset: None,
        function: None,
        leftovers: 0,
    }
}

/// A register-register arithmetic instruction.
pub open spec fn s_xalur(
    subop: SubOpXalu,
    dpcntl: DpCntl,
    dst: Register,
    src: Register,
    extra: Register,
) -> Instruction {
    Instruction {
        opcode: Opcode::XALUR,
        rs: Some(src),
        rt: Some(extra),
        rd: Some(dst),
        imm: None,
        constant: None,
        offset: None,
        function: Some(Function::Xalu(subop, dpcntl)),
        leftovers: 0,
    }
}

/// A register-const arithmetic instruction.
pub open spec fn s_xaluir(
    subop: SubOpXalu,
    dpcntl: DpCntl,
    dst: Register,
    src: Register,
    constant: Const,
) -> Instruction {
    Instruction {
        opcode: Opcode::XALUIR,
        rs: Some(src),
        rt: None,
        rd: Some(dst),
        imm: None,
        constant: Some(constant),
        offset: None,
        function: Some(Function::Xalu(subop, dpcntl)),
        leftovers: 0,
    }
}

/// A bare XLS-format instruction: source, base and offset, before its
/// function payload is chosen.
pub open spec fn s_xls_type(opcode: Opcode, rs: Register, base: Register, offset: Offset) -> Instruction {
    Instruction {
        opcode,
        rs: Some(rs),
        rt: Some(base),
        rd: None,
        imm: None,
        constant: None,
        offset: Some(offset),
        function: None,
        leftovers: 0,
    }
}

/// An I/O write to a port register.
pub open spec fn s_iow(size: Size, port: Register, value: Register) -> Instruction {
    Instruction {
        function: Some(Function::Xio(SubOpXio::Norm, AddrSize::Bits16, size, Sel::FLAT)),
        ..s_xls_type(Opcode::XIOW, value, port, Offset::Number(0))
    }
}

/// An I/O read from a port register.
pub open spec fn s_ior(size: Size, port: Register, value: Register) -> Instruction {
    Instruction {
        function: Some(Function::Xio(SubOpXio::Norm, AddrSize::Bits16, size, Sel::FLAT)),
        ..s_xls_type(Opcode::XIOR, value, port, Offset::Number(0))
    }
}

/// A push of a register through an arbitrary base and offset.
pub open spec fn s_push(size: Size, reg: Register, base: Register, offset: Offset) -> Instruction {
    Instruction {
        function: Some(Function::Xls(SubOp::Raw(0), AddrSize::Bits32, size, Sel::SS)),
        ..s_xls_type(Opcode::XPUSH, reg, base, offset)
    }
}

/// A pop into a register through an arbitrary base and offset.
pub open spec fn s_pop(size: Size, reg: Register, base: Register, offset: Offset) -> Instruction {
    Instruction {
        function: Some(Function::Xls(SubOp::Raw(0), AddrSize::Bits32, size, Sel::SS)),
        ..s_xls_type(Opcode::XPOP, reg, base, offset)
    }
}

/// A push of the current instruction pointer onto the stack.
pub open spec fn s_puship(size: Size) -> Instruction {
    Instruction {
        function: Some(Function::Xls(SubOp::Raw(0), AddrSize::Bits32, size, Sel::SS)),
        ..s_xls_type(Opcode::XPUSHIP, Register(0), Register(20), Offset::Number(-4i8))
    }
}

/// An effective-address computation with a displacement offset.
pub open spec fn s_lead(
    dst: Register,
    base: Register,
    offset: Offset,
    addr_size: AddrSize,
    size: Size,
) -> Instruction {
    Instruction {
        function: Some(Function::Xlea(addr_size, size)),
        ..s_xls_type(Opcode::XLEAD, dst, base, offset)
    }
}

/// An effective-address computation with an index register.
pub open spec fn s_leai(
    dst: Register,
    base: Register,
    index: Register,
    addr_size: AddrSize,
    size: Size,
) -> Instruction {
    Instruction {
        opcode: Opcode::XLEAI,
        rs: Some(dst),
        rt: Some(base),
        rd: Some(index),
        imm: None,
        constant: None,
        offset: None,
        function: Some(Function::Xlea(addr_size, size)),
        leftovers: 0,
    }
}

/// A control-register move out of the coprocessor.
pub open spec fn s_cfc2(dst: Register, src: Register) -> Instruction {
    Instruction {
        opcode: Opcode::XMISC,
        rs: None,
        rt: Some(dst),
        rd: Some(src),
        imm: None,
        constant: None,
        offset: None,
        function: Some(Function::Xmisc(SubFunc::CFC2, 0)),
        leftovers: 0,
    }
}

/// An indirect jump through a register.  One undocumented bit must always
/// be set when emitting a jump; no modeled field covers it, so it rides in
/// the leftovers.
pub open spec fn s_j(base: Register) -> Instruction {
    Instruction {
        opcode: Opcode::XJ,
        rs: None,
        rt: Some(base),
        rd: None,
        imm: None,
        constant: None,
        offset: None,
        function: Some(Function::Xj(XjSize::Bits32, XjMode::AIS)),
        leftovers: 0b0100,
    }
}

/// Every fully populated I-format instruction encodes, to exactly 6 bytes.
pub proof fn lemma_i_type_encodes(opcode: Opcode, dst: Register, src: Register, imm: u16)
    requires
        crate::ais::s_is_i_type(opcode),
    ensures
        crate::encode::s_encode_bytes(s_i_type(opcode, dst, src, imm)) matches Ok(bs) && bs.len()
            == 6,
{
    vstd::bytes::lemma_auto_spec_u32_to_from_le_bytes();
}

/// Every register-register arithmetic instruction encodes, to exactly 6
/// bytes.
pub proof fn lemma_xalur_encodes(
    subop: SubOpXalu,
    dpcntl: DpCntl,
    dst: Register,
    src: Register,
    extra: Register,
)
    ensures
        crate::encode::s_encode_bytes(s_xalur(subop, dpcntl, dst, src, extra)) matches Ok(bs)
            && bs.len() == 6,
{
    vstd::bytes::lemma_auto_spec_u32_to_from_le_bytes();
}

/// A register-const arithmetic instruction encodes exactly when its const
/// has a 5-bit pattern, to exactly 6 bytes.
pub proof fn lemma_xaluir_encodes(
    subop: SubOpXalu,
    dpcntl: DpCntl,
    dst: Register,
    src: Register,
    constant: Const,
)
    requires
        crate::ais::s_const_bits(constant) is Ok,
    ensures
        crate::encode::s_encode_bytes(s_xaluir(subop, dpcntl, dst, src, constant)) matches Ok(bs)
            && bs.len() == 6,
{
    vstd::bytes::lemma_auto_spec_u32_to_from_le_bytes();
}

/// The indirect jump always encodes, to exactly 6 bytes.
pub proof fn lemma_j_encodes(base: Register)
    ensures
        crate::encode::s_encode_bytes(s_j(base)) matches Ok(bs) && bs.len() == 6,
{
    vstd::bytes::lemma_auto_spec_u32_to_from_le_bytes();
}

/// A push encodes exactly when its offset has a 5-bit pattern, to exactly
/// 6 bytes.
pub proof fn lemma_push_encodes(size: Size, reg: Register, base: Register, offset: Offset)
    requires
        crate::ais::s_offset_bits(offset) is Ok,
    ensures
        crate::encode::s_encode_bytes(s_push(size, reg, base, offset)) matches Ok(bs) && bs.len()
            == 6,
{
    vstd::bytes::lemma_auto_spec_u32_to_from_le_bytes();
}

/// A pop encodes exactly when its offset has a 5-bit pattern, to exactly
/// 6 bytes.
pub proof fn lemma_pop_encodes(size: Size, reg: Register, base: Register, offset: Offset)
    requires
        crate::ais::s_offset_bits(offset) is Ok,
    ensures
        crate::encode::s_encode_bytes(s_pop(size, reg, base, offset)) matches Ok(bs) && bs.len()
            == 6,
{
    vstd::bytes::lemma_auto_spec_u32_to_from_le_bytes();
}

/// The instruction-pointer push always encodes, to exactly 6 bytes.
pub proof fn lemma_puship_encodes(size: Size)
    ensures
        crate::encode::s_encode_bytes(s_puship(size)) matches Ok(bs) && bs.len() == 6,
{
    vstd::bytes::lemma_auto_spec_u32_to_from_le_bytes();
}

fn i_type(opcode: Opcode, dst: Register, src: Register, imm: u16) -> (r: Instruction)
    ensures
        r == s_i_type(opcode, dst, src, imm),
{
    let mut ret = Instruction::new(opcode);
    ret.rs = Some(src);
    ret.rt = Some(dst);
    ret.imm = Some(imm);
    ret
}

fn xalur(subop: SubOpXalu, dpcntl: DpCntl, dst: Register, src: Register, extra: Register) -> (r:
    Instruction)
    ensures
        r == s_xalur(subop, dpcntl, dst, src, extra),
{
    let mut ret = Instruction::new(Opcode::XALUR);
    ret.rs = Some(src);
    ret.rd = Some(dst);
    ret.rt = Some(extra);
    ret.function = Some(Function::Xalu(subop, dpcntl));
    ret
}

fn xaluir(subop: SubOpXalu, dpcntl: DpCntl, dst: Register, src: Register, constant: Const) -> (r:
    Instruction)
    ensures
        r == s_xaluir(subop, dpcntl, dst, src, constant),
{
    let mut ret = Instruction::new(Opcode::XALUIR);
    ret.rs = Some(src);
    ret.rd = Some(dst);
    ret.constant = Some(constant);
    ret.function = Some(Function::Xalu(subop, dpcntl));
    ret
}

fn xls_type(opcode: Opcode, rs: Register, base: Register, offset: Offset) -> (r: Instruction)
    ensures
        r == s_xls_type(opcode, rs, base, offset),
{
    let mut ret = Instruction::new(opcode);
    ret.rs = Some(rs);
    ret.rt = Some(base);
    ret.offset = Some(offset);
    ret
}

/// Builds an I/O write: the value register is sent to the port register.
pub fn iow(size: Size, port: Register, value: Register) -> (r: Instruction)
    ensures
        r == s_iow(size, port, value),
{
    let mut instr = xls_type(Opcode::XIOW, value, port, Offset::Number(0));
    instr.function = Some(Function::Xio(SubOpXio::Norm, AddrSize::Bits16, size, Sel::FLAT));
    instr
}

/// Builds an I/O read: the value register is filled from the port register.
pub fn ior(size: Size, port: Register, value: Register) -> (r: Instruction)
    ensures
        r == s_ior(size, port, value),
{
    let mut instr = xls_type(Opcode::XIOR, value, port, Offset::Number(0));
    instr.function = Some(Function::Xio(SubOpXio::Norm, AddrSize::Bits16, size, Sel::FLAT));
    instr
}

/// Builds a push of a register through the given base and offset.
pub fn push(size: Size, reg: Register, base: Register, offset: Offset) -> (r: Instruction)
    ensures
        r == s_push(size, reg, base, offset),
{
    let mut instr = xls_type(Opcode::XPUSH, reg, base, offset);
    instr.function = Some(Function::Xls(SubOp::Raw(0), AddrSize::Bits32, size, Sel::SS));
    instr
}

/// Builds a push through the stack pointer with the usual pre-decrement.
pub fn pushsp(size: Size, reg: Register) -> (r: Instruction)
    ensures
        r == s_push(size, reg, Register(20), Offset::Number(-4i8)),
{
    push(size, reg, Register::ESP(), Offset::Number(-4i8))
}

/// Builds a pop of a register through the given base and offset.
pub fn pop(size: Size, reg: Register, base: Register, offset: Offset) -> (r: Instruction)
    ensures
        r == s_pop(size, reg, base, offset),
{
    let mut instr = xls_type(Opcode::XPOP, reg, base, offset);
    instr.function = Some(Function::Xls(SubOp::Raw(0), AddrSize::Bits32, size, Sel::SS));
    instr
}

/// Builds a pop through the stack pointer with the usual post-increment.
pub fn popsp(size: Size, reg: Register) -> (r: Instruction)
    ensures
        r == s_pop(size, reg, Register(20), Offset::Number(4)),
{
    pop(size, reg, Register::ESP(), Offset::Number(4))
}

/// Builds a push of the current instruction pointer.
pub fn puship(size: Size) -> (r: Instruction)
    ensures
        r == s_puship(size),
{
    let mut instr = xls_type(Opcode::XPUSHIP, Register::R0(), Register::ESP(), Offset::Number(-4i8));
    instr.function = Some(Function::Xls(SubOp::Raw(0), AddrSize::Bits32, size, Sel::SS));
    instr
}

/// Builds an effective-address computation with a displacement offset.
pub fn lead(dst: Register, base: Register, offset: Offset, addr_size: AddrSize, size: Size) -> (r:
    Instruction)
    ensures
        r == s_lead(dst, base, offset, addr_size, size),
{
    let mut instr = xls_type(Opcode::XLEAD, dst, base, offset);
    instr.function = Some(Function::Xlea(addr_size, size));
    instr
}

/// Builds an effective-address computation with an index register.
pub fn leai(dst: Register, base: Register, index: Register, addr_size: AddrSize, size: Size) -> (r:
    Instruction)
    ensures
        r == s_leai(dst, base, index, addr_size, size),
{
    let mut instr = Instruction::new(Opcode::XLEAI);
    instr.rs = Some(dst);
    instr.rt = Some(base);
    instr.rd = Some(index);
    instr.function = Some(Function::Xlea(addr_size, size));
    instr
}

/// Builds a control-register move out of the coprocessor.
pub fn cfc2(dst: Register, src: Register) -> (r: Instruction)
    ensures
        r == s_cfc2(dst, src),
{
    let mut instr = Instruction::new(Opcode::XMISC);
    instr.rt = Some(dst);
    instr.rd = Some(src);
    instr.function = Some(Function::Xmisc(SubFunc::CFC2, 0));
    instr
}

/// Builds an indirect jump through the given register.
pub fn j(base: Register) -> (r: Instruction)
    ensures
        r == s_j(base),
{
    let mut ret = Instruction::new(Opcode::XJ);
    ret.rt = Some(base);
    ret.function = Some(Function::Xj(XjSize::Bits32, XjMode::AIS));
    // The undocumented always-set jump bit, carried via leftovers.
    ret.leftovers = 0b0100;
    ret
}

/// Builds an AND of the low immediate half.
pub fn xandil(dst: Register, src: Register, imm: u16) -> (r: Instruction)
    ensures
        r == s_i_type(Opcode::ANDIL, dst, src, imm),
{
    i_type(Opcode::ANDIL, dst, src, imm)
}

/// Builds an AND of the high immediate half.
pub fn xandiu(dst: Register, src: Register, imm: u16) -> (r: Instruction)
    ensures
        r == s_i_type(Opcode::ANDIU, dst, src, imm),
{
    i_type(Opcode::ANDIU, dst, src, imm)
}

/// Builds an OR of the low immediate half.
pub fn xori(dst: Register, src: Register, imm: u16) -> (r: Instruction)
    ensures
        r == s_i_type(Opcode::ORI, dst, src, imm),
{
    i_type(Opcode::ORI, dst, src, imm)
}

/// Builds an OR of the high immediate half.
pub fn xoriu(dst: Register, src: Register, imm: u16) -> (r: Instruction)
    ensures
        r == s_i_type(Opcode::ORIU, dst, src, imm),
{
    i_type(Opcode::ORIU, dst, src, imm)
}

/// Builds a register-register AND.
pub fn and(dst: Register, src: Register, extra: Register) -> (r: Instruction)
    ensures
        r == s_xalur(SubOpXalu::AND, DpCntl::Word, dst, src, extra),
{
    xalur(SubOpXalu::AND, DpCntl::Word, dst, src, extra)
}

/// Builds a register-const AND.
pub fn andi(dst: Register, src: Register, constant: Const) -> (r: Instruction)
    ensures
        r == s_xaluir(SubOpXalu::AND, DpCntl::Word, dst, src, constant),
{
    xaluir(SubOpXalu::AND, DpCntl::Word, dst, src, constant)
}

/// Builds a register-register OR.
pub fn or(dst: Register, src: Register, extra: Register) -> (r: Instruction)
    ensures
        r == s_xalur(SubOpXalu::OR, DpCntl::Word, dst, src, extra),
{
    xalur(SubOpXalu::OR, DpCntl::Word, dst, src, extra)
}

/// Builds a register-const OR.
pub fn ori(dst: Register, src: Register, constant: Const) -> (r: Instruction)
    ensures
        r == s_xaluir(SubOpXalu::OR, DpCntl::Word, dst, src, constant),
{
    xaluir(SubOpXalu::OR, DpCntl::Word, dst, src, constant)
}

/// Builds a register-register subtraction.
pub fn sub(dst: Register, src: Register, extra: Register) -> (r: Instruction)
    ensures
        r == s_xalur(SubOpXalu::SUB, DpCntl::Word, dst, src, extra),
{
    xalur(SubOpXalu::SUB, DpCntl::Word, dst, src, extra)
}

/// Builds a register-const subtraction.
pub fn subi(dst: Register, src: Register, constant: Const) -> (r: Instruction)
    ensures
        r == s_xaluir(SubOpXalu::SUB, DpCntl::Word, dst, src, constant),
{
    xaluir(SubOpXalu::SUB, DpCntl::Word, dst, src, constant)
}

/// Builds a register-register addition.
pub fn add(dst: Register, src: Register, extra: Register) -> (r: Instruction)
    ensures
        r == s_xalur(SubOpXalu::ADD, DpCntl::Word, dst, src, extra),
{
    xalur(SubOpXalu::ADD, DpCntl::Word, dst, src, extra)
}

/// Builds a register-const addition.
pub fn addi(dst: Register, src: Register, constant: Const) -> (r: Instruction)
    ensures
        r == s_xaluir(SubOpXalu::ADD, DpCntl::Word, dst, src, constant),
{
    xaluir(SubOpXalu::ADD, DpCntl::Word, dst, src, constant)
}

/// Builds a register-register left shift.
pub fn shl(dst: Register, src: Register, extra: Register) -> (r: Instruction)
    ensures
        r == s_xalur(SubOpXalu::SHL, DpCntl::Word, dst, src, extra),
{
    xalur(SubOpXalu::SHL, DpCntl::Word, dst, src, extra)
}

/// Builds a register-const left shift.
pub fn shli(dst: Register, src: Register, constant: Const) -> (r: Instruction)
    ensures
        r == s_xaluir(SubOpXalu::SHL, DpCntl::Word, dst, src, constant),
{
    xaluir(SubOpXalu::SHL, DpCntl::Word, dst, src, constant)
}

/// Builds a register-register right shift.
pub fn shr(dst: Register, src: Register, extra: Register) -> (r: Instruction)
    ensures
        r == s_xalur(SubOpXalu::SHR, DpCntl::Word, dst, src, extra),
{
    xalur(SubOpXalu::SHR, DpCntl::Word, dst, src, extra)
}

/// Builds a register-const right shift.
pub fn shri(dst: Register, src: Register, constant: Const) -> (r: Instruction)
    ensures
        r == s_xaluir(SubOpXalu::SHR, DpCntl::Word, dst, src, constant),
{
    xaluir(SubOpXalu::SHR, DpCntl::Word, dst, src, constant)
}

} // verus!
