//! The encoder: assembles a symbolic instruction into its 32-bit word and
//! its 6-byte binary form.
//!
//! The spec functions define, field by field, which bits of the word an
//! instruction produces; the executable encoder is proved to return exactly
//! what they describe.

use vstd::prelude::*;

use crate::ais::AisError;
use crate::ais::Field;
use crate::ais::Function;
use crate::ais::Instruction;
use crate::ais::Register;
use crate::ais::s_addr_size_bits;
use crate::ais::s_const_bits;
use crate::ais::s_dp_cntl_bits;
use crate::ais::s_is_i_type;
use crate::ais::s_is_xalu_type;
use crate::ais::s_is_xalui_type;
use crate::ais::s_is_xls_type;
use crate::ais::s_offset_bits;
use crate::ais::s_opcode_bits;
use crate::ais::s_sel_bits;
use crate::ais::s_size_bits;
use crate::ais::s_sub_func_bits;
use crate::ais::s_subop_bits;
use crate::ais::s_subop_xalu_bits;
use crate::ais::s_subop_xio_bits;
use crate::ais::s_xj_mode_bits;
use crate::ais::s_xj_size_bits;
use crate::ais::Opcode;
use vstd::bytes::spec_u32_to_le_bytes;
use vstd::bytes::u32_to_le_bytes;

verus! {

/// The opcode bits of the word, at positions 31:26.
pub open spec fn s_encode_opcode(i: Instruction) -> u32 {
    s_opcode_bits(i.opcode) << 26u32
}

/// The source-register field at positions 25:21; missing when absent.
pub open spec fn s_encode_rs(i: Instruction) -> Result<u32, AisError> {
    match i.rs {
        None => Err(AisError::Missing(Field::RS)),
        Some(r) => Ok((r.0 as u32) << 21u32),
    }
}

/// The target/base-register field at positions 20:16; missing when absent.
pub open spec fn s_encode_rt(i: Instruction) -> Result<u32, AisError> {
    match i.rt {
        None => Err(AisError::Missing(Field::RT)),
        Some(r) => Ok((r.0 as u32) << 16u32),
    }
}

/// The destination-register field at positions 15:11; missing when absent.
pub open spec fn s_encode_rd(i: Instruction) -> Result<u32, AisError> {
    match i.rd {
        None => Err(AisError::Missing(Field::RD)),
        Some(r) => Ok((r.0 as u32) << 11u32),
    }
}

/// The 16-bit immediate at positions 15:0; missing when absent.
pub open spec fn s_encode_imm(i: Instruction) -> Result<u32, AisError> {
    match i.imm {
        None => Err(AisError::Missing(Field::Immediate)),
        Some(x) => Ok(x as u32),
    }
}

/// The const field at positions 20:16; missing when absent, unsupported
/// when the value has no 5-bit pattern.
pub open spec fn s_encode_const(i: Instruction) -> Result<u32, AisError> {
    match i.constant {
        None => Err(AisError::Missing(Field::Const)),
        Some(c) => match s_const_bits(c) {
            Err(_) => Err(AisError::Unsupported(Field::Const)),
            Ok(x) => Ok((x as u32) << 16u32),
        },
    }
}

/// The offset field at positions 25:21; missing when absent, unsupported
/// when the value has no 5-bit pattern.
pub open spec fn s_encode_offset(i: Instruction) -> Result<u32, AisError> {
    match i.offset {
        None => Err(AisError::Missing(Field::Offset)),
        Some(o) => match s_offset_bits(o) {
            Err(_) => Err(AisError::Unsupported(Field::Offset)),
            Ok(x) => Ok((x as u32) << 21u32),
        },
    }
}

/// The low 11 bits contributed by a function payload, packed per shape.
pub open spec fn s_function_bits(f: Function) -> Result<u32, AisError> {
    match f {
        Function::Xalu(sub_op, dp_cntl) => Ok(
            s_subop_xalu_bits(sub_op) | (s_dp_cntl_bits(dp_cntl) << 5u32),
        ),
        Function::Xio(sub_op, addr_size, size, sel) => Ok(
            (s_subop_xio_bits(sub_op) << 9u32) | ((s_addr_size_bits(addr_size) & 2) << 7u32) | ((
            s_size_bits(size) & 0x6) << 5u32) | (s_sel_bits(sel) << 2u32) | ((s_size_bits(size)
                & 1) << 1u32) | (s_addr_size_bits(addr_size) & 1),
        ),
        Function::Xj(size, mode) => Ok((s_xj_size_bits(size) << 6u32) | s_xj_mode_bits(mode)),
        Function::Xls(sub_op, addr_size, size, sel) => match s_subop_bits(sub_op) {
            Err(_) => Err(AisError::Unsupported(Field::Function)),
            Ok(sb) => Ok(
                ((sb as u32) << 9u32) | ((s_addr_size_bits(addr_size) & 2) << 7u32) | ((s_size_bits(
                    size,
                ) & 0x6) << 5u32) | (s_sel_bits(sel) << 2u32) | ((s_size_bits(size) & 1) << 1u32)
                    | (s_addr_size_bits(addr_size) & 1),
            ),
        },
        Function::Xlea(addr_size, size) => {
            let a = s_addr_size_bits(addr_size);
            let s = s_size_bits(size);
            Ok(
                (((a >> 1u32) & 1) << 8u32) | (((s >> 1u32) & 3) << 6u32) | (((s >> 3u32) & 1)
                    << 2u32) | ((s & 1) << 1u32) | (a & 1),
            )
        },
        Function::Raw(x) => Ok(x as u32),
        Function::Xmisc(sub_func, raw) => Ok((s_sub_func_bits(sub_func) << 6u32) | (raw as u32)),
    }
}

/// The function field of the word; missing when absent.
pub open spec fn s_encode_function(i: Instruction) -> Result<u32, AisError> {
    match i.function {
        None => Err(AisError::Missing(Field::Function)),
        Some(f) => s_function_bits(f),
    }
}

/// The word an instruction's modeled fields produce, before leftover bits
/// are merged back in.  Each format places its fields at fixed positions;
/// the XLS/XLEAD format swaps the offset into the source-register position
/// and the source register into the destination position.
pub open spec fn s_modeled32(i: Instruction) -> Result<u32, AisError> {
    if s_is_i_type(i.opcode) {
        match (s_encode_rs(i), s_encode_rt(i), s_encode_imm(i)) {
            (Ok(rs), Ok(rt), Ok(imm)) => Ok(s_encode_opcode(i) | rs | rt | imm),
            (Err(e), _, _) => Err(e),
            (_, Err(e), _) => Err(e),
            (_, _, Err(e)) => Err(e),
        }
    } else if s_is_xalu_type(i.opcode) {
        match (s_encode_rs(i), s_encode_rt(i), s_encode_rd(i), s_encode_function(i)) {
            (Ok(rs), Ok(rt), Ok(rd), Ok(f)) => Ok(s_encode_opcode(i) | rs | rt | rd | f),
            (Err(e), _, _, _) => Err(e),
            (_, Err(e), _, _) => Err(e),
            (_, _, Err(e), _) => Err(e),
            (_, _, _, Err(e)) => Err(e),
        }
    } else if s_is_xalui_type(i.opcode) {
        match (s_encode_rs(i), s_encode_const(i), s_encode_rd(i), s_encode_function(i)) {
            (Ok(rs), Ok(c), Ok(rd), Ok(f)) => Ok(s_encode_opcode(i) | rs | c | rd | f),
            (Err(e), _, _, _) => Err(e),
            (_, Err(e), _, _) => Err(e),
            (_, _, Err(e), _) => Err(e),
            (_, _, _, Err(e)) => Err(e),
        }
    } else if i.opcode == Opcode::XJ {
        match (s_encode_rt(i), s_encode_function(i)) {
            (Ok(rt), Ok(f)) => Ok(s_encode_opcode(i) | rt | f),
            (Err(e), _) => Err(e),
            (_, Err(e)) => Err(e),
        }
    } else if i.opcode == Opcode::XMISC {
        match (s_encode_rt(i), s_encode_rd(i), s_encode_function(i)) {
            (Ok(rt), Ok(rd), Ok(f)) => Ok(s_encode_opcode(i) | rt | rd | f),
            (Err(e), _, _) => Err(e),
            (_, Err(e), _) => Err(e),
            (_, _, Err(e)) => Err(e),
        }
    } else if s_is_xls_type(i.opcode) || i.opcode == Opcode::XLEAD {
        match (s_encode_offset(i), s_encode_rt(i), i.rs, s_encode_function(i)) {
            (Ok(off), Ok(base), Some(rs), Ok(f)) => Ok(
                s_encode_opcode(i) | off | base | ((rs.0 as u32) << 11u32) | f,
            ),
            (Err(e), _, _, _) => Err(e),
            (_, Err(e), _, _) => Err(e),
            (_, _, None, _) => Err(AisError::Missing(Field::RS)),
            (_, _, _, Err(e)) => Err(e),
        }
    } else {
        Err(AisError::Unsupported(Field::Opcode))
    }
}

/// The full 32-bit encoding: the modeled word with the instruction's
/// leftover bits merged back in verbatim.
pub open spec fn s_encode32(i: Instruction) -> Result<u32, AisError> {
    match s_modeled32(i) {
        Ok(w) => Ok(w | i.leftovers),
        Err(e) => Err(e),
    }
}

/// The 6-byte encoding: the fixed 2-byte marker, then the word in
/// little-endian byte order.
pub open spec fn s_encode_bytes(i: Instruction) -> Result<Seq<u8>, AisError> {
    match s_encode32(i) {
        Ok(w) => Ok(seq![0x62u8, 0x80u8] + spec_u32_to_le_bytes(w)),
        Err(e) => Err(e),
    }
}

fn encode_opcode(instr: &Instruction) -> (r: u32)
    ensures
        r == s_encode_opcode(*instr),
{
    instr.opcode.bits() << 26u32
}

fn encode_register(register: &Option<Register>, err: AisError) -> (r: Result<u32, AisError>)
    ensures
        r == match *register {
            None => Err::<u32, AisError>(err),
            Some(x) => Ok::<u32, AisError>(x.0 as u32),
        },
{
    match register {
        None => Err(err),
        Some(x) => Ok(x.0 as u32),
    }
}

fn encode_rs(instr: &Instruction) -> (r: Result<u32, AisError>)
    ensures
        r == s_encode_rs(*instr),
{
    match encode_register(&instr.rs, AisError::Missing(Field::RS)) {
        Ok(x) => Ok(x << 21u32),
        Err(e) => Err(e),
    }
}

fn encode_rt(instr: &Instruction) -> (r: Result<u32, AisError>)
    ensures
        r == s_encode_rt(*instr),
{
    match encode_register(&instr.rt, AisError::Missing(Field::RT)) {
        Ok(x) => Ok(x << 16u32),
        Err(e) => Err(e),
    }
}

fn encode_rd(instr: &Instruction) -> (r: Result<u32, AisError>)
    ensures
        r == s_encode_rd(*instr),
{
    match encode_register(&instr.rd, AisError::Missing(Field::RD)) {
        Ok(x) => Ok(x << 11u32),
        Err(e) => Err(e),
    }
}

fn encode_imm(instr: &Instruction) -> (r: Result<u32, AisError>)
    ensures
        r == s_encode_imm(*instr),
{
    match instr.imm {
        None => Err(AisError::Missing(Field::Immediate)),
        Some(x) => Ok(x as u32),
    }
}

fn encode_const(instr: &Instruction) -> (r: Result<u32, AisError>)
    ensures
        r == s_encode_const(*instr),
{
    match instr.constant {
        None => Err(AisError::Missing(Field::Const)),
        Some(c) => match c.try_into() {
            Err(_) => Err(AisError::Unsupported(Field::Const)),
            Ok(x) => Ok((x as u32) << 16u32),
        },
    }
}

fn encode_offset(instr: &Instruction) -> (r: Result<u32, AisError>)
    ensures
        r == s_encode_offset(*instr),
{
    match instr.offset {
        None => Err(AisError::Missing(Field::Offset)),
        Some(o) => match o.try_into() {
            Err(_) => Err(AisError::Unsupported(Field::Offset)),
            Ok(x) => Ok((x as u32) << 21u32),
        },
    }
}

fn encode_function(instr: &Instruction) -> (r: Result<u32, AisError>)
    ensures
        r == s_encode_function(*instr),
{
    let function = match instr.function {
        None => {
            return Err(AisError::Missing(Field::Function));
        },
        Some(f) => f,
    };
    match function {
        Function::Xalu(sub_op, dp_cntl) => Ok(sub_op.bits() | (dp_cntl.bits() << 5u32)),
        Function::Xio(sub_op, addr_size, size, sel) => {
            let subop_bits = sub_op.bits() << 9u32;
            Ok(
                subop_bits | ((addr_size.bits() & 2) << 7u32) | ((size.bits() & 0x6) << 5u32) | (
                sel.bits() << 2u32) | ((size.bits() & 1) << 1u32) | (addr_size.bits() & 1),
            )
        },
        Function::Xj(size, mode) => Ok((size.bits() << 6u32) | mode.bits()),
        Function::Xls(sub_op, addr_size, size, sel) => {
            let sb = match sub_op.try_into() {
                Err(_) => {
                    return Err(AisError::Unsupported(Field::Function));
                },
                Ok(x) => x,
            };
            let subop_bits = (sb as u32) << 9u32;
            Ok(
                subop_bits | ((addr_size.bits() & 2) << 7u32) | ((size.bits() & 0x6) << 5u32) | (
                sel.bits() << 2u32) | ((size.bits() & 1) << 1u32) | (addr_size.bits() & 1),
            )
        },
        Function::Xlea(addr_size, size) => {
            let a = addr_size.bits();
            let s = size.bits();
            Ok(
                (((a >> 1u32) & 1) << 8u32) | (((s >> 1u32) & 3) << 6u32) | (((s >> 3u32) & 1)
                    << 2u32) | ((s & 1) << 1u32) | (a & 1),
            )
        },
        Function::Raw(x) => Ok(x as u32),
        Function::Xmisc(sub_func, raw) => Ok((sub_func.bits() << 6u32) | (raw as u32)),
    }
}

/// Encodes an instruction into its 32-bit word, per its opcode's format,
/// with the leftover bits merged in.
pub fn encode32(instr: &Instruction) -> (r: Result<u32, AisError>)
    ensures
        r == s_encode32(*instr),
{
    let word: u32 = if instr.is_i_type() {
        let op = encode_opcode(instr);
        let rs = match encode_rs(instr) {
            Ok(x) => x,
            Err(e) => {
                return Err(e);
            },
        };
        let rt = match encode_rt(instr) {
            Ok(x) => x,
            Err(e) => {
                return Err(e);
            },
        };
        let imm = match encode_imm(instr) {
            Ok(x) => x,
            Err(e) => {
                return Err(e);
            },
        };
        op | rs | rt | imm
    } else if instr.is_xalu_type() {
        let op = encode_opcode(instr);
        let rs = match encode_rs(instr) {
            Ok(x) => x,
            Err(e) => {
                return Err(e);
            },
        };
        let rt = match encode_rt(instr) {
            Ok(x) => x,
            Err(e) => {
                return Err(e);
            },
        };
        let rd = match encode_rd(instr) {
            Ok(x) => x,
            Err(e) => {
                return Err(e);
            },
        };
        let function = match encode_function(instr) {
            Ok(x) => x,
            Err(e) => {
                return Err(e);
            },
        };
        op | rs | rt | rd | function
    } else if instr.is_xalui_type() {
        let op = encode_opcode(instr);
        let rs = match encode_rs(instr) {
            Ok(x) => x,
            Err(e) => {
                return Err(e);
            },
        };
        let c = match encode_const(instr) {
            Ok(x) => x,
            Err(e) => {
                return Err(e);
            },
        };
        let rd = match encode_rd(instr) {
            Ok(x) => x,
            Err(e) => {
                return Err(e);
            },
        };
        let function = match encode_function(instr) {
            Ok(x) => x,
            Err(e) => {
                return Err(e);
            },
        };
        op | rs | c | rd | function
    } else if instr.opcode == Opcode::XJ {
        let op = encode_opcode(instr);
        let rt = match encode_rt(instr) {
            Ok(x) => x,
            Err(e) => {
                return Err(e);
            },
        };
        let function = match encode_function(instr) {
            Ok(x) => x,
            Err(e) => {
                return Err(e);
            },
        };
        op | rt | function
    } else if instr.opcode == Opcode::XMISC {
        let op = encode_opcode(instr);
        let rt = match encode_rt(instr) {
            Ok(x) => x,
            Err(e) => {
                return Err(e);
            },
        };
        let rd = match encode_rd(instr) {
            Ok(x) => x,
            Err(e) => {
                return Err(e);
            },
        };
        let function = match encode_function(instr) {
            Ok(x) => x,
            Err(e) => {
                return Err(e);
            },
        };
        op | rt | rd | function
    } else if instr.is_xls_type() || instr.opcode == Opcode::XLEAD {
        let op = encode_opcode(instr);
        let offset = match encode_offset(instr) {
            Ok(x) => x,
            Err(e) => {
                return Err(e);
            },
        };
        let base = match encode_rt(instr) {
            Ok(x) => x,
            Err(e) => {
                return Err(e);
            },
        };
        let rs = match encode_register(&instr.rs, AisError::Missing(Field::RS)) {
            Ok(x) => x << 11u32,
            Err(e) => {
                return Err(e);
            },
        };
        let function = match encode_function(instr) {
            Ok(x) => x,
            Err(e) => {
                return Err(e);
            },
        };
        op | offset | base | rs | function
    } else {
        return Err(AisError::Unsupported(Field::Opcode));
    };
    Ok(word | instr.leftovers)
}

/// Encodes an instruction into its 6-byte binary form: the 2-byte marker
/// followed by the word in little-endian order.
pub fn encode(instr: &Instruction) -> (r: Result<Vec<u8>, AisError>)
    ensures
        match r {
            Ok(v) => s_encode_bytes(*instr) == Ok::<Seq<u8>, AisError>(v@) && v@.len() == 6,
            Err(e) => s_encode_bytes(*instr) == Err::<Seq<u8>, AisError>(e),
        },
{
    let word = match encode32(instr) {
        Ok(w) => w,
        Err(e) => {
            return Err(e);
        },
    };
    let mut data: Vec<u8> = Vec::new();
    data.push(0x62);
    data.push(0x80);
    let mut tail = u32_to_le_bytes(word);
    data.append(&mut tail);
    proof {
        assert(data@ =~= seq![0x62u8, 0x80u8] + spec_u32_to_le_bytes(word));
        vstd::bytes::lemma_auto_spec_u32_to_from_le_bytes();
    }
    Ok(data)
}

} // verus!
