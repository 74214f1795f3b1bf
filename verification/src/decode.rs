//! The decoder: classifies a 32-bit word by opcode, extracts the fields of
//! its format, and captures every unmodeled bit as leftovers, so that
//! re-encoding the result reproduces the original bytes exactly.

use vstd::prelude::*;

use crate::ais::AisError;
use crate::ais::Const;
use crate::ais::Field;
use crate::ais::Function;
use crate::ais::Instruction;
use crate::ais::Offset;
use crate::ais::Opcode;
use crate::ais::Register;
use crate::ais::SubOp;
use crate::ais::s_addr_size_from;
use crate::ais::s_const_from;
use crate::ais::s_dp_cntl_from;
use crate::ais::s_is_i_type;
use crate::ais::s_is_xalu_type;
use crate::ais::s_is_xalui_type;
use crate::ais::s_is_xls_type;
use crate::ais::s_offset_from;
use crate::ais::s_opcode_from;
use crate::ais::s_sel_from;
use crate::ais::s_size_from;
use crate::ais::s_sub_func_from;
use crate::ais::s_subop_xalu_from;
use crate::ais::s_subop_xio_from;
use crate::ais::s_xj_mode_from;
use crate::ais::s_xj_size_from;
use crate::ais::AddrSize;
use crate::ais::DpCntl;
use crate::ais::Sel;
use crate::ais::Size;
use crate::ais::SubFunc;
use crate::ais::SubOpXalu;
use crate::ais::SubOpXio;
use crate::ais::XjMode;
use crate::ais::XjSize;
use crate::encode::s_encode32;
use crate::encode::s_modeled32;
use vstd::bytes::spec_u32_from_le_bytes;
use vstd::bytes::u32_from_le_bytes;
use vstd::slice::slice_index_get;
use vstd::slice::slice_subrange;

verus! {

/// A 5-bit field of the word, read upward from the given position.
pub open spec fn s_field5(word: u32, lo: u32) -> u8 {
    ((word >> lo) & 0x1F) as u8
}

/// The 16-bit immediate at the bottom of the word.
pub open spec fn s_imm16(word: u32) -> u16 {
    (word & 0xFFFF) as u16
}

/// The arithmetic function payload: sub-operation at bits 4:0, width
/// control at bits 7:5.
pub open spec fn s_decode_xalu_function(word: u32) -> Result<Function, AisError> {
    match s_subop_xalu_from(word & 0x1F) {
        Err(_) => Err(AisError::Decode(Field::Function)),
        Ok(sub_op) => match s_dp_cntl_from((word >> 5u32) & 0x7) {
            Err(_) => Err(AisError::Decode(Field::Function)),
            Ok(dp_cntl) => Ok(Function::Xalu(sub_op, dp_cntl)),
        },
    }
}

/// The I/O function payload, with its address-size and size fields split
/// across non-contiguous bit positions.
pub open spec fn s_decode_xio_function(word: u32) -> Result<Function, AisError> {
    match s_subop_xio_from((word >> 9u32) & 0x3) {
        Err(_) => Err(AisError::Decode(Field::Function)),
        Ok(sub_op) => match s_addr_size_from((((word >> 8u32) & 1) << 1u32) | (word & 1)) {
            Err(_) => Err(AisError::Decode(Field::Function)),
            Ok(addr_size) => match s_size_from((((word >> 6u32) & 0x3) << 1u32) | ((word >> 1u32)
                & 1)) {
                Err(_) => Err(AisError::Decode(Field::Function)),
                Ok(size) => match s_sel_from((word >> 2u32) & 0xF) {
                    Err(_) => Err(AisError::Decode(Field::Function)),
                    Ok(sel) => Ok(Function::Xio(sub_op, addr_size, size, sel)),
                },
            },
        },
    }
}

/// The indirect-jump function payload: size at bits 7:6, mode at bits 1:0.
pub open spec fn s_decode_xj_function(word: u32) -> Result<Function, AisError> {
    match s_xj_size_from((word >> 6u32) & 0x3) {
        Err(_) => Err(AisError::Decode(Field::Function)),
        Ok(size) => match s_xj_mode_from(word & 0x3) {
            Err(_) => Err(AisError::Decode(Field::Function)),
            Ok(mode) => Ok(Function::Xj(size, mode)),
        },
    }
}

/// The miscellaneous function payload: sub-function tag at bits 10:6, the
/// residual bits 5:0 carried raw.
pub open spec fn s_decode_xmisc_function(word: u32) -> Result<Function, AisError> {
    match s_sub_func_from((word >> 6u32) & 0x1F) {
        Err(_) => Err(AisError::Decode(Field::Function)),
        Ok(sub_func) => Ok(Function::Xmisc(sub_func, (word & 0x3F) as u8)),
    }
}

/// The function payload of the XLS/XLEAD family, dispatched on the opcode.
pub open spec fn s_decode_function(opcode: Opcode, word: u32) -> Result<Function, AisError> {
    if opcode == Opcode::XIOR || opcode == Opcode::XIOW {
        s_decode_xio_function(word)
    } else if opcode == Opcode::XLEAD || opcode == Opcode::XLEAI {
        match s_addr_size_from((((word >> 8u32) & 1) << 1u32) | (word & 1)) {
            Err(_) => Err(AisError::Decode(Field::Function)),
            Ok(addr_size) => match s_size_from(
                (((word >> 2u32) & 1) << 3u32) | (((word >> 6u32) & 0x3) << 1u32) | ((word >> 1u32)
                    & 1),
            ) {
                Err(_) => Err(AisError::Decode(Field::Function)),
                Ok(size) => Ok(Function::Xlea(addr_size, size)),
            },
        }
    } else if opcode == Opcode::XPUSH || opcode == Opcode::XPOP || opcode == Opcode::XPUSHIP {
        match s_addr_size_from((((word >> 8u32) & 1) << 1u32) | (word & 1)) {
            Err(_) => Err(AisError::Decode(Field::Function)),
            Ok(addr_size) => match s_size_from((((word >> 6u32) & 0x3) << 1u32) | ((word >> 1u32)
                & 1)) {
                Err(_) => Err(AisError::Decode(Field::Function)),
                Ok(size) => match s_sel_from((word >> 2u32) & 0xF) {
                    Err(_) => Err(AisError::Decode(Field::Function)),
                    Ok(sel) => Ok(
                        Function::Xls(SubOp::Raw(((word >> 9u32) & 0x3) as u8), addr_size, size, sel),
                    ),
                },
            },
        }
    } else {
        Err(AisError::Decode(Field::Opcode))
    }
}

/// Decoding a 32-bit word into an instruction, with leftovers still zero.
pub open spec fn s_decode32(word: u32) -> Result<Instruction, AisError> {
    match s_opcode_from((word >> 26u32) & 0x3F) {
        Err(_) => Err(AisError::Decode(Field::Opcode)),
        Ok(opcode) => if s_is_i_type(opcode) {
            Ok(
                Instruction {
                    opcode,
                    rs: Some(Register(s_field5(word, 21))),
                    rt: Some(Register(s_field5(word, 16))),
                    rd: None,
                    imm: Some(s_imm16(word)),
                    constant: None,
                    offset: None,
                    function: None,
                    leftovers: 0,
                },
            )
        } else if s_is_xalu_type(opcode) {
            match s_decode_xalu_function(word) {
                Err(e) => Err(e),
                Ok(f) => Ok(
                    Instruction {
                        opcode,
                        rs: Some(Register(s_field5(word, 21))),
                        rt: Some(Register(s_field5(word, 16))),
                        rd: Some(Register(s_field5(word, 11))),
                        imm: None,
                        constant: None,
                        offset: None,
                        function: Some(f),
                        leftovers: 0,
                    },
                ),
            }
        } else if s_is_xalui_type(opcode) {
            match s_decode_xalu_function(word) {
                Err(e) => Err(e),
                Ok(f) => match s_const_from(s_field5(word, 16)) {
                    Err(_) => Err(AisError::Decode(Field::Const)),
                    Ok(c) => Ok(
                        Instruction {
                            opcode,
                            rs: Some(Register(s_field5(word, 21))),
                            rt: None,
                            rd: Some(Register(s_field5(word, 11))),
                            imm: None,
                            constant: Some(c),
                            offset: None,
                            function: Some(f),
                            leftovers: 0,
                        },
                    ),
                },
            }
        } else if opcode == Opcode::XJ {
            match s_decode_xj_function(word) {
                Err(e) => Err(e),
                Ok(f) => Ok(
                    Instruction {
                        opcode,
                        rs: None,
                        rt: Some(Register(s_field5(word, 16))),
                        rd: None,
                        imm: None,
                        constant: None,
                        offset: None,
                        function: Some(f),
                        leftovers: 0,
                    },
                ),
            }
        } else if opcode == Opcode::XMISC {
            match s_decode_xmisc_function(word) {
                Err(e) => Err(e),
                Ok(f) => Ok(
                    Instruction {
                        opcode,
                        rs: Some(Register(s_field5(word, 21))),
                        rt: Some(Register(s_field5(word, 16))),
                        rd: Some(Register(s_field5(word, 11))),
                        imm: None,
                        constant: None,
                        offset: None,
                        function: Some(f),
                        leftovers: 0,
                    },
                ),
            }
        } else if s_is_xls_type(opcode) || opcode == Opcode::XLEAD {
            match s_offset_from(s_field5(word, 21)) {
                Err(_) => Err(AisError::Decode(Field::Offset)),
                Ok(off) => match s_decode_function(opcode, word) {
                    Err(e) => Err(e),
                    Ok(f) => Ok(
                        Instruction {
                            opcode,
                            rs: Some(Register(s_field5(word, 11))),
                            rt: Some(Register(s_field5(word, 16))),
                            rd: None,
                            imm: None,
                            constant: None,
                            offset: Some(off),
                            function: Some(f),
                            leftovers: 0,
                        },
                    ),
                },
            }
        } else {
            Err(AisError::Decode(Field::Opcode))
        },
    }
}

/// Decoding exactly 6 bytes: the marker, then the word; the leftover field
/// of the result holds every bit of the word the modeled fields do not
/// reproduce.
pub open spec fn s_decode6(bytes: Seq<u8>) -> Result<Instruction, AisError>
    recommends
        bytes.len() == 6,
{
    if bytes[0] != 0x62 || bytes[1] != 0x80 {
        Err(AisError::DecodeHeader)
    } else {
        let word = spec_u32_from_le_bytes(bytes.subrange(2, 6));
        match s_decode32(word) {
            Err(e) => Err(e),
            Ok(i0) => match s_encode32(i0) {
                Err(e) => Err(e),
                Ok(code) => Ok(Instruction { leftovers: word & !code, ..i0 }),
            },
        }
    }
}

/// Decoding a byte sequence: fails on fewer than 6 bytes, otherwise reads
/// exactly the first 6.
pub open spec fn s_decode(bytes: Seq<u8>) -> Result<Instruction, AisError> {
    if bytes.len() < 6 {
        Err(AisError::DecodeSize)
    } else {
        s_decode6(bytes.subrange(0, 6))
    }
}

/// A 5-bit field is below 32, and widening it back to the word recovers
/// the extracted bits.
pub proof fn lemma_field5_bound(word: u32, lo: u32)
    requires
        lo < 32,
    ensures
        s_field5(word, lo) < 32,
        s_field5(word, lo) as u32 == (word >> lo) & 0x1F,
{
    assert((((word >> lo) & 0x1F) as u8) < 32 && (((word >> lo) & 0x1F) as u8) as u32 == (word
        >> lo) & 0x1F) by (bit_vector);
}

/// Decoding never loses a modeled bit: every instruction `s_decode32`
/// returns has zero leftovers, its modeled fields encode successfully, and
/// every bit the modeled word sets was set in the original word.
pub proof fn lemma_decode32_modeled(word: u32)
    requires
        s_decode32(word) is Ok,
    ensures
        s_decode32(word) matches Ok(i) && i.leftovers == 0 && (s_modeled32(i) matches Ok(m) && (m
            & !word) == 0),
{
    let i = s_decode32(word)->Ok_0;
    let ob = (word >> 26u32) & 0x3F;
    let op = s_opcode_from(ob)->Ok_0;
    crate::ais::lemma_opcode_from_inverse(ob);
    let obits = crate::ais::s_opcode_bits(op);
    lemma_field5_bound(word, 21);
    lemma_field5_bound(word, 16);
    lemma_field5_bound(word, 11);
    let v21 = s_field5(word, 21);
    let v16 = s_field5(word, 16);
    let v11 = s_field5(word, 11);
    if s_is_i_type(op) {
        let m = s_modeled32(i)->Ok_0;
        assert((m & !word) == 0) by (bit_vector)
            requires
                m == (obits << 26u32) | ((v21 as u32) << 21u32) | ((v16 as u32) << 16u32) | ((word
                    & 0xFFFF) as u16 as u32),
                obits == (word >> 26u32) & 0x3F,
                v21 as u32 == (word >> 21u32) & 0x1F,
                v16 as u32 == (word >> 16u32) & 0x1F,
        ;
    } else if s_is_xalu_type(op) || s_is_xalui_type(op) {
        let sob = crate::ais::s_subop_xalu_bits(s_subop_xalu_from(word & 0x1F)->Ok_0);
        let dpb = crate::ais::s_dp_cntl_bits(s_dp_cntl_from((word >> 5u32) & 0x7)->Ok_0);
        crate::ais::lemma_subop_xalu_from_inverse(word & 0x1F);
        crate::ais::lemma_dp_cntl_from_inverse((word >> 5u32) & 0x7);
        if s_is_xalu_type(op) {
            let m = s_modeled32(i)->Ok_0;
            assert((m & !word) == 0) by (bit_vector)
                requires
                    m == (obits << 26u32) | ((v21 as u32) << 21u32) | ((v16 as u32) << 16u32) | ((
                    v11 as u32) << 11u32) | (sob | (dpb << 5u32)),
                    obits == (word >> 26u32) & 0x3F,
                    v21 as u32 == (word >> 21u32) & 0x1F,
                    v16 as u32 == (word >> 16u32) & 0x1F,
                    v11 as u32 == (word >> 11u32) & 0x1F,
                    sob == word & 0x1F,
                    dpb == (word >> 5u32) & 0x7,
            ;
        } else {
            crate::ais::lemma_const_table_closure(v16);
            let cb = crate::ais::s_const_bits(s_const_from(v16)->Ok_0)->Ok_0;
            let m = s_modeled32(i)->Ok_0;
            assert((m & !word) == 0) by (bit_vector)
                requires
                    m == (obits << 26u32) | ((v21 as u32) << 21u32) | ((cb as u32) << 16u32) | ((
                    v11 as u32) << 11u32) | (sob | (dpb << 5u32)),
                    obits == (word >> 26u32) & 0x3F,
                    v21 as u32 == (word >> 21u32) & 0x1F,
                    cb as u32 == (word >> 16u32) & 0x1F,
                    v11 as u32 == (word >> 11u32) & 0x1F,
                    sob == word & 0x1F,
                    dpb == (word >> 5u32) & 0x7,
            ;
        }
    } else if op == Opcode::XJ {
        let szb = crate::ais::s_xj_size_bits(s_xj_size_from((word >> 6u32) & 0x3)->Ok_0);
        let mdb = crate::ais::s_xj_mode_bits(s_xj_mode_from(word & 0x3)->Ok_0);
        crate::ais::lemma_xj_size_from_inverse((word >> 6u32) & 0x3);
        crate::ais::lemma_xj_mode_from_inverse(word & 0x3);
        let m = s_modeled32(i)->Ok_0;
        assert((m & !word) == 0) by (bit_vector)
            requires
                m == (obits << 26u32) | ((v16 as u32) << 16u32) | ((szb << 6u32) | mdb),
                obits == (word >> 26u32) & 0x3F,
                v16 as u32 == (word >> 16u32) & 0x1F,
                szb == (word >> 6u32) & 0x3,
                mdb == word & 0x3,
        ;
    } else if op == Opcode::XMISC {
        let sfb = crate::ais::s_sub_func_bits(s_sub_func_from((word >> 6u32) & 0x1F)->Ok_0);
        crate::ais::lemma_sub_func_from_inverse((word >> 6u32) & 0x1F);
        let m = s_modeled32(i)->Ok_0;
        assert((m & !word) == 0) by (bit_vector)
            requires
                m == (obits << 26u32) | ((v16 as u32) << 16u32) | ((v11 as u32) << 11u32) | ((sfb
                    << 6u32) | ((word & 0x3F) as u8 as u32)),
                obits == (word >> 26u32) & 0x3F,
                v16 as u32 == (word >> 16u32) & 0x1F,
                v11 as u32 == (word >> 11u32) & 0x1F,
                sfb == (word >> 6u32) & 0x1F,
        ;
    } else {
        // The XLS/XLEAD family: offset at 25:21, base at 20:16, source at
        // 15:11, function bits packed per opcode.
        crate::ais::lemma_offset_table_closure(v21);
        let offb = crate::ais::s_offset_bits(s_offset_from(v21)->Ok_0)->Ok_0;
        let addrb = crate::ais::s_addr_size_bits(
            s_addr_size_from((((word >> 8u32) & 1) << 1u32) | (word & 1))->Ok_0,
        );
        crate::ais::lemma_addr_size_from_inverse((((word >> 8u32) & 1) << 1u32) | (word & 1));
        if op == Opcode::XIOR || op == Opcode::XIOW {
            let sob = crate::ais::s_subop_xio_bits(s_subop_xio_from((word >> 9u32) & 0x3)->Ok_0);
            let szb = crate::ais::s_size_bits(
                s_size_from((((word >> 6u32) & 0x3) << 1u32) | ((word >> 1u32) & 1))->Ok_0,
            );
            let selb = crate::ais::s_sel_bits(s_sel_from((word >> 2u32) & 0xF)->Ok_0);
            crate::ais::lemma_subop_xio_from_inverse((word >> 9u32) & 0x3);
            crate::ais::lemma_size_from_inverse((((word >> 6u32) & 0x3) << 1u32) | ((word >> 1u32)
                & 1));
            crate::ais::lemma_sel_from_inverse((word >> 2u32) & 0xF);
            let m = s_modeled32(i)->Ok_0;
            assert((m & !word) == 0) by (bit_vector)
                requires
                    m == (obits << 26u32) | ((offb as u32) << 21u32) | ((v16 as u32) << 16u32) | ((
                    v11 as u32) << 11u32) | ((sob << 9u32) | ((addrb & 2) << 7u32) | ((szb & 0x6)
                        << 5u32) | (selb << 2u32) | ((szb & 1) << 1u32) | (addrb & 1)),
                    obits == (word >> 26u32) & 0x3F,
                    offb as u32 == (word >> 21u32) & 0x1F,
                    v16 as u32 == (word >> 16u32) & 0x1F,
                    v11 as u32 == (word >> 11u32) & 0x1F,
                    sob == (word >> 9u32) & 0x3,
                    addrb == (((word >> 8u32) & 1) << 1u32) | (word & 1),
                    szb == (((word >> 6u32) & 0x3) << 1u32) | ((word >> 1u32) & 1),
                    selb == (word >> 2u32) & 0xF,
            ;
        } else if op == Opcode::XLEAD {
            let szb = crate::ais::s_size_bits(
                s_size_from(
                    (((word >> 2u32) & 1) << 3u32) | (((word >> 6u32) & 0x3) << 1u32) | ((word
                        >> 1u32) & 1),
                )->Ok_0,
            );
            crate::ais::lemma_size_from_inverse(
                (((word >> 2u32) & 1) << 3u32) | (((word >> 6u32) & 0x3) << 1u32) | ((word >> 1u32)
                    & 1),
            );
            let m = s_modeled32(i)->Ok_0;
            assert((m & !word) == 0) by (bit_vector)
                requires
                    m == (obits << 26u32) | ((offb as u32) << 21u32) | ((v16 as u32) << 16u32) | ((
                    v11 as u32) << 11u32) | ((((addrb >> 1u32) & 1) << 8u32) | (((szb >> 1u32) & 3)
                        << 6u32) | (((szb >> 3u32) & 1) << 2u32) | ((szb & 1) << 1u32) | (addrb
                        & 1)),
                    obits == (word >> 26u32) & 0x3F,
                    offb as u32 == (word >> 21u32) & 0x1F,
                    v16 as u32 == (word >> 16u32) & 0x1F,
                    v11 as u32 == (word >> 11u32) & 0x1F,
                    addrb == (((word >> 8u32) & 1) << 1u32) | (word & 1),
                    szb == (((word >> 2u32) & 1) << 3u32) | (((word >> 6u32) & 0x3) << 1u32) | ((
                    word >> 1u32) & 1),
            ;
        } else {
            let sb = ((word >> 9u32) & 0x3) as u8;
            assert((((word >> 9u32) & 0x3) as u8) < 4 && (((word >> 9u32) & 0x3) as u8) as u32 == (
            word >> 9u32) & 0x3) by (bit_vector);
            let szb = crate::ais::s_size_bits(
                s_size_from((((word >> 6u32) & 0x3) << 1u32) | ((word >> 1u32) & 1))->Ok_0,
            );
            let selb = crate::ais::s_sel_bits(s_sel_from((word >> 2u32) & 0xF)->Ok_0);
            crate::ais::lemma_size_from_inverse((((word >> 6u32) & 0x3) << 1u32) | ((word >> 1u32)
                & 1));
            crate::ais::lemma_sel_from_inverse((word >> 2u32) & 0xF);
            let m = s_modeled32(i)->Ok_0;
            assert((m & !word) == 0) by (bit_vector)
                requires
                    m == (obits << 26u32) | ((offb as u32) << 21u32) | ((v16 as u32) << 16u32) | ((
                    v11 as u32) << 11u32) | (((sb as u32) << 9u32) | ((addrb & 2) << 7u32) | ((szb
                        & 0x6) << 5u32) | (selb << 2u32) | ((szb & 1) << 1u32) | (addrb & 1)),
                    obits == (word >> 26u32) & 0x3F,
                    offb as u32 == (word >> 21u32) & 0x1F,
                    v16 as u32 == (word >> 16u32) & 0x1F,
                    v11 as u32 == (word >> 11u32) & 0x1F,
                    sb as u32 == (word >> 9u32) & 0x3,
                    addrb == (((word >> 8u32) & 1) << 1u32) | (word & 1),
                    szb == (((word >> 6u32) & 0x3) << 1u32) | ((word >> 1u32) & 1),
                    selb == (word >> 2u32) & 0xF,
            ;
        }
    }
}

/// Round trip over exactly 6 bytes: whatever decodes successfully encodes
/// back to the very bytes it came from, leftover bits included.
pub proof fn lemma_decode6_roundtrip(bytes: Seq<u8>)
    requires
        bytes.len() == 6,
        s_decode6(bytes) is Ok,
    ensures
        crate::encode::s_encode_bytes(s_decode6(bytes)->Ok_0) == Ok::<Seq<u8>, AisError>(bytes),
{
    let word = spec_u32_from_le_bytes(bytes.subrange(2, 6));
    lemma_decode32_modeled(word);
    let i0 = s_decode32(word)->Ok_0;
    let m = crate::encode::s_modeled32(i0)->Ok_0;
    assert(s_encode32(i0) == Ok::<u32, AisError>(m | 0)) by {
        assert(i0.leftovers == 0);
    }
    let i = s_decode6(bytes)->Ok_0;
    assert(i == (Instruction { leftovers: word & !(m | 0), ..i0 }));
    assert(crate::encode::s_modeled32(i) == Ok::<u32, AisError>(m));
    let w2 = m | (word & !(m | 0));
    assert(w2 == word) by (bit_vector)
        requires
            (m & !word) == 0,
            w2 == m | (word & !(m | 0)),
    ;
    assert(s_encode32(i) == Ok::<u32, AisError>(word));
    vstd::bytes::lemma_auto_spec_u32_to_from_le_bytes();
    assert(vstd::bytes::spec_u32_to_le_bytes(word) =~= bytes.subrange(2, 6));
    assert(seq![0x62u8, 0x80u8] + bytes.subrange(2, 6) =~= bytes);
}

/// An I-format word is modeled completely: every one of its 32 bits is
/// reproduced by the opcode, register and immediate fields, so a decoded
/// I-format instruction carries no leftovers.
pub proof fn lemma_i_type_full_model(word: u32)
    requires
        s_decode32(word) is Ok,
        s_is_i_type(s_decode32(word)->Ok_0.opcode),
    ensures
        s_modeled32(s_decode32(word)->Ok_0) == Ok::<u32, AisError>(word),
{
    let i = s_decode32(word)->Ok_0;
    let ob = (word >> 26u32) & 0x3F;
    crate::ais::lemma_opcode_from_inverse(ob);
    let obits = crate::ais::s_opcode_bits(i.opcode);
    lemma_field5_bound(word, 21);
    lemma_field5_bound(word, 16);
    let v21 = s_field5(word, 21);
    let v16 = s_field5(word, 16);
    let m = s_modeled32(i)->Ok_0;
    assert(m == word) by (bit_vector)
        requires
            m == (obits << 26u32) | ((v21 as u32) << 21u32) | ((v16 as u32) << 16u32) | ((word
                & 0xFFFF) as u16 as u32),
            obits == (word >> 26u32) & 0x3F,
            v21 as u32 == (word >> 21u32) & 0x1F,
            v16 as u32 == (word >> 16u32) & 0x1F,
    ;
}

/// Overwriting the immediate of a decoded I-format instruction and
/// re-encoding gives 6 bytes that decode back to exactly that instruction:
/// the in-place fixup of the assembler loses nothing and changes nothing
/// but the immediate.
pub proof fn lemma_i_type_imm_rewrite(bytes: Seq<u8>, h: u16)
    requires
        bytes.len() == 6,
        s_decode(bytes) is Ok,
        s_is_i_type(s_decode(bytes)->Ok_0.opcode),
    ensures
        crate::encode::s_encode_bytes(Instruction { imm: Some(h), ..s_decode(bytes)->Ok_0 })
            matches Ok(w2) && (w2.len() == 6 && s_decode(w2) == Ok::<Instruction, AisError>(
            Instruction { imm: Some(h), ..s_decode(bytes)->Ok_0 },
        )),
{
    assert(bytes.subrange(0, 6) =~= bytes);
    let word0 = spec_u32_from_le_bytes(bytes.subrange(2, 6));
    let d0 = s_decode32(word0)->Ok_0;
    lemma_i_type_full_model(word0);
    let i0 = s_decode(bytes)->Ok_0;
    assert(word0 & !word0 == 0 && word0 | 0 == word0) by (bit_vector);
    assert(i0 == d0);
    let i1 = Instruction { imm: Some(h), ..d0 };
    let ob = (word0 >> 26u32) & 0x3F;
    crate::ais::lemma_opcode_from_inverse(ob);
    crate::ais::lemma_opcode_bits_roundtrip(d0.opcode);
    let obits = crate::ais::s_opcode_bits(d0.opcode);
    lemma_field5_bound(word0, 21);
    lemma_field5_bound(word0, 16);
    let v21 = s_field5(word0, 21);
    let v16 = s_field5(word0, 16);
    let m1 = crate::encode::s_modeled32(i1)->Ok_0;
    assert(m1 == (obits << 26u32) | ((v21 as u32) << 21u32) | ((v16 as u32) << 16u32) | (
    h as u32));
    assert((m1 >> 26u32) & 0x3F == obits && s_field5(m1, 21) == v21 && s_field5(m1, 16) == v16
        && s_imm16(m1) == h && m1 | 0 == m1) by (bit_vector)
        requires
            m1 == (obits << 26u32) | ((v21 as u32) << 21u32) | ((v16 as u32) << 16u32) | (
            h as u32),
            obits == (word0 >> 26u32) & 0x3F,
            v21 as u32 == (word0 >> 21u32) & 0x1F,
            v16 as u32 == (word0 >> 16u32) & 0x1F,
    ;
    assert(s_decode32(m1) == Ok::<Instruction, AisError>(i1));
    vstd::bytes::lemma_auto_spec_u32_to_from_le_bytes();
    let w2 = crate::encode::s_encode_bytes(i1)->Ok_0;
    assert(w2 == seq![0x62u8, 0x80u8] + vstd::bytes::spec_u32_to_le_bytes(m1));
    assert(w2.len() == 6);
    assert(w2.subrange(0, 6) =~= w2);
    assert(w2.subrange(2, 6) =~= vstd::bytes::spec_u32_to_le_bytes(m1));
    assert(w2[0] == 0x62 && w2[1] == 0x80);
    assert(m1 & !m1 == 0) by (bit_vector);
    assert(s_decode(w2) == Ok::<Instruction, AisError>(i1));
}

/// Round trip: any byte sequence whose head decodes successfully encodes
/// back to exactly its first 6 bytes, even when the word holds bits outside
/// the modeled fields.
pub proof fn lemma_round_trip(bytes: Seq<u8>)
    requires
        s_decode(bytes) is Ok,
    ensures
        crate::encode::s_encode_bytes(s_decode(bytes)->Ok_0) == Ok::<Seq<u8>, AisError>(
            bytes.subrange(0, 6),
        ),
{
    lemma_decode6_roundtrip(bytes.subrange(0, 6));
}

fn decode_xalu_function(word: u32) -> (r: Result<Function, AisError>)
    ensures
        r == s_decode_xalu_function(word),
{
    let sub_op = match SubOpXalu::from_bits(word & 0x1F) {
        Err(_) => {
            return Err(AisError::Decode(Field::Function));
        },
        Ok(x) => x,
    };
    let dp_cntl = match DpCntl::from_bits((word >> 5u32) & 0x7) {
        Err(_) => {
            return Err(AisError::Decode(Field::Function));
        },
        Ok(x) => x,
    };
    Ok(Function::Xalu(sub_op, dp_cntl))
}

fn decode_xio_function(word: u32) -> (r: Result<Function, AisError>)
    ensures
        r == s_decode_xio_function(word),
{
    let sub_op = match SubOpXio::from_bits((word >> 9u32) & 0x3) {
        Err(_) => {
            return Err(AisError::Decode(Field::Function));
        },
        Ok(x) => x,
    };
    let addr_size = match AddrSize::from_bits((((word >> 8u32) & 1) << 1u32) | (word & 1)) {
        Err(_) => {
            return Err(AisError::Decode(Field::Function));
        },
        Ok(x) => x,
    };
    let size = match Size::from_bits((((word >> 6u32) & 0x3) << 1u32) | ((word >> 1u32) & 1)) {
        Err(_) => {
            return Err(AisError::Decode(Field::Function));
        },
        Ok(x) => x,
    };
    let sel = match Sel::from_bits((word >> 2u32) & 0xF) {
        Err(_) => {
            return Err(AisError::Decode(Field::Function));
        },
        Ok(x) => x,
    };
    Ok(Function::Xio(sub_op, addr_size, size, sel))
}

fn decode_xj_function(word: u32) -> (r: Result<Function, AisError>)
    ensures
        r == s_decode_xj_function(word),
{
    let size = match XjSize::from_bits((word >> 6u32) & 0x3) {
        Err(_) => {
            return Err(AisError::Decode(Field::Function));
        },
        Ok(x) => x,
    };
    let mode = match XjMode::from_bits(word & 0x3) {
        Err(_) => {
            return Err(AisError::Decode(Field::Function));
        },
        Ok(x) => x,
    };
    Ok(Function::Xj(size, mode))
}

fn decode_xmisc_function(word: u32) -> (r: Result<Function, AisError>)
    ensures
        r == s_decode_xmisc_function(word),
{
    let sub_func = match SubFunc::from_bits((word >> 6u32) & 0x1F) {
        Err(_) => {
            return Err(AisError::Decode(Field::Function));
        },
        Ok(x) => x,
    };
    let other = word & 0x3F;
    proof {
        assert(word & 0x3F < 256) by (bit_vector);
    }
    Ok(Function::Xmisc(sub_func, other as u8))
}

fn decode_function(opcode: Opcode, word: u32) -> (r: Result<Function, AisError>)
    ensures
        r == s_decode_function(opcode, word),
{
    if opcode == Opcode::XIOR || opcode == Opcode::XIOW {
        decode_xio_function(word)
    } else if opcode == Opcode::XLEAD || opcode == Opcode::XLEAI {
        let addr_size = match AddrSize::from_bits((((word >> 8u32) & 1) << 1u32) | (word & 1)) {
            Err(_) => {
                return Err(AisError::Decode(Field::Function));
            },
            Ok(x) => x,
        };
        let size_bits = (((word >> 2u32) & 1) << 3u32) | (((word >> 6u32) & 0x3) << 1u32) | ((word
            >> 1u32) & 1);
        let size = match Size::from_bits(size_bits) {
            Err(_) => {
                return Err(AisError::Decode(Field::Function));
            },
            Ok(x) => x,
        };
        Ok(Function::Xlea(addr_size, size))
    } else if opcode == Opcode::XPUSH || opcode == Opcode::XPOP || opcode == Opcode::XPUSHIP {
        let addr_size = match AddrSize::from_bits((((word >> 8u32) & 1) << 1u32) | (word & 1)) {
            Err(_) => {
                return Err(AisError::Decode(Field::Function));
            },
            Ok(x) => x,
        };
        let size = match Size::from_bits((((word >> 6u32) & 0x3) << 1u32) | ((word >> 1u32) & 1)) {
            Err(_) => {
                return Err(AisError::Decode(Field::Function));
            },
            Ok(x) => x,
        };
        let sel = match Sel::from_bits((word >> 2u32) & 0xF) {
            Err(_) => {
                return Err(AisError::Decode(Field::Function));
            },
            Ok(x) => x,
        };
        let sub_op_bits = (word >> 9u32) & 0x3;
        proof {
            assert((word >> 9u32) & 0x3 < 256) by (bit_vector);
        }
        Ok(Function::Xls(SubOp::Raw(sub_op_bits as u8), addr_size, size, sel))
    } else {
        Err(AisError::Decode(Field::Opcode))
    }
}

fn decode_opcode(word: u32) -> (r: Result<Opcode, AisError>)
    ensures
        r == match s_opcode_from((word >> 26u32) & 0x3F) {
            Err(_) => Err::<Opcode, AisError>(AisError::Decode(Field::Opcode)),
            Ok(op) => Ok::<Opcode, AisError>(op),
        },
{
    let opcode_bits = (word >> 26u32) & 0x3F;
    match Opcode::from_bits(opcode_bits) {
        Err(_) => Err(AisError::Decode(Field::Opcode)),
        Ok(op) => Ok(op),
    }
}

fn reg(bits: u32, field: Field) -> (r: Result<Register, AisError>)
    ensures
        r == if bits <= 31 {
            Ok::<Register, AisError>(Register(bits as u8))
        } else {
            Err::<Register, AisError>(AisError::Decode(field))
        },
{
    if bits <= 31 {
        Ok(Register(bits as u8))
    } else {
        Err(AisError::Decode(field))
    }
}

fn field5(word: u32, lo: u32) -> (r: u8)
    requires
        lo < 32,
    ensures
        r == s_field5(word, lo),
        r < 32,
{
    let bits = (word >> lo) & 0x1F;
    proof {
        assert((word >> lo) & 0x1F < 32) by (bit_vector);
    }
    bits as u8
}

fn rs(word: u32) -> (r: Option<Register>)
    ensures
        r == Some(Register(s_field5(word, 21))),
{
    Some(Register(field5(word, 21)))
}

fn rt(word: u32) -> (r: Option<Register>)
    ensures
        r == Some(Register(s_field5(word, 16))),
{
    Some(Register(field5(word, 16)))
}

fn rd(word: u32) -> (r: Option<Register>)
    ensures
        r == Some(Register(s_field5(word, 11))),
{
    Some(Register(field5(word, 11)))
}

/// Decodes a 32-bit word into an instruction, classifying it by opcode and
/// extracting the fields of its format; the leftover field is still zero.
pub fn decode32(word: u32) -> (r: Result<Instruction, AisError>)
    ensures
        r == s_decode32(word),
{
    let opcode = match decode_opcode(word) {
        Err(e) => {
            return Err(e);
        },
        Ok(op) => op,
    };
    let mut instr = Instruction::new(opcode);
    if instr.is_i_type() {
        instr.rs = rs(word);
        instr.rt = rt(word);
        let imm_bits = word & 0xFFFF;
        proof {
            assert(word & 0xFFFF < 0x10000) by (bit_vector);
        }
        instr.imm = Some(imm_bits as u16);
    } else if instr.is_xalu_type() {
        instr.function = Some(
            match decode_xalu_function(word) {
                Err(e) => {
                    return Err(e);
                },
                Ok(f) => f,
            },
        );
        instr.rs = rs(word);
        instr.rt = rt(word);
        instr.rd = rd(word);
    } else if instr.is_xalui_type() {
        instr.function = Some(
            match decode_xalu_function(word) {
                Err(e) => {
                    return Err(e);
                },
                Ok(f) => f,
            },
        );
        instr.rs = rs(word);
        instr.rd = rd(word);
        instr.constant = match Const::try_from(field5(word, 16)) {
            Err(_) => {
                return Err(AisError::Decode(Field::Const));
            },
            Ok(c) => Some(c),
        };
    } else if instr.opcode == Opcode::XJ {
        instr.rt = rt(word);
        instr.function = Some(
            match decode_xj_function(word) {
                Err(e) => {
                    return Err(e);
                },
                Ok(f) => f,
            },
        );
    } else if instr.opcode == Opcode::XMISC {
        instr.rs = rs(word);
        instr.rt = rt(word);
        instr.rd = rd(word);
        instr.function = Some(
            match decode_xmisc_function(word) {
                Err(e) => {
                    return Err(e);
                },
                Ok(f) => f,
            },
        );
    } else if instr.is_xls_type() || instr.opcode == Opcode::XLEAD {
        // The XLS family swaps the field order: the true source register
        // sits at bits 15:11 and the offset selector at bits 25:21.
        proof {
            assert((word >> 11u32) & 0x1F < 32) by (bit_vector);
        }
        let xls_rs = match reg((word >> 11u32) & 0x1F, Field::RS) {
            Err(e) => {
                return Err(e);
            },
            Ok(x) => x,
        };
        instr.rs = Some(xls_rs);
        instr.rt = rt(word);
        instr.offset = match Offset::try_from(field5(word, 21)) {
            Err(_) => {
                return Err(AisError::Decode(Field::Offset));
            },
            Ok(o) => Some(o),
        };
        instr.function = Some(
            match decode_function(instr.opcode, word) {
                Err(e) => {
                    return Err(e);
                },
                Ok(f) => f,
            },
        );
    } else {
        return Err(AisError::Decode(Field::Opcode));
    }
    Ok(instr)
}

/// Decodes an instruction from the start of a byte sequence.  On success
/// exactly 6 bytes were consumed and the result's leftover bits are chosen
/// so that re-encoding it reproduces those 6 bytes.
pub fn decode(bytes: &[u8]) -> (r: Result<(Instruction, usize), AisError>)
    ensures
        match r {
            Ok(p) => s_decode(bytes@) == Ok::<Instruction, AisError>(p.0) && p.1 == 6,
            Err(e) => s_decode(bytes@) == Err::<Instruction, AisError>(e),
        },
{
    if bytes.len() < 6 {
        return Err(AisError::DecodeSize);
    }
    proof {
        assert(bytes@.subrange(0, 6).subrange(2, 6) =~= bytes@.subrange(2, 6));
        assert(bytes@.subrange(0, 6)[0] == bytes@[0]);
        assert(bytes@.subrange(0, 6)[1] == bytes@[1]);
    }
    let b0 = *slice_index_get(bytes, 0);
    let b1 = *slice_index_get(bytes, 1);
    if b0 != 0x62 || b1 != 0x80 {
        return Err(AisError::DecodeHeader);
    }
    let word = u32_from_le_bytes(slice_subrange(bytes, 2, 6));
    let mut instr = match decode32(word) {
        Err(e) => {
            return Err(e);
        },
        Ok(i) => i,
    };
    // Fill leftovers with the bits no modeled field reproduced.
    let code = match crate::encode::encode32(&instr) {
        Err(e) => {
            return Err(e);
        },
        Ok(c) => c,
    };
    instr.leftovers = word & !code;
    Ok((instr, 6))
}

} // verus!
