//! The instruction model: field codecs, opcodes, sub-functions and the
//! symbolic `Instruction` record.
//!
//! Every narrow bit field of the instruction word has a pair of spec
//! functions, one per direction, that define its codec as a table; the
//! executable conversions are proved against those tables.

use vstd::prelude::*;

verus! {

/// The instruction field a codec error is about.
#[derive(Debug, Copy, Clone, PartialEq, Eq, Structural)]
pub enum Field {
    Opcode,
    Const,
    Offset,
    Immediate,
    RS,
    RT,
    RD,
    Function,
}

/// Why encoding or decoding failed.
#[derive(Debug, Copy, Clone, PartialEq, Eq, Structural)]
pub enum AisError {
    /// Fewer than 6 bytes were available to the decoder.
    DecodeSize,
    /// The fixed 2-byte marker did not match.
    DecodeHeader,
    /// A bit pattern had no mapping in the named field's table.
    Decode(Field),
    /// Encoding needed a field that the instruction does not carry.
    Missing(Field),
    /// A field value has no representation in the target format.
    Unsupported(Field),
}

/// One of the 32 architectural registers, held as its numeric index.
#[derive(Debug, Copy, Clone, PartialEq, Eq, Structural)]
pub struct Register(pub u8);

/// Decoding a 5-bit register field: the identity on 0..=31.
pub open spec fn s_register_from(value: u8) -> Result<Register, ()> {
    if value <= 31 {
        Ok(Register(value))
    } else {
        Err(())
    }
}

/// Encoding a register: the identity on 0..=31, rejected above.
pub open spec fn s_register_bits(r: Register) -> Result<u8, ()> {
    if r.0 <= 31 {
        Ok(r.0)
    } else {
        Err(())
    }
}

// The architectural aliases of the register file: the hardwired zero
// register, the scratch registers, the segment selectors, and the
// x86-visible general-purpose registers mapped into a high sub-range.
impl Register {
    /// The zero register.
    #[allow(non_snake_case)]
    pub fn R0() -> (r: Register)
        ensures
            r == Register(0),
    {
        Register(0)
    }

    /// The first scratch register.
    #[allow(non_snake_case)]
    pub fn R4() -> (r: Register)
        ensures
            r == Register(4),
    {
        Register(4)
    }

    /// The second scratch register.
    #[allow(non_snake_case)]
    pub fn R5() -> (r: Register)
        ensures
            r == Register(5),
    {
        Register(5)
    }

    /// The third scratch register.
    #[allow(non_snake_case)]
    pub fn R6() -> (r: Register)
        ensures
            r == Register(6),
    {
        Register(6)
    }

    /// The fourth scratch register.
    #[allow(non_snake_case)]
    pub fn R7() -> (r: Register)
        ensures
            r == Register(7),
    {
        Register(7)
    }

    /// The code segment selector register.
    #[allow(non_snake_case)]
    pub fn CS() -> (r: Register)
        ensures
            r == Register(9),
    {
        Register(9)
    }

    /// The stack segment selector register.
    #[allow(non_snake_case)]
    pub fn SS() -> (r: Register)
        ensures
            r == Register(10),
    {
        Register(10)
    }

    /// The data segment selector register.
    #[allow(non_snake_case)]
    pub fn DS() -> (r: Register)
        ensures
            r == Register(11),
    {
        Register(11)
    }

    /// The F segment selector register.
    #[allow(non_snake_case)]
    pub fn FS() -> (r: Register)
        ensures
            r == Register(12),
    {
        Register(12)
    }

    /// The G segment selector register.
    #[allow(non_snake_case)]
    pub fn GS() -> (r: Register)
        ensures
            r == Register(13),
    {
        Register(13)
    }

    /// The x86 accumulator.
    #[allow(non_snake_case)]
    pub fn EAX() -> (r: Register)
        ensures
            r == Register(16),
    {
        Register(16)
    }

    /// The x86 count register.
    #[allow(non_snake_case)]
    pub fn ECX() -> (r: Register)
        ensures
            r == Register(17),
    {
        Register(17)
    }

    /// The x86 data register.
    #[allow(non_snake_case)]
    pub fn EDX() -> (r: Register)
        ensures
            r == Register(18),
    {
        Register(18)
    }

    /// The x86 base register.
    #[allow(non_snake_case)]
    pub fn EBX() -> (r: Register)
        ensures
            r == Register(19),
    {
        Register(19)
    }

    /// The x86 stack pointer.
    #[allow(non_snake_case)]
    pub fn ESP() -> (r: Register)
        ensures
            r == Register(20),
    {
        Register(20)
    }

    /// The x86 base pointer.
    #[allow(non_snake_case)]
    pub fn EBP() -> (r: Register)
        ensures
            r == Register(21),
    {
        Register(21)
    }

    /// The x86 source index register.
    #[allow(non_snake_case)]
    pub fn ESI() -> (r: Register)
        ensures
            r == Register(22),
    {
        Register(22)
    }

    /// The x86 destination index register.
    #[allow(non_snake_case)]
    pub fn EDI() -> (r: Register)
        ensures
            r == Register(23),
    {
        Register(23)
    }

    /// Builds a register from its index; indices above 31 are rejected.
    pub fn try_from(value: u8) -> (r: Result<Register, ()>)
        ensures
            r == s_register_from(value),
    {
        if value <= 31 {
            Ok(Register(value))
        } else {
            Err(())
        }
    }

    /// Returns the 5-bit encoding of this register.
    pub fn try_into(self) -> (r: Result<u8, ()>)
        ensures
            r == s_register_bits(self),
    {
        if self.0 <= 31 {
            Ok(self.0)
        } else {
            Err(())
        }
    }
}

/// Register codec identity: decode is the exact inverse of encode for every
/// index 0..=31, and both directions reject everything above 31.
pub proof fn lemma_register_identity(i: u8)
    ensures
        i <= 31 ==> (s_register_from(i) matches Ok(r) && s_register_bits(r) == Ok::<u8, ()>(i)),
        i > 31 ==> s_register_from(i) == Err::<Register, ()>(()),
        i > 31 ==> s_register_bits(Register(i)) == Err::<u8, ()>(()),
{
}

/// A small operand-encoded literal: an enumerated signed value or a raw
/// 5-bit pattern.
#[derive(Debug, Copy, Clone, PartialEq, Eq, Structural)]
pub enum Const {
    Number(i8),
    Raw(u8),
}

/// Decoding a 5-bit const field: the patterns of the enumerated values
/// mean those values — the enumerated meaning is preferred where it and
/// the raw range overlap — and every other 5-bit pattern falls back to its
/// raw value.
pub open spec fn s_const_from(value: u8) -> Result<Const, ()> {
    if value == 0b00000 {
        Ok(Const::Number(0))
    } else if value == 0b00001 {
        Ok(Const::Number(1))
    } else if value == 0b01111 {
        Ok(Const::Number(5))
    } else if value == 0b10010 {
        Ok(Const::Number(6))
    } else if value < 32 {
        Ok(Const::Raw(value))
    } else {
        Err(())
    }
}

/// Encoding a const: the enumerated values have fixed patterns, raw values
/// pass through, anything else is unrepresentable.  The pattern recorded
/// for the value 6 is provisional: it was observed, not confirmed against
/// hardware documentation.
pub open spec fn s_const_bits(c: Const) -> Result<u8, ()> {
    match c {
        Const::Number(n) => if n == 0 {
            Ok(0u8)
        } else if n == 1 {
            Ok(0b00001u8)
        } else if n == 5 {
            Ok(0b01111u8)
        } else if n == 6 {
            Ok(0b10010u8)
        } else {
            Err(())
        },
        Const::Raw(x) => if x <= 0b11111 {
            Ok(x)
        } else {
            Err(())
        },
    }
}

impl Const {
    /// Builds a const from a 5-bit pattern, preferring the enumerated value.
    pub fn try_from(value: u8) -> (r: Result<Const, ()>)
        ensures
            r == s_const_from(value),
    {
        if value == 0b00000 {
            Ok(Const::Number(0))
        } else if value == 0b00001 {
            Ok(Const::Number(1))
        } else if value == 0b01111 {
            Ok(Const::Number(5))
        } else if value == 0b10010 {
            Ok(Const::Number(6))
        } else if value < 32 {
            Ok(Const::Raw(value))
        } else {
            Err(())
        }
    }

    /// Returns the 5-bit encoding of this const.
    pub fn try_into(self) -> (r: Result<u8, ()>)
        ensures
            r == s_const_bits(self),
    {
        match self {
            Const::Number(n) => if n == 0 {
                Ok(0u8)
            } else if n == 1 {
                Ok(0b00001u8)
            } else if n == 5 {
                Ok(0b01111u8)
            } else if n == 6 {
                Ok(0b10010u8)
            } else {
                Err(())
            },
            Const::Raw(x) => if x <= 0b11111 {
                Ok(x)
            } else {
                Err(())
            },
        }
    }
}

/// Const table closure: every 5-bit pattern decodes, and re-encoding what it
/// decoded to yields the original pattern.
pub proof fn lemma_const_table_closure(i: u8)
    requires
        i < 32,
    ensures
        s_const_from(i) matches Ok(c) && s_const_bits(c) == Ok::<u8, ()>(i),
{
}

/// A 5-bit addressing-offset selector: a small signed literal from a fixed
/// table, a named pseudo-offset, or a raw passthrough pattern.
#[derive(Debug, Copy, Clone, PartialEq, Eq, Structural)]
pub enum Offset {
    Number(i8),
    OS,
    PDOS,
    MOS,
    MGS,
    MDOS,
    DF,
    DFOS,
    DISP,
    Raw(u8),
}

/// Decoding a 5-bit offset field: a fixed lookup table that is total on
/// 0..=31, with a raw fallback for the patterns outside the table.
pub open spec fn s_offset_from(value: u8) -> Result<Offset, ()> {
    if value == 0b00000 {
        Ok(Offset::Number(0))
    } else if value == 0b00001 {
        Ok(Offset::Number(1))
    } else if value == 0b00010 {
        Ok(Offset::Number(2))
    } else if value == 0b00011 {
        Ok(Offset::Number(4))
    } else if value == 0b00100 {
        Ok(Offset::Number(8))
    } else if value == 0b00101 {
        Ok(Offset::Number(16))
    } else if value == 0b00110 {
        Ok(Offset::Number(24))
    } else if value == 0b00111 {
        Ok(Offset::Number(32))
    } else if value == 0b01000 {
        Ok(Offset::Number(10))
    } else if value == 0b01001 {
        Ok(Offset::Number(-1i8))
    } else if value == 0b01010 {
        Ok(Offset::Number(-2i8))
    } else if value == 0b01011 {
        Ok(Offset::Number(-4i8))
    } else if value == 0b01100 {
        Ok(Offset::Number(-8i8))
    } else if value == 0b01111 {
        Ok(Offset::Number(5))
    } else if value == 0b10000 {
        Ok(Offset::OS)
    } else if value == 0b10001 {
        Ok(Offset::PDOS)
    } else if value == 0b11000 {
        Ok(Offset::MOS)
    } else if value == 0b11001 {
        Ok(Offset::MGS)
    } else if value == 0b11010 {
        Ok(Offset::MDOS)
    } else if value == 0b11100 {
        Ok(Offset::DF)
    } else if value == 0b11101 {
        Ok(Offset::DFOS)
    } else if value == 0b11111 {
        Ok(Offset::DISP)
    } else if value <= 0b11111 {
        Ok(Offset::Raw(value))
    } else {
        Err(())
    }
}

/// Encoding an offset: the inverse table; values outside it are
/// unrepresentable.
pub open spec fn s_offset_bits(o: Offset) -> Result<u8, ()> {
    match o {
        Offset::Number(n) => if n == 0 {
            Ok(0b00000u8)
        } else if n == 1 {
            Ok(0b00001u8)
        } else if n == 2 {
            Ok(0b00010u8)
        } else if n == 4 {
            Ok(0b00011u8)
        } else if n == 8 {
            Ok(0b00100u8)
        } else if n == 16 {
            Ok(0b00101u8)
        } else if n == 24 {
            Ok(0b00110u8)
        } else if n == 32 {
            Ok(0b00111u8)
        } else if n == 10 {
            Ok(0b01000u8)
        } else if n == -1 {
            Ok(0b01001u8)
        } else if n == -2 {
            Ok(0b01010u8)
        } else if n == -4 {
            Ok(0b01011u8)
        } else if n == -8 {
            Ok(0b01100u8)
        } else if n == 5 {
            Ok(0b01111u8)
        } else {
            Err(())
        },
        Offset::OS => Ok(0b10000u8),
        Offset::PDOS => Ok(0b10001u8),
        Offset::MOS => Ok(0b11000u8),
        Offset::MGS => Ok(0b11001u8),
        Offset::MDOS => Ok(0b11010u8),
        Offset::DF => Ok(0b11100u8),
        Offset::DFOS => Ok(0b11101u8),
        Offset::DISP => Ok(0b11111u8),
        Offset::Raw(x) => if x <= 0b11111 {
            Ok(x)
        } else {
            Err(())
        },
    }
}

impl Offset {
    /// Builds an offset from a 5-bit pattern; total on 0..=31 through the
    /// raw fallback.
    pub fn try_from(value: u8) -> (r: Result<Offset, ()>)
        ensures
            r == s_offset_from(value),
    {
        if value == 0b00000 {
            Ok(Offset::Number(0))
        } else if value == 0b00001 {
            Ok(Offset::Number(1))
        } else if value == 0b00010 {
            Ok(Offset::Number(2))
        } else if value == 0b00011 {
            Ok(Offset::Number(4))
        } else if value == 0b00100 {
            Ok(Offset::Number(8))
        } else if value == 0b00101 {
            Ok(Offset::Number(16))
        } else if value == 0b00110 {
            Ok(Offset::Number(24))
        } else if value == 0b00111 {
            Ok(Offset::Number(32))
        } else if value == 0b01000 {
            Ok(Offset::Number(10))
        } else if value == 0b01001 {
            Ok(Offset::Number(-1i8))
        } else if value == 0b01010 {
            Ok(Offset::Number(-2i8))
        } else if value == 0b01011 {
            Ok(Offset::Number(-4i8))
        } else if value == 0b01100 {
            Ok(Offset::Number(-8i8))
        } else if value == 0b01111 {
            Ok(Offset::Number(5))
        } else if value == 0b10000 {
            Ok(Offset::OS)
        } else if value == 0b10001 {
            Ok(Offset::PDOS)
        } else if value == 0b11000 {
            Ok(Offset::MOS)
        } else if value == 0b11001 {
            Ok(Offset::MGS)
        } else if value == 0b11010 {
            Ok(Offset::MDOS)
        } else if value == 0b11100 {
            Ok(Offset::DF)
        } else if value == 0b11101 {
            Ok(Offset::DFOS)
        } else if value == 0b11111 {
            Ok(Offset::DISP)
        } else if value <= 0b11111 {
            Ok(Offset::Raw(value))
        } else {
            Err(())
        }
    }

    /// Returns the 5-bit encoding of this offset.
    pub fn try_into(self) -> (r: Result<u8, ()>)
        ensures
            r == s_offset_bits(self),
    {
        match self {
            Offset::Number(n) => if n == 0 {
                Ok(0b00000u8)
            } else if n == 1 {
                Ok(0b00001u8)
            } else if n == 2 {
                Ok(0b00010u8)
            } else if n == 4 {
                Ok(0b00011u8)
            } else if n == 8 {
                Ok(0b00100u8)
            } else if n == 16 {
                Ok(0b00101u8)
            } else if n == 24 {
                Ok(0b00110u8)
            } else if n == 32 {
                Ok(0b00111u8)
            } else if n == 10 {
                Ok(0b01000u8)
            } else if n == -1 {
                Ok(0b01001u8)
            } else if n == -2 {
                Ok(0b01010u8)
            } else if n == -4 {
                Ok(0b01011u8)
            } else if n == -8 {
                Ok(0b01100u8)
            } else if n == 5 {
                Ok(0b01111u8)
            } else {
                Err(())
            },
            Offset::OS => Ok(0b10000u8),
            Offset::PDOS => Ok(0b10001u8),
            Offset::MOS => Ok(0b11000u8),
            Offset::MGS => Ok(0b11001u8),
            Offset::MDOS => Ok(0b11010u8),
            Offset::DF => Ok(0b11100u8),
            Offset::DFOS => Ok(0b11101u8),
            Offset::DISP => Ok(0b11111u8),
            Offset::Raw(x) => if x <= 0b11111 {
                Ok(x)
            } else {
                Err(())
            },
        }
    }
}

/// Offset table closure: every 5-bit pattern decodes (to an enumerated
/// variant or the raw fallback), and re-encoding yields the original bits.
pub proof fn lemma_offset_table_closure(i: u8)
    requires
        i < 32,
    ensures
        s_offset_from(i) matches Ok(o) && s_offset_bits(o) == Ok::<u8, ()>(i),
{
}

/// Operand size tag.
#[derive(Debug, Copy, Clone, PartialEq, Eq, Structural)]
pub enum Size {
    Bits16,
    Bits8L,
    Bits32,
    Bits8H,
    AS,
    Bits64,
    OS,
    IND,
    SAS,
}

/// The architectural encoding of a size tag.
pub open spec fn s_size_bits(s: Size) -> u32 {
    match s {
        Size::Bits16 => 0b000,
        Size::Bits8L => 0b001,
        Size::Bits32 => 0b010,
        Size::Bits8H => 0b011,
        Size::AS => 0b100,
        Size::Bits64 => 0b101,
        Size::OS => 0b110,
        Size::IND => 0b111,
        Size::SAS => 0b1000,
    }
}

/// Decoding a size tag: a closed set, no fallback.
pub open spec fn s_size_from(b: u32) -> Result<Size, ()> {
    if b == 0b000 {
        Ok(Size::Bits16)
    } else if b == 0b001 {
        Ok(Size::Bits8L)
    } else if b == 0b010 {
        Ok(Size::Bits32)
    } else if b == 0b011 {
        Ok(Size::Bits8H)
    } else if b == 0b100 {
        Ok(Size::AS)
    } else if b == 0b101 {
        Ok(Size::Bits64)
    } else if b == 0b110 {
        Ok(Size::OS)
    } else if b == 0b111 {
        Ok(Size::IND)
    } else if b == 0b1000 {
        Ok(Size::SAS)
    } else {
        Err(())
    }
}

/// Segment / selector tag.
#[derive(Debug, Copy, Clone, PartialEq, Eq, Structural)]
pub enum Sel {
    ES,
    CS,
    SS,
    DS,
    FS,
    GS,
    GDT,
    LDT,
    IDT,
    TSS,
    FLAT,
    T0,
    ISEL,
}

/// The architectural encoding of a selector tag.
pub open spec fn s_sel_bits(s: Sel) -> u32 {
    match s {
        Sel::ES => 0b0000,
        Sel::CS => 0b0001,
        Sel::SS => 0b0010,
        Sel::DS => 0b0011,
        Sel::FS => 0b0100,
        Sel::GS => 0b0101,
        Sel::GDT => 0b0110,
        Sel::LDT => 0b0111,
        Sel::IDT => 0b1000,
        Sel::TSS => 0b1001,
        Sel::FLAT => 0b1010,
        Sel::T0 => 0b1011,
        Sel::ISEL => 0b1111,
    }
}

/// Decoding a selector tag: a closed set, no fallback.
pub open spec fn s_sel_from(b: u32) -> Result<Sel, ()> {
    if b == 0b0000 {
        Ok(Sel::ES)
    } else if b == 0b0001 {
        Ok(Sel::CS)
    } else if b == 0b0010 {
        Ok(Sel::SS)
    } else if b == 0b0011 {
        Ok(Sel::DS)
    } else if b == 0b0100 {
        Ok(Sel::FS)
    } else if b == 0b0101 {
        Ok(Sel::GS)
    } else if b == 0b0110 {
        Ok(Sel::GDT)
    } else if b == 0b0111 {
        Ok(Sel::LDT)
    } else if b == 0b1000 {
        Ok(Sel::IDT)
    } else if b == 0b1001 {
        Ok(Sel::TSS)
    } else if b == 0b1010 {
        Ok(Sel::FLAT)
    } else if b == 0b1011 {
        Ok(Sel::T0)
    } else if b == 0b1111 {
        Ok(Sel::ISEL)
    } else {
        Err(())
    }
}

/// Generic load/store sub-operation: only raw 2-bit patterns are modeled.
#[derive(Debug, Copy, Clone, PartialEq, Eq, Structural)]
pub enum SubOp {
    Raw(u8),
}

/// Decoding a 2-bit sub-operation field.
pub open spec fn s_subop_from(value: u8) -> Result<SubOp, ()> {
    if value < 4 {
        Ok(SubOp::Raw(value))
    } else {
        Err(())
    }
}

/// Encoding a sub-operation: raw patterns below 4 pass through.
pub open spec fn s_subop_bits(s: SubOp) -> Result<u8, ()> {
    match s {
        SubOp::Raw(x) => if x < 4 {
            Ok(x)
        } else {
            Err(())
        },
    }
}

impl SubOp {
    /// Builds a sub-operation from its 2-bit pattern.
    pub fn try_from(value: u8) -> (r: Result<SubOp, ()>)
        ensures
            r == s_subop_from(value),
    {
        if value < 4 {
            Ok(SubOp::Raw(value))
        } else {
            Err(())
        }
    }

    /// Returns the 2-bit encoding of this sub-operation.
    pub fn try_into(self) -> (r: Result<u8, ()>)
        ensures
            r == s_subop_bits(self),
    {
        match self {
            SubOp::Raw(x) => if x < 4 {
                Ok(x)
            } else {
                Err(())
            },
        }
    }
}

/// I/O transfer sub-operation.
#[derive(Debug, Copy, Clone, PartialEq, Eq, Structural)]
pub enum SubOpXio {
    Norm,
}

/// The architectural encoding of an I/O sub-operation.
pub open spec fn s_subop_xio_bits(s: SubOpXio) -> u32 {
    match s {
        SubOpXio::Norm => 0,
    }
}

/// Decoding an I/O sub-operation: only the normal form is known.
pub open spec fn s_subop_xio_from(b: u32) -> Result<SubOpXio, ()> {
    if b == 0 {
        Ok(SubOpXio::Norm)
    } else {
        Err(())
    }
}

/// Address size tag.
#[derive(Debug, Copy, Clone, PartialEq, Eq, Structural)]
pub enum AddrSize {
    AS,
    SAS,
    Bits16,
    Bits32,
}

/// The architectural encoding of an address size tag.
pub open spec fn s_addr_size_bits(a: AddrSize) -> u32 {
    match a {
        AddrSize::AS => 0b00,
        AddrSize::SAS => 0b01,
        AddrSize::Bits16 => 0b10,
        AddrSize::Bits32 => 0b11,
    }
}

/// Decoding an address size tag: total on the 2-bit range.
pub open spec fn s_addr_size_from(b: u32) -> Result<AddrSize, ()> {
    if b == 0b00 {
        Ok(AddrSize::AS)
    } else if b == 0b01 {
        Ok(AddrSize::SAS)
    } else if b == 0b10 {
        Ok(AddrSize::Bits16)
    } else if b == 0b11 {
        Ok(AddrSize::Bits32)
    } else {
        Err(())
    }
}

/// Miscellaneous-format sub-function tag.
#[derive(Debug, Copy, Clone, PartialEq, Eq, Structural)]
pub enum SubFunc {
    CFC2,
}

/// The architectural encoding of a sub-function tag.
pub open spec fn s_sub_func_bits(s: SubFunc) -> u32 {
    match s {
        SubFunc::CFC2 => 0o37,
    }
}

/// Decoding a sub-function tag: a closed set with a single known value.
pub open spec fn s_sub_func_from(b: u32) -> Result<SubFunc, ()> {
    if b == 0o37 {
        Ok(SubFunc::CFC2)
    } else {
        Err(())
    }
}

/// Indirect-jump operand size.
#[derive(Debug, Copy, Clone, PartialEq, Eq, Structural)]
pub enum XjSize {
    Bits16,
    Bits32,
    AS,
    OS,
}

/// The architectural encoding of a jump size.
pub open spec fn s_xj_size_bits(s: XjSize) -> u32 {
    match s {
        XjSize::Bits16 => 0b00,
        XjSize::Bits32 => 0b01,
        XjSize::AS => 0b10,
        XjSize::OS => 0b11,
    }
}

/// Decoding a jump size: total on the 2-bit range.
pub open spec fn s_xj_size_from(b: u32) -> Result<XjSize, ()> {
    if b == 0b00 {
        Ok(XjSize::Bits16)
    } else if b == 0b01 {
        Ok(XjSize::Bits32)
    } else if b == 0b10 {
        Ok(XjSize::AS)
    } else if b == 0b11 {
        Ok(XjSize::OS)
    } else {
        Err(())
    }
}

/// Indirect-jump target mode.
#[derive(Debug, Copy, Clone, PartialEq, Eq, Structural)]
pub enum XjMode {
    AIS,
    X86,
}

/// The architectural encoding of a jump mode.
pub open spec fn s_xj_mode_bits(m: XjMode) -> u32 {
    match m {
        XjMode::AIS => 0b00,
        XjMode::X86 => 0b11,
    }
}

/// Decoding a jump mode: a closed set with two known values.
pub open spec fn s_xj_mode_from(b: u32) -> Result<XjMode, ()> {
    if b == 0b00 {
        Ok(XjMode::AIS)
    } else if b == 0b11 {
        Ok(XjMode::X86)
    } else {
        Err(())
    }
}

/// Operand-width control of the arithmetic/logic unit.
#[derive(Debug, Copy, Clone, PartialEq, Eq, Structural)]
pub enum DpCntl {
    Word,
    Short,
    LL,
    HL,
    LH,
    HH,
}

/// The architectural encoding of a width control tag.
pub open spec fn s_dp_cntl_bits(d: DpCntl) -> u32 {
    match d {
        DpCntl::Word => 0b000,
        DpCntl::Short => 0b001,
        DpCntl::LL => 0b010,
        DpCntl::HL => 0b011,
        DpCntl::LH => 0b100,
        DpCntl::HH => 0b101,
    }
}

/// Decoding a width control tag: a closed set, no fallback.
pub open spec fn s_dp_cntl_from(b: u32) -> Result<DpCntl, ()> {
    if b == 0b000 {
        Ok(DpCntl::Word)
    } else if b == 0b001 {
        Ok(DpCntl::Short)
    } else if b == 0b010 {
        Ok(DpCntl::LL)
    } else if b == 0b011 {
        Ok(DpCntl::HL)
    } else if b == 0b100 {
        Ok(DpCntl::LH)
    } else if b == 0b101 {
        Ok(DpCntl::HH)
    } else {
        Err(())
    }
}

/// Arithmetic/logic sub-operation.
#[derive(Debug, Copy, Clone, PartialEq, Eq, Structural)]
pub enum SubOpXalu {
    SHL,
    SHR,
    SAR,
    ROL,
    ROR,
    RCL,
    RCR,
    INC,
    CMPS,
    DEC,
    IMUL,
    MUL,
    IDIV,
    ADD,
    ADC,
    SUB,
    SBB,
    AND,
    OR,
    XOR,
    NOR,
    CTC2,
    SETCC,
    MFLOU,
    MFLOI,
}

/// The architectural encoding of an arithmetic sub-operation.
pub open spec fn s_subop_xalu_bits(s: SubOpXalu) -> u32 {
    match s {
        SubOpXalu::SHL => 0o00,
        SubOpXalu::SHR => 0o02,
        SubOpXalu::SAR => 0o03,
        SubOpXalu::ROL => 0o04,
        SubOpXalu::ROR => 0o05,
        SubOpXalu::RCL => 0o06,
        SubOpXalu::RCR => 0o07,
        SubOpXalu::INC => 0o10,
        SubOpXalu::CMPS => 0o11,
        SubOpXalu::DEC => 0o12,
        SubOpXalu::IMUL => 0o14,
        SubOpXalu::MUL => 0o15,
        SubOpXalu::IDIV => 0o16,
        SubOpXalu::ADD => 0o20,
        SubOpXalu::ADC => 0o21,
        SubOpXalu::SUB => 0o22,
        SubOpXalu::SBB => 0o23,
        SubOpXalu::AND => 0o24,
        SubOpXalu::OR => 0o25,
        SubOpXalu::XOR => 0o26,
        SubOpXalu::NOR => 0o27,
        SubOpXalu::CTC2 => 0o31,
        SubOpXalu::SETCC => 0o35,
        SubOpXalu::MFLOU => 0o36,
        SubOpXalu::MFLOI => 0o37,
    }
}

/// Decoding an arithmetic sub-operation: a closed set, no fallback.
pub open spec fn s_subop_xalu_from(b: u32) -> Result<SubOpXalu, ()> {
    if b == 0o00 {
        Ok(SubOpXalu::SHL)
    } else if b == 0o02 {
        Ok(SubOpXalu::SHR)
    } else if b == 0o03 {
        Ok(SubOpXalu::SAR)
    } else if b == 0o04 {
        Ok(SubOpXalu::ROL)
    } else if b == 0o05 {
        Ok(SubOpXalu::ROR)
    } else if b == 0o06 {
        Ok(SubOpXalu::RCL)
    } else if b == 0o07 {
        Ok(SubOpXalu::RCR)
    } else if b == 0o10 {
        Ok(SubOpXalu::INC)
    } else if b == 0o11 {
        Ok(SubOpXalu::CMPS)
    } else if b == 0o12 {
        Ok(SubOpXalu::DEC)
    } else if b == 0o14 {
        Ok(SubOpXalu::IMUL)
    } else if b == 0o15 {
        Ok(SubOpXalu::MUL)
    } else if b == 0o16 {
        Ok(SubOpXalu::IDIV)
    } else if b == 0o20 {
        Ok(SubOpXalu::ADD)
    } else if b == 0o21 {
        Ok(SubOpXalu::ADC)
    } else if b == 0o22 {
        Ok(SubOpXalu::SUB)
    } else if b == 0o23 {
        Ok(SubOpXalu::SBB)
    } else if b == 0o24 {
        Ok(SubOpXalu::AND)
    } else if b == 0o25 {
        Ok(SubOpXalu::OR)
    } else if b == 0o26 {
        Ok(SubOpXalu::XOR)
    } else if b == 0o27 {
        Ok(SubOpXalu::NOR)
    } else if b == 0o31 {
        Ok(SubOpXalu::CTC2)
    } else if b == 0o35 {
        Ok(SubOpXalu::SETCC)
    } else if b == 0o36 {
        Ok(SubOpXalu::MFLOU)
    } else if b == 0o37 {
        Ok(SubOpXalu::MFLOI)
    } else {
        Err(())
    }
}

/// Instruction opcode, the 6-bit tag at bits 31:26 of the word.
#[derive(Debug, Copy, Clone, PartialEq, Eq, Structural)]
pub enum Opcode {
    XJ,
    ORIU,
    ADDI,
    ANDIU,
    ANDIL,
    ANDI,
    ORI,
    XORI,
    XORIU,
    XALU,
    XALUI,
    XALUR,
    XALUIR,
    XMISC,
    XLEAI,
    XLEAD,
    XL,
    XL2,
    XL3,
    XLBI,
    XLDESC,
    XIOR,
    XPOPBR,
    XPOP,
    XS,
    XS2,
    XPUSHI,
    XSI,
    XPUSHIP,
    XIOW,
    XSU,
    XPUSH,
}

/// The architectural encoding of an opcode.
pub open spec fn s_opcode_bits(op: Opcode) -> u32 {
    match op {
        Opcode::XJ => 0o06,
        Opcode::ORIU => 0o10,
        Opcode::ADDI => 0o11,
        Opcode::ANDIU => 0o12,
        Opcode::ANDIL => 0o13,
        Opcode::ANDI => 0o14,
        Opcode::ORI => 0o15,
        Opcode::XORI => 0o16,
        Opcode::XORIU => 0o17,
        Opcode::XALU => 0o40,
        Opcode::XALUI => 0o41,
        Opcode::XALUR => 0o42,
        Opcode::XALUIR => 0o43,
        Opcode::XMISC => 0o50,
        Opcode::XLEAI => 0o53,
        Opcode::XLEAD => 0o54,
        Opcode::XL => 0o60,
        Opcode::XL2 => 0o61,
        Opcode::XL3 => 0o62,
        Opcode::XLBI => 0o63,
        Opcode::XLDESC => 0o64,
        Opcode::XIOR => 0o65,
        Opcode::XPOPBR => 0o66,
        Opcode::XPOP => 0o67,
        Opcode::XS => 0o70,
        Opcode::XS2 => 0o71,
        Opcode::XPUSHI => 0o72,
        Opcode::XSI => 0o73,
        Opcode::XPUSHIP => 0o74,
        Opcode::XIOW => 0o75,
        Opcode::XSU => 0o76,
        Opcode::XPUSH => 0o77,
    }
}

/// Decoding a 6-bit opcode field: a closed set, no fallback.
pub open spec fn s_opcode_from(b: u32) -> Result<Opcode, ()> {
    if b == 0o06 {
        Ok(Opcode::XJ)
    } else if b == 0o10 {
        Ok(Opcode::ORIU)
    } else if b == 0o11 {
        Ok(Opcode::ADDI)
    } else if b == 0o12 {
        Ok(Opcode::ANDIU)
    } else if b == 0o13 {
        Ok(Opcode::ANDIL)
    } else if b == 0o14 {
        Ok(Opcode::ANDI)
    } else if b == 0o15 {
        Ok(Opcode::ORI)
    } else if b == 0o16 {
        Ok(Opcode::XORI)
    } else if b == 0o17 {
        Ok(Opcode::XORIU)
    } else if b == 0o40 {
        Ok(Opcode::XALU)
    } else if b == 0o41 {
        Ok(Opcode::XALUI)
    } else if b == 0o42 {
        Ok(Opcode::XALUR)
    } else if b == 0o43 {
        Ok(Opcode::XALUIR)
    } else if b == 0o50 {
        Ok(Opcode::XMISC)
    } else if b == 0o53 {
        Ok(Opcode::XLEAI)
    } else if b == 0o54 {
        Ok(Opcode::XLEAD)
    } else if b == 0o60 {
        Ok(Opcode::XL)
    } else if b == 0o61 {
        Ok(Opcode::XL2)
    } else if b == 0o62 {
        Ok(Opcode::XL3)
    } else if b == 0o63 {
        Ok(Opcode::XLBI)
    } else if b == 0o64 {
        Ok(Opcode::XLDESC)
    } else if b == 0o65 {
        Ok(Opcode::XIOR)
    } else if b == 0o66 {
        Ok(Opcode::XPOPBR)
    } else if b == 0o67 {
        Ok(Opcode::XPOP)
    } else if b == 0o70 {
        Ok(Opcode::XS)
    } else if b == 0o71 {
        Ok(Opcode::XS2)
    } else if b == 0o72 {
        Ok(Opcode::XPUSHI)
    } else if b == 0o73 {
        Ok(Opcode::XSI)
    } else if b == 0o74 {
        Ok(Opcode::XPUSHIP)
    } else if b == 0o75 {
        Ok(Opcode::XIOW)
    } else if b == 0o76 {
        Ok(Opcode::XSU)
    } else if b == 0o77 {
        Ok(Opcode::XPUSH)
    } else {
        Err(())
    }
}

/// Whatever size tag a bit pattern decodes to encodes back to that pattern.
pub proof fn lemma_size_from_inverse(b: u32)
    requires
        s_size_from(b) is Ok,
    ensures
        s_size_bits(s_size_from(b)->Ok_0) == b,
{
}

/// Whatever selector tag a bit pattern decodes to encodes back to that
/// pattern.
pub proof fn lemma_sel_from_inverse(b: u32)
    requires
        s_sel_from(b) is Ok,
    ensures
        s_sel_bits(s_sel_from(b)->Ok_0) == b,
{
}

/// Whatever I/O sub-operation a bit pattern decodes to encodes back to that
/// pattern.
pub proof fn lemma_subop_xio_from_inverse(b: u32)
    requires
        s_subop_xio_from(b) is Ok,
    ensures
        s_subop_xio_bits(s_subop_xio_from(b)->Ok_0) == b,
{
}

/// Whatever address size tag a bit pattern decodes to encodes back to that
/// pattern.
pub proof fn lemma_addr_size_from_inverse(b: u32)
    requires
        s_addr_size_from(b) is Ok,
    ensures
        s_addr_size_bits(s_addr_size_from(b)->Ok_0) == b,
{
}

/// Whatever sub-function tag a bit pattern decodes to encodes back to that
/// pattern.
pub proof fn lemma_sub_func_from_inverse(b: u32)
    requires
        s_sub_func_from(b) is Ok,
    ensures
        s_sub_func_bits(s_sub_func_from(b)->Ok_0) == b,
{
}

/// Whatever jump size a bit pattern decodes to encodes back to that
/// pattern.
pub proof fn lemma_xj_size_from_inverse(b: u32)
    requires
        s_xj_size_from(b) is Ok,
    ensures
        s_xj_size_bits(s_xj_size_from(b)->Ok_0) == b,
{
}

/// Whatever jump mode a bit pattern decodes to encodes back to that
/// pattern.
pub proof fn lemma_xj_mode_from_inverse(b: u32)
    requires
        s_xj_mode_from(b) is Ok,
    ensures
        s_xj_mode_bits(s_xj_mode_from(b)->Ok_0) == b,
{
}

/// Whatever width control tag a bit pattern decodes to encodes back to that
/// pattern.
pub proof fn lemma_dp_cntl_from_inverse(b: u32)
    requires
        s_dp_cntl_from(b) is Ok,
    ensures
        s_dp_cntl_bits(s_dp_cntl_from(b)->Ok_0) == b,
{
}

/// Whatever arithmetic sub-operation a bit pattern decodes to encodes back
/// to that pattern.
pub proof fn lemma_subop_xalu_from_inverse(b: u32)
    requires
        s_subop_xalu_from(b) is Ok,
    ensures
        s_subop_xalu_bits(s_subop_xalu_from(b)->Ok_0) == b,
{
}

/// Whatever opcode a bit pattern decodes to encodes back to that pattern.
pub proof fn lemma_opcode_from_inverse(b: u32)
    requires
        s_opcode_from(b) is Ok,
    ensures
        s_opcode_bits(s_opcode_from(b)->Ok_0) == b,
{
}

/// Every opcode's bit pattern decodes back to that opcode: the opcode
/// table is injective.
pub proof fn lemma_opcode_bits_roundtrip(op: Opcode)
    ensures
        s_opcode_from(s_opcode_bits(op)) == Ok::<Opcode, ()>(op),
{
}

/// The sub-opcode payload of an instruction; its shape depends on the
/// owning opcode's format.
#[derive(Debug, Copy, Clone, PartialEq, Eq, Structural)]
pub enum Function {
    Xio(SubOpXio, AddrSize, Size, Sel),
    Xls(SubOp, AddrSize, Size, Sel),
    Xalu(SubOpXalu, DpCntl),
    Xj(XjSize, XjMode),
    Xlea(AddrSize, Size),
    Xmisc(SubFunc, u8),
    Raw(u16),
}

impl Size {
    /// Returns the architectural encoding of this size tag.
    pub fn bits(self) -> (r: u32)
        ensures
            r == s_size_bits(self),
    {
        match self {
            Size::Bits16 => 0b000,
            Size::Bits8L => 0b001,
            Size::Bits32 => 0b010,
            Size::Bits8H => 0b011,
            Size::AS => 0b100,
            Size::Bits64 => 0b101,
            Size::OS => 0b110,
            Size::IND => 0b111,
            Size::SAS => 0b1000,
        }
    }

    /// Looks a size tag up by its encoding.
    pub fn from_bits(b: u32) -> (r: Result<Size, ()>)
        ensures
            r == s_size_from(b),
    {
        if b == 0b000 {
            Ok(Size::Bits16)
        } else if b == 0b001 {
            Ok(Size::Bits8L)
        } else if b == 0b010 {
            Ok(Size::Bits32)
        } else if b == 0b011 {
            Ok(Size::Bits8H)
        } else if b == 0b100 {
            Ok(Size::AS)
        } else if b == 0b101 {
            Ok(Size::Bits64)
        } else if b == 0b110 {
            Ok(Size::OS)
        } else if b == 0b111 {
            Ok(Size::IND)
        } else if b == 0b1000 {
            Ok(Size::SAS)
        } else {
            Err(())
        }
    }
}

impl Sel {
    /// Returns the architectural encoding of this selector tag.
    pub fn bits(self) -> (r: u32)
        ensures
            r == s_sel_bits(self),
    {
        match self {
            Sel::ES => 0b0000,
            Sel::CS => 0b0001,
            Sel::SS => 0b0010,
            Sel::DS => 0b0011,
            Sel::FS => 0b0100,
            Sel::GS => 0b0101,
            Sel::GDT => 0b0110,
            Sel::LDT => 0b0111,
            Sel::IDT => 0b1000,
            Sel::TSS => 0b1001,
            Sel::FLAT => 0b1010,
            Sel::T0 => 0b1011,
            Sel::ISEL => 0b1111,
        }
    }

    /// Looks a selector tag up by its encoding.
    pub fn from_bits(b: u32) -> (r: Result<Sel, ()>)
        ensures
            r == s_sel_from(b),
    {
        if b == 0b0000 {
            Ok(Sel::ES)
        } else if b == 0b0001 {
            Ok(Sel::CS)
        } else if b == 0b0010 {
            Ok(Sel::SS)
        } else if b == 0b0011 {
            Ok(Sel::DS)
        } else if b == 0b0100 {
            Ok(Sel::FS)
        } else if b == 0b0101 {
            Ok(Sel::GS)
        } else if b == 0b0110 {
            Ok(Sel::GDT)
        } else if b == 0b0111 {
            Ok(Sel::LDT)
        } else if b == 0b1000 {
            Ok(Sel::IDT)
        } else if b == 0b1001 {
            Ok(Sel::TSS)
        } else if b == 0b1010 {
            Ok(Sel::FLAT)
        } else if b == 0b1011 {
            Ok(Sel::T0)
        } else if b == 0b1111 {
            Ok(Sel::ISEL)
        } else {
            Err(())
        }
    }
}

impl SubOpXio {
    /// Returns the architectural encoding of this I/O sub-operation.
    pub fn bits(self) -> (r: u32)
        ensures
            r == s_subop_xio_bits(self),
    {
        match self {
            SubOpXio::Norm => 0,
        }
    }

    /// Looks an I/O sub-operation up by its encoding.
    pub fn from_bits(b: u32) -> (r: Result<SubOpXio, ()>)
        ensures
            r == s_subop_xio_from(b),
    {
        if b == 0 {
            Ok(SubOpXio::Norm)
        } else {
            Err(())
        }
    }
}

impl AddrSize {
    /// Returns the architectural encoding of this address size tag.
    pub fn bits(self) -> (r: u32)
        ensures
            r == s_addr_size_bits(self),
    {
        match self {
            AddrSize::AS => 0b00,
            AddrSize::SAS => 0b01,
            AddrSize::Bits16 => 0b10,
            AddrSize::Bits32 => 0b11,
        }
    }

    /// Looks an address size tag up by its encoding.
    pub fn from_bits(b: u32) -> (r: Result<AddrSize, ()>)
        ensures
            r == s_addr_size_from(b),
    {
        if b == 0b00 {
            Ok(AddrSize::AS)
        } else if b == 0b01 {
            Ok(AddrSize::SAS)
        } else if b == 0b10 {
            Ok(AddrSize::Bits16)
        } else if b == 0b11 {
            Ok(AddrSize::Bits32)
        } else {
            Err(())
        }
    }
}

impl SubFunc {
    /// Returns the architectural encoding of this sub-function tag.
    pub fn bits(self) -> (r: u32)
        ensures
            r == s_sub_func_bits(self),
    {
        match self {
            SubFunc::CFC2 => 0o37,
        }
    }

    /// Looks a sub-function tag up by its encoding.
    pub fn from_bits(b: u32) -> (r: Result<SubFunc, ()>)
        ensures
            r == s_sub_func_from(b),
    {
        if b == 0o37 {
            Ok(SubFunc::CFC2)
        } else {
            Err(())
        }
    }
}

impl XjSize {
    /// Returns the architectural encoding of this jump size.
    pub fn bits(self) -> (r: u32)
        ensures
            r == s_xj_size_bits(self),
    {
        match self {
            XjSize::Bits16 => 0b00,
            XjSize::Bits32 => 0b01,
            XjSize::AS => 0b10,
            XjSize::OS => 0b11,
        }
    }

    /// Looks a jump size up by its encoding.
    pub fn from_bits(b: u32) -> (r: Result<XjSize, ()>)
        ensures
            r == s_xj_size_from(b),
    {
        if b == 0b00 {
            Ok(XjSize::Bits16)
        } else if b == 0b01 {
            Ok(XjSize::Bits32)
        } else if b == 0b10 {
            Ok(XjSize::AS)
        } else if b == 0b11 {
            Ok(XjSize::OS)
        } else {
            Err(())
        }
    }
}

impl XjMode {
    /// Returns the architectural encoding of this jump mode.
    pub fn bits(self) -> (r: u32)
        ensures
            r == s_xj_mode_bits(self),
    {
        match self {
            XjMode::AIS => 0b00,
            XjMode::X86 => 0b11,
        }
    }

    /// Looks a jump mode up by its encoding.
    pub fn from_bits(b: u32) -> (r: Result<XjMode, ()>)
        ensures
            r == s_xj_mode_from(b),
    {
        if b == 0b00 {
            Ok(XjMode::AIS)
        } else if b == 0b11 {
            Ok(XjMode::X86)
        } else {
            Err(())
        }
    }
}

impl DpCntl {
    /// Returns the architectural encoding of this width control tag.
    pub fn bits(self) -> (r: u32)
        ensures
            r == s_dp_cntl_bits(self),
    {
        match self {
            DpCntl::Word => 0b000,
            DpCntl::Short => 0b001,
            DpCntl::LL => 0b010,
            DpCntl::HL => 0b011,
            DpCntl::LH => 0b100,
            DpCntl::HH => 0b101,
        }
    }

    /// Looks a width control tag up by its encoding.
    pub fn from_bits(b: u32) -> (r: Result<DpCntl, ()>)
        ensures
            r == s_dp_cntl_from(b),
    {
        if b == 0b000 {
            Ok(DpCntl::Word)
        } else if b == 0b001 {
            Ok(DpCntl::Short)
        } else if b == 0b010 {
            Ok(DpCntl::LL)
        } else if b == 0b011 {
            Ok(DpCntl::HL)
        } else if b == 0b100 {
            Ok(DpCntl::LH)
        } else if b == 0b101 {
            Ok(DpCntl::HH)
        } else {
            Err(())
        }
    }
}

impl SubOpXalu {
    /// Returns the architectural encoding of this arithmetic sub-operation.
    pub fn bits(self) -> (r: u32)
        ensures
            r == s_subop_xalu_bits(self),
    {
        match self {
            SubOpXalu::SHL => 0o00,
            SubOpXalu::SHR => 0o02,
            SubOpXalu::SAR => 0o03,
            SubOpXalu::ROL => 0o04,
            SubOpXalu::ROR => 0o05,
            SubOpXalu::RCL => 0o06,
            SubOpXalu::RCR => 0o07,
            SubOpXalu::INC => 0o10,
            SubOpXalu::CMPS => 0o11,
            SubOpXalu::DEC => 0o12,
            SubOpXalu::IMUL => 0o14,
            SubOpXalu::MUL => 0o15,
            SubOpXalu::IDIV => 0o16,
            SubOpXalu::ADD => 0o20,
            SubOpXalu::ADC => 0o21,
            SubOpXalu::SUB => 0o22,
            SubOpXalu::SBB => 0o23,
            SubOpXalu::AND => 0o24,
            SubOpXalu::OR => 0o25,
            SubOpXalu::XOR => 0o26,
            SubOpXalu::NOR => 0o27,
            SubOpXalu::CTC2 => 0o31,
            SubOpXalu::SETCC => 0o35,
            SubOpXalu::MFLOU => 0o36,
            SubOpXalu::MFLOI => 0o37,
        }
    }

    /// Looks an arithmetic sub-operation up by its encoding.
    pub fn from_bits(b: u32) -> (r: Result<SubOpXalu, ()>)
        ensures
            r == s_subop_xalu_from(b),
    {
        if b == 0o00 {
            Ok(SubOpXalu::SHL)
        } else if b == 0o02 {
            Ok(SubOpXalu::SHR)
        } else if b == 0o03 {
            Ok(SubOpXalu::SAR)
        } else if b == 0o04 {
            Ok(SubOpXalu::ROL)
        } else if b == 0o05 {
            Ok(SubOpXalu::ROR)
        } else if b == 0o06 {
            Ok(SubOpXalu::RCL)
        } else if b == 0o07 {
            Ok(SubOpXalu::RCR)
        } else if b == 0o10 {
            Ok(SubOpXalu::INC)
        } else if b == 0o11 {
            Ok(SubOpXalu::CMPS)
        } else if b == 0o12 {
            Ok(SubOpXalu::DEC)
        } else if b == 0o14 {
            Ok(SubOpXalu::IMUL)
        } else if b == 0o15 {
            Ok(SubOpXalu::MUL)
        } else if b == 0o16 {
            Ok(SubOpXalu::IDIV)
        } else if b == 0o20 {
            Ok(SubOpXalu::ADD)
        } else if b == 0o21 {
            Ok(SubOpXalu::ADC)
        } else if b == 0o22 {
            Ok(SubOpXalu::SUB)
        } else if b == 0o23 {
            Ok(SubOpXalu::SBB)
        } else if b == 0o24 {
            Ok(SubOpXalu::AND)
        } else if b == 0o25 {
            Ok(SubOpXalu::OR)
        } else if b == 0o26 {
            Ok(SubOpXalu::XOR)
        } else if b == 0o27 {
            Ok(SubOpXalu::NOR)
        } else if b == 0o31 {
            Ok(SubOpXalu::CTC2)
        } else if b == 0o35 {
            Ok(SubOpXalu::SETCC)
        } else if b == 0o36 {
            Ok(SubOpXalu::MFLOU)
        } else if b == 0o37 {
            Ok(SubOpXalu::MFLOI)
        } else {
            Err(())
        }
    }
}

impl Opcode {
    /// Returns the architectural encoding of this opcode.
    pub fn bits(self) -> (r: u32)
        ensures
            r == s_opcode_bits(self),
    {
        match self {
            Opcode::XJ => 0o06,
            Opcode::ORIU => 0o10,
            Opcode::ADDI => 0o11,
            Opcode::ANDIU => 0o12,
            Opcode::ANDIL => 0o13,
            Opcode::ANDI => 0o14,
            Opcode::ORI => 0o15,
            Opcode::XORI => 0o16,
            Opcode::XORIU => 0o17,
            Opcode::XALU => 0o40,
            Opcode::XALUI => 0o41,
            Opcode::XALUR => 0o42,
            Opcode::XALUIR => 0o43,
            Opcode::XMISC => 0o50,
            Opcode::XLEAI => 0o53,
            Opcode::XLEAD => 0o54,
            Opcode::XL => 0o60,
            Opcode::XL2 => 0o61,
            Opcode::XL3 => 0o62,
            Opcode::XLBI => 0o63,
            Opcode::XLDESC => 0o64,
            Opcode::XIOR => 0o65,
            Opcode::XPOPBR => 0o66,
            Opcode::XPOP => 0o67,
            Opcode::XS => 0o70,
            Opcode::XS2 => 0o71,
            Opcode::XPUSHI => 0o72,
            Opcode::XSI => 0o73,
            Opcode::XPUSHIP => 0o74,
            Opcode::XIOW => 0o75,
            Opcode::XSU => 0o76,
            Opcode::XPUSH => 0o77,
        }
    }

    /// Looks an opcode up by its encoding.
    pub fn from_bits(b: u32) -> (r: Result<Opcode, ()>)
        ensures
            r == s_opcode_from(b),
    {
        if b == 0o06 {
            Ok(Opcode::XJ)
        } else if b == 0o10 {
            Ok(Opcode::ORIU)
        } else if b == 0o11 {
            Ok(Opcode::ADDI)
        } else if b == 0o12 {
            Ok(Opcode::ANDIU)
        } else if b == 0o13 {
            Ok(Opcode::ANDIL)
        } else if b == 0o14 {
            Ok(Opcode::ANDI)
        } else if b == 0o15 {
            Ok(Opcode::ORI)
        } else if b == 0o16 {
            Ok(Opcode::XORI)
        } else if b == 0o17 {
            Ok(Opcode::XORIU)
        } else if b == 0o40 {
            Ok(Opcode::XALU)
        } else if b == 0o41 {
            Ok(Opcode::XALUI)
        } else if b == 0o42 {
            Ok(Opcode::XALUR)
        } else if b == 0o43 {
            Ok(Opcode::XALUIR)
        } else if b == 0o50 {
            Ok(Opcode::XMISC)
        } else if b == 0o53 {
            Ok(Opcode::XLEAI)
        } else if b == 0o54 {
            Ok(Opcode::XLEAD)
        } else if b == 0o60 {
            Ok(Opcode::XL)
        } else if b == 0o61 {
            Ok(Opcode::XL2)
        } else if b == 0o62 {
            Ok(Opcode::XL3)
        } else if b == 0o63 {
            Ok(Opcode::XLBI)
        } else if b == 0o64 {
            Ok(Opcode::XLDESC)
        } else if b == 0o65 {
            Ok(Opcode::XIOR)
        } else if b == 0o66 {
            Ok(Opcode::XPOPBR)
        } else if b == 0o67 {
            Ok(Opcode::XPOP)
        } else if b == 0o70 {
            Ok(Opcode::XS)
        } else if b == 0o71 {
            Ok(Opcode::XS2)
        } else if b == 0o72 {
            Ok(Opcode::XPUSHI)
        } else if b == 0o73 {
            Ok(Opcode::XSI)
        } else if b == 0o74 {
            Ok(Opcode::XPUSHIP)
        } else if b == 0o75 {
            Ok(Opcode::XIOW)
        } else if b == 0o76 {
            Ok(Opcode::XSU)
        } else if b == 0o77 {
            Ok(Opcode::XPUSH)
        } else {
            Err(())
        }
    }
}

/// The symbolic instruction: an opcode, the optional operand fields its
/// format uses, and the leftover bits of the word that no modeled field
/// reproduces.
#[derive(Debug, Copy, Clone, PartialEq, Eq)]
pub struct Instruction {
    pub opcode: Opcode,
    pub rs: Option<Register>,
    pub rt: Option<Register>,
    pub rd: Option<Register>,
    pub imm: Option<u16>,
    pub constant: Option<Const>,
    pub offset: Option<Offset>,
    pub function: Option<Function>,
    pub leftovers: u32,
}

/// Whether the opcode uses the I format (source, target, 16-bit immediate).
pub open spec fn s_is_i_type(op: Opcode) -> bool {
    ||| op == Opcode::ORIU
    ||| op == Opcode::ADDI
    ||| op == Opcode::ANDIU
    ||| op == Opcode::ANDIL
    ||| op == Opcode::ANDI
    ||| op == Opcode::ORI
    ||| op == Opcode::XORI
    ||| op == Opcode::XORIU
}

/// Whether the opcode uses the XALU register format.
pub open spec fn s_is_xalu_type(op: Opcode) -> bool {
    op == Opcode::XALU || op == Opcode::XALUR
}

/// Whether the opcode uses the XALU immediate format.
pub open spec fn s_is_xalui_type(op: Opcode) -> bool {
    op == Opcode::XALUI || op == Opcode::XALUIR
}

/// Whether the opcode uses the XLS load/store format.
pub open spec fn s_is_xls_type(op: Opcode) -> bool {
    ||| op == Opcode::XIOR
    ||| op == Opcode::XIOW
    ||| op == Opcode::XPUSH
    ||| op == Opcode::XPOP
    ||| op == Opcode::XPUSHIP
}

impl Instruction {
    /// A bare instruction with the given opcode and every optional field
    /// absent.
    pub fn new(opcode: Opcode) -> (r: Instruction)
        ensures
            r == (Instruction {
                opcode,
                rs: None,
                rt: None,
                rd: None,
                imm: None,
                constant: None,
                offset: None,
                function: None,
                leftovers: 0,
            }),
    {
        Instruction {
            opcode,
            rs: None,
            rt: None,
            rd: None,
            imm: None,
            constant: None,
            offset: None,
            function: None,
            leftovers: 0,
        }
    }

    /// Whether this instruction's opcode uses the I format.
    pub fn is_i_type(&self) -> (r: bool)
        ensures
            r == s_is_i_type(self.opcode),
    {
        matches!(
            self.opcode,
            Opcode::ORIU
                | Opcode::ADDI
                | Opcode::ANDIU
                | Opcode::ANDIL
                | Opcode::ANDI
                | Opcode::ORI
                | Opcode::XORI
                | Opcode::XORIU
        )
    }

    /// Whether this instruction's opcode uses the XALU register format.
    pub fn is_xalu_type(&self) -> (r: bool)
        ensures
            r == s_is_xalu_type(self.opcode),
    {
        matches!(self.opcode, Opcode::XALU | Opcode::XALUR)
    }

    /// Whether this instruction's opcode uses the XALU immediate format.
    pub fn is_xalui_type(&self) -> (r: bool)
        ensures
            r == s_is_xalui_type(self.opcode),
    {
        matches!(self.opcode, Opcode::XALUI | Opcode::XALUIR)
    }

    /// Whether this instruction's opcode uses the XLS load/store format.
    pub fn is_xls_type(&self) -> (r: bool)
        ensures
            r == s_is_xls_type(self.opcode),
    {
        matches!(
            self.opcode,
            Opcode::XIOR | Opcode::XIOW | Opcode::XPUSH | Opcode::XPOP | Opcode::XPUSHIP
        )
    }

    /// Encodes this instruction into its 6-byte binary form.
    pub fn encode(&self) -> (r: Result<Vec<u8>, AisError>)
        ensures
            match r {
                Ok(v) => crate::encode::s_encode_bytes(*self) == Ok::<Seq<u8>, AisError>(v@)
                    && v@.len() == 6,
                Err(e) => crate::encode::s_encode_bytes(*self) == Err::<Seq<u8>, AisError>(e),
            },
    {
        crate::encode::encode(self)
    }

    /// Decodes one instruction from the start of a byte sequence, returning
    /// it with the number of bytes consumed.
    pub fn decode(bytes: &[u8]) -> (r: Result<(Instruction, usize), AisError>)
        ensures
            match r {
                Ok(p) => crate::decode::s_decode(bytes@) == Ok::<Instruction, AisError>(p.0) && p.1
                    == 6,
                Err(e) => crate::decode::s_decode(bytes@) == Err::<Instruction, AisError>(e),
            },
    {
        crate::decode::decode(bytes)
    }
}

} // verus!
