use ais::ais::AisError;
use ais::ais::Const;
use ais::ais::DpCntl;
use ais::ais::Field;
use ais::ais::Function;
use ais::ais::Instruction;
use ais::ais::Offset;
use ais::ais::Opcode;
use ais::ais::Register;
use ais::ais::SubOpXalu;
use ais::ais::XjMode;
use ais::ais::XjSize;
use ais::ops;

#[test]
fn register_from_into_identity() {
    for i in 0..32u8 {
        let reg = Register::try_from(i).unwrap();
        let j: u8 = reg.try_into().unwrap();
        assert_eq!(j, i)
    }
}

#[test]
fn const_from_into_identity() {
    for i in 0..32u8 {
        let reg = Const::try_from(i).unwrap();
        let j: u8 = reg.try_into().unwrap();
        assert_eq!(j, i)
    }
}

#[test]
fn offset_from_into_identity() {
    for i in 0..32u8 {
        let reg = Offset::try_from(i).unwrap();
        let j: u8 = reg.try_into().unwrap();
        assert_eq!(j, i)
    }
}

#[test]
fn register_rejects_out_of_range() {
    assert_eq!(Register::try_from(32), Err(()));
    assert_eq!(Register::try_from(255), Err(()));
    let j: Result<u8, ()> = Register(40).try_into();
    assert_eq!(j, Err(()));
}

#[test]
fn const_enumerated_encodings() {
    let c1: Result<u8, ()> = Const::Number(1).try_into();
    assert_eq!(c1, Ok(0b00001));
    let c5: Result<u8, ()> = Const::Number(5).try_into();
    assert_eq!(c5, Ok(0b01111));
    let c6: Result<u8, ()> = Const::Number(6).try_into();
    assert_eq!(c6, Ok(0b10010));
    let c2: Result<u8, ()> = Const::Number(2).try_into();
    assert_eq!(c2, Err(()));
    let raw: Result<u8, ()> = Const::Raw(33).try_into();
    assert_eq!(raw, Err(()));
}

#[test]
fn const_decode_prefers_enumerated_meaning() {
    // Where the enumerated values and the raw range overlap, decode gives
    // the enumerated meaning; only patterns outside the table fall back.
    assert_eq!(Const::try_from(0b00000), Ok(Const::Number(0)));
    assert_eq!(Const::try_from(0b00001), Ok(Const::Number(1)));
    assert_eq!(Const::try_from(0b01111), Ok(Const::Number(5)));
    assert_eq!(Const::try_from(0b10010), Ok(Const::Number(6)));
    assert_eq!(Const::try_from(0b00010), Ok(Const::Raw(2)));
    assert_eq!(Const::try_from(32), Err(()));
    // The same preference reaches the const field of a decoded word:
    // an XALU-immediate word whose const bits hold the pattern of 6.
    let (i, _) = Instruction::decode(&[0x62, 0x80, 0x10, 0x08, 0x12, 0x8C]).unwrap();
    assert_eq!(i.opcode, Opcode::XALUIR);
    assert_eq!(i.constant, Some(Const::Number(6)));
}

#[test]
fn offset_enumerated_encodings() {
    let neg4: Result<u8, ()> = Offset::Number(-4).try_into();
    assert_eq!(neg4, Ok(0b01011));
    let disp: Result<u8, ()> = Offset::DISP.try_into();
    assert_eq!(disp, Ok(0b11111));
    let os: Result<u8, ()> = Offset::OS.try_into();
    assert_eq!(os, Ok(0b10000));
    let bad: Result<u8, ()> = Offset::Number(3).try_into();
    assert_eq!(bad, Err(()));
}

#[test]
fn decode_rejects_short_input() {
    assert_eq!(
        Instruction::decode(&[0x62, 0x80, 0x00]),
        Err(AisError::DecodeSize)
    );
    assert_eq!(Instruction::decode(&[]), Err(AisError::DecodeSize));
}

#[test]
fn decode_rejects_bad_marker() {
    assert_eq!(
        Instruction::decode(&[0x00, 0x00, 0x00, 0x00, 0x00, 0x00]),
        Err(AisError::DecodeHeader)
    );
    assert_eq!(
        Instruction::decode(&[0x62, 0x81, 0x00, 0x00, 0x00, 0x00]),
        Err(AisError::DecodeHeader)
    );
}

#[test]
fn decode_rejects_unknown_opcode() {
    // Opcode bits 000001 name no instruction.
    assert_eq!(
        Instruction::decode(&[0x62, 0x80, 0x00, 0x00, 0x00, 0x04]),
        Err(AisError::Decode(Field::Opcode))
    );
    // Opcode XL is recognized by the table but has no modeled format.
    // 0o60 << 26 == 0xC0000000.
    assert_eq!(
        Instruction::decode(&[0x62, 0x80, 0x00, 0x00, 0x00, 0xC0]),
        Err(AisError::Decode(Field::Opcode))
    );
}

#[test]
fn decode_rejects_unknown_function_bits() {
    // XALU word whose sub-operation bits 4:0 hold 1, which the table lacks.
    assert_eq!(
        Instruction::decode(&[0x62, 0x80, 0x01, 0x00, 0x00, 0x80]),
        Err(AisError::Decode(Field::Function))
    );
    // XJ word whose mode bits 1:0 hold 1, which the table lacks.
    // Word: 6 << 26 | 1 == 0x18000001.
    assert_eq!(
        Instruction::decode(&[0x62, 0x80, 0x01, 0x00, 0x00, 0x18]),
        Err(AisError::Decode(Field::Function))
    );
}

#[test]
fn encode_reports_missing_fields() {
    let bare = Instruction::new(Opcode::ORI);
    assert_eq!(bare.encode(), Err(AisError::Missing(Field::RS)));
    let mut with_rs = Instruction::new(Opcode::ORI);
    with_rs.rs = Some(Register::R0());
    assert_eq!(with_rs.encode(), Err(AisError::Missing(Field::RT)));
    let bare_j = Instruction::new(Opcode::XJ);
    assert_eq!(bare_j.encode(), Err(AisError::Missing(Field::RT)));
}

#[test]
fn encode_reports_unsupported_values() {
    let mut i = Instruction::new(Opcode::XALUIR);
    i.rs = Some(Register(1));
    i.rd = Some(Register(2));
    i.constant = Some(Const::Raw(99));
    i.function = Some(Function::Xalu(SubOpXalu::ADD, DpCntl::Word));
    assert_eq!(i.encode(), Err(AisError::Unsupported(Field::Const)));

    // XL has a table entry but no encodable format.
    let mut xl = Instruction::new(Opcode::XL);
    xl.rs = Some(Register::R0());
    assert_eq!(xl.encode(), Err(AisError::Unsupported(Field::Opcode)));

    // The index form of the effective-address computation is modeled but
    // has no encodable format either.
    let lea = ops::leai(
        Register::EAX(),
        Register::R0(),
        Register(1),
        ais::ais::AddrSize::Bits32,
        ais::ais::Size::Bits32,
    );
    assert_eq!(lea.encode(), Err(AisError::Unsupported(Field::Opcode)));
}

#[test]
fn manual_vector_first_round_trips() {
    let bytes = [0x62, 0x80, 0x19, 0x08, 0xE0, 0x83];
    let (i, n) = Instruction::decode(&bytes).unwrap();
    assert_eq!(n, 6);
    assert_eq!(i.opcode, Opcode::XALU);
    assert_eq!(i.rs, Some(Register(31)));
    assert_eq!(i.rt, Some(Register::R0()));
    assert_eq!(i.rd, Some(Register(1)));
    assert!(matches!(
        i.function,
        Some(Function::Xalu(SubOpXalu::CTC2, DpCntl::Word))
    ));
    assert_eq!(i.leftovers, 0);
    assert_eq!(i.encode().unwrap(), bytes.to_vec());
}

#[test]
fn manual_vector_second_round_trips() {
    let bytes = [0x62, 0x80, 0x47, 0x00, 0x10, 0x18];
    let (i, n) = Instruction::decode(&bytes).unwrap();
    assert_eq!(n, 6);
    assert_eq!(i.opcode, Opcode::XJ);
    assert_eq!(i.rt, Some(Register::EAX()));
    assert!(matches!(
        i.function,
        Some(Function::Xj(XjSize::Bits32, XjMode::X86))
    ));
    // Bit 2 is not covered by any modeled field and survives as leftovers.
    assert_eq!(i.leftovers, 0b100);
    assert_eq!(i.encode().unwrap(), bytes.to_vec());
}

#[test]
fn manual_vectors_are_distinguishable() {
    let (a, _) = Instruction::decode(&[0x62, 0x80, 0x19, 0x08, 0xE0, 0x83]).unwrap();
    let (b, _) = Instruction::decode(&[0x62, 0x80, 0x47, 0x00, 0x10, 0x18]).unwrap();
    assert_ne!(a.opcode, b.opcode);
}

#[test]
fn round_trip_holds_for_decodable_words() {
    // A spread of words over every modeled format, some with bits outside
    // the modeled fields; whatever decodes must re-encode byte for byte.
    let words: [u32; 10] = [
        0x34101234, // ORI
        0x83E00819, // XALU with every register field set
        0x18040044, // XJ with the undocumented bit
        0x18100047, // XJ with mode X86
        0xA0000FC0, // XMISC with CFC2 function bits
        0xB3408141, // XLEAD
        0xFC940A08, // XPUSH
        0x8C000819, // XALUIR
        0xD5400028, // XIOR
        0xF4290A08, // XIOW
    ];
    let mut seen = 0;
    for w in words {
        let mut bytes = vec![0x62u8, 0x80u8];
        bytes.extend_from_slice(&w.to_le_bytes());
        if let Ok((i, n)) = Instruction::decode(&bytes) {
            assert_eq!(n, 6);
            assert_eq!(i.encode().unwrap(), bytes);
            seen += 1;
        }
    }
    // The vector is chosen so that at least the known-good words decode.
    assert!(seen >= 6);
}

#[test]
fn decode_only_consumes_six_bytes() {
    let mut bytes = vec![0x62u8, 0x80, 0x34, 0x12, 0x10, 0x34];
    bytes.extend_from_slice(&[0xAA, 0xBB, 0xCC]);
    let (i, n) = Instruction::decode(&bytes).unwrap();
    assert_eq!(n, 6);
    assert_eq!(i.encode().unwrap(), bytes[0..6].to_vec());
}

#[test]
fn builder_round_trips_preserve_fields() {
    let iow = ops::iow(ais::ais::Size::Bits8L, Register::EDX(), Register::EAX());
    let bytes = iow.encode().unwrap();
    let (d, _) = Instruction::decode(&bytes).unwrap();
    assert_eq!(d.opcode, Opcode::XIOW);
    assert_eq!(d.rs, Some(Register::EAX()));
    assert_eq!(d.rt, Some(Register::EDX()));
    assert_eq!(d.encode().unwrap(), bytes);

    let pop = ops::popsp(ais::ais::Size::Bits32, Register::R4());
    let bytes = pop.encode().unwrap();
    let (d, _) = Instruction::decode(&bytes).unwrap();
    assert_eq!(d.opcode, Opcode::XPOP);
    assert_eq!(d.rs, Some(Register::R4()));
    assert_eq!(d.rt, Some(Register::ESP()));
    assert!(matches!(d.offset, Some(Offset::Number(4))));
    assert_eq!(d.encode().unwrap(), bytes);

    let cfc = ops::cfc2(Register::EAX(), Register(1));
    let bytes = cfc.encode().unwrap();
    let (d, _) = Instruction::decode(&bytes).unwrap();
    assert_eq!(d.opcode, Opcode::XMISC);
    assert_eq!(d.rt, Some(Register::EAX()));
    assert_eq!(d.rd, Some(Register(1)));
    assert_eq!(d.encode().unwrap(), bytes);

    let lead = ops::lead(
        Register::EAX(),
        Register::R0(),
        Offset::MDOS,
        ais::ais::AddrSize::Bits32,
        ais::ais::Size::Bits32,
    );
    let bytes = lead.encode().unwrap();
    assert_eq!(bytes, vec![0x62, 0x80, 0x41, 0x81, 0x40, 0xB3]);
    let (d, _) = Instruction::decode(&bytes).unwrap();
    assert_eq!(d.opcode, Opcode::XLEAD);
    assert!(matches!(d.offset, Some(Offset::MDOS)));
    assert_eq!(d.encode().unwrap(), bytes);
}

#[test]
fn arithmetic_builders_encode_exactly() {
    // AND of register 17 with the constant 1 into register 5.
    let i = ops::andi(Register::R5(), Register::ECX(), Const::Number(1));
    assert_eq!(
        i.encode().unwrap(),
        vec![0x62, 0x80, 0x14, 0x28, 0x21, 0x8E]
    );
    // Subtraction of register 5 from register 0 into register 4.
    let i = ops::sub(Register::R4(), Register::R0(), Register::R5());
    assert_eq!(
        i.encode().unwrap(),
        vec![0x62, 0x80, 0x12, 0x20, 0x05, 0x88]
    );
}

#[test]
fn jump_builder_sets_undocumented_bit() {
    let j = ops::j(Register::R4());
    assert_eq!(j.leftovers, 0b100);
    let bytes = j.encode().unwrap();
    assert_eq!(bytes, vec![0x62, 0x80, 0x44, 0x00, 0x04, 0x18]);
    let (d, _) = Instruction::decode(&bytes).unwrap();
    assert_eq!(d.leftovers, 0b100);
    assert_eq!(d.encode().unwrap(), bytes);
}
