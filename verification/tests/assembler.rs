use ais::ais::AisError;
use ais::ais::Field;
use ais::ais::Instruction;
use ais::ais::Opcode;
use ais::ais::Register;
use ais::dynasm::DynAsm;
use ais::dynasm::DynAsmError;
use ais::dynasm::Sym;

fn instr_at(mem: &[u8], off: usize) -> Instruction {
    Instruction::decode(&mem[off..]).unwrap().0
}

#[test]
fn gen_appends_exactly_six_bytes() {
    let mut d = DynAsm::new(0x480000);
    d.gen(ais::ops::xori(Register::EAX(), Register::R0(), 0x1234))
        .unwrap();
    assert_eq!(d.memory().len(), 6);
    assert_eq!(d.memory(), &vec![0x62, 0x80, 0x34, 0x12, 0x10, 0x34]);
}

#[test]
fn failed_gen_leaves_buffer_unchanged() {
    let mut d = DynAsm::new(0);
    d.gen_load(Register::EAX(), 1).unwrap();
    let before = d.memory().clone();
    let r = d.gen(Instruction::new(Opcode::ORI));
    assert_eq!(r, Err(DynAsmError::AisError(AisError::Missing(Field::RS))));
    assert_eq!(d.memory(), &before);
}

#[test]
fn gen_load_emits_minimal_sequences() {
    // Both halves set: low-half OR from the zero register, then the
    // high-half OR merged into the destination itself.
    let mut d = DynAsm::new(0);
    d.gen_load(Register::EAX(), 0x12345678).unwrap();
    assert_eq!(d.memory().len(), 12);
    let lo = instr_at(d.memory(), 0);
    assert_eq!(lo.opcode, Opcode::ORI);
    assert_eq!(lo.rs, Some(Register::R0()));
    assert_eq!(lo.rt, Some(Register::EAX()));
    assert_eq!(lo.imm, Some(0x5678));
    let hi = instr_at(d.memory(), 6);
    assert_eq!(hi.opcode, Opcode::ORIU);
    assert_eq!(hi.rs, Some(Register::EAX()));
    assert_eq!(hi.rt, Some(Register::EAX()));
    assert_eq!(hi.imm, Some(0x1234));

    // Low half zero: only the high-half load.
    let mut d = DynAsm::new(0);
    d.gen_load(Register::EAX(), 0x12340000).unwrap();
    assert_eq!(d.memory().len(), 6);
    let hi = instr_at(d.memory(), 0);
    assert_eq!(hi.opcode, Opcode::ORIU);
    assert_eq!(hi.rs, Some(Register::R0()));
    assert_eq!(hi.imm, Some(0x1234));

    // High half zero: only the low-half load.
    let mut d = DynAsm::new(0);
    d.gen_load(Register::EAX(), 0x5678).unwrap();
    assert_eq!(d.memory().len(), 6);
    let lo = instr_at(d.memory(), 0);
    assert_eq!(lo.opcode, Opcode::ORI);
    assert_eq!(lo.imm, Some(0x5678));

    // Zero: still one instruction, loading zero.
    let mut d = DynAsm::new(0);
    d.gen_load(Register::EAX(), 0).unwrap();
    assert_eq!(d.memory().len(), 6);
    assert_eq!(instr_at(d.memory(), 0).imm, Some(0));
}

#[test]
fn sym_addr_tracks_resolution() {
    let mut d = DynAsm::new(0x1000);
    let s = d.new_sym();
    assert_eq!(d.sym_addr(s), Ok(None));
    d.gen_load(Register::EAX(), 7).unwrap();
    d.set_sym_here(s).unwrap();
    assert_eq!(d.sym_addr(s), Ok(Some(0x1006)));
}

#[test]
fn new_sym_here_is_resolved_immediately() {
    let mut d = DynAsm::new(0x2000);
    d.gen_load(Register::EAX(), 7).unwrap();
    let s = d.new_sym_here();
    assert_eq!(d.sym_addr(s), Ok(Some(0x2006)));
}

#[test]
fn unknown_symbol_handles_are_rejected() {
    let mut d = DynAsm::new(0);
    assert_eq!(d.sym_addr(Sym(99)), Err(DynAsmError::InvalidSym));
    assert_eq!(d.set_sym_here(Sym(99)), Err(DynAsmError::InvalidSym));
    assert_eq!(
        d.gen_load_symbol(Register::EAX(), Sym(0)),
        Err(DynAsmError::InvalidSym)
    );
    assert_eq!(d.memory().len(), 0);
}

#[test]
fn double_resolution_is_rejected_without_effect() {
    let mut d = DynAsm::new(0x480000);
    let s = d.new_sym();
    d.gen_load_symbol(Register::EAX(), s).unwrap();
    d.set_sym_here(s).unwrap();
    let addr = d.sym_addr(s).unwrap().unwrap();
    let before = d.memory().clone();
    d.gen_load(Register::ECX(), 5).unwrap();
    let r = d.set_sym_here(s);
    assert_eq!(r, Err(DynAsmError::SymbolRedefined));
    // The first resolution's effects are intact: same address, and the
    // patched bytes were not touched again.
    assert_eq!(d.sym_addr(s), Ok(Some(addr)));
    assert_eq!(&d.memory()[0..before.len()], &before[..]);
}

#[test]
fn forward_references_are_patched_with_address_halves() {
    let mut d = DynAsm::new(0x480000);
    let s = d.new_sym();
    d.gen_load_symbol(Register::EAX(), s).unwrap();
    d.gen_load_symbol(Register::EBX(), s).unwrap();
    // While unresolved, the embedded immediates are zero.
    assert_eq!(instr_at(d.memory(), 0).imm, Some(0));
    assert_eq!(instr_at(d.memory(), 6).imm, Some(0));
    d.set_sym_here(s).unwrap();
    let addr: u32 = 0x480000 + 24;
    let lo = (addr & 0xFFFF) as u16;
    let hi = (addr >> 16) as u16;
    // Every referencing instruction got the correct half.
    assert_eq!(instr_at(d.memory(), 0).imm, Some(lo));
    assert_eq!(instr_at(d.memory(), 6).imm, Some(hi));
    assert_eq!(instr_at(d.memory(), 12).imm, Some(lo));
    assert_eq!(instr_at(d.memory(), 18).imm, Some(hi));
    // The patched instructions still name their own registers.
    assert_eq!(instr_at(d.memory(), 0).rt, Some(Register::EAX()));
    assert_eq!(instr_at(d.memory(), 12).rt, Some(Register::EBX()));
}

#[test]
fn reference_order_does_not_change_the_patch() {
    // The same two loads in both orders: after resolution each window
    // holds the same patched instruction either way.
    let mut a = DynAsm::new(0x480000);
    let sa = a.new_sym();
    a.gen_load_symbol(Register::EAX(), sa).unwrap();
    a.gen_load_symbol(Register::EBX(), sa).unwrap();
    a.set_sym_here(sa).unwrap();

    let mut b = DynAsm::new(0x480000);
    let sb = b.new_sym();
    b.gen_load_symbol(Register::EBX(), sb).unwrap();
    b.gen_load_symbol(Register::EAX(), sb).unwrap();
    b.set_sym_here(sb).unwrap();

    // The register-16 load of `a` sits at offset 0; in `b` it sits at
    // offset 12.  The patched immediates agree window for window.
    let a0 = instr_at(a.memory(), 0);
    let b12 = instr_at(b.memory(), 12);
    assert_eq!(a0.imm, b12.imm);
    assert_eq!(a0.rt, b12.rt);
    let a6 = instr_at(a.memory(), 6);
    let b18 = instr_at(b.memory(), 18);
    assert_eq!(a6.imm, b18.imm);
    assert_eq!(a6.rt, b18.rt);
}

#[test]
fn resolved_symbol_loads_embed_address_directly() {
    let mut d = DynAsm::new(0x12340000);
    d.gen_load(Register::EAX(), 1).unwrap();
    let s = d.new_sym_here();
    d.gen_load_symbol(Register::ECX(), s).unwrap();
    // The symbol was already resolved to 0x12340006, so the halves are
    // embedded at emission time with no pending reference.
    assert_eq!(instr_at(d.memory(), 6).imm, Some(0x0006));
    assert_eq!(instr_at(d.memory(), 12).imm, Some(0x1234));
}

#[test]
fn header_and_footer_bytes_are_fixed() {
    let mut d = DynAsm::new(0);
    d.gen_header();
    d.gen_footer();
    assert_eq!(
        d.memory(),
        &vec![0xE8, 0x00, 0x00, 0x00, 0x00, 0x58, 0x83, 0xC0, 0x06, 0x0F, 0x3F, 0xC3]
    );
}

#[test]
fn gen_jump_emits_load_and_indirect_jump() {
    let mut d = DynAsm::new(0x480000);
    let s = d.new_sym_here();
    d.gen_jump(s).unwrap();
    assert_eq!(d.memory().len(), 18);
    let j = instr_at(d.memory(), 12);
    assert_eq!(j.opcode, Opcode::XJ);
    assert_eq!(j.rt, Some(Register::R4()));
    assert_eq!(j.leftovers, 0b100);
    // The scratch register is loaded with the resolved address.
    assert_eq!(instr_at(d.memory(), 0).imm, Some(0x0000));
    assert_eq!(instr_at(d.memory(), 6).imm, Some(0x0048));
}

#[test]
fn gen_ret_emits_pop_adjust_jump() {
    let mut d = DynAsm::new(0);
    d.gen_ret().unwrap();
    assert_eq!(d.memory().len(), 18);
    assert_eq!(instr_at(d.memory(), 0).opcode, Opcode::XPOP);
    assert_eq!(instr_at(d.memory(), 6).opcode, Opcode::XALUIR);
    assert_eq!(instr_at(d.memory(), 12).opcode, Opcode::XJ);
}

#[test]
fn gen_call_emits_load_puship_jump() {
    let mut d = DynAsm::new(0x480000);
    let s = d.new_sym();
    d.gen_call(s).unwrap();
    assert_eq!(d.memory().len(), 24);
    assert_eq!(instr_at(d.memory(), 12).opcode, Opcode::XPUSHIP);
    assert_eq!(instr_at(d.memory(), 18).opcode, Opcode::XJ);
}
