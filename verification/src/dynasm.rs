//! The dynamic assembler: an append-only output buffer plus a symbol table
//! with forward references and in-place relocation fixup.
//!
//! Every symbol is created unresolved and moves to resolved at most once.
//! Resolving a symbol patches each recorded reference by decoding the 6
//! bytes it points at, overwriting the immediate field with one half of the
//! resolved address, and re-encoding in place; the codec round trip makes
//! the patch exact.

use vstd::prelude::*;

use crate::ais::AisError;
use crate::ais::Const;
use crate::ais::DpCntl;
use crate::ais::Instruction;
use crate::ais::Offset;
use crate::ais::Opcode;
use crate::ais::Register;
use crate::ais::Size;
use crate::ais::SubOpXalu;
use crate::ops;

verus! {

/// Why an assembler operation failed.
#[derive(Debug, Copy, Clone, PartialEq, Eq, Structural)]
pub enum DynAsmError {
    /// Encoding or decoding failed inside an emission or a fixup.
    AisError(AisError),
    /// The symbol handle does not name a symbol of this assembler.
    InvalidSym,
    /// The symbol was already resolved.
    SymbolRedefined,
    /// A fixup re-encoded to a different byte length than it decoded from.
    ResolveUnstable,
}

impl From<AisError> for DynAsmError {
    fn from(x: AisError) -> (r: Self) {
        DynAsmError::AisError(x)
    }
}

impl vstd::std_specs::convert::FromSpecImpl<AisError> for DynAsmError {
    open spec fn obeys_from_spec() -> bool {
        true
    }

    open spec fn from_spec(x: AisError) -> Self {
        DynAsmError::AisError(x)
    }
}

/// A lightweight handle naming one symbol of an assembler.
#[derive(Debug, Copy, Clone, PartialEq, Eq, Structural)]
pub struct Sym(pub usize);

/// Which half of an absolute address a reference embedded.
#[derive(Debug, Copy, Clone, PartialEq, Eq, Structural)]
pub enum SymRefKind {
    HighImm,
    LowImm,
}

/// One recorded forward reference: which address half was embedded, and the
/// byte offset of the referencing instruction in the buffer.
#[derive(Debug, Copy, Clone, PartialEq, Eq, Structural)]
pub struct SymRef {
    pub kind: SymRefKind,
    pub offset: u32,
}

/// A symbol: unresolved with its pending references, or resolved to an
/// absolute address.  The transition is one-way and happens at most once.
#[derive(Debug)]
pub enum Symbol {
    Unresolved(Vec<SymRef>),
    Resolved(u32),
}

/// The high 16 bits of an absolute address.
pub open spec fn s_imm_high(addr: u32) -> u16 {
    ((addr >> 16u32) & 0xFFFF) as u16
}

/// The low 16 bits of an absolute address.
pub open spec fn s_imm_low(addr: u32) -> u16 {
    (addr & 0xFFFF) as u16
}

/// Returns the high 16 bits of an address.
pub fn imm_high(addr: u32) -> (r: u16)
    ensures
        r == s_imm_high(addr),
{
    proof {
        assert((addr >> 16u32) & 0xFFFF < 0x10000) by (bit_vector);
    }
    ((addr >> 16u32) & 0xFFFF) as u16
}

/// Returns the low 16 bits of an address.
pub fn imm_low(addr: u32) -> (r: u16)
    ensures
        r == s_imm_low(addr),
{
    proof {
        assert(addr & 0xFFFF < 0x10000) by (bit_vector);
    }
    (addr & 0xFFFF) as u16
}

/// The assembler context: base load address, append-only output buffer,
/// and the symbol table.
pub struct DynAsm {
    pub base: u32,
    pub memory: Vec<u8>,
    pub symbols: Vec<Symbol>,
}

/// The immediate half a fixup writes for a reference kind.
pub open spec fn s_ref_imm(kind: SymRefKind, addr: u32) -> u16 {
    match kind {
        SymRefKind::LowImm => s_imm_low(addr),
        SymRefKind::HighImm => s_imm_high(addr),
    }
}

/// One in-place fixup: decode the instruction at the reference's offset,
/// overwrite its immediate field with the matching half of the address,
/// re-encode, and splice the bytes back at the same place.
pub open spec fn s_patch_at(mem: Seq<u8>, r: SymRef, addr: u32) -> Result<Seq<u8>, DynAsmError> {
    if (r.offset as int) > mem.len() {
        Err(DynAsmError::AisError(AisError::DecodeSize))
    } else {
        let tail = mem.subrange(r.offset as int, mem.len() as int);
        match crate::decode::s_decode(tail) {
            Err(e) => Err(DynAsmError::AisError(e)),
            Ok(i0) => {
                let i1 = Instruction { imm: Some(s_ref_imm(r.kind, addr)), ..i0 };
                match crate::encode::s_encode_bytes(i1) {
                    Err(e) => Err(DynAsmError::AisError(e)),
                    Ok(bs) => if bs.len() != 6 {
                        Err(DynAsmError::ResolveUnstable)
                    } else {
                        Ok(
                            mem.subrange(0, r.offset as int) + bs + mem.subrange(
                                r.offset + 6,
                                mem.len() as int,
                            ),
                        )
                    },
                }
            },
        }
    }
}

/// Processing a list of references in order, stopping at the first failure:
/// the buffer after the fixups that succeeded, and the error if one failed.
pub open spec fn s_patch_list(mem: Seq<u8>, refs: Seq<SymRef>, addr: u32) -> (Seq<u8>, Option<
    DynAsmError,
>)
    decreases refs.len(),
{
    if refs.len() == 0 {
        (mem, None)
    } else {
        match s_patch_at(mem, refs[0], addr) {
            Err(e) => (mem, Some(e)),
            Ok(m2) => s_patch_list(m2, refs.drop_first(), addr),
        }
    }
}

/// Whether the handle names a symbol of this assembler.
pub open spec fn s_sym_ok(pre: DynAsm, sym: Sym) -> bool {
    sym.0 < pre.symbols@.len()
}

/// The address a reference to the symbol embeds at emission time: zero
/// while unresolved (patched later), the resolved address otherwise.
pub open spec fn s_sym_ref_val(pre: DynAsm, sym: Sym) -> u32 {
    match pre.symbols@[sym.0 as int] {
        Symbol::Unresolved(_) => 0,
        Symbol::Resolved(a) => a,
    }
}

/// The buffer and base are unchanged and the symbol table holds the same
/// entries, except that the symbol at `idx` — when unresolved — gained
/// exactly `new_refs` at the end of its pending list.
pub open spec fn s_sym_extended(pre: Seq<Symbol>, post: Seq<Symbol>, idx: int, new_refs: Seq<
    SymRef,
>) -> bool {
    &&& post.len() == pre.len()
    &&& forall|j: int| 0 <= j < pre.len() && j != idx ==> post[j] == pre[j]
    &&& match pre[idx] {
        Symbol::Resolved(_) => post[idx] == pre[idx],
        Symbol::Unresolved(rs1) => post[idx] matches Symbol::Unresolved(rs2) && rs2@ == rs1@
            + new_refs,
    }
}

/// The 6-byte encoding of an instruction known to encode successfully.
pub open spec fn s_instr_bytes(i: Instruction) -> Seq<u8> {
    crate::encode::s_encode_bytes(i)->Ok_0
}

/// The bytes a 32-bit constant load emits: an OR of each non-zero 16-bit
/// half into the register, the low half first; a zero-valued half is
/// skipped unless both halves are zero.
pub open spec fn s_load_bytes(dst: Register, imm: u32) -> Seq<u8> {
    let low_zero = imm & 0xFFFF == 0;
    let high_zero = imm & 0xFFFF0000 == 0;
    if !high_zero && !low_zero {
        s_instr_bytes(ops::s_i_type(Opcode::ORI, dst, Register(0), imm as u16)) + s_instr_bytes(
            ops::s_i_type(Opcode::ORIU, dst, dst, (imm >> 16u32) as u16),
        )
    } else if !high_zero {
        s_instr_bytes(ops::s_i_type(Opcode::ORIU, dst, Register(0), (imm >> 16u32) as u16))
    } else {
        s_instr_bytes(ops::s_i_type(Opcode::ORI, dst, Register(0), imm as u16))
    }
}

/// The bytes a symbol-address load emits: a low-half OR from the zero
/// register, then a high-half OR merged into the same register.
pub open spec fn s_load_symbol_bytes(dst: Register, val: u32) -> Seq<u8> {
    s_instr_bytes(ops::s_i_type(Opcode::ORI, dst, Register(0), s_imm_low(val))) + s_instr_bytes(
        ops::s_i_type(Opcode::ORIU, dst, dst, s_imm_high(val)),
    )
}

/// The two references a symbol-address load records when the symbol is
/// still unresolved: the low half at the first instruction, the high half
/// 6 bytes later.
pub open spec fn s_ref_pair(off: u32) -> Seq<SymRef> {
    seq![
        SymRef { kind: SymRefKind::LowImm, offset: off },
        SymRef { kind: SymRefKind::HighImm, offset: (off + 6) as u32 },
    ]
}

/// The bytes of the branchless conditional jump: reduce the condition to
/// its low bit, build an all-ones or all-zero mask and its complement by
/// subtraction, AND each mask half against one target address half, OR the
/// two masked addresses together and jump through the result.
pub open spec fn s_cond_jump_bytes(cond: Register, tval: u32, fval: u32) -> Seq<u8> {
    s_instr_bytes(
        ops::s_xaluir(SubOpXalu::AND, DpCntl::Word, Register(5), cond, Const::Number(1)),
    ) + s_instr_bytes(
        ops::s_xalur(SubOpXalu::SUB, DpCntl::Word, Register(4), Register(0), Register(5)),
    ) + s_instr_bytes(ops::s_i_type(Opcode::ANDIL, Register(4), Register(4), s_imm_low(tval)))
        + s_instr_bytes(ops::s_i_type(Opcode::ANDIU, Register(4), Register(4), s_imm_high(tval)))
        + s_instr_bytes(
        ops::s_xaluir(SubOpXalu::SUB, DpCntl::Word, Register(5), Register(5), Const::Number(1)),
    ) + s_instr_bytes(ops::s_i_type(Opcode::ANDIL, Register(5), Register(5), s_imm_low(fval)))
        + s_instr_bytes(ops::s_i_type(Opcode::ANDIU, Register(5), Register(5), s_imm_high(fval)))
        + s_instr_bytes(
        ops::s_xalur(SubOpXalu::OR, DpCntl::Word, Register(4), Register(4), Register(5)),
    ) + s_instr_bytes(ops::s_j(Register(4)))
}

/// The fixed x86-to-AIS transition stub prepended to the output.
pub open spec fn s_header_bytes() -> Seq<u8> {
    seq![0xE8u8, 0x00u8, 0x00u8, 0x00u8, 0x00u8, 0x58u8, 0x83u8, 0xC0u8, 0x06u8, 0x0Fu8, 0x3Fu8]
}

/// The fixed x86 return stub appended to the output.
pub open spec fn s_footer_bytes() -> Seq<u8> {
    seq![0xC3u8]
}

/// One fixup restricted to the 6-byte window it rewrites: decode the
/// window, overwrite the immediate with the chosen half of the address,
/// re-encode.
pub open spec fn s_patch_window(w: Seq<u8>, kind: SymRefKind, addr: u32) -> Result<
    Seq<u8>,
    DynAsmError,
> {
    match crate::decode::s_decode(w) {
        Err(e) => Err(DynAsmError::AisError(e)),
        Ok(i0) => {
            let i1 = Instruction { imm: Some(s_ref_imm(kind, addr)), ..i0 };
            match crate::encode::s_encode_bytes(i1) {
                Err(e) => Err(DynAsmError::AisError(e)),
                Ok(bs) => if bs.len() != 6 {
                    Err(DynAsmError::ResolveUnstable)
                } else {
                    Ok(bs)
                },
            }
        },
    }
}

/// Whether position `k` of the buffer lies inside the 6-byte window of
/// some reference in the list.
pub open spec fn s_in_window(refs: Seq<SymRef>, k: int) -> bool {
    exists|i: int| 0 <= i < refs.len() && (#[trigger] refs[i]).offset <= k < refs[i].offset + 6
}

/// A fixup within bounds acts exactly as the window patch, spliced back at
/// the reference's offset; its outcome depends only on the window's bytes.
pub proof fn lemma_patch_at_window(mem: Seq<u8>, r: SymRef, addr: u32)
    requires
        r.offset + 6 <= mem.len(),
    ensures
        s_patch_window(mem.subrange(r.offset as int, r.offset + 6), r.kind, addr) is Ok
            ==> s_patch_at(mem, r, addr) == Ok::<Seq<u8>, DynAsmError>(
            mem.subrange(0, r.offset as int) + s_patch_window(
                mem.subrange(r.offset as int, r.offset + 6),
                r.kind,
                addr,
            )->Ok_0 + mem.subrange(r.offset + 6, mem.len() as int),
        ),
        s_patch_window(mem.subrange(r.offset as int, r.offset + 6), r.kind, addr) is Err
            ==> s_patch_at(mem, r, addr) == Err::<Seq<u8>, DynAsmError>(
            s_patch_window(mem.subrange(r.offset as int, r.offset + 6), r.kind, addr)->Err_0,
        ),
{
    let off = r.offset as int;
    let tail = mem.subrange(off, mem.len() as int);
    let w = mem.subrange(off, off + 6);
    assert(tail.subrange(0, 6) =~= w);
    assert(w.subrange(0, 6) =~= w);
}

/// Symbol resolution is order-independent.  When every pending reference
/// points at its own decodable 6-byte instruction and no two windows
/// overlap, processing the whole list succeeds and the resulting buffer is
/// determined pointwise: each reference's window holds exactly the patch
/// of its original bytes, and every byte outside all windows is untouched.
/// The outcome therefore does not depend on the order in which the
/// references were recorded.
#[verifier::rlimit(100)]
pub proof fn lemma_patch_list_pointwise(mem: Seq<u8>, refs: Seq<SymRef>, addr: u32)
    requires
        forall|i: int| 0 <= i < refs.len() ==> (#[trigger] refs[i]).offset + 6 <= mem.len(),
        forall|i: int, j: int|
            0 <= i < refs.len() && 0 <= j < refs.len() && i != j ==> ((#[trigger] refs[i]).offset
                + 6 <= (#[trigger] refs[j]).offset || refs[j].offset + 6 <= refs[i].offset),
        forall|i: int|
            0 <= i < refs.len() ==> s_patch_window(
                mem.subrange((#[trigger] refs[i]).offset as int, refs[i].offset + 6),
                refs[i].kind,
                addr,
            ) is Ok,
    ensures
        s_patch_list(mem, refs, addr).1 is None,
        s_patch_list(mem, refs, addr).0.len() == mem.len(),
        forall|i: int|
            0 <= i < refs.len() ==> s_patch_list(mem, refs, addr).0.subrange(
                (#[trigger] refs[i]).offset as int,
                refs[i].offset + 6,
            ) == s_patch_window(
                mem.subrange(refs[i].offset as int, refs[i].offset + 6),
                refs[i].kind,
                addr,
            )->Ok_0,
        forall|k: int|
            0 <= k < mem.len() && !s_in_window(refs, k) ==> #[trigger] s_patch_list(
                mem,
                refs,
                addr,
            ).0[k] == mem[k],
    decreases refs.len(),
{
    if refs.len() == 0 {
        return ;
    }
    let r0 = refs[0];
    let off = r0.offset as int;
    let w0 = mem.subrange(off, off + 6);
    lemma_patch_at_window(mem, r0, addr);
    let bs = s_patch_window(w0, r0.kind, addr)->Ok_0;
    let m1 = s_patch_at(mem, r0, addr)->Ok_0;
    assert(m1 == mem.subrange(0, off) + bs + mem.subrange(off + 6, mem.len() as int));
    assert(m1.len() == mem.len());
    assert forall|k: int| 0 <= k < mem.len() && !(off <= k < off + 6) implies m1[k] == mem[k] by {
        if k < off {
            assert(m1[k] == mem.subrange(0, off)[k]);
        } else {
            assert(m1[k] == mem.subrange(off + 6, mem.len() as int)[k - off - 6]);
        }
    }
    assert forall|k: int| off <= k < off + 6 implies m1[k] == bs[k - off] by {}
    let rest = refs.drop_first();
    assert forall|i: int| 0 <= i < rest.len() implies (#[trigger] rest[i]) == refs[i + 1] by {}
    assert forall|i: int|
        0 <= i < rest.len() implies m1.subrange(
        (#[trigger] rest[i]).offset as int,
        rest[i].offset + 6,
    ) =~= mem.subrange(rest[i].offset as int, rest[i].offset + 6) by {
        assert(refs[i + 1].offset + 6 <= refs[0].offset || refs[0].offset + 6 <= refs[i
            + 1].offset);
    }
    lemma_patch_list_pointwise(m1, rest, addr);
    assert(s_patch_list(mem, refs, addr) == s_patch_list(m1, rest, addr));
    let fin = s_patch_list(mem, refs, addr).0;
    // The first window: no later reference touches it, so the patch stays.
    assert forall|k: int| off <= k < off + 6 implies !s_in_window(rest, k) by {
        if s_in_window(rest, k) {
            let i = choose|i: int|
                0 <= i < rest.len() && (#[trigger] rest[i]).offset <= k < rest[i].offset + 6;
            assert(refs[i + 1].offset + 6 <= refs[0].offset || refs[0].offset + 6 <= refs[i
                + 1].offset);
        }
    }
    assert(fin.subrange(off, off + 6) =~= bs);
    // Later windows: their original bytes were untouched by the first
    // patch, so the recursive result applies to the same window bytes.
    assert forall|i: int|
        0 <= i < refs.len() implies fin.subrange(
        (#[trigger] refs[i]).offset as int,
        refs[i].offset + 6,
    ) == s_patch_window(
        mem.subrange(refs[i].offset as int, refs[i].offset + 6),
        refs[i].kind,
        addr,
    )->Ok_0 by {
        if i > 0 {
            assert(rest[i - 1] == refs[i]);
            assert(m1.subrange(rest[i - 1].offset as int, rest[i - 1].offset + 6) =~= mem.subrange(
                refs[i].offset as int,
                refs[i].offset + 6,
            ));
        }
    }
    // Bytes outside every window pass through both stages untouched.
    assert forall|k: int|
        0 <= k < mem.len() && !s_in_window(refs, k) implies #[trigger] fin[k] == mem[k] by {
        assert(!(refs[0].offset <= k < refs[0].offset + 6));
        if s_in_window(rest, k) {
            let i = choose|i: int|
                0 <= i < rest.len() && (#[trigger] rest[i]).offset <= k < rest[i].offset + 6;
            assert(refs[i + 1].offset <= k < refs[i + 1].offset + 6);
            assert(s_in_window(refs, k));
        }
        assert(fin[k] == m1[k]);
    }
}

/// A window holding an I-format instruction always patches, and the
/// patched window decodes to the same instruction with its immediate
/// replaced by the chosen half of the resolved address — so after
/// resolution every referencing instruction carries the correct half,
/// whatever order the references were recorded in.
pub proof fn lemma_patch_window_imm(w: Seq<u8>, kind: SymRefKind, addr: u32)
    requires
        w.len() == 6,
        crate::decode::s_decode(w) is Ok,
        crate::ais::s_is_i_type(crate::decode::s_decode(w)->Ok_0.opcode),
    ensures
        s_patch_window(w, kind, addr) matches Ok(w2) && crate::decode::s_decode(w2) == Ok::<
            Instruction,
            AisError,
        >(Instruction { imm: Some(s_ref_imm(kind, addr)), ..crate::decode::s_decode(w)->Ok_0 }),
{
    crate::decode::lemma_i_type_imm_rewrite(w, s_ref_imm(kind, addr));
}

/// The effect of an AND-immediate-low instruction on a register value:
/// the low half is masked by the immediate, the high half is kept.
pub open spec fn s_and_imm_low(x: u32, imm: u16) -> u32 {
    (x & 0xFFFF0000) | (x & (imm as u32))
}

/// The effect of an AND-immediate-high instruction on a register value:
/// the high half is masked by the immediate, the low half is kept.
pub open spec fn s_and_imm_high(x: u32, imm: u16) -> u32 {
    (x & 0x0000FFFF) | (x & ((imm as u32) << 16u32))
}

/// The address the scratch register holds at the indirect jump of the
/// branchless conditional sequence: the true-address mask is all ones
/// exactly when the condition's low bit is set (the value `0 - c` in
/// 32-bit arithmetic for `c` in {0, 1}), the false-address mask is its
/// complement (`c - 1`), each is ANDed against its target half by half,
/// and the two masked addresses are ORed together.
pub open spec fn s_cond_select(cond: u32, tval: u32, fval: u32) -> u32 {
    let c = cond & 1;
    let tmask: u32 = if c == 1 {
        0xFFFFFFFFu32
    } else {
        0u32
    };
    let fmask: u32 = if c == 1 {
        0u32
    } else {
        0xFFFFFFFFu32
    };
    s_and_imm_high(s_and_imm_low(tmask, s_imm_low(tval)), s_imm_high(tval)) | s_and_imm_high(
        s_and_imm_low(fmask, s_imm_low(fval)),
        s_imm_high(fval),
    )
}

/// Branchless selection is exact: the masked-and-merged address equals the
/// true target when the condition's low bit is 1 — whatever the rest of
/// the condition holds — and the false target when it is 0, even though
/// each mask is applied to the address 16 bits at a time.
pub proof fn lemma_cond_select(cond: u32, tval: u32, fval: u32)
    ensures
        s_cond_select(cond, tval, fval) == if cond & 1 == 1 {
            tval
        } else {
            fval
        },
{
    if cond & 1 == 1 {
        assert(s_cond_select(cond, tval, fval) == tval) by (bit_vector)
            requires
                cond & 1 == 1,
        ;
    } else {
        assert(s_cond_select(cond, tval, fval) == fval) by (bit_vector)
            requires
                cond & 1 != 1,
        ;
    }
}

/// Two single-reference extensions of the same symbol compose into one
/// extension by both references in order.
pub proof fn lemma_sym_extend_twice(
    pre: Seq<Symbol>,
    mid: Seq<Symbol>,
    post: Seq<Symbol>,
    idx: int,
    a: SymRef,
    b: SymRef,
)
    requires
        0 <= idx < pre.len(),
        s_sym_extended(pre, mid, idx, seq![a]),
        s_sym_extended(mid, post, idx, seq![b]),
    ensures
        s_sym_extended(pre, post, idx, seq![a, b]),
{
    match pre[idx] {
        Symbol::Resolved(_) => {
        },
        Symbol::Unresolved(rs0) => {
            let rs1 = mid[idx]->Unresolved_0;
            let rs2 = post[idx]->Unresolved_0;
            assert(rs2@ =~= rs0@ + seq![a, b]);
        },
    }
}

/// Nothing observable about the assembler changed.
pub open spec fn s_unchanged(pre: DynAsm, post: DynAsm) -> bool {
    &&& post.base == pre.base
    &&& post.memory@ == pre.memory@
    &&& post.symbols@ == pre.symbols@
}

impl DynAsm {
    /// A fresh assembler for one session at the given base load address.
    pub fn new(base: u32) -> (r: DynAsm)
        ensures
            r.base == base,
            r.memory@ == Seq::<u8>::empty(),
            r.symbols@ == Seq::<Symbol>::empty(),
    {
        DynAsm { base, memory: Vec::new(), symbols: Vec::new() }
    }

    /// The current write position, as an offset into the buffer.
    fn offset(&self) -> (r: u32)
        requires
            self.memory@.len() <= u32::MAX,
        ensures
            r == self.memory@.len(),
    {
        self.memory.len() as u32
    }

    /// The absolute address of the current write position.
    fn addr(&self) -> (r: u32)
        requires
            self.base + self.memory@.len() <= u32::MAX,
        ensures
            r == self.base + self.memory@.len(),
    {
        self.offset() + self.base
    }

    /// Applies one recorded fixup against the current buffer.
    fn sym_ref_resolve(&mut self, sym_ref: SymRef, addr: u32) -> (r: Result<(), DynAsmError>)
        ensures
            final(self).base == old(self).base,
            final(self).symbols@ == old(self).symbols@,
            match r {
                Ok(_) => s_patch_at(old(self).memory@, sym_ref, addr) == Ok::<Seq<u8>, DynAsmError>(
                    final(self).memory@,
                ),
                Err(e) => s_patch_at(old(self).memory@, sym_ref, addr) == Err::<
                    Seq<u8>,
                    DynAsmError,
                >(e) && final(self).memory@ == old(self).memory@,
            },
    {
        let start = sym_ref.offset as usize;
        let end = self.memory.len();
        if start > end {
            return Err(DynAsmError::AisError(AisError::DecodeSize));
        }
        // Decode
        let bytes = vstd::slice::slice_subrange(self.memory.as_slice(), start, end);
        let (instr0, len) = match crate::decode::decode(bytes) {
            Err(e) => {
                return Err(DynAsmError::AisError(e));
            },
            Ok(p) => p,
        };
        // Fixup
        let mut instr = instr0;
        match sym_ref.kind {
            SymRefKind::LowImm => {
                instr.imm = Some(imm_low(addr));
            },
            SymRefKind::HighImm => {
                instr.imm = Some(imm_high(addr));
            },
        }
        // Encode
        let new_bytes = match crate::encode::encode(&instr) {
            Err(e) => {
                return Err(DynAsmError::AisError(e));
            },
            Ok(v) => v,
        };
        if new_bytes.len() != len {
            return Err(DynAsmError::ResolveUnstable);
        }
        let ghost pre_mem = self.memory@;
        proof {
            assert(pre_mem.len() <= usize::MAX);
        }
        let mut k: usize = 0;
        while k < 6
            invariant
                k <= 6,
                start + 6 <= pre_mem.len(),
                pre_mem.len() <= usize::MAX,
                new_bytes@.len() == 6,
                self.base == old(self).base,
                self.symbols@ == old(self).symbols@,
                self.memory@.len() == pre_mem.len(),
                forall|j: int| 0 <= j < k ==> self.memory@[start + j] == new_bytes@[j],
                forall|j: int|
                    0 <= j < pre_mem.len() && !(start <= j < start + k) ==> self.memory@[j]
                        == pre_mem[j],
            decreases 6 - k,
        {
            let b = *vstd::std_specs::vec::vec_index(&new_bytes, k);
            self.memory[start + k] = b;
            k += 1;
        }
        proof {
            assert(self.memory@ =~= pre_mem.subrange(0, start as int) + new_bytes@ + pre_mem.subrange(
                start + 6,
                pre_mem.len() as int,
            ));
        }
        Ok(())
    }

    /// Resolves a symbol to an address and applies every pending fixup in
    /// the order it was recorded, stopping at the first failure.  Fails
    /// without any effect when the handle is unknown or the symbol was
    /// already resolved.
    fn sym_resolve(&mut self, sym: Sym, addr: u32) -> (r: Result<(), DynAsmError>)
        ensures
            final(self).base == old(self).base,
            !s_sym_ok(*old(self), sym) ==> r == Err::<(), DynAsmError>(DynAsmError::InvalidSym)
                && s_unchanged(*old(self), *final(self)),
            s_sym_ok(*old(self), sym) ==> match old(self).symbols@[sym.0 as int] {
                Symbol::Resolved(_) => r == Err::<(), DynAsmError>(DynAsmError::SymbolRedefined)
                    && s_unchanged(*old(self), *final(self)),
                Symbol::Unresolved(refs) => {
                    &&& final(self).symbols@ == old(self).symbols@.update(
                        sym.0 as int,
                        Symbol::Resolved(addr),
                    )
                    &&& final(self).memory@ == s_patch_list(old(self).memory@, refs@, addr).0
                    &&& r == match s_patch_list(old(self).memory@, refs@, addr).1 {
                        None => Ok::<(), DynAsmError>(()),
                        Some(e) => Err::<(), DynAsmError>(e),
                    }
                },
            },
    {
        if sym.0 >= self.symbols.len() {
            return Err(DynAsmError::InvalidSym);
        }
        let idx = sym.0;
        let already = match &self.symbols[idx] {
            Symbol::Resolved(_) => true,
            Symbol::Unresolved(_) => false,
        };
        if already {
            return Err(DynAsmError::SymbolRedefined);
        }
        let mut entry = Symbol::Resolved(addr);
        core::mem::swap(&mut entry, &mut self.symbols[idx]);
        let refs = match entry {
            Symbol::Unresolved(rs) => rs,
            Symbol::Resolved(_) => {
                proof {
                    assert(false);
                }
                Vec::new()
            },
        };
        let ghost orig_mem = self.memory@;
        let ghost post_syms = self.symbols@;
        proof {
            assert(refs@.skip(0) =~= refs@);
        }
        let mut k: usize = 0;
        while k < refs.len()
            invariant
                k <= refs@.len(),
                self.symbols@ == post_syms,
                self.base == old(self).base,
                s_sym_ok(*old(self), sym),
                old(self).symbols@[sym.0 as int] matches Symbol::Unresolved(rs0) && rs0@ == refs@,
                post_syms == old(self).symbols@.update(sym.0 as int, Symbol::Resolved(addr)),
                s_patch_list(orig_mem, refs@, addr) == s_patch_list(
                    self.memory@,
                    refs@.skip(k as int),
                    addr,
                ),
                orig_mem == old(self).memory@,
            decreases refs@.len() - k,
        {
            let ghost mem_pre = self.memory@;
            let r = self.sym_ref_resolve(*vstd::std_specs::vec::vec_index(&refs, k), addr);
            proof {
                assert(refs@.skip(k as int)[0] == refs@[k as int]);
                assert(refs@.skip(k as int).drop_first() =~= refs@.skip(k as int + 1));
            }
            match r {
                Ok(_) => {},
                Err(e) => {
                    return Err(e);
                },
            }
            k += 1;
        }
        proof {
            assert(refs@.skip(refs@.len() as int) =~= Seq::<SymRef>::empty());
        }
        Ok(())
    }

    /// Allocates a fresh unresolved symbol and returns its handle; the
    /// buffer is untouched.
    pub fn new_sym(&mut self) -> (r: Sym)
        ensures
            final(self).base == old(self).base,
            final(self).memory@ == old(self).memory@,
            r.0 == old(self).symbols@.len(),
            final(self).symbols@.len() == old(self).symbols@.len() + 1,
            forall|j: int|
                0 <= j < old(self).symbols@.len() ==> final(self).symbols@[j] == old(self).symbols@[j],
            final(self).symbols@[r.0 as int] matches Symbol::Unresolved(rs) && rs@ == Seq::<
                SymRef,
            >::empty(),
    {
        let entry = Symbol::Unresolved(Vec::new());
        self.symbols.push(entry);
        Sym(self.symbols.len() - 1)
    }

    /// Allocates a symbol already resolved to the current write position.
    pub fn new_sym_here(&mut self) -> (r: Sym)
        requires
            old(self).base + old(self).memory@.len() <= u32::MAX,
        ensures
            final(self).base == old(self).base,
            final(self).memory@ == old(self).memory@,
            r.0 == old(self).symbols@.len(),
            final(self).symbols@.len() == old(self).symbols@.len() + 1,
            forall|j: int|
                0 <= j < old(self).symbols@.len() ==> final(self).symbols@[j] == old(self).symbols@[j],
            final(self).symbols@[r.0 as int] == Symbol::Resolved(
                (old(self).base + old(self).memory@.len()) as u32,
            ),
    {
        let sym = self.new_sym();
        let here = self.addr();
        let r = self.sym_resolve(sym, here);
        proof {
            assert(r is Ok);
            assert(final(self).symbols@[sym.0 as int] == Symbol::Resolved(here));
        }
        sym
    }

    /// Looks a symbol up: its resolved address, or nothing while it is
    /// still unresolved.
    pub fn sym_addr(&mut self, sym: Sym) -> (r: Result<Option<u32>, DynAsmError>)
        ensures
            s_unchanged(*old(self), *final(self)),
            r == if !s_sym_ok(*old(self), sym) {
                Err::<Option<u32>, DynAsmError>(DynAsmError::InvalidSym)
            } else {
                match old(self).symbols@[sym.0 as int] {
                    Symbol::Unresolved(_) => Ok::<Option<u32>, DynAsmError>(None),
                    Symbol::Resolved(a) => Ok::<Option<u32>, DynAsmError>(Some(a)),
                }
            },
    {
        if sym.0 >= self.symbols.len() {
            return Err(DynAsmError::InvalidSym);
        }
        match &self.symbols[sym.0] {
            Symbol::Unresolved(_) => Ok(None),
            Symbol::Resolved(a) => Ok(Some(*a)),
        }
    }

    /// Resolves the symbol to the current write position and patches every
    /// recorded reference; fails if it was already resolved.
    pub fn set_sym_here(&mut self, sym: Sym) -> (r: Result<(), DynAsmError>)
        requires
            old(self).base + old(self).memory@.len() <= u32::MAX,
        ensures
            final(self).base == old(self).base,
            !s_sym_ok(*old(self), sym) ==> r == Err::<(), DynAsmError>(DynAsmError::InvalidSym)
                && s_unchanged(*old(self), *final(self)),
            s_sym_ok(*old(self), sym) ==> {
                let here = (old(self).base + old(self).memory@.len()) as u32;
                match old(self).symbols@[sym.0 as int] {
                    Symbol::Resolved(_) => r == Err::<(), DynAsmError>(DynAsmError::SymbolRedefined)
                        && s_unchanged(*old(self), *final(self)),
                    Symbol::Unresolved(refs) => {
                        &&& final(self).symbols@ == old(self).symbols@.update(
                            sym.0 as int,
                            Symbol::Resolved(here),
                        )
                        &&& final(self).memory@ == s_patch_list(old(self).memory@, refs@, here).0
                        &&& r == match s_patch_list(old(self).memory@, refs@, here).1 {
                            None => Ok::<(), DynAsmError>(()),
                            Some(e) => Err::<(), DynAsmError>(e),
                        }
                    },
                }
            },
    {
        let here = self.addr();
        self.sym_resolve(sym, here)
    }

    /// Records one reference to the symbol at the current write position,
    /// returning the address a fixup will later overwrite: zero while the
    /// symbol is unresolved, its address once resolved.
    fn sym_ref(&mut self, sym: Sym, kind: SymRefKind) -> (r: Result<u32, DynAsmError>)
        requires
            old(self).memory@.len() <= u32::MAX,
        ensures
            final(self).base == old(self).base,
            final(self).memory@ == old(self).memory@,
            match r {
                Ok(v) => s_sym_ok(*old(self), sym) && v == s_sym_ref_val(*old(self), sym)
                    && s_sym_extended(
                    old(self).symbols@,
                    final(self).symbols@,
                    sym.0 as int,
                    seq![SymRef { kind, offset: old(self).memory@.len() as u32 }],
                ),
                Err(e) => e == DynAsmError::InvalidSym && !s_sym_ok(*old(self), sym)
                    && s_unchanged(*old(self), *final(self)),
            },
    {
        if sym.0 >= self.symbols.len() {
            return Err(DynAsmError::InvalidSym);
        }
        let off = self.offset();
        let idx = sym.0;
        let mut entry = Symbol::Resolved(0);
        core::mem::swap(&mut entry, &mut self.symbols[idx]);
        match entry {
            Symbol::Unresolved(mut rs) => {
                let ghost rs0 = rs@;
                rs.push(SymRef { kind, offset: off });
                self.symbols[idx] = Symbol::Unresolved(rs);
                proof {
                    assert(forall|j: int|
                        0 <= j < old(self).symbols@.len() && j != idx ==> self.symbols@[j] == old(self).symbols@[j]);
                    assert(rs0.push(SymRef { kind, offset: off }) =~= rs0 + seq![
                        SymRef { kind, offset: old(self).memory@.len() as u32 },
                    ]);
                }
                Ok(0)
            },
            Symbol::Resolved(a) => {
                self.symbols[idx] = Symbol::Resolved(a);
                proof {
                    assert(self.symbols@ =~= old(self).symbols@);
                }
                Ok(a)
            },
        }
    }

    /// Records a high-half reference and returns the half to embed now.
    fn sym_ref_imm_high(&mut self, sym: Sym) -> (r: Result<u16, DynAsmError>)
        requires
            old(self).memory@.len() <= u32::MAX,
        ensures
            final(self).base == old(self).base,
            final(self).memory@ == old(self).memory@,
            match r {
                Ok(v) => s_sym_ok(*old(self), sym) && v == s_imm_high(
                    s_sym_ref_val(*old(self), sym),
                ) && s_sym_extended(
                    old(self).symbols@,
                    final(self).symbols@,
                    sym.0 as int,
                    seq![
                        SymRef {
                            kind: SymRefKind::HighImm,
                            offset: old(self).memory@.len() as u32,
                        },
                    ],
                ),
                Err(e) => e == DynAsmError::InvalidSym && !s_sym_ok(*old(self), sym)
                    && s_unchanged(*old(self), *final(self)),
            },
    {
        match self.sym_ref(sym, SymRefKind::HighImm) {
            Ok(a) => Ok(imm_high(a)),
            Err(e) => Err(e),
        }
    }

    /// Records a low-half reference and returns the half to embed now.
    fn sym_ref_imm_low(&mut self, sym: Sym) -> (r: Result<u16, DynAsmError>)
        requires
            old(self).memory@.len() <= u32::MAX,
        ensures
            final(self).base == old(self).base,
            final(self).memory@ == old(self).memory@,
            match r {
                Ok(v) => s_sym_ok(*old(self), sym) && v == s_imm_low(
                    s_sym_ref_val(*old(self), sym),
                ) && s_sym_extended(
                    old(self).symbols@,
                    final(self).symbols@,
                    sym.0 as int,
                    seq![
                        SymRef { kind: SymRefKind::LowImm, offset: old(self).memory@.len() as u32 },
                    ],
                ),
                Err(e) => e == DynAsmError::InvalidSym && !s_sym_ok(*old(self), sym)
                    && s_unchanged(*old(self), *final(self)),
            },
    {
        match self.sym_ref(sym, SymRefKind::LowImm) {
            Ok(a) => Ok(imm_low(a)),
            Err(e) => Err(e),
        }
    }

    /// Encodes an instruction and appends its bytes; on an encoding error
    /// the buffer is left exactly as it was.
    pub fn gen(&mut self, instruction: Instruction) -> (r: Result<(), DynAsmError>)
        ensures
            final(self).base == old(self).base,
            final(self).symbols@ == old(self).symbols@,
            match crate::encode::s_encode_bytes(instruction) {
                Ok(bs) => r == Ok::<(), DynAsmError>(()) && final(self).memory@ == old(self).memory@ + bs,
                Err(e) => r == Err::<(), DynAsmError>(DynAsmError::AisError(e)) && final(self).memory@ == old(self).memory@,
            },
    {
        let mut instr_bytes = match crate::encode::encode(&instruction) {
            Err(e) => {
                return Err(DynAsmError::AisError(e));
            },
            Ok(v) => v,
        };
        self.memory.append(&mut instr_bytes);
        Ok(())
    }

    /// Materializes a 32-bit constant into a register with one or two
    /// immediate-OR instructions; always succeeds.
    pub fn gen_load(&mut self, dst: Register, imm: u32) -> (r: Result<(), DynAsmError>)
        ensures
            r == Ok::<(), DynAsmError>(()),
            final(self).base == old(self).base,
            final(self).symbols@ == old(self).symbols@,
            final(self).memory@ == old(self).memory@ + s_load_bytes(dst, imm),
    {
        let low_zero = imm & 0xFFFF == 0;
        let high_zero = imm & 0xFFFF0000 == 0;
        proof {
            ops::lemma_i_type_encodes(Opcode::ORI, dst, Register(0), imm as u16);
            ops::lemma_i_type_encodes(Opcode::ORIU, dst, dst, (imm >> 16u32) as u16);
            ops::lemma_i_type_encodes(Opcode::ORIU, dst, Register(0), (imm >> 16u32) as u16);
        }
        if !high_zero && !low_zero {
            match self.gen(ops::xori(dst, Register::R0(), imm as u16)) {
                Ok(_) => {},
                Err(_) => {
                    proof {
                        assert(false);
                    }
                },
            }
            match self.gen(ops::xoriu(dst, dst, (imm >> 16u32) as u16)) {
                Ok(_) => {},
                Err(_) => {
                    proof {
                        assert(false);
                    }
                },
            }
            proof {
                assert(self.memory@ =~= old(self).memory@ + s_load_bytes(dst, imm));
            }
        } else if !high_zero {
            match self.gen(ops::xoriu(dst, Register::R0(), (imm >> 16u32) as u16)) {
                Ok(_) => {},
                Err(_) => {
                    proof {
                        assert(false);
                    }
                },
            }
        } else {
            match self.gen(ops::xori(dst, Register::R0(), imm as u16)) {
                Ok(_) => {},
                Err(_) => {
                    proof {
                        assert(false);
                    }
                },
            }
        }
        Ok(())
    }

    /// Loads a symbol's absolute address into a register, recording a
    /// fixup for each half while the symbol is unresolved.
    pub fn gen_load_symbol(&mut self, dst: Register, sym: Sym) -> (r: Result<(), DynAsmError>)
        requires
            old(self).memory@.len() + 6 <= u32::MAX,
        ensures
            final(self).base == old(self).base,
            !s_sym_ok(*old(self), sym) ==> r == Err::<(), DynAsmError>(DynAsmError::InvalidSym)
                && s_unchanged(*old(self), *final(self)),
            s_sym_ok(*old(self), sym) ==> r == Ok::<(), DynAsmError>(()) && final(self).memory@
                == old(self).memory@ + s_load_symbol_bytes(dst, s_sym_ref_val(*old(self), sym))
                && s_sym_extended(
                old(self).symbols@,
                final(self).symbols@,
                sym.0 as int,
                s_ref_pair(old(self).memory@.len() as u32),
            ),
    {
        let low = match self.sym_ref_imm_low(sym) {
            Err(e) => {
                return Err(e);
            },
            Ok(v) => v,
        };
        proof {
            ops::lemma_i_type_encodes(Opcode::ORI, dst, Register(0), low);
        }
        match self.gen(ops::xori(dst, Register::R0(), low)) {
            Ok(_) => {},
            Err(_) => {
                proof {
                    assert(false);
                }
            },
        }
        let high = match self.sym_ref_imm_high(sym) {
            Err(e) => {
                proof {
                    assert(false);
                }
                return Err(e);
            },
            Ok(v) => v,
        };
        proof {
            ops::lemma_i_type_encodes(Opcode::ORIU, dst, dst, high);
        }
        match self.gen(ops::xoriu(dst, dst, high)) {
            Ok(_) => {},
            Err(_) => {
                proof {
                    assert(false);
                }
            },
        }
        proof {
            let val = s_sym_ref_val(*old(self), sym);
            assert(self.memory@ =~= old(self).memory@ + s_load_symbol_bytes(dst, val));
            let idx = sym.0 as int;
            if old(self).symbols@[idx] is Unresolved {
                assert(self.symbols@[idx] matches Symbol::Unresolved(rs2)
                    && old(self).symbols@[idx] matches Symbol::Unresolved(rs0) && rs2@ =~= rs0@
                    + s_ref_pair(old(self).memory@.len() as u32));
            }
        }
        Ok(())
    }

    /// Emits an unconditional jump to a symbol: its address is loaded into
    /// the scratch register and jumped through indirectly.
    pub fn gen_jump(&mut self, sym: Sym) -> (r: Result<(), DynAsmError>)
        requires
            old(self).memory@.len() + 6 <= u32::MAX,
        ensures
            final(self).base == old(self).base,
            !s_sym_ok(*old(self), sym) ==> r == Err::<(), DynAsmError>(DynAsmError::InvalidSym)
                && s_unchanged(*old(self), *final(self)),
            s_sym_ok(*old(self), sym) ==> r == Ok::<(), DynAsmError>(()) && final(self).memory@
                == old(self).memory@ + s_load_symbol_bytes(
                Register(4),
                s_sym_ref_val(*old(self), sym),
            ) + s_instr_bytes(ops::s_j(Register(4))) && s_sym_extended(
                old(self).symbols@,
                final(self).symbols@,
                sym.0 as int,
                s_ref_pair(old(self).memory@.len() as u32),
            ),
    {
        match self.gen_load_symbol(Register::R4(), sym) {
            Err(e) => {
                return Err(e);
            },
            Ok(_) => {},
        }
        proof {
            ops::lemma_j_encodes(Register(4));
        }
        match self.gen(ops::j(Register::R4())) {
            Ok(_) => {},
            Err(_) => {
                proof {
                    assert(false);
                }
            },
        }
        Ok(())
    }

    /// Emits the branchless conditional jump: the condition is reduced to
    /// its low bit, turned into an all-ones or all-zero mask and its
    /// complement, each mask is ANDed half by half against one target
    /// address, the two masked addresses are ORed together — selecting
    /// exactly one — and the result is jumped through.  The format exposes
    /// no conditional branch, so selection is arithmetic on addresses.
    pub fn gen_cond_jump(&mut self, cond: Register, t: Sym, f: Sym) -> (r: Result<(), DynAsmError>)
        requires
            old(self).memory@.len() + 36 <= u32::MAX,
        ensures
            final(self).base == old(self).base,
            !s_sym_ok(*old(self), t) ==> r == Err::<(), DynAsmError>(DynAsmError::InvalidSym)
                && final(self).symbols@ == old(self).symbols@ && final(self).memory@ == old(
                self,
            ).memory@ + s_instr_bytes(
                ops::s_xaluir(SubOpXalu::AND, DpCntl::Word, Register(5), cond, Const::Number(1)),
            ) + s_instr_bytes(
                ops::s_xalur(SubOpXalu::SUB, DpCntl::Word, Register(4), Register(0), Register(5)),
            ),
            s_sym_ok(*old(self), t) && !s_sym_ok(*old(self), f) ==> r == Err::<(), DynAsmError>(
                DynAsmError::InvalidSym,
            ) && final(self).memory@ == old(self).memory@ + s_instr_bytes(
                ops::s_xaluir(SubOpXalu::AND, DpCntl::Word, Register(5), cond, Const::Number(1)),
            ) + s_instr_bytes(
                ops::s_xalur(SubOpXalu::SUB, DpCntl::Word, Register(4), Register(0), Register(5)),
            ) + s_instr_bytes(
                ops::s_i_type(
                    Opcode::ANDIL,
                    Register(4),
                    Register(4),
                    s_imm_low(s_sym_ref_val(*old(self), t)),
                ),
            ) + s_instr_bytes(
                ops::s_i_type(
                    Opcode::ANDIU,
                    Register(4),
                    Register(4),
                    s_imm_high(s_sym_ref_val(*old(self), t)),
                ),
            ) + s_instr_bytes(
                ops::s_xaluir(
                    SubOpXalu::SUB,
                    DpCntl::Word,
                    Register(5),
                    Register(5),
                    Const::Number(1),
                ),
            ) && s_sym_extended(
                old(self).symbols@,
                final(self).symbols@,
                t.0 as int,
                s_ref_pair((old(self).memory@.len() + 12) as u32),
            ),
            s_sym_ok(*old(self), t) && s_sym_ok(*old(self), f) ==> r == Ok::<(), DynAsmError>(())
                && final(self).memory@ == old(self).memory@ + s_cond_jump_bytes(
                cond,
                s_sym_ref_val(*old(self), t),
                s_sym_ref_val(*old(self), f),
            ) && (exists|mid: Seq<Symbol>|
                #[trigger] s_sym_extended(
                    old(self).symbols@,
                    mid,
                    t.0 as int,
                    s_ref_pair((old(self).memory@.len() + 12) as u32),
                ) && s_sym_extended(
                    mid,
                    final(self).symbols@,
                    f.0 as int,
                    s_ref_pair((old(self).memory@.len() + 30) as u32),
                )),
    {
        let r0 = Register::R0();
        let r4 = Register::R4();
        let r5 = Register::R5();
        proof {
            ops::lemma_xaluir_encodes(SubOpXalu::AND, DpCntl::Word, r5, cond, Const::Number(1));
            ops::lemma_xalur_encodes(SubOpXalu::SUB, DpCntl::Word, r4, r0, r5);
            ops::lemma_xaluir_encodes(SubOpXalu::SUB, DpCntl::Word, r5, r5, Const::Number(1));
            ops::lemma_xalur_encodes(SubOpXalu::OR, DpCntl::Word, r4, r4, r5);
            ops::lemma_j_encodes(r4);
        }
        // AND the condition with one, so that it is exactly 0 or 1.
        match self.gen(ops::andi(r5, cond, Const::Number(1))) {
            Ok(_) => {},
            Err(_) => {
                proof {
                    assert(false);
                }
            },
        }
        // Map 0 to all zeroes and 1 to all ones.
        match self.gen(ops::sub(r4, r0, r5)) {
            Ok(_) => {},
            Err(_) => {
                proof {
                    assert(false);
                }
            },
        }
        // AND in the true-branch address, half by half.
        let low = match self.sym_ref_imm_low(t) {
            Err(e) => {
                return Err(e);
            },
            Ok(v) => v,
        };
        let ghost syms_tl = self.symbols@;
        proof {
            ops::lemma_i_type_encodes(Opcode::ANDIL, r4, r4, low);
        }
        match self.gen(ops::xandil(r4, r4, low)) {
            Ok(_) => {},
            Err(_) => {
                proof {
                    assert(false);
                }
            },
        }
        let high = match self.sym_ref_imm_high(t) {
            Err(e) => {
                proof {
                    assert(false);
                }
                return Err(e);
            },
            Ok(v) => v,
        };
        proof {
            ops::lemma_i_type_encodes(Opcode::ANDIU, r4, r4, high);
        }
        match self.gen(ops::xandiu(r4, r4, high)) {
            Ok(_) => {},
            Err(_) => {
                proof {
                    assert(false);
                }
            },
        }
        let ghost mid_syms = self.symbols@;
        proof {
            let len0 = old(self).memory@.len();
            let ta = SymRef { kind: SymRefKind::LowImm, offset: (len0 + 12) as u32 };
            let tb = SymRef { kind: SymRefKind::HighImm, offset: (len0 + 18) as u32 };
            lemma_sym_extend_twice(old(self).symbols@, syms_tl, mid_syms, t.0 as int, ta, tb);
            assert(s_ref_pair((len0 + 12) as u32) =~= seq![ta, tb]);
            assert(s_sym_extended(
                old(self).symbols@,
                mid_syms,
                t.0 as int,
                s_ref_pair((len0 + 12) as u32),
            ));
        }
        // Map 0 to all ones and 1 to all zeroes.
        match self.gen(ops::subi(r5, r5, Const::Number(1))) {
            Ok(_) => {},
            Err(_) => {
                proof {
                    assert(false);
                }
            },
        }
        // AND in the false-branch address, half by half.
        let flow = match self.sym_ref_imm_low(f) {
            Err(e) => {
                return Err(e);
            },
            Ok(v) => v,
        };
        let ghost syms_fl = self.symbols@;
        proof {
            ops::lemma_i_type_encodes(Opcode::ANDIL, r5, r5, flow);
        }
        match self.gen(ops::xandil(r5, r5, flow)) {
            Ok(_) => {},
            Err(_) => {
                proof {
                    assert(false);
                }
            },
        }
        let fhigh = match self.sym_ref_imm_high(f) {
            Err(e) => {
                proof {
                    assert(false);
                }
                return Err(e);
            },
            Ok(v) => v,
        };
        proof {
            ops::lemma_i_type_encodes(Opcode::ANDIU, r5, r5, fhigh);
        }
        match self.gen(ops::xandiu(r5, r5, fhigh)) {
            Ok(_) => {},
            Err(_) => {
                proof {
                    assert(false);
                }
            },
        }
        proof {
            let len0 = old(self).memory@.len();
            let fa = SymRef { kind: SymRefKind::LowImm, offset: (len0 + 30) as u32 };
            let fb = SymRef { kind: SymRefKind::HighImm, offset: (len0 + 36) as u32 };
            lemma_sym_extend_twice(mid_syms, syms_fl, self.symbols@, f.0 as int, fa, fb);
            assert(s_ref_pair((len0 + 30) as u32) =~= seq![fa, fb]);
            assert(s_sym_extended(
                old(self).symbols@,
                mid_syms,
                t.0 as int,
                s_ref_pair((len0 + 12) as u32),
            ) && s_sym_extended(
                mid_syms,
                self.symbols@,
                f.0 as int,
                s_ref_pair((len0 + 30) as u32),
            ));
        }
        // Merge the two jump locations: exactly one mask is all ones.
        match self.gen(ops::or(r4, r4, r5)) {
            Ok(_) => {},
            Err(_) => {
                proof {
                    assert(false);
                }
            },
        }
        // Jump through the selected address.
        match self.gen(ops::j(r4)) {
            Ok(_) => {},
            Err(_) => {
                proof {
                    assert(false);
                }
            },
        }
        proof {
            assert(self.memory@ =~= old(self).memory@ + s_cond_jump_bytes(
                cond,
                s_sym_ref_val(*old(self), t),
                s_sym_ref_val(*old(self), f),
            ));
        }
        Ok(())
    }

    /// Emits a call: the target address goes into the scratch register, the
    /// current instruction pointer is pushed on the data stack, and the
    /// jump is indirect.
    pub fn gen_call(&mut self, sym: Sym) -> (r: Result<(), DynAsmError>)
        requires
            old(self).memory@.len() + 6 <= u32::MAX,
        ensures
            final(self).base == old(self).base,
            !s_sym_ok(*old(self), sym) ==> r == Err::<(), DynAsmError>(DynAsmError::InvalidSym)
                && s_unchanged(*old(self), *final(self)),
            s_sym_ok(*old(self), sym) ==> r == Ok::<(), DynAsmError>(()) && final(self).memory@
                == old(self).memory@ + s_load_symbol_bytes(
                Register(4),
                s_sym_ref_val(*old(self), sym),
            ) + s_instr_bytes(ops::s_puship(Size::Bits32)) + s_instr_bytes(ops::s_j(Register(4)))
                && s_sym_extended(
                old(self).symbols@,
                final(self).symbols@,
                sym.0 as int,
                s_ref_pair(old(self).memory@.len() as u32),
            ),
    {
        let r4 = Register::R4();
        match self.gen_load_symbol(r4, sym) {
            Err(e) => {
                return Err(e);
            },
            Ok(_) => {},
        }
        proof {
            ops::lemma_puship_encodes(Size::Bits32);
            ops::lemma_j_encodes(r4);
        }
        match self.gen(ops::puship(Size::Bits32)) {
            Ok(_) => {},
            Err(_) => {
                proof {
                    assert(false);
                }
            },
        }
        match self.gen(ops::j(r4)) {
            Ok(_) => {},
            Err(_) => {
                proof {
                    assert(false);
                }
            },
        }
        Ok(())
    }

    /// Emits a return: the saved address is popped, adjusted past the
    /// call sequence's tail by one instruction length, and jumped through.
    pub fn gen_ret(&mut self) -> (r: Result<(), DynAsmError>)
        ensures
            r == Ok::<(), DynAsmError>(()),
            final(self).base == old(self).base,
            final(self).symbols@ == old(self).symbols@,
            final(self).memory@ == old(self).memory@ + s_instr_bytes(
                ops::s_pop(Size::Bits32, Register(4), Register(20), Offset::Number(4)),
            ) + s_instr_bytes(
                ops::s_xaluir(
                    SubOpXalu::ADD,
                    DpCntl::Word,
                    Register(4),
                    Register(4),
                    Const::Number(6),
                ),
            ) + s_instr_bytes(ops::s_j(Register(4))),
    {
        let r4 = Register::R4();
        proof {
            ops::lemma_pop_encodes(Size::Bits32, r4, Register(20), Offset::Number(4));
            ops::lemma_xaluir_encodes(SubOpXalu::ADD, DpCntl::Word, r4, r4, Const::Number(6));
            ops::lemma_j_encodes(r4);
        }
        match self.gen(ops::popsp(Size::Bits32, r4)) {
            Ok(_) => {},
            Err(_) => {
                proof {
                    assert(false);
                }
            },
        }
        match self.gen(ops::addi(r4, r4, Const::Number(6))) {
            Ok(_) => {},
            Err(_) => {
                proof {
                    assert(false);
                }
            },
        }
        match self.gen(ops::j(r4)) {
            Ok(_) => {},
            Err(_) => {
                proof {
                    assert(false);
                }
            },
        }
        Ok(())
    }

    /// Appends the fixed x86-to-AIS transition stub.
    pub fn gen_header(&mut self)
        ensures
            final(self).base == old(self).base,
            final(self).symbols@ == old(self).symbols@,
            final(self).memory@ == old(self).memory@ + s_header_bytes(),
    {
        self.memory.push(0xE8);
        self.memory.push(0x00);
        self.memory.push(0x00);
        self.memory.push(0x00);
        self.memory.push(0x00);
        self.memory.push(0x58);
        self.memory.push(0x83);
        self.memory.push(0xC0);
        self.memory.push(0x06);
        self.memory.push(0x0F);
        self.memory.push(0x3F);
        proof {
            assert(self.memory@ =~= old(self).memory@ + s_header_bytes());
        }
    }

    /// Appends the fixed x86 return stub.
    pub fn gen_footer(&mut self)
        ensures
            final(self).base == old(self).base,
            final(self).symbols@ == old(self).symbols@,
            final(self).memory@ == old(self).memory@ + s_footer_bytes(),
    {
        self.memory.push(0xC3);
        proof {
            assert(self.memory@ =~= old(self).memory@ + s_footer_bytes());
        }
    }

    /// The finished (or in-progress) output buffer.
    pub fn memory(&self) -> (r: &Vec<u8>)
        ensures
            r@ == self.memory@,
    {
        &self.memory
    }
}

} // verus!
