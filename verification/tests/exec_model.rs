use ais::ais::Const;
use ais::ais::Function;
use ais::ais::Instruction;
use ais::ais::Opcode;
use ais::ais::Register;
use ais::ais::SubOpXalu;
use ais::dynasm::DynAsm;

// A reference interpreter for the handful of instruction forms the
// assembler's pseudo-operations emit, used to check the emitted control
// flow end to end.

struct Cpu {
    regs: [u32; 32],
    stack: Vec<u32>,
}

fn alu(op: SubOpXalu, a: u32, b: u32) -> u32 {
    match op {
        SubOpXalu::ADD => a.wrapping_add(b),
        SubOpXalu::SUB => a.wrapping_sub(b),
        SubOpXalu::AND => a & b,
        SubOpXalu::OR => a | b,
        SubOpXalu::XOR => a ^ b,
        SubOpXalu::SHL => a << (b & 31),
        SubOpXalu::SHR => a >> (b & 31),
        _ => unreachable!(),
    }
}

fn const_value(c: Const) -> u32 {
    match c {
        Const::Number(n) => n as i32 as u32,
        Const::Raw(x) => x as u32,
    }
}

impl Cpu {
    fn write(&mut self, r: Register, v: u32) {
        // Register 0 is hardwired to zero.
        if r.0 != 0 {
            self.regs[r.0 as usize] = v;
        }
    }

    fn read(&self, r: Register) -> u32 {
        self.regs[r.0 as usize]
    }
}

fn run(mem: &[u8], base: u32, stop: u32) -> Cpu {
    let mut cpu = Cpu {
        regs: [0; 32],
        stack: Vec::new(),
    };
    let mut pc = base;
    let mut steps = 0;
    while pc != stop {
        steps += 1;
        assert!(steps < 10_000, "interpreter did not reach the stop address");
        let off = (pc - base) as usize;
        let (i, n) = Instruction::decode(&mem[off..]).unwrap();
        assert_eq!(n, 6);
        let next = pc + 6;
        match i.opcode {
            Opcode::ORI => {
                let v = cpu.read(i.rs.unwrap()) | i.imm.unwrap() as u32;
                cpu.write(i.rt.unwrap(), v);
            }
            Opcode::ORIU => {
                let v = cpu.read(i.rs.unwrap()) | ((i.imm.unwrap() as u32) << 16);
                cpu.write(i.rt.unwrap(), v);
            }
            Opcode::ANDIL => {
                let x = cpu.read(i.rs.unwrap());
                let v = (x & 0xFFFF_0000) | (x & i.imm.unwrap() as u32);
                cpu.write(i.rt.unwrap(), v);
            }
            Opcode::ANDIU => {
                let x = cpu.read(i.rs.unwrap());
                let v = (x & 0x0000_FFFF) | (x & ((i.imm.unwrap() as u32) << 16));
                cpu.write(i.rt.unwrap(), v);
            }
            Opcode::XALUR => {
                let Some(Function::Xalu(op, _)) = i.function else {
                    unreachable!()
                };
                let v = alu(op, cpu.read(i.rs.unwrap()), cpu.read(i.rt.unwrap()));
                cpu.write(i.rd.unwrap(), v);
            }
            Opcode::XALUIR => {
                let Some(Function::Xalu(op, _)) = i.function else {
                    unreachable!()
                };
                let v = alu(op, cpu.read(i.rs.unwrap()), const_value(i.constant.unwrap()));
                cpu.write(i.rd.unwrap(), v);
            }
            Opcode::XJ => {
                pc = cpu.read(i.rt.unwrap());
                continue;
            }
            Opcode::XPUSH => {
                cpu.stack.push(cpu.read(i.rs.unwrap()));
            }
            Opcode::XPOP => {
                let v = cpu.stack.pop().unwrap();
                cpu.write(i.rs.unwrap(), v);
            }
            Opcode::XPUSHIP => {
                cpu.stack.push(next);
            }
            _ => unreachable!(),
        }
        pc = next;
    }
    cpu
}

fn cond_jump_program(cond_value: u32) -> u32 {
    let ecx = Register::ECX();
    let edx = Register::EDX();
    let base = 0x480000;
    let mut d = DynAsm::new(base);
    d.gen_load(ecx, cond_value).unwrap();
    let t = d.new_sym();
    let f = d.new_sym();
    let end = d.new_sym();
    d.gen_cond_jump(ecx, t, f).unwrap();
    d.set_sym_here(t).unwrap();
    d.gen_load(edx, 0x1111).unwrap();
    d.gen_jump(end).unwrap();
    d.set_sym_here(f).unwrap();
    d.gen_load(edx, 0x2222).unwrap();
    d.gen_jump(end).unwrap();
    d.set_sym_here(end).unwrap();
    let stop = d.sym_addr(end).unwrap().unwrap();
    let cpu = run(d.memory(), base, stop);
    cpu.regs[18]
}

#[test]
fn cond_jump_selects_false_branch_on_zero() {
    assert_eq!(cond_jump_program(0), 0x2222);
}

#[test]
fn cond_jump_selects_true_branch_on_one() {
    assert_eq!(cond_jump_program(1), 0x1111);
}

#[test]
fn cond_jump_masks_condition_to_low_bit() {
    // Any value with its low bit set takes the true branch; any with it
    // clear takes the false branch.
    assert_eq!(cond_jump_program(0xABC1), 0x1111);
    assert_eq!(cond_jump_program(42), 0x2222);
}

#[test]
fn call_return_convention_computes_42() {
    let eax = Register::EAX();
    let ecx = Register::ECX();
    let base = 0x480000;
    let mut d = DynAsm::new(base);
    let add_fn = d.new_sym();
    let inc_fn = d.new_sym();
    let end = d.new_sym();
    d.gen_load(eax, 0).unwrap();
    d.gen_load(ecx, 41).unwrap();
    d.gen_call(add_fn).unwrap();
    d.gen_call(inc_fn).unwrap();
    d.gen_jump(end).unwrap();
    // add: EAX += ECX, then return.
    d.set_sym_here(add_fn).unwrap();
    d.gen(ais::ops::add(eax, eax, ecx)).unwrap();
    d.gen_ret().unwrap();
    // inc: ECX = 1, call add, then return.
    d.set_sym_here(inc_fn).unwrap();
    d.gen_load(ecx, 1).unwrap();
    d.gen_call(add_fn).unwrap();
    d.gen_ret().unwrap();
    d.set_sym_here(end).unwrap();
    let stop = d.sym_addr(end).unwrap().unwrap();
    let cpu = run(d.memory(), base, stop);
    assert_eq!(cpu.regs[16], 42);
}

#[test]
fn jump_transfers_control_forward() {
    let edx = Register::EDX();
    let base = 0x1000;
    let mut d = DynAsm::new(base);
    let skip = d.new_sym();
    let end = d.new_sym();
    d.gen_jump(skip).unwrap();
    // Skipped: would load a marker value.
    d.gen_load(edx, 0xDEAD).unwrap();
    d.gen_jump(end).unwrap();
    d.set_sym_here(skip).unwrap();
    d.gen_load(edx, 0x600D).unwrap();
    d.gen_jump(end).unwrap();
    d.set_sym_here(end).unwrap();
    let stop = d.sym_addr(end).unwrap().unwrap();
    let cpu = run(d.memory(), base, stop);
    assert_eq!(cpu.regs[18], 0x600D);
}
