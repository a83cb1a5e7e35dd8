use vstd::prelude::*;

use crate::instructions::Instruction;
use crate::FONT4X5;
use vstd::wrapping::u8_specs;

verus! {

broadcast use vstd::array::group_array_axioms;

/// Width of the framebuffer in pixels.
pub const GRID_WIDTH: usize = 64;

/// Height of the framebuffer in pixels.
pub const GRID_HEIGHT: usize = 32;

/// Number of cells in the framebuffer.
pub const GRID_LEN: usize = 64 * 32;

/// Size of machine memory in bytes.
pub const MEM_SIZE: usize = 4096;

/// Offset at which a program image is loaded.
pub const PROGRAM_START: usize = 0x200;

/// A bounds fault: an instruction operand addressed memory or indexed the
/// register or key array outside its valid range. Fatal to the current
/// execute call; the machine state is left untouched except for the timer
/// tick that every execute call applies first.
#[derive(Debug, PartialEq, Eq, Structural, Clone, Copy)]
pub enum Fault {
    /// A register operand was 16 or more.
    RegisterOutOfRange,
    /// A register holding a key index held a value of 16 or more.
    KeyOutOfRange,
    /// A memory access fell outside the 4096 addressable bytes.
    AddressOutOfRange,
}

/// The mathematical view of the whole machine state.
#[verifier::ext_equal]
pub ghost struct CpuState {
    pub regs: Seq<u8>,
    pub address: u16,
    pub stack: Seq<usize>,
    pub memory: Seq<u8>,
    pub delay_timer: u8,
    pub sound_timer: u8,
    pub pc: usize,
    pub keys: Seq<u8>,
    pub grid: Seq<u8>,
}

impl CpuState {
    /// The fixed shape of the machine: 16 registers, 16 key flags, 4096
    /// bytes of memory, a 64x32 framebuffer.
    pub open spec fn wf(self) -> bool {
        &&& self.regs.len() == 16
        &&& self.keys.len() == 16
        &&& self.memory.len() == MEM_SIZE
        &&& self.grid.len() == GRID_LEN
    }
}

/// The CHIP-8 interpreter core: registers, memory, call stack, timers,
/// key state and framebuffer. Fetching, decoding and executing operate on
/// this state alone; presentation and input collection live with the caller.
pub struct CPU {
    pub regs: [u8; 16],
    pub address: u16,
    pub stack: Vec<usize>,
    pub memory: Vec<u8>,
    pub delay_timer: u8,
    pub sound_timer: u8,
    pub pc: usize,
    pub keys: [u8; 16],
    pub grid: Vec<u8>,
}

impl View for CPU {
    type V = CpuState;

    open spec fn view(&self) -> CpuState {
        CpuState {
            regs: self.regs@,
            address: self.address,
            stack: self.stack@,
            memory: self.memory@,
            delay_timer: self.delay_timer,
            sound_timer: self.sound_timer,
            pc: self.pc,
            keys: self.keys@,
            grid: self.grid@,
        }
    }
}

/// The state a newly constructed machine is in: font table at the bottom
/// of memory, the program image at `PROGRAM_START`, everything else zeroed,
/// and the program counter at the start of the program.
pub open spec fn initial_state(data: Seq<u8>) -> CpuState {
    CpuState {
        regs: Seq::new(16, |i: int| 0u8),
        address: 0,
        stack: Seq::empty(),
        memory: Seq::new(
            MEM_SIZE as nat,
            |i: int|
                if 0 <= i < 80 {
                    FONT4X5@[i]
                } else if PROGRAM_START <= i < PROGRAM_START + data.len() {
                    data[i - PROGRAM_START]
                } else {
                    0u8
                },
        ),
        delay_timer: 0,
        sound_timer: 0,
        pc: PROGRAM_START,
        keys: Seq::new(16, |i: int| 0u8),
        grid: Seq::new(GRID_LEN as nat, |i: int| 0u8),
    }
}

/// The timer tick applied at the start of every execute call: each of the
/// two countdown timers loses one, floored at zero.
pub open spec fn tick_timers(s: CpuState) -> CpuState {
    CpuState {
        delay_timer: if s.delay_timer > 0 {
            (s.delay_timer - 1) as u8
        } else {
            0u8
        },
        sound_timer: if s.sound_timer > 0 {
            (s.sound_timer - 1) as u8
        } else {
            0u8
        },
        ..s
    }
}

/// The normal advance of the program counter past one 2-byte instruction.
pub open spec fn inc2(s: CpuState) -> CpuState {
    CpuState { pc: (s.pc + 2) as usize, ..s }
}

/// The big-endian 16-bit word fetched at the program counter, or a bounds
/// fault when the counter does not point at two bytes of memory.
pub open spec fn spec_fetch(s: CpuState) -> Result<u16, Fault> {
    if s.pc + 1 < s.memory.len() {
        Ok((s.memory[s.pc as int] * 0x100 + s.memory[s.pc + 1]) as u16)
    } else {
        Err(Fault::AddressOutOfRange)
    }
}

/// Whether sprite row bit `b` (0 is the sprite's left edge, i.e. the most
/// significant bit of the row byte) is set.
pub open spec fn sprite_bit(row: u8, b: int) -> bool {
    (row >> ((7 - b) as u8)) & 1 != 0
}

/// One pixel of a sprite row applied to the framebuffer: set bits XOR the
/// cell and record in the flag whether the cell was lit before; pixels past
/// the right or bottom edge are clipped.
pub open spec fn draw_bit(grid: Seq<u8>, vf: u8, row: u8, sx: int, fy: int, b: int) -> (Seq<
    u8,
>, u8) {
    let fx = sx + b;
    if fx >= GRID_WIDTH || fy >= GRID_HEIGHT {
        (grid, vf)
    } else if sprite_bit(row, b) {
        let pos = fy * GRID_WIDTH + fx;
        (
            grid.update(pos, grid[pos] ^ 1),
            if grid[pos] == 1 {
                1u8
            } else {
                0u8
            },
        )
    } else {
        (grid, vf)
    }
}

/// The first `nbits` pixels of one sprite row, applied left to right.
pub open spec fn draw_row(grid: Seq<u8>, vf: u8, row: u8, sx: int, fy: int, nbits: int) -> (Seq<
    u8,
>, u8)
    decreases nbits,
{
    if nbits <= 0 {
        (grid, vf)
    } else {
        let prev = draw_row(grid, vf, row, sx, fy, nbits - 1);
        draw_bit(prev.0, prev.1, row, sx, fy, nbits - 1)
    }
}

/// The first `nrows` rows of a sprite read from memory at `addr`, applied
/// top to bottom.
pub open spec fn draw_sprite(
    grid: Seq<u8>,
    vf: u8,
    mem: Seq<u8>,
    addr: int,
    sx: int,
    sy: int,
    nrows: int,
) -> (Seq<u8>, u8)
    decreases nrows,
{
    if nrows <= 0 {
        (grid, vf)
    } else {
        let prev = draw_sprite(grid, vf, mem, addr, sx, sy, nrows - 1);
        draw_row(prev.0, prev.1, mem[addr + (nrows - 1)], sx, sy + (nrows - 1), 8)
    }
}

/// The state transition of one execute call: the timer tick, then the
/// instruction's effect, then the program counter advance where the
/// instruction did not redirect control flow itself. `rnd` is the byte an
/// external randomness source supplied for this call; only `BitwiseRandom`
/// reads it. A Return on an empty call stack is a defined no-op: the
/// counter stays where it is. `Err` means a bounds fault: the instruction's
/// effect does not happen and only the timer tick remains applied.
#[verifier::opaque]
pub open spec fn step(pre: CpuState, instr: Instruction, rnd: u8) -> Result<CpuState, Fault> {
    let s = tick_timers(pre);
    match instr {
        Instruction::ClearDisplay => Ok(
            inc2(CpuState { grid: Seq::new(GRID_LEN as nat, |i: int| 0u8), ..s }),
        ),
        Instruction::Return => {
            if s.stack.len() == 0 {
                Ok(s)
            } else {
                Ok(inc2(CpuState { pc: s.stack.last(), stack: s.stack.drop_last(), ..s }))
            }
        },
        Instruction::JumpToAddress(a) => Ok(CpuState { pc: a as usize, ..s }),
        Instruction::CallSubroutine(a) => Ok(
            CpuState { pc: a as usize, stack: s.stack.push(s.pc), ..s },
        ),
        Instruction::SkipIfEqual(x, v) => {
            if x >= 16 {
                Err(Fault::RegisterOutOfRange)
            } else if s.regs[x as int] == v {
                Ok(inc2(inc2(s)))
            } else {
                Ok(inc2(s))
            }
        },
        Instruction::SkipIfNotEqual(x, v) => {
            if x >= 16 {
                Err(Fault::RegisterOutOfRange)
            } else if s.regs[x as int] != v {
                Ok(inc2(inc2(s)))
            } else {
                Ok(inc2(s))
            }
        },
        Instruction::SkipIfEqualRegister(x, y) => {
            if x >= 16 || y >= 16 {
                Err(Fault::RegisterOutOfRange)
            } else if s.regs[x as int] == s.regs[y as int] {
                Ok(inc2(inc2(s)))
            } else {
                Ok(inc2(s))
            }
        },
        Instruction::LoadConst(x, v) => {
            if x >= 16 {
                Err(Fault::RegisterOutOfRange)
            } else {
                Ok(inc2(CpuState { regs: s.regs.update(x as int, v), ..s }))
            }
        },
        Instruction::AddConst(x, v) => {
            if x >= 16 {
                Err(Fault::RegisterOutOfRange)
            } else {
                Ok(
                    inc2(
                        CpuState {
                            regs: s.regs.update(
                                x as int,
                                u8_specs::wrapping_add(s.regs[x as int], v),
                            ),
                            ..s
                        },
                    ),
                )
            }
        },
        Instruction::AssignValue(x, y) => {
            if x >= 16 || y >= 16 {
                Err(Fault::RegisterOutOfRange)
            } else {
                Ok(inc2(CpuState { regs: s.regs.update(x as int, s.regs[y as int]), ..s }))
            }
        },
        Instruction::SetOr(x, y) => {
            if x >= 16 || y >= 16 {
                Err(Fault::RegisterOutOfRange)
            } else {
                Ok(
                    inc2(
                        CpuState {
                            regs: s.regs.update(x as int, s.regs[x as int] | s.regs[y as int]),
                            ..s
                        },
                    ),
                )
            }
        },
        Instruction::SetAnd(x, y) => {
            if x >= 16 || y >= 16 {
                Err(Fault::RegisterOutOfRange)
            } else {
                Ok(
                    inc2(
                        CpuState {
                            regs: s.regs.update(x as int, s.regs[x as int] & s.regs[y as int]),
                            ..s
                        },
                    ),
                )
            }
        },
        Instruction::SetXor(x, y) => {
            if x >= 16 || y >= 16 {
                Err(Fault::RegisterOutOfRange)
            } else {
                Ok(
                    inc2(
                        CpuState {
                            regs: s.regs.update(x as int, s.regs[x as int] ^ s.regs[y as int]),
                            ..s
                        },
                    ),
                )
            }
        },
        Instruction::Add(x, y) => {
            if x >= 16 || y >= 16 {
                Err(Fault::RegisterOutOfRange)
            } else {
                let sum = s.regs[x as int] + s.regs[y as int];
                Ok(
                    inc2(
                        CpuState {
                            regs: s.regs.update(
                                x as int,
                                u8_specs::wrapping_add(s.regs[x as int], s.regs[y as int]),
                            ).update(
                                0xF,
                                if sum > 0xFF {
                                    1u8
                                } else {
                                    0u8
                                },
                            ),
                            ..s
                        },
                    ),
                )
            }
        },
        Instruction::Subtract(x, y) => {
            if x >= 16 || y >= 16 {
                Err(Fault::RegisterOutOfRange)
            } else {
                let xv = s.regs[x as int];
                let yv = s.regs[y as int];
                Ok(
                    inc2(
                        CpuState {
                            regs: s.regs.update(
                                0xF,
                                if xv > yv {
                                    1u8
                                } else {
                                    0u8
                                },
                            ).update(x as int, u8_specs::wrapping_sub(xv, yv)),
                            ..s
                        },
                    ),
                )
            }
        },
        Instruction::ShiftRight(x, y) => {
            if x >= 16 || y >= 16 {
                Err(Fault::RegisterOutOfRange)
            } else {
                let m = s.regs.update(0xF, s.regs[y as int] & 1);
                Ok(inc2(CpuState { regs: m.update(x as int, m[y as int] >> 1u8), ..s }))
            }
        },
        Instruction::Reduce(x, y) => {
            if x >= 16 || y >= 16 {
                Err(Fault::RegisterOutOfRange)
            } else {
                let xv = s.regs[x as int];
                let yv = s.regs[y as int];
                Ok(
                    inc2(
                        CpuState {
                            regs: s.regs.update(x as int, u8_specs::wrapping_sub(yv, xv)).update(
                                0xF,
                                if yv > xv {
                                    1u8
                                } else {
                                    0u8
                                },
                            ),
                            ..s
                        },
                    ),
                )
            }
        },
        Instruction::ShiftLeft(x, y) => {
            if x >= 16 || y >= 16 {
                Err(Fault::RegisterOutOfRange)
            } else {
                let m = s.regs.update(0xF, s.regs[y as int] >> 7u8);
                Ok(inc2(CpuState { regs: m.update(x as int, m[y as int] << 1u8), ..s }))
            }
        },
        Instruction::SkipIfNotEqualRegister(x, y) => {
            if x >= 16 || y >= 16 {
                Err(Fault::RegisterOutOfRange)
            } else if s.regs[x as int] != s.regs[y as int] {
                Ok(inc2(inc2(s)))
            } else {
                Ok(inc2(s))
            }
        },
        Instruction::SetMemoryAddress(a) => Ok(inc2(CpuState { address: a, ..s })),
        Instruction::JumpToV0Address(a) => Ok(
            CpuState { pc: (a + s.regs[0]) as usize, ..s },
        ),
        Instruction::BitwiseRandom(x, v) => {
            if x >= 16 {
                Err(Fault::RegisterOutOfRange)
            } else {
                Ok(inc2(CpuState { regs: s.regs.update(x as int, rnd & v), ..s }))
            }
        },
        Instruction::DrawSprite(x, y, h) => {
            if x >= 16 || y >= 16 {
                Err(Fault::RegisterOutOfRange)
            } else {
                let sx = if s.regs[x as int] >= GRID_WIDTH {
                    0
                } else {
                    s.regs[x as int] as int
                };
                let sy = s.regs[y as int] as int;
                if h > 0 && s.address + h > MEM_SIZE {
                    Err(Fault::AddressOutOfRange)
                } else {
                    let gv = draw_sprite(s.grid, 0u8, s.memory, s.address as int, sx, sy, h as int);
                    Ok(inc2(CpuState { grid: gv.0, regs: s.regs.update(0xF, gv.1), ..s }))
                }
            }
        },
        Instruction::SkipIfPressed(x) => {
            if x >= 16 {
                Err(Fault::RegisterOutOfRange)
            } else if s.regs[x as int] >= 16 {
                Err(Fault::KeyOutOfRange)
            } else if s.keys[s.regs[x as int] as int] == 1 {
                Ok(inc2(inc2(s)))
            } else {
                Ok(inc2(s))
            }
        },
        Instruction::SkipIfNotPressed(x) => {
            if x >= 16 {
                Err(Fault::RegisterOutOfRange)
            } else if s.regs[x as int] >= 16 {
                Err(Fault::KeyOutOfRange)
            } else if s.keys[s.regs[x as int] as int] != 1 {
                Ok(inc2(inc2(s)))
            } else {
                Ok(inc2(s))
            }
        },
        Instruction::LoadDelay(x) => {
            if x >= 16 {
                Err(Fault::RegisterOutOfRange)
            } else {
                Ok(inc2(CpuState { regs: s.regs.update(x as int, s.delay_timer), ..s }))
            }
        },
        Instruction::WaitForPress(x) => {
            if x >= 16 {
                Err(Fault::RegisterOutOfRange)
            } else if s.regs[x as int] >= 16 {
                Err(Fault::KeyOutOfRange)
            } else if s.keys[s.regs[x as int] as int] == 1 {
                Ok(inc2(s))
            } else {
                Ok(s)
            }
        },
        Instruction::SetDelay(x) => {
            if x >= 16 {
                Err(Fault::RegisterOutOfRange)
            } else {
                Ok(inc2(CpuState { delay_timer: s.regs[x as int], ..s }))
            }
        },
        Instruction::SetSound(x) => {
            if x >= 16 {
                Err(Fault::RegisterOutOfRange)
            } else {
                Ok(inc2(CpuState { sound_timer: s.regs[x as int], ..s }))
            }
        },
        Instruction::AddOffset(x) => {
            if x >= 16 {
                Err(Fault::RegisterOutOfRange)
            } else {
                Ok(
                    inc2(
                        CpuState {
                            address: ((s.address + s.regs[x as int]) % 0x10000) as u16,
                            ..s
                        },
                    ),
                )
            }
        },
        Instruction::SetMemoryForFont(x) => {
            if x >= 16 {
                Err(Fault::RegisterOutOfRange)
            } else {
                Ok(inc2(CpuState { address: (s.regs[x as int] * 5) as u16, ..s }))
            }
        },
        Instruction::SetBCD(x) => {
            if x >= 16 {
                Err(Fault::RegisterOutOfRange)
            } else if s.address + 3 > MEM_SIZE {
                Err(Fault::AddressOutOfRange)
            } else {
                let val = s.regs[x as int];
                let a = s.address as int;
                Ok(
                    inc2(
                        CpuState {
                            memory: s.memory.update(a, val / 100).update(
                                a + 1,
                                (val / 10) % 10,
                            ).update(a + 2, (val % 100) % 10),
                            ..s
                        },
                    ),
                )
            }
        },
        Instruction::DumpReg(x) => {
            if x >= 16 {
                Err(Fault::RegisterOutOfRange)
            } else if s.address + x + 1 > MEM_SIZE {
                Err(Fault::AddressOutOfRange)
            } else {
                let a = s.address as int;
                let count = x + 1;
                Ok(
                    inc2(
                        CpuState {
                            memory: Seq::new(
                                MEM_SIZE as nat,
                                |j: int|
                                    if a <= j < a + count {
                                        s.regs[j - a]
                                    } else {
                                        s.memory[j]
                                    },
                            ),
                            address: (s.address + count) as u16,
                            ..s
                        },
                    ),
                )
            }
        },
        Instruction::LoadReg(x) => {
            if x >= 16 {
                Err(Fault::RegisterOutOfRange)
            } else if s.address + x + 1 > MEM_SIZE {
                Err(Fault::AddressOutOfRange)
            } else {
                let a = s.address as int;
                let count = x + 1;
                Ok(
                    inc2(
                        CpuState {
                            regs: Seq::new(
                                16,
                                |j: int|
                                    if 0 <= j < count {
                                        s.memory[a + j]
                                    } else {
                                        s.regs[j]
                                    },
                            ),
                            address: (s.address + count) as u16,
                            ..s
                        },
                    ),
                )
            }
        },
    }
}

impl CPU {
    /// Construct a machine holding the given program image, loaded at
    /// `PROGRAM_START`, with the font table at the bottom of memory and all
    /// other state zeroed.
    pub fn new(data: &Vec<u8>) -> (r: CPU)
        requires
            data@.len() <= MEM_SIZE - PROGRAM_START,
        ensures
            r@ == initial_state(data@),
    {
        let mut memory: Vec<u8> = Vec::new();
        let mut i: usize = 0;
        while i < MEM_SIZE
            invariant
                i <= MEM_SIZE,
                memory@.len() == i,
                forall|j: int| 0 <= j < i ==> memory@[j] == 0u8,
            decreases MEM_SIZE - i,
        {
            memory.push(0);
            i = i + 1;
        }
        let mut i: usize = 0;
        while i < data.len()
            invariant
                i <= data@.len(),
                data@.len() <= MEM_SIZE - PROGRAM_START,
                memory@.len() == MEM_SIZE,
                forall|j: int|
                    PROGRAM_START <= j < PROGRAM_START + i ==> memory@[j] == data@[j
                        - PROGRAM_START],
                forall|j: int|
                    (0 <= j < PROGRAM_START || PROGRAM_START + i <= j < MEM_SIZE) ==> memory@[j]
                        == 0u8,
            decreases data@.len() - i,
        {
            memory[PROGRAM_START + i] = data[i];
            i = i + 1;
        }
        let mut i: usize = 0;
        while i < 80
            invariant
                i <= 80,
                data@.len() <= MEM_SIZE - PROGRAM_START,
                memory@.len() == MEM_SIZE,
                forall|j: int| 0 <= j < i ==> memory@[j] == FONT4X5@[j],
                forall|j: int|
                    PROGRAM_START <= j < PROGRAM_START + data@.len() ==> memory@[j] == data@[j
                        - PROGRAM_START],
                forall|j: int|
                    (i <= j < PROGRAM_START || PROGRAM_START + data@.len() <= j < MEM_SIZE)
                        ==> memory@[j] == 0u8,
            decreases 80 - i,
        {
            memory[i] = FONT4X5[i];
            i = i + 1;
        }
        let cpu = CPU {
            regs: [0u8; 16],
            address: 0,
            stack: Vec::new(),
            memory,
            delay_timer: 0,
            sound_timer: 0,
            pc: PROGRAM_START,
            keys: [0u8; 16],
            grid: {
                let mut grid: Vec<u8> = Vec::new();
                let mut i: usize = 0;
                while i < GRID_LEN
                    invariant
                        i <= GRID_LEN,
                        grid@.len() == i,
                        forall|j: int| 0 <= j < i ==> grid@[j] == 0u8,
                    decreases GRID_LEN - i,
                {
                    grid.push(0);
                    i = i + 1;
                }
                grid
            },
        };
        proof {
            assert(cpu@ =~= initial_state(data@));
        }
        cpu
    }

    /// The big-endian 16-bit word at the program counter, or a bounds fault
    /// when fewer than two bytes of memory lie at and after it.
    pub fn fetch_opcode(&self) -> (r: Result<u16, Fault>)
        requires
            self@.wf(),
        ensures
            r == spec_fetch(self@),
    {
        if self.pc < MEM_SIZE - 1 {
            let hi = self.memory[self.pc];
            let lo = self.memory[self.pc + 1];
            Ok((hi as u16) * 0x100 + (lo as u16))
        } else {
            Err(Fault::AddressOutOfRange)
        }
    }

    /// Zero every framebuffer cell.
    fn clear(&mut self)
        requires
            old(self)@.wf(),
        ensures
            final(self)@ == (CpuState {
                grid: Seq::new(GRID_LEN as nat, |i: int| 0u8),
                ..old(self)@
            }),
    {
        let mut idx: usize = 0;
        while idx < GRID_LEN
            invariant
                idx <= GRID_LEN,
                self.grid@.len() == GRID_LEN,
                forall|j: int| 0 <= j < idx ==> self.grid@[j] == 0u8,
                forall|j: int| idx <= j < GRID_LEN ==> self.grid@[j] == old(self).grid@[j],
                self.regs == old(self).regs,
                self.address == old(self).address,
                self.stack@ == old(self).stack@,
                self.memory@ == old(self).memory@,
                self.delay_timer == old(self).delay_timer,
                self.sound_timer == old(self).sound_timer,
                self.pc == old(self).pc,
                self.keys == old(self).keys,
            decreases GRID_LEN - idx,
        {
            self.grid[idx] = 0;
            idx = idx + 1;
        }
        proof {
            assert(self@ =~= (CpuState {
                grid: Seq::new(GRID_LEN as nat, |i: int| 0u8),
                ..old(self)@
            }));
        }
    }

    /// Advance the program counter past one 2-byte instruction.
    fn inc_pc(&mut self)
        requires
            old(self).pc + 2 <= usize::MAX,
        ensures
            final(self)@ == inc2(old(self)@),
    {
        self.pc += 2;
    }

    /// Decrement each nonzero countdown timer by one.
    fn timer_tick(&mut self)
        ensures
            final(self)@ == tick_timers(old(self)@),
    {
        if self.delay_timer > 0 {
            self.delay_timer -= 1;
        }
        if self.sound_timer > 0 {
            self.sound_timer -= 1;
        }
    }
}

impl CPU {
    /// Apply one decoded instruction with an explicitly supplied random
    /// byte, which only `BitwiseRandom` reads. The whole transition is
    /// `step`: the timer tick, then the instruction's effect, then the
    /// program counter advance where the instruction did not redirect
    /// control flow itself. On a bounds fault the instruction's effect does
    /// not happen: the returned fault names the violation and only the
    /// timer tick remains applied.
    pub fn do_instruction_with(&mut self, instruction: &Instruction, rnd: u8) -> (r: Result<
        (),
        Fault,
    >)
        requires
            old(self)@.wf(),
            old(self).pc + 4 <= usize::MAX,
            old(self).stack@.len() > 0 ==> old(self).stack@.last() + 2 <= usize::MAX,
        ensures
            final(self)@.wf(),
            (match step(old(self)@, *instruction, rnd) {
                Ok(s) => r == Ok::<(), Fault>(()) && final(self)@ == s,
                Err(f) => r == Err::<(), Fault>(f) && final(self)@ == tick_timers(old(self)@),
            }),
    {
        match instruction {
            Instruction::ClearDisplay | Instruction::Return | Instruction::JumpToAddress(_) | Instruction::CallSubroutine(_) | Instruction::JumpToV0Address(_) | Instruction::SetMemoryAddress(_) => self.exec_control_flow(instruction, rnd),
            Instruction::SkipIfEqual(_, _) | Instruction::SkipIfNotEqual(_, _) | Instruction::SkipIfEqualRegister(_, _) | Instruction::SkipIfNotEqualRegister(_, _) | Instruction::SkipIfPressed(_) | Instruction::SkipIfNotPressed(_) | Instruction::WaitForPress(_) => self.exec_skips(instruction, rnd),
            Instruction::LoadConst(_, _) | Instruction::AssignValue(_, _) | Instruction::SetOr(_, _) | Instruction::SetAnd(_, _) | Instruction::SetXor(_, _) | Instruction::ShiftRight(_, _) | Instruction::ShiftLeft(_, _) | Instruction::BitwiseRandom(_, _) => self.exec_alu(instruction, rnd),
            Instruction::AddConst(_, _) | Instruction::Add(_, _) => self.exec_add_arith(instruction, rnd),
            Instruction::Subtract(_, _) | Instruction::Reduce(_, _) => self.exec_sub_arith(instruction, rnd),
            Instruction::LoadDelay(_) | Instruction::SetDelay(_) | Instruction::SetSound(_) | Instruction::AddOffset(_) | Instruction::SetMemoryForFont(_) => self.exec_timers_and_address(instruction, rnd),
            Instruction::SetBCD(_) | Instruction::DumpReg(_) | Instruction::LoadReg(_) => self.exec_memory_block(instruction, rnd),
            Instruction::DrawSprite(_, _, _) => self.exec_draw(instruction, rnd),
        }
    }

    /// One execute call for the control-flow and display instructions.
    #[verifier::rlimit(50)]
    fn exec_control_flow(&mut self, instruction: &Instruction, rnd: u8) -> (r: Result<(), Fault>)
        requires
            old(self)@.wf(),
            old(self).pc + 4 <= usize::MAX,
            old(self).stack@.len() > 0 ==> old(self).stack@.last() + 2 <= usize::MAX,
            instruction is ClearDisplay || instruction is Return || instruction is JumpToAddress || instruction is CallSubroutine || instruction is JumpToV0Address || instruction is SetMemoryAddress,
        ensures
            final(self)@.wf(),
            (match step(old(self)@, *instruction, rnd) {
                Ok(s) => r == Ok::<(), Fault>(()) && final(self)@ == s,
                Err(f) => r == Err::<(), Fault>(f) && final(self)@ == tick_timers(old(self)@),
            }),
    {
        self.timer_tick();
        match instruction {
            Instruction::ClearDisplay => {
                self.clear();
                self.inc_pc();
                proof {
                    reveal(step);
                    assert(step(old(self)@, *instruction, rnd) matches Ok(s1) && self@ =~= s1);
                }
            }

            Instruction::Return => {
                match self.stack.pop() {
                    Some(ret) => {
                        self.pc = ret;
                        self.inc_pc();
                    }
                    None => {}
                }
                proof {
                    reveal(step);
                    assert(step(old(self)@, *instruction, rnd) matches Ok(s1) && self@ =~= s1);
                }
            }

            Instruction::JumpToAddress(address) => {
                self.pc = *address as usize;
                proof {
                    reveal(step);
                    assert(step(old(self)@, *instruction, rnd) matches Ok(s1) && self@ =~= s1);
                }
            }

            Instruction::CallSubroutine(address) => {
                self.stack.push(self.pc);
                self.pc = *address as usize;
                proof {
                    reveal(step);
                    assert(step(old(self)@, *instruction, rnd) matches Ok(s1) && self@ =~= s1);
                }
            }

            Instruction::JumpToV0Address(address) => {
                self.pc = *address as usize + self.regs[0] as usize;
                proof {
                    reveal(step);
                    assert(step(old(self)@, *instruction, rnd) matches Ok(s1) && self@ =~= s1);
                }
            }

            Instruction::SetMemoryAddress(address) => {
                self.address = *address;
                self.inc_pc();
                proof {
                    reveal(step);
                    assert(step(old(self)@, *instruction, rnd) matches Ok(s1) && self@ =~= s1);
                }
            }

            _ => {
                return vstd::pervasive::unreached();
            }
        }

        Ok(())
    }

    /// One execute call for the conditional skips and the blocking key wait.
    #[verifier::rlimit(50)]
    fn exec_skips(&mut self, instruction: &Instruction, rnd: u8) -> (r: Result<(), Fault>)
        requires
            old(self)@.wf(),
            old(self).pc + 4 <= usize::MAX,
            instruction is SkipIfEqual || instruction is SkipIfNotEqual || instruction is SkipIfEqualRegister || instruction is SkipIfNotEqualRegister || instruction is SkipIfPressed || instruction is SkipIfNotPressed || instruction is WaitForPress,
        ensures
            final(self)@.wf(),
            (match step(old(self)@, *instruction, rnd) {
                Ok(s) => r == Ok::<(), Fault>(()) && final(self)@ == s,
                Err(f) => r == Err::<(), Fault>(f) && final(self)@ == tick_timers(old(self)@),
            }),
    {
        self.timer_tick();
        match instruction {
            Instruction::SkipIfEqual(vx, value) => {
                if *vx >= 16 {
                    proof {
                        reveal(step);
                    }
                    return Err(Fault::RegisterOutOfRange);
                }
                if self.regs[*vx as usize] == *value {
                    self.inc_pc();
                }
                self.inc_pc();
                proof {
                    reveal(step);
                    assert(step(old(self)@, *instruction, rnd) matches Ok(s1) && self@ =~= s1);
                }
            }

            Instruction::SkipIfNotEqual(vx, value) => {
                if *vx >= 16 {
                    proof {
                        reveal(step);
                    }
                    return Err(Fault::RegisterOutOfRange);
                }
                if self.regs[*vx as usize] != *value {
                    self.inc_pc();
                }
                self.inc_pc();
                proof {
                    reveal(step);
                    assert(step(old(self)@, *instruction, rnd) matches Ok(s1) && self@ =~= s1);
                }
            }

            Instruction::SkipIfEqualRegister(vx, vy) => {
                if *vx >= 16 || *vy >= 16 {
                    proof {
                        reveal(step);
                    }
                    return Err(Fault::RegisterOutOfRange);
                }
                if self.regs[*vx as usize] == self.regs[*vy as usize] {
                    self.inc_pc();
                }
                self.inc_pc();
                proof {
                    reveal(step);
                    assert(step(old(self)@, *instruction, rnd) matches Ok(s1) && self@ =~= s1);
                }
            }

            Instruction::SkipIfNotEqualRegister(vx, vy) => {
                if *vx >= 16 || *vy >= 16 {
                    proof {
                        reveal(step);
                    }
                    return Err(Fault::RegisterOutOfRange);
                }
                if self.regs[*vx as usize] != self.regs[*vy as usize] {
                    self.inc_pc();
                }
                self.inc_pc();
                proof {
                    reveal(step);
                    assert(step(old(self)@, *instruction, rnd) matches Ok(s1) && self@ =~= s1);
                }
            }

            Instruction::SkipIfPressed(vx) => {
                if *vx >= 16 {
                    proof {
                        reveal(step);
                    }
                    return Err(Fault::RegisterOutOfRange);
                }
                let key = self.regs[*vx as usize];
                if key >= 16 {
                    proof {
                        reveal(step);
                    }
                    return Err(Fault::KeyOutOfRange);
                }
                if self.keys[key as usize] == 1 {
                    self.inc_pc();
                }
                self.inc_pc();
                proof {
                    reveal(step);
                    assert(step(old(self)@, *instruction, rnd) matches Ok(s1) && self@ =~= s1);
                }
            }

            Instruction::SkipIfNotPressed(vx) => {
                if *vx >= 16 {
                    proof {
                        reveal(step);
                    }
                    return Err(Fault::RegisterOutOfRange);
                }
                let key = self.regs[*vx as usize];
                if key >= 16 {
                    proof {
                        reveal(step);
                    }
                    return Err(Fault::KeyOutOfRange);
                }
                if self.keys[key as usize] != 1 {
                    self.inc_pc();
                }
                self.inc_pc();
                proof {
                    reveal(step);
                    assert(step(old(self)@, *instruction, rnd) matches Ok(s1) && self@ =~= s1);
                }
            }

            Instruction::WaitForPress(vx) => {
                if *vx >= 16 {
                    proof {
                        reveal(step);
                    }
                    return Err(Fault::RegisterOutOfRange);
                }
                let key = self.regs[*vx as usize];
                if key >= 16 {
                    proof {
                        reveal(step);
                    }
                    return Err(Fault::KeyOutOfRange);
                }
                if self.keys[key as usize] == 1 {
                    self.inc_pc();
                }
                proof {
                    reveal(step);
                    assert(step(old(self)@, *instruction, rnd) matches Ok(s1) && self@ =~= s1);
                }
            }

            _ => {
                return vstd::pervasive::unreached();
            }
        }

        Ok(())
    }

    /// One execute call for the register loads, moves and bitwise operations.
    #[verifier::rlimit(50)]
    fn exec_alu(&mut self, instruction: &Instruction, rnd: u8) -> (r: Result<(), Fault>)
        requires
            old(self)@.wf(),
            old(self).pc + 4 <= usize::MAX,
            instruction is LoadConst || instruction is AssignValue || instruction is SetOr || instruction is SetAnd || instruction is SetXor || instruction is ShiftRight || instruction is ShiftLeft || instruction is BitwiseRandom,
        ensures
            final(self)@.wf(),
            (match step(old(self)@, *instruction, rnd) {
                Ok(s) => r == Ok::<(), Fault>(()) && final(self)@ == s,
                Err(f) => r == Err::<(), Fault>(f) && final(self)@ == tick_timers(old(self)@),
            }),
    {
        self.timer_tick();
        match instruction {
            Instruction::LoadConst(vx, value) => {
                if *vx >= 16 {
                    proof {
                        reveal(step);
                    }
                    return Err(Fault::RegisterOutOfRange);
                }
                self.regs[*vx as usize] = *value;
                self.inc_pc();
                proof {
                    reveal(step);
                    assert(step(old(self)@, *instruction, rnd) matches Ok(s1) && self@ =~= s1);
                }
            }

            Instruction::AssignValue(vx, vy) => {
                if *vx >= 16 || *vy >= 16 {
                    proof {
                        reveal(step);
                    }
                    return Err(Fault::RegisterOutOfRange);
                }
                self.regs[*vx as usize] = self.regs[*vy as usize];
                self.inc_pc();
                proof {
                    reveal(step);
                    assert(step(old(self)@, *instruction, rnd) matches Ok(s1) && self@ =~= s1);
                }
            }

            Instruction::SetOr(vx, vy) => {
                if *vx >= 16 || *vy >= 16 {
                    proof {
                        reveal(step);
                    }
                    return Err(Fault::RegisterOutOfRange);
                }
                self.regs[*vx as usize] = self.regs[*vx as usize] | self.regs[*vy as usize];
                self.inc_pc();
                proof {
                    reveal(step);
                    assert(step(old(self)@, *instruction, rnd) matches Ok(s1) && self@ =~= s1);
                }
            }

            Instruction::SetAnd(vx, vy) => {
                if *vx >= 16 || *vy >= 16 {
                    proof {
                        reveal(step);
                    }
                    return Err(Fault::RegisterOutOfRange);
                }
                self.regs[*vx as usize] = self.regs[*vx as usize] & self.regs[*vy as usize];
                self.inc_pc();
                proof {
                    reveal(step);
                    assert(step(old(self)@, *instruction, rnd) matches Ok(s1) && self@ =~= s1);
                }
            }

            Instruction::SetXor(vx, vy) => {
                if *vx >= 16 || *vy >= 16 {
                    proof {
                        reveal(step);
                    }
                    return Err(Fault::RegisterOutOfRange);
                }
                self.regs[*vx as usize] = self.regs[*vx as usize] ^ self.regs[*vy as usize];
                self.inc_pc();
                proof {
                    reveal(step);
                    assert(step(old(self)@, *instruction, rnd) matches Ok(s1) && self@ =~= s1);
                }
            }

            Instruction::ShiftRight(vx, vy) => {
                if *vx >= 16 || *vy >= 16 {
                    proof {
                        reveal(step);
                    }
                    return Err(Fault::RegisterOutOfRange);
                }
                self.regs[0xf] = self.regs[*vy as usize] & 1;
                self.regs[*vx as usize] = self.regs[*vy as usize] >> 1u8;
                self.inc_pc();
                proof {
                    reveal(step);
                    assert(step(old(self)@, *instruction, rnd) matches Ok(s1) && self@ =~= s1);
                }
            }

            Instruction::ShiftLeft(vx, vy) => {
                if *vx >= 16 || *vy >= 16 {
                    proof {
                        reveal(step);
                    }
                    return Err(Fault::RegisterOutOfRange);
                }
                self.regs[0xf] = self.regs[*vy as usize] >> 7u8;
                self.regs[*vx as usize] = self.regs[*vy as usize] << 1u8;
                self.inc_pc();
                proof {
                    reveal(step);
                    assert(step(old(self)@, *instruction, rnd) matches Ok(s1) && self@ =~= s1);
                }
            }

            Instruction::BitwiseRandom(vx, value) => {
                if *vx >= 16 {
                    proof {
                        reveal(step);
                    }
                    return Err(Fault::RegisterOutOfRange);
                }
                self.regs[*vx as usize] = rnd & *value;
                self.inc_pc();
                proof {
                    reveal(step);
                    assert(step(old(self)@, *instruction, rnd) matches Ok(s1) && self@ =~= s1);
                }
            }

            _ => {
                return vstd::pervasive::unreached();
            }
        }

        Ok(())
    }

    /// One execute call for the wrapping additions and the carry flag convention.
    #[verifier::rlimit(50)]
    fn exec_add_arith(&mut self, instruction: &Instruction, rnd: u8) -> (r: Result<(), Fault>)
        requires
            old(self)@.wf(),
            old(self).pc + 4 <= usize::MAX,
            instruction is AddConst || instruction is Add,
        ensures
            final(self)@.wf(),
            (match step(old(self)@, *instruction, rnd) {
                Ok(s) => r == Ok::<(), Fault>(()) && final(self)@ == s,
                Err(f) => r == Err::<(), Fault>(f) && final(self)@ == tick_timers(old(self)@),
            }),
    {
        self.timer_tick();
        match instruction {
            Instruction::AddConst(vx, value) => {
                if *vx >= 16 {
                    proof {
                        reveal(step);
                    }
                    return Err(Fault::RegisterOutOfRange);
                }
                let idx: usize = *vx as usize;
                self.regs[idx] = self.regs[idx].wrapping_add(*value);
                self.inc_pc();
                proof {
                    reveal(step);
                    assert(step(old(self)@, *instruction, rnd) matches Ok(s1) && self@ =~= s1);
                }
            }

            Instruction::Add(vx, vy) => {
                if *vx >= 16 || *vy >= 16 {
                    proof {
                        reveal(step);
                    }
                    return Err(Fault::RegisterOutOfRange);
                }
                let xv = self.regs[*vx as usize];
                let yv = self.regs[*vy as usize];
                let ret: u16 = xv as u16 + yv as u16;
                self.regs[*vx as usize] = xv.wrapping_add(yv);
                self.regs[0xf] = if ret > 255 {
                    1
                } else {
                    0
                };
                self.inc_pc();
                proof {
                    reveal(step);
                    assert(step(old(self)@, *instruction, rnd) matches Ok(s1) && self@ =~= s1);
                }
            }

            _ => {
                return vstd::pervasive::unreached();
            }
        }

        Ok(())
    }

    /// One execute call for the wrapping subtractions and the borrow flag convention.
    #[verifier::rlimit(50)]
    fn exec_sub_arith(&mut self, instruction: &Instruction, rnd: u8) -> (r: Result<(), Fault>)
        requires
            old(self)@.wf(),
            old(self).pc + 4 <= usize::MAX,
            instruction is Subtract || instruction is Reduce,
        ensures
            final(self)@.wf(),
            (match step(old(self)@, *instruction, rnd) {
                Ok(s) => r == Ok::<(), Fault>(()) && final(self)@ == s,
                Err(f) => r == Err::<(), Fault>(f) && final(self)@ == tick_timers(old(self)@),
            }),
    {
        self.timer_tick();
        match instruction {
            Instruction::Subtract(vx, vy) => {
                if *vx >= 16 || *vy >= 16 {
                    proof {
                        reveal(step);
                    }
                    return Err(Fault::RegisterOutOfRange);
                }
                let xv = self.regs[*vx as usize];
                let yv = self.regs[*vy as usize];
                self.regs[0xf] = if xv > yv {
                    1
                } else {
                    0
                };
                self.regs[*vx as usize] = xv.wrapping_sub(yv);
                self.inc_pc();
                proof {
                    reveal(step);
                    assert(step(old(self)@, *instruction, rnd) matches Ok(s1) && self@ =~= s1);
                }
            }

            Instruction::Reduce(vx, vy) => {
                if *vx >= 16 || *vy >= 16 {
                    proof {
                        reveal(step);
                    }
                    return Err(Fault::RegisterOutOfRange);
                }
                let xv = self.regs[*vx as usize];
                let yv = self.regs[*vy as usize];
                self.regs[*vx as usize] = yv.wrapping_sub(xv);
                self.regs[0xf] = if yv > xv {
                    1
                } else {
                    0
                };
                self.inc_pc();
                proof {
                    reveal(step);
                    assert(step(old(self)@, *instruction, rnd) matches Ok(s1) && self@ =~= s1);
                }
            }

            _ => {
                return vstd::pervasive::unreached();
            }
        }

        Ok(())
    }

    /// One execute call for the timer reads and writes and address-register arithmetic.
    #[verifier::rlimit(50)]
    fn exec_timers_and_address(&mut self, instruction: &Instruction, rnd: u8) -> (r: Result<(), Fault>)
        requires
            old(self)@.wf(),
            old(self).pc + 4 <= usize::MAX,
            instruction is LoadDelay || instruction is SetDelay || instruction is SetSound || instruction is AddOffset || instruction is SetMemoryForFont,
        ensures
            final(self)@.wf(),
            (match step(old(self)@, *instruction, rnd) {
                Ok(s) => r == Ok::<(), Fault>(()) && final(self)@ == s,
                Err(f) => r == Err::<(), Fault>(f) && final(self)@ == tick_timers(old(self)@),
            }),
    {
        self.timer_tick();
        match instruction {
            Instruction::LoadDelay(vx) => {
                if *vx >= 16 {
                    proof {
                        reveal(step);
                    }
                    return Err(Fault::RegisterOutOfRange);
                }
                self.regs[*vx as usize] = self.delay_timer;
                self.inc_pc();
                proof {
                    reveal(step);
                    assert(step(old(self)@, *instruction, rnd) matches Ok(s1) && self@ =~= s1);
                }
            }

            Instruction::SetDelay(vx) => {
                if *vx >= 16 {
                    proof {
                        reveal(step);
                    }
                    return Err(Fault::RegisterOutOfRange);
                }
                self.delay_timer = self.regs[*vx as usize];
                self.inc_pc();
                proof {
                    reveal(step);
                    assert(step(old(self)@, *instruction, rnd) matches Ok(s1) && self@ =~= s1);
                }
            }

            Instruction::SetSound(vx) => {
                if *vx >= 16 {
                    proof {
                        reveal(step);
                    }
                    return Err(Fault::RegisterOutOfRange);
                }
                self.sound_timer = self.regs[*vx as usize];
                self.inc_pc();
                proof {
                    reveal(step);
                    assert(step(old(self)@, *instruction, rnd) matches Ok(s1) && self@ =~= s1);
                }
            }

            Instruction::AddOffset(vx) => {
                if *vx >= 16 {
                    proof {
                        reveal(step);
                    }
                    return Err(Fault::RegisterOutOfRange);
                }
                self.address = self.address.wrapping_add(self.regs[*vx as usize] as u16);
                self.inc_pc();
                proof {
                    reveal(step);
                    assert(step(old(self)@, *instruction, rnd) matches Ok(s1) && self@ =~= s1);
                }
            }

            Instruction::SetMemoryForFont(vx) => {
                if *vx >= 16 {
                    proof {
                        reveal(step);
                    }
                    return Err(Fault::RegisterOutOfRange);
                }
                self.address = self.regs[*vx as usize] as u16 * 5;
                self.inc_pc();
                proof {
                    reveal(step);
                    assert(step(old(self)@, *instruction, rnd) matches Ok(s1) && self@ =~= s1);
                }
            }

            _ => {
                return vstd::pervasive::unreached();
            }
        }

        Ok(())
    }

    /// One execute call for the memory-block instructions: BCD decomposition and register dump/load.
    #[verifier::rlimit(50)]
    fn exec_memory_block(&mut self, instruction: &Instruction, rnd: u8) -> (r: Result<(), Fault>)
        requires
            old(self)@.wf(),
            old(self).pc + 4 <= usize::MAX,
            instruction is SetBCD || instruction is DumpReg || instruction is LoadReg,
        ensures
            final(self)@.wf(),
            (match step(old(self)@, *instruction, rnd) {
                Ok(s) => r == Ok::<(), Fault>(()) && final(self)@ == s,
                Err(f) => r == Err::<(), Fault>(f) && final(self)@ == tick_timers(old(self)@),
            }),
    {
        self.timer_tick();
        let ghost ticked = self@;

        match instruction {
            Instruction::SetBCD(vx) => {
                if *vx >= 16 {
                    proof {
                        reveal(step);
                    }
                    return Err(Fault::RegisterOutOfRange);
                }
                if self.address as usize + 3 > MEM_SIZE {
                    proof {
                        reveal(step);
                    }
                    return Err(Fault::AddressOutOfRange);
                }
                let val = self.regs[*vx as usize];
                let addr: usize = self.address as usize;
                self.memory[addr] = val / 100;
                self.memory[addr + 1] = (val / 10) % 10;
                self.memory[addr + 2] = (val % 100) % 10;
                self.inc_pc();
                proof {
                    reveal(step);
                    assert(step(old(self)@, *instruction, rnd) matches Ok(s1) && self@ =~= s1);
                }
            }

            Instruction::DumpReg(vx) => {
                if *vx >= 16 {
                    proof {
                        reveal(step);
                    }
                    return Err(Fault::RegisterOutOfRange);
                }
                let count: usize = *vx as usize + 1;
                if self.address as usize + count > MEM_SIZE {
                    proof {
                        reveal(step);
                    }
                    return Err(Fault::AddressOutOfRange);
                }
                let ghost addr0 = self.address as int;
                let mut idx: usize = 0;
                while idx < count
                    invariant
                        self@.wf(),
                        idx <= count,
                        count <= 16,
                        addr0 + count <= MEM_SIZE,
                        addr0 == ticked.address,
                        self.address as int == addr0 + idx,
                        self.regs@ == ticked.regs,
                        self.stack@ == ticked.stack,
                        self.pc == ticked.pc,
                        self.delay_timer == ticked.delay_timer,
                        self.sound_timer == ticked.sound_timer,
                        self.keys@ == ticked.keys,
                        self.grid@ == ticked.grid,
                        forall|j: int|
                            addr0 <= j < addr0 + idx ==> self.memory@[j] == ticked.regs[j - addr0],
                        forall|j: int|
                            (0 <= j < addr0 || addr0 + idx <= j < MEM_SIZE) ==> self.memory@[j]
                                == ticked.memory[j],
                    decreases count - idx,
                {
                    self.memory[self.address as usize] = self.regs[idx];
                    self.address = self.address + 1;
                    idx = idx + 1;
                }
                self.inc_pc();
                proof {
                    reveal(step);
                    assert(self.memory@ =~= Seq::new(
                        MEM_SIZE as nat,
                        |j: int|
                            if addr0 <= j < addr0 + count {
                                ticked.regs[j - addr0]
                            } else {
                                ticked.memory[j]
                            },
                    ));
                    assert(step(old(self)@, *instruction, rnd) matches Ok(s1) && self@ =~= s1);
                }
            }

            Instruction::LoadReg(vx) => {
                if *vx >= 16 {
                    proof {
                        reveal(step);
                    }
                    return Err(Fault::RegisterOutOfRange);
                }
                let count: usize = *vx as usize + 1;
                if self.address as usize + count > MEM_SIZE {
                    proof {
                        reveal(step);
                    }
                    return Err(Fault::AddressOutOfRange);
                }
                let ghost addr0 = self.address as int;
                let mut idx: usize = 0;
                while idx < count
                    invariant
                        self@.wf(),
                        idx <= count,
                        count <= 16,
                        addr0 + count <= MEM_SIZE,
                        addr0 == ticked.address,
                        self.address as int == addr0 + idx,
                        self.memory@ == ticked.memory,
                        self.stack@ == ticked.stack,
                        self.pc == ticked.pc,
                        self.delay_timer == ticked.delay_timer,
                        self.sound_timer == ticked.sound_timer,
                        self.keys@ == ticked.keys,
                        self.grid@ == ticked.grid,
                        forall|j: int|
                            0 <= j < idx ==> self.regs@[j] == ticked.memory[addr0 + j],
                        forall|j: int| idx <= j < 16 ==> self.regs@[j] == ticked.regs[j],
                    decreases count - idx,
                {
                    self.regs[idx] = self.memory[self.address as usize];
                    self.address = self.address + 1;
                    idx = idx + 1;
                }
                self.inc_pc();
                proof {
                    reveal(step);
                    assert(self.regs@ =~= Seq::new(
                        16,
                        |j: int|
                            if 0 <= j < count {
                                ticked.memory[addr0 + j]
                            } else {
                                ticked.regs[j]
                            },
                    ));
                    assert(step(old(self)@, *instruction, rnd) matches Ok(s1) && self@ =~= s1);
                }
            }

            _ => {
                return vstd::pervasive::unreached();
            }
        }

        Ok(())
    }

    /// One execute call for the sprite draw instruction.
    #[verifier::rlimit(50)]
    fn exec_draw(&mut self, instruction: &Instruction, rnd: u8) -> (r: Result<(), Fault>)
        requires
            old(self)@.wf(),
            old(self).pc + 4 <= usize::MAX,
            instruction is DrawSprite,
        ensures
            final(self)@.wf(),
            (match step(old(self)@, *instruction, rnd) {
                Ok(s) => r == Ok::<(), Fault>(()) && final(self)@ == s,
                Err(f) => r == Err::<(), Fault>(f) && final(self)@ == tick_timers(old(self)@),
            }),
    {
        self.timer_tick();
        let ghost ticked = self@;

        match instruction {
            Instruction::DrawSprite(vx, vy, height) => {
                if *vx >= 16 || *vy >= 16 {
                    proof {
                        reveal(step);
                    }
                    return Err(Fault::RegisterOutOfRange);
                }
                let x: usize = *vx as usize;
                let y: usize = *vy as usize;
                let h: u8 = *height;
                let mut start_x: u8 = self.regs[x];
                let start_y: u8 = self.regs[y];
                if start_x > (GRID_WIDTH - 1) as u8 {
                    start_x = 0;
                }
                if h > 0 && self.address as usize + h as usize > MEM_SIZE {
                    proof {
                        reveal(step);
                    }
                    return Err(Fault::AddressOutOfRange);
                }
                self.regs[0xf] = 0;
                let mut row_i: u8 = 0;
                while row_i < h
                    invariant
                        self@.wf(),
                        x < 16,
                        y < 16,
                        row_i <= h,
                        h > 0 ==> self.address as int + h <= MEM_SIZE,
                        self.memory@ == ticked.memory,
                        self.address == ticked.address,
                        self.stack@ == ticked.stack,
                        self.pc == ticked.pc,
                        self.delay_timer == ticked.delay_timer,
                        self.sound_timer == ticked.sound_timer,
                        self.keys@ == ticked.keys,
                        forall|j: int| 0 <= j < 16 && j != 15 ==> self.regs@[j] == ticked.regs[j],
                        self.grid@ == draw_sprite(
                            ticked.grid,
                            0u8,
                            ticked.memory,
                            ticked.address as int,
                            start_x as int,
                            start_y as int,
                            row_i as int,
                        ).0,
                        self.regs@[15] == draw_sprite(
                            ticked.grid,
                            0u8,
                            ticked.memory,
                            ticked.address as int,
                            start_x as int,
                            start_y as int,
                            row_i as int,
                        ).1,
                    decreases h - row_i,
                {
                    let row: u8 = self.memory[self.address as usize + row_i as usize];
                    let final_y: u16 = row_i as u16 + start_y as u16;
                    let ghost row_grid = self.grid@;
                    let ghost row_vf = self.regs@[15];
                    let mut bit_i: u8 = 0;
                    while bit_i < 8
                        invariant
                            self@.wf(),
                            bit_i <= 8,
                            final_y == row_i as int + start_y as int,
                            self.memory@ == ticked.memory,
                            self.address == ticked.address,
                            self.stack@ == ticked.stack,
                            self.pc == ticked.pc,
                            self.delay_timer == ticked.delay_timer,
                            self.sound_timer == ticked.sound_timer,
                            self.keys@ == ticked.keys,
                            forall|j: int|
                                0 <= j < 16 && j != 15 ==> self.regs@[j] == ticked.regs[j],
                            self.grid@ == draw_row(
                                row_grid,
                                row_vf,
                                row,
                                start_x as int,
                                final_y as int,
                                bit_i as int,
                            ).0,
                            self.regs@[15] == draw_row(
                                row_grid,
                                row_vf,
                                row,
                                start_x as int,
                                final_y as int,
                                bit_i as int,
                            ).1,
                        decreases 8 - bit_i,
                    {
                        let final_x: u16 = bit_i as u16 + start_x as u16;
                        if final_x <= (GRID_WIDTH - 1) as u16 && final_y <= (GRID_HEIGHT - 1)
                            as u16 {
                            let sh: u8 = 7 - bit_i;
                            if (row >> sh) & 1 != 0 {
                                let grid_pos: usize = (final_y as usize) * GRID_WIDTH + (
                                final_x as usize);
                                let prev: u8 = self.grid[grid_pos];
                                self.regs[0xf] = if prev == 1 {
                                    1
                                } else {
                                    0
                                };
                                self.grid[grid_pos] = prev ^ 1;
                            }
                        }
                        bit_i = bit_i + 1;
                    }
                    proof {
                        assert(self.grid@ == draw_sprite(
                            ticked.grid,
                            0u8,
                            ticked.memory,
                            ticked.address as int,
                            start_x as int,
                            start_y as int,
                            row_i as int + 1,
                        ).0 && self.regs@[15] == draw_sprite(
                            ticked.grid,
                            0u8,
                            ticked.memory,
                            ticked.address as int,
                            start_x as int,
                            start_y as int,
                            row_i as int + 1,
                        ).1);
                    }
                    row_i = row_i + 1;
                }
                self.inc_pc();
                proof {
                    reveal(step);
                    let gv = draw_sprite(
                        ticked.grid,
                        0u8,
                        ticked.memory,
                        ticked.address as int,
                        start_x as int,
                        start_y as int,
                        h as int,
                    );
                    assert(self.regs@ =~= ticked.regs.update(0xF, gv.1));
                    assert(step(old(self)@, *instruction, rnd) matches Ok(s1) && self@ =~= s1);
                }
            }

            _ => {
                return vstd::pervasive::unreached();
            }
        }

        Ok(())
    }
}

/// Relies on rand::random: an arbitrary byte from the thread-local
/// generator. Nothing is promised of the value; callers state what holds
/// of every outcome.
#[verifier::external_body]
fn random_byte() -> u8 {
    rand::random::<u8>()
}

impl CPU {
    /// Apply one decoded instruction, drawing the byte that
    /// `BitwiseRandom` consumes from an external randomness source. The
    /// transition is `step` for some byte; every other instruction's
    /// effect is independent of it.
    pub fn do_instruction(&mut self, instruction: &Instruction) -> (r: Result<(), Fault>)
        requires
            old(self)@.wf(),
            old(self).pc + 4 <= usize::MAX,
            old(self).stack@.len() > 0 ==> old(self).stack@.last() + 2 <= usize::MAX,
        ensures
            final(self)@.wf(),
            exists|b: u8|
                match #[trigger] step(old(self)@, *instruction, b) {
                    Ok(s) => r == Ok::<(), Fault>(()) && final(self)@ == s,
                    Err(f) => r == Err::<(), Fault>(f) && final(self)@ == tick_timers(
                        old(self)@,
                    ),
                },
    {
        let b = match instruction {
            Instruction::BitwiseRandom(_, _) => random_byte(),
            _ => 0,
        };
        let r = self.do_instruction_with(instruction, b);
        proof {
            assert(match step(old(self)@, *instruction, b) {
                Ok(s) => r == Ok::<(), Fault>(()) && self@ == s,
                Err(f) => r == Err::<(), Fault>(f) && self@ == tick_timers(old(self)@),
            });
        }
        r
    }
}

/// Idempotence of clearing: one ClearDisplay execution leaves the
/// framebuffer all zero, and a second ClearDisplay execution leaves the
/// framebuffer exactly as the first did.
pub proof fn lemma_clear_display_idempotent(s: CpuState, r1: u8, r2: u8)
    ensures
        step(s, Instruction::ClearDisplay, r1) matches Ok(s1) && (step(
            s1,
            Instruction::ClearDisplay,
            r2,
        ) matches Ok(s2) && s2.grid == s1.grid && s1.grid == Seq::new(
            GRID_LEN as nat,
            |i: int| 0u8,
        )),
{
    reveal(step);
    assert(step(s, Instruction::ClearDisplay, r1) matches Ok(s1) && s1.grid =~= Seq::new(
        GRID_LEN as nat,
        |i: int| 0u8,
    ));
}

/// The blocking wait blocks: while the key awaited by WaitForPress is up,
/// execution leaves the program counter, the registers and the key state
/// unchanged, so repeated execute calls keep re-executing the same
/// instruction (shown for two consecutive calls).
pub proof fn lemma_wait_for_press_blocks(s: CpuState, x: u8, r1: u8, r2: u8)
    requires
        x < 16,
        s.regs[x as int] < 16,
        s.keys[s.regs[x as int] as int] != 1,
    ensures
        step(s, Instruction::WaitForPress(x), r1) matches Ok(s1) && s1.pc == s.pc && s1.regs
            == s.regs && s1.keys == s.keys && (step(s1, Instruction::WaitForPress(x), r2) matches Ok(
            s2,
        ) && s2.pc == s.pc),
{
    reveal(step);
}

/// The blocking wait unblocks: once the awaited key is down, the next
/// execute call advances the program counter normally, past one
/// instruction.
pub proof fn lemma_wait_for_press_advances(s: CpuState, x: u8, r1: u8)
    requires
        x < 16,
        s.regs[x as int] < 16,
        s.keys[s.regs[x as int] as int] == 1,
        s.pc + 2 <= usize::MAX,
    ensures
        step(s, Instruction::WaitForPress(x), r1) matches Ok(s1) && s1.pc == s.pc + 2,
{
    reveal(step);
}

/// Only BitwiseRandom reads the externally supplied byte: for every other
/// instruction the transition is the same whatever byte came back, so
/// execution is deterministic.
pub proof fn lemma_step_ignores_rnd(s: CpuState, instr: Instruction, r1: u8, r2: u8)
    requires
        !(instr is BitwiseRandom),
    ensures
        step(s, instr, r1) == step(s, instr, r2),
{
    reveal(step);
}

/// Carry convention of Add: the destination register wraps modulo 256 and
/// the flag register records whether the unwrapped sum exceeded 255, from
/// the pre-instruction values. Stated for destinations other than the flag
/// register itself, which the flag write would overwrite.
pub proof fn lemma_add_carry(s: CpuState, x: u8, y: u8, rnd: u8)
    requires
        s.wf(),
        x < 0x10,
        y < 0x10,
        x != 0xF,
    ensures
        step(s, Instruction::Add(x, y), rnd) matches Ok(s1) && s1.regs[x as int]
            == u8_specs::wrapping_add(s.regs[x as int], s.regs[y as int]) && s1.regs[0xF] == (
        if s.regs[x as int] + s.regs[y as int] > 0xFF {
            1u8
        } else {
            0u8
        }) && s1.pc == (s.pc + 2) as usize,
{
    reveal(step);
}

/// Borrow convention of Subtract: the destination register wraps modulo
/// 256 and the flag register is 1 exactly when no borrow occurred, i.e.
/// when X held more than Y before the subtraction. Stated for destinations
/// other than the flag register itself, which the result write would
/// overwrite.
pub proof fn lemma_subtract_borrow(s: CpuState, x: u8, y: u8, rnd: u8)
    requires
        s.wf(),
        x < 0x10,
        y < 0x10,
        x != 0xF,
    ensures
        step(s, Instruction::Subtract(x, y), rnd) matches Ok(s1) && s1.regs[x as int]
            == u8_specs::wrapping_sub(s.regs[x as int], s.regs[y as int]) && s1.regs[0xF] == (
        if s.regs[x as int] > s.regs[y as int] {
            1u8
        } else {
            0u8
        }) && s1.pc == (s.pc + 2) as usize,
{
    reveal(step);
}

} // verus!
