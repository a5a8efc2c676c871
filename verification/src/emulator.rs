//! The executable machine.
//!
//! `Emulator` owns all machine state.  Its view is a `MachineView`, and
//! every method's contract is an equation between views: construction
//! and reset produce `initial_view` / `reset_view`, loading produces
//! `load_view`, and one `cycle` realises `cycle_spec` for the random
//! byte it drew.

use vstd::prelude::*;

use crate::semantics::{
    advanced_pc, cycle_spec, draw_collision, draw_contrib, draw_screen, draw_view, exec_op,
    fetched_op, highest_pressed, load_regs, store_regs, tick_timers, CycleEvent, EmuError,
};
use crate::state::{font_table, initial_view, load_view, reset_view, wf, MachineView, WaitState};

verus! {

/// One CHIP-8 machine: memory, registers, timers, call stack, keypad,
/// display buffer and wait status.
#[derive(Debug)]
pub struct Emulator {
    /// 4096 bytes of memory, font at the bottom.
    memory: Vec<u8>,
    /// The sixteen general registers V0-VF.
    v: Vec<u8>,
    /// Sound timer.
    st: u8,
    /// Delay timer.
    dt: u8,
    /// Program counter.
    pc: u16,
    /// Address register I.
    i: u16,
    /// Live return addresses; its length is the stack pointer.
    stack: Vec<u16>,
    /// Key-down flags for the sixteen keys.
    key: Vec<bool>,
    /// 2048 pixel cells, row-major, 64 per row.
    screen: Vec<u8>,
    /// True when the display changed since the host last asked.
    draw: bool,
    /// Running, or suspended on the wait-for-key instruction.
    wait: WaitState,
}

impl View for Emulator {
    type V = MachineView;

    closed spec fn view(&self) -> MachineView {
        MachineView {
            mem: self.memory@,
            regs: self.v@,
            ireg: self.i,
            pc: self.pc,
            delay: self.dt,
            sound: self.st,
            stack: self.stack@,
            keys: self.key@,
            screen: self.screen@,
            draw: self.draw,
            wait: self.wait,
        }
    }
}

/// A vector of `n` zero bytes.
fn zero_bytes(n: usize) -> (r: Vec<u8>)
    ensures
        r@ == Seq::new(n as nat, |k: int| 0u8),
{
    let mut r: Vec<u8> = Vec::new();
    while r.len() < n
        invariant
            r@.len() <= n,
            forall|k: int| 0 <= k < r@.len() ==> r@[k] == 0u8,
        decreases n - r@.len(),
    {
        r.push(0u8);
    }
    proof {
        assert(r@ =~= Seq::new(n as nat, |k: int| 0u8));
    }
    r
}

/// A vector of `n` cleared key flags.
fn zero_bools(n: usize) -> (r: Vec<bool>)
    ensures
        r@ == Seq::new(n as nat, |k: int| false),
{
    let mut r: Vec<bool> = Vec::new();
    while r.len() < n
        invariant
            r@.len() <= n,
            forall|k: int| 0 <= k < r@.len() ==> r@[k] == false,
        decreases n - r@.len(),
    {
        r.push(false);
    }
    proof {
        assert(r@ =~= Seq::new(n as nat, |k: int| false));
    }
    r
}

/// The built-in font, five bytes per hexadecimal digit.
fn font_data() -> (r: Vec<u8>)
    ensures
        r@ == font_table(),
{
    let mut r: Vec<u8> = Vec::new();
    r.push(0xF0);
    r.push(0x90);
    r.push(0x90);
    r.push(0x90);
    r.push(0xF0);
    r.push(0x20);
    r.push(0x60);
    r.push(0x20);
    r.push(0x20);
    r.push(0x70);
    r.push(0xF0);
    r.push(0x10);
    r.push(0xF0);
    r.push(0x80);
    r.push(0xF0);
    r.push(0xF0);
    r.push(0x10);
    r.push(0xF0);
    r.push(0x10);
    r.push(0xF0);
    r.push(0x90);
    r.push(0x90);
    r.push(0xF0);
    r.push(0x10);
    r.push(0x10);
    r.push(0xF0);
    r.push(0x80);
    r.push(0xF0);
    r.push(0x10);
    r.push(0xF0);
    r.push(0xF0);
    r.push(0x80);
    r.push(0xF0);
    r.push(0x90);
    r.push(0xF0);
    r.push(0xF0);
    r.push(0x10);
    r.push(0x20);
    r.push(0x40);
    r.push(0x40);
    r.push(0xF0);
    r.push(0x90);
    r.push(0xF0);
    r.push(0x90);
    r.push(0xF0);
    r.push(0xF0);
    r.push(0x90);
    r.push(0xF0);
    r.push(0x10);
    r.push(0xF0);
    r.push(0xF0);
    r.push(0x90);
    r.push(0xF0);
    r.push(0x90);
    r.push(0x90);
    r.push(0xE0);
    r.push(0x90);
    r.push(0xE0);
    r.push(0x90);
    r.push(0xE0);
    r.push(0xF0);
    r.push(0x80);
    r.push(0x80);
    r.push(0x80);
    r.push(0xF0);
    r.push(0xE0);
    r.push(0x90);
    r.push(0x90);
    r.push(0x90);
    r.push(0xE0);
    r.push(0xF0);
    r.push(0x80);
    r.push(0xF0);
    r.push(0x80);
    r.push(0xF0);
    r.push(0xF0);
    r.push(0x80);
    r.push(0xF0);
    r.push(0x80);
    r.push(0x80);
    proof {
        assert(r@ =~= font_table());
    }
    r
}

/// Memory as construction leaves it: the font, then zeroes.
fn fresh_memory() -> (r: Vec<u8>)
    ensures
        r@ == initial_view().mem,
{
    let mut r = font_data();
    while r.len() < 4096
        invariant
            80 <= r@.len() <= 4096,
            forall|a: int| 0 <= a < 80 ==> r@[a] == font_table()[a],
            forall|a: int| 80 <= a < r@.len() ==> r@[a] == 0u8,
        decreases 4096 - r@.len(),
    {
        r.push(0u8);
    }
    proof {
        assert(r@ =~= initial_view().mem);
    }
    r
}

impl Emulator {
    /// A fresh machine: font preloaded, everything else zeroed, the
    /// program counter at 512.
    pub fn new() -> (e: Emulator)
        ensures
            e@ == initial_view(),
            wf(e@),
    {
        let e = Emulator {
            memory: fresh_memory(),
            v: zero_bytes(16),
            st: 0,
            dt: 0,
            pc: 512,
            i: 0,
            stack: Vec::new(),
            key: zero_bools(16),
            screen: zero_bytes(crate::SCREEN_WIDTH * crate::SCREEN_HEIGHT),
            draw: false,
            wait: WaitState::Running,
        };
        proof {
            assert(e@ =~~= initial_view());
        }
        e
    }

    /// Reset every mutable component except memory, so the loaded
    /// program runs again from the start.
    pub fn reset(&mut self)
        requires
            wf(old(self)@),
        ensures
            final(self)@ == reset_view(old(self)@),
            wf(final(self)@),
    {
        self.v = zero_bytes(16);
        self.st = 0;
        self.dt = 0;
        self.pc = 512;
        self.i = 0;
        self.stack = Vec::new();
        self.key = zero_bools(16);
        self.screen = zero_bytes(crate::SCREEN_WIDTH * crate::SCREEN_HEIGHT);
        self.draw = false;
        self.wait = WaitState::Running;
        proof {
            assert(self@ =~~= reset_view(old(self)@));
        }
    }

    /// Set one key-down flag from the host.  An index past the sixteen
    /// keys is the host's fatal contract violation and changes nothing.
    pub fn set_key_state(&mut self, index: usize, down: bool) -> (r: Result<(), EmuError>)
        requires
            wf(old(self)@),
        ensures
            wf(final(self)@),
            index < 16 ==> r == Ok::<(), EmuError>(()) && final(self)@ == (MachineView {
                keys: old(self)@.keys.update(index as int, down),
                ..old(self)@
            }),
            index >= 16 ==> r == Err::<(), EmuError>(EmuError::InvalidKeyIndex) && final(self)@
                == old(self)@,
    {
        if index >= 16 {
            return Err(EmuError::InvalidKeyIndex);
        }
        self.key[index] = down;
        Ok(())
    }

    /// Load a program image at address 512, byte for byte.  An image
    /// longer than the 3584 bytes of program memory is a fatal load
    /// error and changes nothing.
    pub fn load_program(&mut self, program: &Vec<u8>) -> (r: Result<(), EmuError>)
        requires
            wf(old(self)@),
        ensures
            wf(final(self)@),
            program@.len() <= 3584 ==> r == Ok::<(), EmuError>(()) && final(self)@ == load_view(
                old(self)@,
                program@,
            ),
            program@.len() > 3584 ==> r == Err::<(), EmuError>(EmuError::ProgramTooLarge)
                && final(self)@ == old(self)@,
    {
        if program.len() > crate::MEMORY_SIZE - crate::PROGRAM_START {
            return Err(EmuError::ProgramTooLarge);
        }
        let ghost s0 = self@;
        let mut idx: usize = 0;
        while idx < program.len()
            invariant
                wf(s0),
                program@.len() <= 3584,
                idx <= program@.len(),
                self@.mem.len() == 4096,
                forall|a: int|
                    512 <= a < 512 + idx ==> self@.mem[a] == program@[a - 512],
                forall|a: int|
                    0 <= a < 4096 && !(512 <= a < 512 + idx) ==> self@.mem[a] == s0.mem[a],
                self@.regs == s0.regs,
                self@.ireg == s0.ireg,
                self@.pc == s0.pc,
                self@.delay == s0.delay,
                self@.sound == s0.sound,
                self@.stack == s0.stack,
                self@.keys == s0.keys,
                self@.screen == s0.screen,
                self@.draw == s0.draw,
                self@.wait == s0.wait,
            decreases program@.len() - idx,
        {
            self.memory[512 + idx] = program[idx];
            idx += 1;
        }
        proof {
            assert(self@.mem =~= load_view(s0, program@).mem);
            assert(self@ =~~= load_view(s0, program@));
        }
        Ok(())
    }

    /// The display buffer: 2048 cells, row-major, 64 per row, each 0
    /// or 1.
    pub fn get_screen(&self) -> (r: &Vec<u8>)
        ensures
            r@ == self@.screen,
    {
        &self.screen
    }

    /// Whether the display changed since the last call; asking clears
    /// the flag, so each change is reported exactly once.
    pub fn should_draw(&mut self) -> (r: bool)
        ensures
            r == old(self)@.draw,
            final(self)@ == (MachineView { draw: false, ..old(self)@ }),
    {
        let sd = self.draw;
        self.draw = false;
        proof {
            assert(self@ =~~= (MachineView { draw: false, ..old(self)@ }));
        }
        sd
    }

    /// One general register.
    pub fn get_reg(&self, idx: usize) -> (r: u8)
        requires
            wf(self@),
            idx < 16,
        ensures
            r == self@.regs[idx as int],
    {
        self.v[idx]
    }

    /// The program counter.
    pub fn get_pc(&self) -> (r: u16)
        ensures
            r == self@.pc,
    {
        self.pc
    }

    /// The address register I.
    pub fn get_ireg(&self) -> (r: u16)
        ensures
            r == self@.ireg,
    {
        self.i
    }

    /// The delay timer.
    pub fn get_delay_timer(&self) -> (r: u8)
        ensures
            r == self@.delay,
    {
        self.dt
    }

    /// The sound timer.
    pub fn get_sound_timer(&self) -> (r: u8)
        ensures
            r == self@.sound,
    {
        self.st
    }

    /// How many return addresses are stacked.
    pub fn stack_depth(&self) -> (r: usize)
        ensures
            r == self@.stack.len(),
    {
        self.stack.len()
    }

    /// One byte of memory.
    pub fn read_mem(&self, addr: usize) -> (r: u8)
        requires
            wf(self@),
            addr < 4096,
        ensures
            r == self@.mem[addr as int],
    {
        self.memory[addr]
    }

    /// The guarded default advance of the program counter by one
    /// instruction width.
    fn next_instruction(&mut self)
        requires
            old(self)@.pc < 4096,
        ensures
            final(self)@ == (MachineView { pc: advanced_pc(old(self)@.pc), ..old(self)@ }),
    {
        if self.pc + 2 < 0xFFF {
            self.pc = self.pc + 2;
        }
        proof {
            assert(self@ =~~= (MachineView { pc: advanced_pc(old(self)@.pc), ..old(self)@ }));
        }
    }

    /// The sprite draw: walk every display cell, toggle it when the
    /// sprite contributes a set bit there, and record whether any lit
    /// cell was erased.  VF receives the collision flag as the last
    /// register write, and the dirty flag is set.
    fn exec_draw(&mut self, vx: u8, vy: u8, n: usize)
        requires
            wf(old(self)@),
            n < 16,
        ensures
            wf(final(self)@),
            final(self)@ == draw_view(old(self)@, vx, vy, n as int),
    {
        let ghost d0 = self@;
        let vxm: usize = (vx % 64) as usize;
        let vym: usize = (vy % 32) as usize;
        let mut coll: bool = false;
        let mut idx: usize = 0;
        while idx < 2048
            invariant
                wf(d0),
                n < 16,
                idx <= 2048,
                vxm == vx as int % 64,
                vym == vy as int % 32,
                self@.mem == d0.mem,
                self@.regs == d0.regs,
                self@.ireg == d0.ireg,
                self@.pc == d0.pc,
                self@.delay == d0.delay,
                self@.sound == d0.sound,
                self@.stack == d0.stack,
                self@.keys == d0.keys,
                self@.draw == d0.draw,
                self@.wait == d0.wait,
                self@.screen.len() == 2048,
                forall|p: int|
                    0 <= p < idx ==> self@.screen[p] == draw_screen(d0, vx, vy, n as int)[p],
                forall|p: int| idx <= p < 2048 ==> self@.screen[p] == d0.screen[p],
                coll <==> exists|p: int|
                    0 <= p < idx && d0.screen[p] == 1 && #[trigger] draw_contrib(
                        d0,
                        vx,
                        vy,
                        n as int,
                        p,
                    ) == 1,
            decreases 2048 - idx,
        {
            let row = idx / 64;
            let col = idx % 64;
            let dj = (row + 32 - vym) % 32;
            let mut sprite_bit: u8 = 0;
            if dj < n {
                let di = (col + 64 - vxm) % 64;
                if di < 8 {
                    let addr = (self.i as usize + dj) % 4096;
                    let b = self.memory[addr];
                    let divisor: u8 = if di == 0 {
                        128
                    } else if di == 1 {
                        64
                    } else if di == 2 {
                        32
                    } else if di == 3 {
                        16
                    } else if di == 4 {
                        8
                    } else if di == 5 {
                        4
                    } else if di == 6 {
                        2
                    } else {
                        1
                    };
                    sprite_bit = (b / divisor) % 2;
                }
            }
            proof {
                assert(sprite_bit as int == draw_contrib(d0, vx, vy, n as int, idx as int));
            }
            if sprite_bit == 1 {
                if self.screen[idx] == 1 {
                    coll = true;
                    self.screen[idx] = 0;
                } else {
                    self.screen[idx] = 1;
                }
            }
            idx += 1;
        }
        proof {
            assert(self@.screen =~= draw_screen(d0, vx, vy, n as int));
            assert(coll == draw_collision(d0, vx, vy, n as int));
        }
        self.v[15] = if coll {
            1
        } else {
            0
        };
        self.draw = true;
        proof {
            assert(self@ =~~= draw_view(d0, vx, vy, n as int));
        }
    }

    /// Execute one decoded instruction word: the guarded default
    /// advance of the program counter, then the family dispatch.  The
    /// result equals the abstract execution for the random byte that
    /// was drawn.
    #[verifier::rlimit(100)]
    fn process_opcode(&mut self, op: u16) -> (r: Result<CycleEvent, EmuError>)
        requires
            wf(old(self)@),
        ensures
            wf(final(self)@),
            exists|rnd: u8| #[trigger] exec_op(old(self)@, op, rnd) == (final(self)@, r),
    {
        let ghost s0 = self@;
        let x = ((op / 0x100) % 0x10) as usize;
        let y = ((op / 0x10) % 0x10) as usize;
        let nnn = op % 0x1000;
        let kk = (op % 0x100) as u8;
        let n = op % 0x10;
        let vx = self.v[x];
        let vy = self.v[y];
        if self.pc + 2 < 0xFFF {
            self.pc = self.pc + 2;
        }
        proof {
            assert(self@ =~~= (MachineView { pc: advanced_pc(s0.pc), ..s0 }));
        }
        let fam = op / 0x1000;
        let r: Result<CycleEvent, EmuError> = if fam == 0x0 {
            if kk == 0xE0 {
                self.screen = zero_bytes(crate::SCREEN_WIDTH * crate::SCREEN_HEIGHT);
                self.draw = true;
                Ok(CycleEvent::Executed(op))
            } else if kk == 0xEE {
                let depth = self.stack.len();
                if depth == 0 {
                    Err(EmuError::StackUnderflow)
                } else {
                    let ra = self.stack[depth - 1];
                    let _ = self.stack.pop();
                    self.pc = ra;
                    Ok(CycleEvent::Executed(op))
                }
            } else {
                Ok(CycleEvent::Executed(op))
            }
        } else if fam == 0x1 {
            self.pc = nnn;
            Ok(CycleEvent::Executed(op))
        } else if fam == 0x2 {
            if self.stack.len() >= 16 {
                Err(EmuError::StackOverflow)
            } else {
                self.stack.push(self.pc);
                self.pc = nnn;
                Ok(CycleEvent::Executed(op))
            }
        } else if fam == 0x3 {
            if vx == kk {
                self.next_instruction();
            }
            Ok(CycleEvent::Executed(op))
        } else if fam == 0x4 {
            if vx != kk {
                self.next_instruction();
            }
            Ok(CycleEvent::Executed(op))
        } else if fam == 0x5 {
            if vx == vy {
                self.next_instruction();
            }
            Ok(CycleEvent::Executed(op))
        } else if fam == 0x6 {
            self.v[x] = kk;
            Ok(CycleEvent::Executed(op))
        } else if fam == 0x7 {
            let sum = vx as u16 + kk as u16;
            self.v[x] = if sum > 255 {
                255
            } else {
                sum as u8
            };
            Ok(CycleEvent::Executed(op))
        } else if fam == 0x8 {
            if n == 0x0 {
                self.v[x] = vy;
                Ok(CycleEvent::Executed(op))
            } else if n == 0x1 {
                self.v[x] = vx | vy;
                Ok(CycleEvent::Executed(op))
            } else if n == 0x2 {
                self.v[x] = vx & vy;
                Ok(CycleEvent::Executed(op))
            } else if n == 0x3 {
                self.v[x] = vx ^ vy;
                Ok(CycleEvent::Executed(op))
            } else if n == 0x4 {
                let sum = vx as u16 + vy as u16;
                self.v[x] = (sum % 256) as u8;
                self.v[15] = if sum > 255 {
                    1
                } else {
                    0
                };
                Ok(CycleEvent::Executed(op))
            } else if n == 0x5 {
                self.v[x] = if vx >= vy {
                    vx - vy
                } else {
                    0
                };
                self.v[15] = if vx > vy {
                    1
                } else {
                    0
                };
                Ok(CycleEvent::Executed(op))
            } else if n == 0x6 {
                self.v[x] = vx / 2;
                self.v[15] = vx % 2;
                Ok(CycleEvent::Executed(op))
            } else if n == 0x7 {
                self.v[x] = if vy >= vx {
                    vy - vx
                } else {
                    0
                };
                self.v[15] = if vy > vx {
                    1
                } else {
                    0
                };
                Ok(CycleEvent::Executed(op))
            } else if n == 0xE {
                let dbl = (vy as u16 * 2) % 256;
                self.v[x] = dbl as u8;
                self.v[15] = vy / 128;
                Ok(CycleEvent::Executed(op))
            } else {
                Ok(CycleEvent::InvalidOpcode(op))
            }
        } else if fam == 0x9 {
            if vx != vy {
                self.next_instruction();
            }
            Ok(CycleEvent::Executed(op))
        } else if fam == 0xA {
            self.i = nnn;
            Ok(CycleEvent::Executed(op))
        } else if fam == 0xB {
            let target = ((nnn as usize) + (self.v[0] as usize)) % 4096;
            self.pc = target as u16;
            Ok(CycleEvent::Executed(op))
        } else if fam == 0xC {
            let rnd = crate::rng::random_byte();
            self.v[x] = rnd & kk;
            proof {
                let (tv, te) = exec_op(s0, op, rnd);
                assert(self@ =~~= tv);
            }
            Ok(CycleEvent::Executed(op))
        } else if fam == 0xD {
            self.exec_draw(vx, vy, n as usize);
            Ok(CycleEvent::Executed(op))
        } else if fam == 0xE {
            let ki = (vx % 16) as usize;
            if kk == 0x9E {
                if self.key[ki] {
                    self.next_instruction();
                }
                Ok(CycleEvent::Executed(op))
            } else if kk == 0xA1 {
                if !self.key[ki] {
                    self.next_instruction();
                }
                Ok(CycleEvent::Executed(op))
            } else {
                Ok(CycleEvent::InvalidOpcode(op))
            }
        } else {
            if kk == 0x07 {
                self.v[x] = self.dt;
                Ok(CycleEvent::Executed(op))
            } else if kk == 0x0A {
                self.wait = WaitState::AwaitingKey(x as u8);
                Ok(CycleEvent::Executed(op))
            } else if kk == 0x15 {
                self.dt = vx;
                Ok(CycleEvent::Executed(op))
            } else if kk == 0x18 {
                self.st = vx;
                Ok(CycleEvent::Executed(op))
            } else if kk == 0x1E {
                let ni = ((self.i as u32) + (vx as u32)) % 0x10000;
                self.i = ni as u16;
                Ok(CycleEvent::Executed(op))
            } else if kk == 0x29 {
                self.i = (vx as u16) * 5;
                Ok(CycleEvent::Executed(op))
            } else if kk == 0x33 {
                let base = self.i as usize;
                self.memory[base % 4096] = vx / 100;
                self.memory[(base + 1) % 4096] = (vx / 10) % 10;
                self.memory[(base + 2) % 4096] = vx % 10;
                Ok(CycleEvent::Executed(op))
            } else if kk == 0x55 {
                let ghost s1v = self@;
                let mut k: usize = 0;
                while k < x + 1
                    invariant
                        wf(s0),
                        x < 16,
                        k <= x + 1,
                        s1v == (MachineView { pc: advanced_pc(s0.pc), ..s0 }),
                        self@.mem.len() == 4096,
                        self@ == (MachineView {
                            mem: store_regs(s0.mem, s0.regs, s0.ireg, k as int),
                            ..s1v
                        }),
                    decreases x + 1 - k,
                {
                    let val = self.v[k];
                    self.memory[(self.i as usize + k) % 4096] = val;
                    k += 1;
                    proof {
                        assert(self@ =~~= (MachineView {
                            mem: store_regs(s0.mem, s0.regs, s0.ireg, k as int),
                            ..s1v
                        }));
                    }
                }
                let ni = ((self.i as u32) + (x as u32) + 1) % 0x10000;
                self.i = ni as u16;
                Ok(CycleEvent::Executed(op))
            } else if kk == 0x65 {
                let ghost s1v = self@;
                let mut k: usize = 0;
                while k < x + 1
                    invariant
                        wf(s0),
                        x < 16,
                        k <= x + 1,
                        s1v == (MachineView { pc: advanced_pc(s0.pc), ..s0 }),
                        self@.regs.len() == 16,
                        self@ == (MachineView {
                            regs: load_regs(s0.regs, s0.mem, s0.ireg, k as int),
                            ..s1v
                        }),
                    decreases x + 1 - k,
                {
                    let val = self.memory[(self.i as usize + k) % 4096];
                    self.v[k] = val;
                    k += 1;
                    proof {
                        assert(self@ =~~= (MachineView {
                            regs: load_regs(s0.regs, s0.mem, s0.ireg, k as int),
                            ..s1v
                        }));
                    }
                }
                let ni = ((self.i as u32) + (x as u32) + 1) % 0x10000;
                self.i = ni as u16;
                Ok(CycleEvent::Executed(op))
            } else {
                Ok(CycleEvent::InvalidOpcode(op))
            }
        };
        proof {
            // The random-number family already matched itself against the
            // byte it drew; every other family is deterministic, so any
            // byte serves as the witness.
            if fam != 0xC {
                let (tv, te) = exec_op(s0, op, 0u8);
                assert(self@ =~~= tv);
                assert(r == te);
            }
        }
        r
    }

    /// One machine cycle.  While suspended on the wait-for-key
    /// instruction the machine only watches the keypad: with no key
    /// down nothing changes at all, and the highest key that is down
    /// ends the wait.  Otherwise the word at the program counter is
    /// fetched big-endian, executed, and the timers tick; a fatal
    /// condition is returned as the error the instruction raised, with
    /// the timers untouched.
    pub fn cycle(&mut self) -> (r: Result<CycleEvent, EmuError>)
        requires
            wf(old(self)@),
        ensures
            wf(final(self)@),
            exists|rnd: u8| #[trigger] cycle_spec(old(self)@, rnd) == (final(self)@, r),
    {
        let ghost s0 = self@;
        match self.wait {
            WaitState::AwaitingKey(wx) => {
                let mut best: usize = 16;
                let mut j: usize = 0;
                while j < 16
                    invariant
                        wf(s0),
                        self@ == s0,
                        j <= 16,
                        (best == 16 && highest_pressed(s0.keys, j as int) == -1) || (best < 16
                            && best as int == highest_pressed(s0.keys, j as int)),
                    decreases 16 - j,
                {
                    if self.key[j] {
                        best = j;
                    }
                    j += 1;
                }
                if best < 16 {
                    self.v[wx as usize] = best as u8;
                    self.wait = WaitState::Running;
                    proof {
                        assert(self@ =~~= cycle_spec(s0, 0u8).0);
                    }
                    Ok(CycleEvent::KeyReceived(best as u8))
                } else {
                    proof {
                        assert(cycle_spec(s0, 0u8) == (self@, Ok::<CycleEvent, EmuError>(
                            CycleEvent::KeyWait,
                        )));
                    }
                    Ok(CycleEvent::KeyWait)
                }
            },
            WaitState::Running => {
                let hi = self.memory[self.pc as usize];
                let lo = self.memory[((self.pc as usize) + 1) % 4096];
                let op = (hi as u16) * 256 + (lo as u16);
                proof {
                    assert(op == fetched_op(s0));
                }
                let r = self.process_opcode(op);
                let ghost smid = self@;
                let ghost rnd = choose|rnd: u8| exec_op(s0, op, rnd) == (smid, r);
                match r {
                    Ok(ev) => {
                        if self.dt > 0 {
                            self.dt = self.dt - 1;
                        }
                        if self.st > 0 {
                            self.st = self.st - 1;
                        }
                        proof {
                            assert(self@ =~~= tick_timers(smid));
                            assert(cycle_spec(s0, rnd) == (self@, r));
                        }
                        Ok(ev)
                    },
                    Err(e) => {
                        proof {
                            assert(cycle_spec(s0, rnd) == (self@, r));
                        }
                        Err(e)
                    },
                }
            },
        }
    }
}

} // verus!
