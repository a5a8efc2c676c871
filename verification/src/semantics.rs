//! The instruction semantics, as pure functions on `MachineView`.
//!
//! `cycle_spec` is the abstract transition of one machine cycle; the
//! executable emulator is proved to realise it exactly, with the random
//! byte drawn for the random-number instruction as an explicit
//! parameter.  All decoding is arithmetic: nibbles are quotients and
//! remainders of the 16-bit instruction word.

use vstd::prelude::*;

use crate::state::{MachineView, WaitState};

verus! {

/// What one cycle reports back to the host, beyond its state changes.
#[derive(Clone, Copy, Debug, PartialEq, Eq, Structural)]
pub enum CycleEvent {
    /// The word that was fetched and executed.
    Executed(u16),
    /// The word did not decode to any instruction; it was skipped over
    /// and is reported for diagnostics.
    InvalidOpcode(u16),
    /// The machine is suspended on the wait-for-key instruction and no
    /// key is down; nothing was fetched and nothing changed.
    KeyWait,
    /// The wait-for-key instruction ended: this key index was stored.
    KeyReceived(u8),
}

/// The fatal conditions: they end the emulated session, and the state
/// they leave behind is pinned down by the transition function.
#[derive(Clone, Copy, Debug, PartialEq, Eq, Structural)]
pub enum EmuError {
    /// A program image longer than the 3584 bytes above address 512.
    ProgramTooLarge,
    /// A subroutine call with 16 return addresses already stacked.
    StackOverflow,
    /// A subroutine return with no return address stacked.
    StackUnderflow,
    /// A keypad index of 16 or more from the host.
    InvalidKeyIndex,
}

/// Top nibble of an instruction word: the opcode family.
pub open spec fn op_family(op: u16) -> int {
    op as int / 0x1000
}

/// Second nibble: the register index x.
pub open spec fn op_x(op: u16) -> int {
    (op as int / 0x100) % 0x10
}

/// Third nibble: the register index y.
pub open spec fn op_y(op: u16) -> int {
    (op as int / 0x10) % 0x10
}

/// Low nibble: the count operand n.
pub open spec fn op_n(op: u16) -> int {
    op as int % 0x10
}

/// Low byte: the immediate operand kk.
pub open spec fn op_kk(op: u16) -> u8 {
    (op as int % 0x100) as u8
}

/// Low twelve bits: the address operand nnn.
pub open spec fn op_nnn(op: u16) -> u16 {
    (op as int % 0x1000) as u16
}

/// The default advance of the program counter by one instruction,
/// guarded so the counter never runs past the addressable range.
pub open spec fn advanced_pc(pc: u16) -> u16 {
    if pc + 2 < 0xFFF {
        (pc + 2) as u16
    } else {
        pc
    }
}

/// The instruction word at the program counter, big-endian; the second
/// byte wraps to the bottom of memory at the very top address.
pub open spec fn fetched_op(s: MachineView) -> u16 {
    ((s.mem[s.pc as int] as int) * 256 + (s.mem[(s.pc as int + 1) % 4096] as int)) as u16
}

/// Both timers decrement toward zero at the end of a cycle.
pub open spec fn tick_timers(s: MachineView) -> MachineView {
    MachineView {
        delay: if s.delay > 0 { (s.delay - 1) as u8 } else { 0u8 },
        sound: if s.sound > 0 { (s.sound - 1) as u8 } else { 0u8 },
        ..s
    }
}

/// The highest key index below `n` whose key is down, or -1 if none is.
pub open spec fn highest_pressed(keys: Seq<bool>, n: int) -> int
    decreases n,
{
    if n <= 0 {
        -1
    } else if keys[n - 1] {
        n - 1
    } else {
        highest_pressed(keys, n - 1)
    }
}

/// Memory after the bulk register dump: registers 0 up to `cnt` - 1
/// written to consecutive addresses from `base` on, reduced into the
/// address space.
pub open spec fn store_regs(mem: Seq<u8>, regs: Seq<u8>, base: u16, cnt: int) -> Seq<u8>
    decreases cnt,
{
    if cnt <= 0 {
        mem
    } else {
        store_regs(mem, regs, base, cnt - 1).update(
            (base as int + (cnt - 1)) % 4096,
            regs[cnt - 1],
        )
    }
}

/// Registers after the bulk register load: registers 0 up to `cnt` - 1
/// read from consecutive addresses from `base` on.
pub open spec fn load_regs(regs: Seq<u8>, mem: Seq<u8>, base: u16, cnt: int) -> Seq<u8>
    decreases cnt,
{
    if cnt <= 0 {
        regs
    } else {
        load_regs(regs, mem, base, cnt - 1).update(
            cnt - 1,
            mem[(base as int + (cnt - 1)) % 4096],
        )
    }
}

/// The power of two that isolates sprite column `di` (most significant
/// bit first) when dividing a sprite byte.
pub open spec fn bit_div(di: int) -> int {
    if di == 0 {
        128
    } else if di == 1 {
        64
    } else if di == 2 {
        32
    } else if di == 3 {
        16
    } else if di == 4 {
        8
    } else if di == 5 {
        4
    } else if di == 6 {
        2
    } else {
        1
    }
}

/// Whether the sprite of `n` rows drawn at (vx, vy) contributes a set
/// bit to display cell `idx`.  Coordinates wrap on both axes, so the
/// sprite row and column covering a cell are recovered by modular
/// differences; the sprite byte for a row comes from the memory the
/// address register points to.
pub open spec fn draw_contrib(s: MachineView, vx: u8, vy: u8, n: int, idx: int) -> int {
    let row = idx / 64;
    let col = idx % 64;
    let dj = (row + 32 - (vy as int % 32)) % 32;
    let di = (col + 64 - (vx as int % 64)) % 64;
    if dj < n && di < 8 {
        (s.mem[(s.ireg as int + dj) % 4096] as int / bit_div(di)) % 2
    } else {
        0
    }
}

/// A display cell after being toggled.
pub open spec fn flip(cell: u8) -> u8 {
    if cell == 1 {
        0u8
    } else {
        1u8
    }
}

/// The display buffer after the sprite draw: every covered cell with a
/// set sprite bit is toggled, every other cell keeps its value.
pub open spec fn draw_screen(s: MachineView, vx: u8, vy: u8, n: int) -> Seq<u8> {
    Seq::new(
        2048,
        |idx: int|
            if draw_contrib(s, vx, vy, n, idx) == 1 {
                flip(s.screen[idx])
            } else {
                s.screen[idx]
            },
    )
}

/// Whether the sprite draw erases at least one lit cell: the collision
/// reported in VF.
pub open spec fn draw_collision(s: MachineView, vx: u8, vy: u8, n: int) -> bool {
    exists|idx: int|
        0 <= idx < 2048 && s.screen[idx] == 1 && #[trigger] draw_contrib(s, vx, vy, n, idx) == 1
}

/// The whole machine after the sprite draw: new display buffer, the
/// collision flag in VF as the last register write, dirty flag set.
pub open spec fn draw_view(s: MachineView, vx: u8, vy: u8, n: int) -> MachineView {
    MachineView {
        screen: draw_screen(s, vx, vy, n),
        regs: s.regs.update(15, if draw_collision(s, vx, vy, n) { 1u8 } else { 0u8 }),
        draw: true,
        ..s
    }
}

/// Execution of one decoded instruction word against state `s`, with
/// `rnd` the byte drawn for the random-number instruction.  The program
/// counter first takes its guarded default advance; jumps, calls,
/// returns and skips then override it.  Every register write that
/// carries a flag into VF is the last register update of its
/// instruction.
///
/// Conventions this machine commits to:
/// - add-immediate saturates at 255 and never touches VF; the
///   register-register subtractions saturate at 0 with the not-borrow
///   flag in VF;
/// - the shifts put the bit shifted out into VF; shift-right halves Vx,
///   shift-left reads Vy and doubles it into Vx;
/// - every memory access through the address register I reduces the
///   address into the 4 KB space, and the I register itself wraps as a
///   16-bit quantity.
pub open spec fn exec_op(s: MachineView, op: u16, rnd: u8) -> (MachineView, Result<
    CycleEvent,
    EmuError,
>) {
    let s1 = MachineView { pc: advanced_pc(s.pc), ..s };
    let fam = op_family(op);
    let x = op_x(op);
    let y = op_y(op);
    let kk = op_kk(op);
    let nnn = op_nnn(op);
    let n = op_n(op);
    let vx = s.regs[x];
    let vy = s.regs[y];
    let done: Result<CycleEvent, EmuError> = Ok(CycleEvent::Executed(op));
    let invalid: Result<CycleEvent, EmuError> = Ok(CycleEvent::InvalidOpcode(op));
    if fam == 0x0 {
        if kk == 0xE0 {
            (MachineView { screen: Seq::new(2048, |p: int| 0u8), draw: true, ..s1 }, done)
        } else if kk == 0xEE {
            if s1.stack.len() == 0 {
                (s1, Err(EmuError::StackUnderflow))
            } else {
                (MachineView { pc: s1.stack.last(), stack: s1.stack.drop_last(), ..s1 }, done)
            }
        } else {
            // machine-code call: ignored
            (s1, done)
        }
    } else if fam == 0x1 {
        (MachineView { pc: nnn, ..s1 }, done)
    } else if fam == 0x2 {
        if s1.stack.len() >= 16 {
            (s1, Err(EmuError::StackOverflow))
        } else {
            (MachineView { stack: s1.stack.push(s1.pc), pc: nnn, ..s1 }, done)
        }
    } else if fam == 0x3 {
        (
            if vx == kk {
                MachineView { pc: advanced_pc(s1.pc), ..s1 }
            } else {
                s1
            },
            done,
        )
    } else if fam == 0x4 {
        (
            if vx != kk {
                MachineView { pc: advanced_pc(s1.pc), ..s1 }
            } else {
                s1
            },
            done,
        )
    } else if fam == 0x5 {
        (
            if vx == vy {
                MachineView { pc: advanced_pc(s1.pc), ..s1 }
            } else {
                s1
            },
            done,
        )
    } else if fam == 0x6 {
        (MachineView { regs: s.regs.update(x, kk), ..s1 }, done)
    } else if fam == 0x7 {
        let sum = vx as int + kk as int;
        (
            MachineView {
                regs: s.regs.update(
                    x,
                    if sum > 255 {
                        255u8
                    } else {
                        sum as u8
                    },
                ),
                ..s1
            },
            done,
        )
    } else if fam == 0x8 {
        if n == 0x0 {
            (MachineView { regs: s.regs.update(x, vy), ..s1 }, done)
        } else if n == 0x1 {
            (MachineView { regs: s.regs.update(x, vx | vy), ..s1 }, done)
        } else if n == 0x2 {
            (MachineView { regs: s.regs.update(x, vx & vy), ..s1 }, done)
        } else if n == 0x3 {
            (MachineView { regs: s.regs.update(x, vx ^ vy), ..s1 }, done)
        } else if n == 0x4 {
            let sum = vx as int + vy as int;
            (
                MachineView {
                    regs: s.regs.update(x, (sum % 256) as u8).update(
                        15,
                        if sum > 255 {
                            1u8
                        } else {
                            0u8
                        },
                    ),
                    ..s1
                },
                done,
            )
        } else if n == 0x5 {
            (
                MachineView {
                    regs: s.regs.update(
                        x,
                        if vx >= vy {
                            (vx - vy) as u8
                        } else {
                            0u8
                        },
                    ).update(
                        15,
                        if vx > vy {
                            1u8
                        } else {
                            0u8
                        },
                    ),
                    ..s1
                },
                done,
            )
        } else if n == 0x6 {
            (MachineView { regs: s.regs.update(x, vx / 2).update(15, vx % 2), ..s1 }, done)
        } else if n == 0x7 {
            (
                MachineView {
                    regs: s.regs.update(
                        x,
                        if vy >= vx {
                            (vy - vx) as u8
                        } else {
                            0u8
                        },
                    ).update(
                        15,
                        if vy > vx {
                            1u8
                        } else {
                            0u8
                        },
                    ),
                    ..s1
                },
                done,
            )
        } else if n == 0xE {
            (
                MachineView {
                    regs: s.regs.update(x, ((vy as int * 2) % 256) as u8).update(15, vy / 128),
                    ..s1
                },
                done,
            )
        } else {
            (s1, invalid)
        }
    } else if fam == 0x9 {
        (
            if vx != vy {
                MachineView { pc: advanced_pc(s1.pc), ..s1 }
            } else {
                s1
            },
            done,
        )
    } else if fam == 0xA {
        (MachineView { ireg: nnn, ..s1 }, done)
    } else if fam == 0xB {
        (MachineView { pc: ((nnn as int + s.regs[0] as int) % 4096) as u16, ..s1 }, done)
    } else if fam == 0xC {
        (MachineView { regs: s.regs.update(x, rnd & kk), ..s1 }, done)
    } else if fam == 0xD {
        (draw_view(s1, vx, vy, n), done)
    } else if fam == 0xE {
        if kk == 0x9E {
            (
                if s.keys[vx as int % 16] {
                    MachineView { pc: advanced_pc(s1.pc), ..s1 }
                } else {
                    s1
                },
                done,
            )
        } else if kk == 0xA1 {
            (
                if !s.keys[vx as int % 16] {
                    MachineView { pc: advanced_pc(s1.pc), ..s1 }
                } else {
                    s1
                },
                done,
            )
        } else {
            (s1, invalid)
        }
    } else {
        if kk == 0x07 {
            (MachineView { regs: s.regs.update(x, s.delay), ..s1 }, done)
        } else if kk == 0x0A {
            (MachineView { wait: WaitState::AwaitingKey(x as u8), ..s1 }, done)
        } else if kk == 0x15 {
            (MachineView { delay: vx, ..s1 }, done)
        } else if kk == 0x18 {
            (MachineView { sound: vx, ..s1 }, done)
        } else if kk == 0x1E {
            (MachineView { ireg: ((s.ireg as int + vx as int) % 0x10000) as u16, ..s1 }, done)
        } else if kk == 0x29 {
            (MachineView { ireg: (vx as int * 5) as u16, ..s1 }, done)
        } else if kk == 0x33 {
            let base = s.ireg as int;
            (
                MachineView {
                    mem: s.mem.update(base % 4096, vx / 100).update(
                        (base + 1) % 4096,
                        (vx / 10) % 10,
                    ).update((base + 2) % 4096, vx % 10),
                    ..s1
                },
                done,
            )
        } else if kk == 0x55 {
            (
                MachineView {
                    mem: store_regs(s.mem, s.regs, s.ireg, x + 1),
                    ireg: ((s.ireg as int + x + 1) % 0x10000) as u16,
                    ..s1
                },
                done,
            )
        } else if kk == 0x65 {
            (
                MachineView {
                    regs: load_regs(s.regs, s.mem, s.ireg, x + 1),
                    ireg: ((s.ireg as int + x + 1) % 0x10000) as u16,
                    ..s1
                },
                done,
            )
        } else {
            (s1, invalid)
        }
    }
}

/// One whole machine cycle.  A machine suspended on the wait-for-key
/// instruction does not fetch: it either stays exactly as it is, or
/// stores the highest key index that is down and resumes.  A running
/// machine fetches, executes, and decrements the timers; on a fatal
/// condition the timers do not tick and the state is the one the failed
/// instruction left behind.
pub open spec fn cycle_spec(s: MachineView, rnd: u8) -> (MachineView, Result<
    CycleEvent,
    EmuError,
>) {
    match s.wait {
        WaitState::AwaitingKey(x) => {
            let k = highest_pressed(s.keys, 16);
            if k >= 0 {
                (
                    MachineView {
                        regs: s.regs.update(x as int, k as u8),
                        wait: WaitState::Running,
                        ..s
                    },
                    Ok(CycleEvent::KeyReceived(k as u8)),
                )
            } else {
                (s, Ok(CycleEvent::KeyWait))
            }
        },
        WaitState::Running => {
            let op = fetched_op(s);
            let r = exec_op(s, op, rnd);
            match r.1 {
                Ok(ev) => (tick_timers(r.0), Ok(ev)),
                Err(e) => (r.0, Err(e)),
            }
        },
    }
}

} // verus!
