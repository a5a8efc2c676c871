//! Proved laws of the machine semantics.
//!
//! Each public proof function states one general property of the
//! transition functions in `semantics`, for every well-formed state and
//! every operand the property speaks of.

use vstd::prelude::*;

use crate::semantics::{
    advanced_pc, cycle_spec, draw_collision, draw_contrib, draw_screen, draw_view, exec_op,
    highest_pressed, op_family, op_kk, op_n, op_nnn, op_x, op_y, CycleEvent, EmuError,
};
use crate::state::{font_table, initial_view, load_view, wf, MachineView, WaitState};

verus! {

/// A fresh machine holds the font table in its lowest 80 memory cells.
pub proof fn lemma_initial_font()
    ensures
        initial_view().mem.subrange(0, 80) == font_table(),
{
    assert(initial_view().mem.subrange(0, 80) =~= font_table());
}

/// Loading gives back the image: after a load of at most 3584 bytes,
/// the memory from 512 on holds the bytes unchanged, and the memory
/// below 512 — the font among it — is exactly what it was.
pub proof fn lemma_load_roundtrip(s: MachineView, bytes: Seq<u8>)
    requires
        wf(s),
        bytes.len() <= 3584,
    ensures
        load_view(s, bytes).mem.subrange(512, 512 + bytes.len() as int) == bytes,
        load_view(s, bytes).mem.subrange(0, 512) == s.mem.subrange(0, 512),
{
    assert(load_view(s, bytes).mem.subrange(512, 512 + bytes.len() as int) =~= bytes);
    assert(load_view(s, bytes).mem.subrange(0, 512) =~= s.mem.subrange(0, 512));
}

/// A register set by the load-immediate instruction keeps its value
/// across a following no-op word: the machine-code call, which is
/// ignored.
pub proof fn lemma_set_register_persists(s: MachineView, x: int, kkv: u8, r1: u8, r2: u8)
    requires
        wf(s),
        0 <= x < 16,
    ensures
        ({
            let op1 = (0x6000 + x * 0x100 + kkv as int) as u16;
            let s1 = exec_op(s, op1, r1).0;
            let s2 = exec_op(s1, 0x0000u16, r2).0;
            s1.regs[x] == kkv && s2.regs[x] == kkv
        }),
{
    let op1 = (0x6000 + x * 0x100 + kkv as int) as u16;
    assert(op1 as int == 0x1000 * 6 + (x * 0x100 + kkv as int)) by (nonlinear_arith)
        requires
            0 <= x < 16,
            op1 as int == 0x6000 + x * 0x100 + kkv as int,
    ;
    assert(op_family(op1) == 6);
    assert(op_x(op1) == x) by (nonlinear_arith)
        requires
            0 <= x < 16,
            kkv < 256,
            op1 as int == 0x6000 + x * 0x100 + kkv as int,
    ;
    assert(op_kk(op1) == kkv) by (nonlinear_arith)
        requires
            0 <= x < 16,
            kkv < 256,
            op1 as int == 0x6000 + x * 0x100 + kkv as int,
    ;
}

/// The add-immediate instruction saturates at 255 instead of wrapping,
/// and its only register write is the target: in particular it never
/// carries a flag into VF when VF is not itself the target.
pub proof fn lemma_add_immediate_saturates(s: MachineView, op: u16, rnd: u8)
    requires
        wf(s),
        op_family(op) == 7,
    ensures
        ({
            let x = op_x(op);
            let vx = s.regs[x];
            let kkv = op_kk(op);
            let s1 = exec_op(s, op, rnd).0;
            &&& s1.regs == s.regs.update(
                x,
                if vx as int + kkv as int > 255 {
                    255u8
                } else {
                    (vx as int + kkv as int) as u8
                },
            )
            &&& (op_x(op) != 15 ==> s1.regs[15] == s.regs[15])
        }),
{
}

/// The clear instruction blanks every display cell and sets the dirty
/// flag.
pub proof fn lemma_clear_screen(s: MachineView, rnd: u8)
    requires
        wf(s),
    ensures
        ({
            let s1 = exec_op(s, 0x00E0u16, rnd).0;
            &&& forall|p: int| 0 <= p < 2048 ==> s1.screen[p] == 0u8
            &&& s1.draw
        }),
{
}

/// Drawing one sprite twice at the same position, with nothing else
/// between, returns every display cell to its original state, because
/// the draw toggles cells.  The collision flag of the second pass is
/// set exactly where the first pass lit a cell that was dark before.
/// The screen-level core of the double-draw law: a second pass of the
/// same sprite over the buffer the first pass left undoes the first
/// pass, and its collision happens exactly where the first pass lit a
/// dark cell.
proof fn lemma_draw_screen_twice(sa: MachineView, sb: MachineView, vx: u8, vy: u8, n: int)
    requires
        sa.screen.len() == 2048,
        forall|p: int| 0 <= p < 2048 ==> sa.screen[p] <= 1,
        sb.mem == sa.mem,
        sb.ireg == sa.ireg,
        sb.screen == draw_screen(sa, vx, vy, n),
    ensures
        draw_screen(sb, vx, vy, n) == sa.screen,
        draw_collision(sb, vx, vy, n) <==> exists|p: int|
            0 <= p < 2048 && sa.screen[p] == 0 && #[trigger] draw_contrib(sa, vx, vy, n, p) == 1,
{
    assert forall|p: int| 0 <= p < 2048 implies #[trigger] draw_contrib(sb, vx, vy, n, p)
        == draw_contrib(sa, vx, vy, n, p) by {
    }
    assert forall|p: int| 0 <= p < 2048 implies draw_screen(sb, vx, vy, n)[p] == sa.screen[p] by {
        assert(sa.screen[p] <= 1);
    }
    assert(draw_screen(sb, vx, vy, n) =~= sa.screen);
    if draw_collision(sb, vx, vy, n) {
        let p = choose|p: int|
            0 <= p < 2048 && sb.screen[p] == 1 && #[trigger] draw_contrib(sb, vx, vy, n, p) == 1;
        assert(sa.screen[p] == 0 && draw_contrib(sa, vx, vy, n, p) == 1);
    }
    if exists|p: int|
        0 <= p < 2048 && sa.screen[p] == 0 && #[trigger] draw_contrib(sa, vx, vy, n, p) == 1 {
        let p = choose|p: int|
            0 <= p < 2048 && sa.screen[p] == 0 && #[trigger] draw_contrib(sa, vx, vy, n, p) == 1;
        assert(sb.screen[p] == 1 && draw_contrib(sb, vx, vy, n, p) == 1);
    }
}

/// Drawing one sprite twice at the same position, with nothing else
/// between, returns every display cell to its original state, because
/// the draw toggles cells.  The collision flag of the second pass is
/// set exactly where the first pass lit a cell that was dark before.
#[verifier::rlimit(100)]
pub proof fn lemma_draw_twice_restores(s: MachineView, op: u16, r1: u8, r2: u8)
    requires
        wf(s),
        op_family(op) == 0xD,
        op_x(op) != 15,
        op_y(op) != 15,
    ensures
        ({
            let vx = s.regs[op_x(op)];
            let vy = s.regs[op_y(op)];
            let n = op_n(op);
            let s1 = exec_op(s, op, r1).0;
            let s2 = exec_op(s1, op, r2).0;
            &&& s2.screen == s.screen
            &&& (s2.regs[15] == 1 <==> exists|p: int|
                0 <= p < 2048 && s.screen[p] == 0 && #[trigger] draw_contrib(s, vx, vy, n, p)
                    == 1)
        }),
{
    let vx = s.regs[op_x(op)];
    let vy = s.regs[op_y(op)];
    let n = op_n(op);
    let sa = MachineView { pc: advanced_pc(s.pc), ..s };
    let s1 = exec_op(s, op, r1).0;
    assert(s1 == draw_view(sa, vx, vy, n));
    let sb = MachineView { pc: advanced_pc(s1.pc), ..s1 };
    let s2 = exec_op(s1, op, r2).0;
    assert(s1.regs[op_x(op)] == vx && s1.regs[op_y(op)] == vy);
    assert(s2 == draw_view(sb, vx, vy, n));
    assert forall|p: int| 0 <= p < 2048 implies #[trigger] draw_contrib(sa, vx, vy, n, p)
        == draw_contrib(s, vx, vy, n, p) by {
    }
    assert(sb.screen == draw_screen(sa, vx, vy, n));
    lemma_draw_screen_twice(sa, sb, vx, vy, n);
    assert(s2.screen == sa.screen);
    if exists|p: int|
        0 <= p < 2048 && s.screen[p] == 0 && #[trigger] draw_contrib(s, vx, vy, n, p) == 1 {
        let p = choose|p: int|
            0 <= p < 2048 && s.screen[p] == 0 && #[trigger] draw_contrib(s, vx, vy, n, p) == 1;
        assert(sa.screen[p] == 0 && draw_contrib(sa, vx, vy, n, p) == 1);
    }
    if exists|p: int|
        0 <= p < 2048 && sa.screen[p] == 0 && #[trigger] draw_contrib(sa, vx, vy, n, p) == 1 {
        let p = choose|p: int|
            0 <= p < 2048 && sa.screen[p] == 0 && #[trigger] draw_contrib(sa, vx, vy, n, p) == 1;
        assert(s.screen[p] == 0 && draw_contrib(s, vx, vy, n, p) == 1);
    }
}

/// A subroutine call followed by a return resumes at the instruction
/// after the call: the return leaves the program counter exactly where
/// the call's own default advance had put it, and the stack as it was.
pub proof fn lemma_call_return(s: MachineView, op: u16, r1: u8, r2: u8)
    requires
        wf(s),
        op_family(op) == 2,
        s.stack.len() < 16,
    ensures
        ({
            let s1 = exec_op(s, op, r1).0;
            let s2 = exec_op(s1, 0x00EEu16, r2).0;
            &&& exec_op(s, op, r1).1 == Ok::<CycleEvent, EmuError>(CycleEvent::Executed(op))
            &&& s1.pc == op_nnn(op)
            &&& exec_op(s1, 0x00EEu16, r2).1 == Ok::<CycleEvent, EmuError>(
                CycleEvent::Executed(0x00EEu16),
            )
            &&& s2.pc == advanced_pc(s.pc)
            &&& s2.stack == s.stack
        }),
{
    let s1 = exec_op(s, op, r1).0;
    let s2 = exec_op(s1, 0x00EEu16, r2).0;
    assert(s2.stack =~= s.stack);
}

/// A seventeenth live return address does not exist: a call made with
/// all 16 stack slots full is the fatal stack overflow, and the only
/// state change it leaves behind is the default program-counter
/// advance.
pub proof fn lemma_call_overflow(s: MachineView, op: u16, rnd: u8)
    requires
        wf(s),
        op_family(op) == 2,
        s.stack.len() == 16,
    ensures
        exec_op(s, op, rnd).1 == Err::<CycleEvent, EmuError>(EmuError::StackOverflow),
        exec_op(s, op, rnd).0 == (MachineView { pc: advanced_pc(s.pc), ..s }),
{
}

/// The bounds of the highest pressed key: the scan result is an index
/// below `n` whose key is down, or -1 exactly when no key below `n` is
/// down.
pub proof fn lemma_highest_pressed_bounds(keys: Seq<bool>, n: int)
    requires
        0 <= n,
    ensures
        -1 <= highest_pressed(keys, n) < n,
        highest_pressed(keys, n) >= 0 ==> keys[highest_pressed(keys, n)],
        (exists|k: int| 0 <= k < n && keys[k]) ==> highest_pressed(keys, n) >= 0,
    decreases n,
{
    if n > 0 {
        lemma_highest_pressed_bounds(keys, n - 1);
        if !keys[n - 1] {
            if exists|k: int| 0 <= k < n && keys[k] {
                let k = choose|k: int| 0 <= k < n && keys[k];
                assert(0 <= k < n - 1 && keys[k]);
            }
        }
    }
}

/// A machine suspended on the wait-for-key instruction with no key down
/// does not change at all: however many cycles run, the state stays
/// exactly as it is until a key goes down.
pub proof fn lemma_wait_blocks(s: MachineView, x: u8, rnd: u8)
    requires
        wf(s),
        s.wait == WaitState::AwaitingKey(x),
        forall|k: int| 0 <= k < 16 ==> !s.keys[k],
    ensures
        cycle_spec(s, rnd) == (s, Ok::<CycleEvent, EmuError>(CycleEvent::KeyWait)),
{
    lemma_highest_pressed_bounds(s.keys, 16);
}

/// A machine suspended on the wait-for-key instruction resumes as soon
/// as a key is down: the highest such index lands in the waited-on
/// register, the wait ends, and nothing else changes.
pub proof fn lemma_wait_receives_key(s: MachineView, x: u8, rnd: u8)
    requires
        wf(s),
        s.wait == WaitState::AwaitingKey(x),
        exists|k: int| 0 <= k < 16 && s.keys[k],
    ensures
        ({
            let k = highest_pressed(s.keys, 16);
            &&& 0 <= k < 16
            &&& s.keys[k]
            &&& cycle_spec(s, rnd).0 == (MachineView {
                regs: s.regs.update(x as int, k as u8),
                wait: WaitState::Running,
                ..s
            })
            &&& cycle_spec(s, rnd).1 == Ok::<CycleEvent, EmuError>(
                CycleEvent::KeyReceived(k as u8),
            )
            &&& cycle_spec(s, rnd).0.regs[x as int] == k as u8
        }),
{
    lemma_highest_pressed_bounds(s.keys, 16);
}

} // verus!
