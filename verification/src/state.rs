//! The abstract machine model.
//!
//! `MachineView` is the mathematical image of the whole machine: every
//! contract of the executable emulator is stated as an equation between
//! views.  The display buffer is a flat row-major sequence of 2048 cells
//! (32 rows of 64 columns), each cell 0 or 1.

use vstd::prelude::*;

verus! {

/// Whether the machine is running normally or suspended on the
/// wait-for-key instruction.  While suspended, the payload names the
/// register that will receive the index of the key that ends the wait.
#[derive(Clone, Copy, Debug, PartialEq, Eq, Structural)]
pub enum WaitState {
    Running,
    AwaitingKey(u8),
}

/// The abstract state of one machine: memory, register file, timers,
/// call stack, keypad, display buffer with its dirty flag, and the
/// wait-for-key status.
#[verifier::ext_equal]
pub struct MachineView {
    /// 4096 bytes of memory; the font table sits at the bottom,
    /// programs are loaded at address 512.
    pub mem: Seq<u8>,
    /// The sixteen general registers V0-VF.
    pub regs: Seq<u8>,
    /// The 16-bit address register I.
    pub ireg: u16,
    /// The program counter; always below 4096.
    pub pc: u16,
    /// The delay timer.
    pub delay: u8,
    /// The sound timer.
    pub sound: u8,
    /// The live return addresses, oldest first; at most 16.
    pub stack: Seq<u16>,
    /// The sixteen key-down flags, owned by the host.
    pub keys: Seq<bool>,
    /// 2048 pixel cells, row-major, each 0 or 1.
    pub screen: Seq<u8>,
    /// True when the display buffer changed since the host last asked.
    pub draw: bool,
    /// Running, or suspended on the wait-for-key instruction.
    pub wait: WaitState,
}

/// Well-formedness of a machine state: the fixed sizes of every
/// component, the program counter inside the address space, return
/// addresses inside the address space, binary pixel cells, and a valid
/// register index in a pending wait.
pub open spec fn wf(s: MachineView) -> bool {
    &&& s.mem.len() == 4096
    &&& s.regs.len() == 16
    &&& s.stack.len() <= 16
    &&& s.keys.len() == 16
    &&& s.screen.len() == 2048
    &&& s.pc < 4096
    &&& (forall|k: int| 0 <= k < s.stack.len() ==> s.stack[k] < 4096)
    &&& (forall|p: int| 0 <= p < 2048 ==> s.screen[p] <= 1)
    &&& (s.wait matches WaitState::AwaitingKey(x) ==> x < 16)
}

/// The built-in font: sixteen glyphs of five bytes each, one sprite per
/// hexadecimal digit, preloaded at the bottom of memory.
pub open spec fn font_table() -> Seq<u8> {
    seq![
        0xF0u8, 0x90, 0x90, 0x90, 0xF0, // 0
        0x20, 0x60, 0x20, 0x20, 0x70, // 1
        0xF0, 0x10, 0xF0, 0x80, 0xF0, // 2
        0xF0, 0x10, 0xF0, 0x10, 0xF0, // 3
        0x90, 0x90, 0xF0, 0x10, 0x10, // 4
        0xF0, 0x80, 0xF0, 0x10, 0xF0, // 5
        0xF0, 0x80, 0xF0, 0x90, 0xF0, // 6
        0xF0, 0x10, 0x20, 0x40, 0x40, // 7
        0xF0, 0x90, 0xF0, 0x90, 0xF0, // 8
        0xF0, 0x90, 0xF0, 0x10, 0xF0, // 9
        0xF0, 0x90, 0xF0, 0x90, 0x90, // A
        0xE0, 0x90, 0xE0, 0x90, 0xE0, // B
        0xF0, 0x80, 0x80, 0x80, 0xF0, // C
        0xE0, 0x90, 0x90, 0x90, 0xE0, // D
        0xF0, 0x80, 0xF0, 0x80, 0xF0, // E
        0xF0, 0x80, 0xF0, 0x80, 0x80, // F
    ]
}

/// The state of a freshly constructed machine: font in memory,
/// everything else zeroed, program counter at 512.
pub open spec fn initial_view() -> MachineView {
    MachineView {
        mem: Seq::new(4096, |a: int| if 0 <= a < 80 { font_table()[a] } else { 0u8 }),
        regs: Seq::new(16, |k: int| 0u8),
        ireg: 0,
        pc: 512,
        delay: 0,
        sound: 0,
        stack: Seq::empty(),
        keys: Seq::new(16, |k: int| false),
        screen: Seq::new(2048, |p: int| 0u8),
        draw: false,
        wait: WaitState::Running,
    }
}

/// The state after a reset: memory keeps whatever was loaded, every
/// other component returns to its initial value.
pub open spec fn reset_view(s: MachineView) -> MachineView {
    MachineView { mem: s.mem, ..initial_view() }
}

/// The state after loading a program image: the bytes sit verbatim from
/// address 512 on, the rest of memory and all other components are
/// untouched.
pub open spec fn load_view(s: MachineView, bytes: Seq<u8>) -> MachineView {
    MachineView {
        mem: Seq::new(
            4096,
            |a: int|
                if 512 <= a < 512 + bytes.len() {
                    bytes[a - 512]
                } else {
                    s.mem[a]
                },
        ),
        ..s
    }
}

} // verus!
