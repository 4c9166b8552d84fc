//! The machine: memory and register layout, the execute step, timer,
//! keypad and framebuffer semantics.

use vstd::prelude::*;

use crate::instruction::{spec_decode, Instruction};

verus! {

/// Framebuffer width in pixels. The framebuffer is always allocated at the
/// extended resolution; standard-mode drawing scales each sprite pixel to a
/// 2x2 block.
pub const WIDTH: usize = 128;

/// Framebuffer height in pixels.
pub const HEIGHT: usize = 64;

/// Size of the addressable memory in bytes.
const MEMORY: usize = 4096;

/// Offset at which a program image is loaded, and the initial program counter.
const ROM_OFFSET: usize = 512;

/// An unrecoverable failure of the execute step. The machine never panics:
/// a corrupted or unsupported program image surfaces as one of these, and the
/// host decides whether to abort or to reject the image.
#[derive(Clone, Copy, Debug, PartialEq, Eq, Structural)]
pub enum Fault {
    /// The 16-bit opcode does not belong to the instruction set.
    Unrecognized { opcode: u16 },
    /// The instruction is decoded but deliberately not implemented
    /// (`EXIT`, the cross-machine register transfers, and the extended font
    /// lookup outside extended mode).
    Unsupported { instruction: Instruction },
    /// More than 16 nested calls.
    StackOverflow,
    /// `RET` with an empty call stack.
    StackUnderflow,
    /// A fetch or a memory-block operation would run past the end of memory.
    MemoryOverrun,
    /// A keypad-skip instruction names a key above 0xF.
    KeyOutOfRange,
}

/// The mathematical state of the machine: every contract of [`Chip8`] is
/// stated over this view.
#[verifier::ext_equal]
pub ghost struct MachineView {
    /// Extended ("super") display mode flag.
    pub super_mode: bool,
    /// The 16-bit index register.
    pub i: u16,
    /// The 16-bit program counter.
    pub pc: u16,
    /// 4096 bytes of memory.
    pub mem: Seq<u8>,
    /// The 16 general-purpose registers `V0`..`VF`.
    pub regs: Seq<u8>,
    /// One bit per key 0x0..0xF; set means currently pressed.
    pub keypad: u16,
    /// Row-major monochrome framebuffer, 128 x 64.
    pub display: Seq<bool>,
    /// 16 return addresses.
    pub stack: Seq<u16>,
    /// The call-stack pointer, within [0, 16].
    pub sp: u8,
    /// The 8-bit delay timer.
    pub dt: u8,
}

impl MachineView {
    /// Well-formedness: the fixed-size components have their sizes and the
    /// stack pointer stays within the stack.
    pub open spec fn wf(self) -> bool {
        &&& self.mem.len() == 4096
        &&& self.regs.len() == 16
        &&& self.display.len() == 8192
        &&& self.stack.len() == 16
        &&& self.sp <= 16
    }
}

/// The built-in hexadecimal font: 16 glyphs of 5 bytes each, preloaded at
/// address 0.
pub open spec fn font_seq() -> Seq<u8> {
    seq![
        0xF0u8, 0x90, 0x90, 0x90, 0xF0, // 0
        0x20, 0x60, 0x20, 0x20, 0x70, // 1
        0xF0, 0x10, 0xF0, 0x80, 0xF0, // 2
        0xF0, 0x10, 0xF0, 0x10, 0xF0, // 3
        0x90, 0x90, 0xF0, 0x10, 0x10, // 4
        0xF0, 0x80, 0xF0, 0x10, 0xF0, // 5
        0xF0, 0x80, 0xF0, 0x90, 0xF0, // 6
        0xF0, 0x10, 0x20, 0x40, 0x40, // 7
        0xF0, 0x90, 0xF0, 0x90, 0xF0, // 8
        0xF0, 0x90, 0xF0, 0x10, 0xF0, // 9
        0xF0, 0x90, 0xF0, 0x90, 0x90, // A
        0xE0, 0x90, 0xE0, 0x90, 0xE0, // B
        0xF0, 0x80, 0x80, 0x80, 0xF0, // C
        0xE0, 0x90, 0x90, 0x90, 0xE0, // D
        0xF0, 0x80, 0xF0, 0x80, 0xF0, // E
        0xF0, 0x80, 0xF0, 0x80, 0x80, // F
    ]
}

/// Memory as the constructor lays it out: the font at 0..80, the program
/// image at 512.., zeroes elsewhere.
pub open spec fn mem_init(data: Seq<u8>) -> Seq<u8> {
    Seq::new(
        4096,
        |k: int|
            if k < 80 {
                font_seq()[k]
            } else if 512 <= k && k < 512 + data.len() {
                data[k - 512]
            } else {
                0u8
            },
    )
}

/// The state of a freshly constructed machine holding the program `data`.
pub open spec fn init_view(data: Seq<u8>) -> MachineView {
    MachineView {
        super_mode: false,
        i: 0,
        pc: 512,
        mem: mem_init(data),
        regs: Seq::new(16, |k: int| 0u8),
        keypad: 0,
        display: Seq::new(8192, |k: int| false),
        stack: Seq::new(16, |k: int| 0u16),
        sp: 0,
        dt: 0,
    }
}

/// Whether key `k` is pressed on the mask `keypad`.
pub open spec fn key_down(keypad: u16, k: u16) -> bool
    recommends
        k < 16,
{
    keypad & (1u16 << k) != 0
}

/// The lowest-numbered pressed key, or `None` when no key is pressed.
pub open spec fn spec_check_keypad(keypad: u16) -> Option<u8> {
    if key_down(keypad, 0) {
        Some(0u8)
    } else if key_down(keypad, 1) {
        Some(1u8)
    } else if key_down(keypad, 2) {
        Some(2u8)
    } else if key_down(keypad, 3) {
        Some(3u8)
    } else if key_down(keypad, 4) {
        Some(4u8)
    } else if key_down(keypad, 5) {
        Some(5u8)
    } else if key_down(keypad, 6) {
        Some(6u8)
    } else if key_down(keypad, 7) {
        Some(7u8)
    } else if key_down(keypad, 8) {
        Some(8u8)
    } else if key_down(keypad, 9) {
        Some(9u8)
    } else if key_down(keypad, 10) {
        Some(10u8)
    } else if key_down(keypad, 11) {
        Some(11u8)
    } else if key_down(keypad, 12) {
        Some(12u8)
    } else if key_down(keypad, 13) {
        Some(13u8)
    } else if key_down(keypad, 14) {
        Some(14u8)
    } else if key_down(keypad, 15) {
        Some(15u8)
    } else {
        None
    }
}

/// Bit `c` of one sprite row byte, counting the leftmost bit as 0.
pub open spec fn sprite_bit(b: u8, c: int) -> bool
    recommends
        0 <= c < 8,
{
    (b >> ((7 - c) as u8)) & 1 == 1
}

/// Whether the 8-wide sprite of `n` rows stored at `I` has its pixel at
/// column `c` of row `r` set.
pub open spec fn sprite_pixel(s: MachineView, n: int, r: int, c: int) -> bool {
    0 <= r < n && 0 <= c < 8 && sprite_bit(s.mem[s.i + r], c)
}

/// Whether the 16x16 sprite stored at `I` (two bytes per row) has its pixel
/// at column `c` of row `r` set.
pub open spec fn sprite16_pixel(s: MachineView, r: int, c: int) -> bool {
    0 <= r < 16 && 0 <= c < 16 && sprite_bit(s.mem[s.i + 2 * r + c / 8], c % 8)
}

/// Whether a standard draw of `n` sprite rows positioned by `Vx`,`Vy`
/// toggles framebuffer index `j`. In extended mode the sprite addresses the
/// full grid; in standard mode each sprite pixel covers a 2x2 block, so `j`
/// is toggled when its half-resolution cell is covered. Coordinates wrap
/// modulo the grid size.
pub open spec fn draw_toggles(s: MachineView, x: int, y: int, n: int, j: int) -> bool {
    if s.super_mode {
        exists|r: int, c: int|
            #[trigger] sprite_pixel(s, n, r, c) && j % 128 == (s.regs[x] + c) % 128 && j / 128 == (
            s.regs[y] + r) % 64
    } else {
        exists|r: int, c: int|
            #[trigger] sprite_pixel(s, n, r, c) && (j % 128) / 2 == (s.regs[x] + c) % 64 && (j
                / 128) / 2 == (s.regs[y] + r) % 32
    }
}

/// The framebuffer after a standard draw: every covered pixel is XOR-toggled.
pub open spec fn draw_result(s: MachineView, x: int, y: int, n: int) -> Seq<bool> {
    Seq::new(8192, |j: int| s.display[j] != draw_toggles(s, x, y, n, j))
}

/// Whether a standard draw collides: some toggled pixel was lit before.
pub open spec fn draw_collision(s: MachineView, x: int, y: int, n: int) -> bool {
    exists|j: int| 0 <= j < 8192 && #[trigger] draw_toggles(s, x, y, n, j) && s.display[j]
}

/// Whether a 16x16 draw positioned by `Vx`,`Vy` toggles framebuffer index
/// `j`; meaningful in extended mode only.
pub open spec fn draw16_toggles(s: MachineView, x: int, y: int, j: int) -> bool {
    exists|r: int, c: int|
        #[trigger] sprite16_pixel(s, r, c) && j % 128 == (s.regs[x] + c) % 128 && j / 128 == (
        s.regs[y] + r) % 64
}

/// The framebuffer after a 16x16 draw.
pub open spec fn draw16_result(s: MachineView, x: int, y: int) -> Seq<bool> {
    Seq::new(8192, |j: int| s.display[j] != draw16_toggles(s, x, y, j))
}

/// Whether a 16x16 draw collides.
pub open spec fn draw16_collision(s: MachineView, x: int, y: int) -> bool {
    exists|j: int| 0 <= j < 8192 && #[trigger] draw16_toggles(s, x, y, j) && s.display[j]
}

/// The framebuffer scrolled down by `n` rows: rows move down, the vacated
/// top rows are cleared.
pub open spec fn scroll_down_result(d: Seq<bool>, n: int) -> Seq<bool> {
    Seq::new(
        8192,
        |j: int|
            if j / 128 < n {
                false
            } else {
                d[j - 128 * n]
            },
    )
}

/// The framebuffer scrolled left by 4 columns: columns move left, the
/// vacated rightmost 4 columns are cleared.
pub open spec fn scroll_left_result(d: Seq<bool>) -> Seq<bool> {
    Seq::new(
        8192,
        |j: int|
            if j % 128 < 124 {
                d[j + 4]
            } else {
                false
            },
    )
}

/// The framebuffer scrolled right by 4 columns: columns move right, the
/// vacated leftmost 4 columns are cleared.
pub open spec fn scroll_right_result(d: Seq<bool>) -> Seq<bool> {
    Seq::new(
        8192,
        |j: int|
            if j % 128 >= 4 {
                d[j - 4]
            } else {
                false
            },
    )
}

/// The skip instructions: those that advance the program counter by an
/// extra step when their condition holds.
pub open spec fn is_skip(instr: Instruction) -> bool {
    ||| instr matches Instruction::SExkk { .. }
    ||| instr matches Instruction::SNExkk { .. }
    ||| instr matches Instruction::SExy { .. }
    ||| instr matches Instruction::SNExy { .. }
    ||| instr matches Instruction::SKP { .. }
    ||| instr matches Instruction::SKNP { .. }
}

/// What executing one decoded instruction does to the machine, or which
/// fault it raises; `rnd` is the byte the random source supplied. The
/// program counter is assumed already advanced past the instruction, so
/// jumps overwrite it and skips add to it.
pub open spec fn spec_execute(s: MachineView, instr: Instruction, rnd: u8) -> Result<
    MachineView,
    Fault,
>
    recommends
        s.wf(),
        instr.wf(),
{
    match instr {
        Instruction::ADDix { x } => Ok(
            MachineView { i: ((s.i + s.regs[x as int]) % 0x10000) as u16, ..s },
        ),
        Instruction::ADDxkk { x, kk } => Ok(
            MachineView {
                regs: s.regs.update(x as int, ((s.regs[x as int] + kk) % 256) as u8),
                ..s
            },
        ),
        Instruction::ADDxy { x, y } => {
            let sum = s.regs[x as int] + s.regs[y as int];
            Ok(
                MachineView {
                    regs: s.regs.update(x as int, (sum % 256) as u8).update(
                        15,
                        if sum > 255 {
                            1u8
                        } else {
                            0u8
                        },
                    ),
                    ..s
                },
            )
        },
        Instruction::AND { x, y } => Ok(
            MachineView {
                regs: s.regs.update(x as int, s.regs[x as int] & s.regs[y as int]),
                ..s
            },
        ),
        Instruction::CALL { nnn } => if s.sp >= 16 {
            Err(Fault::StackOverflow)
        } else {
            Ok(
                MachineView {
                    stack: s.stack.update(s.sp as int, s.pc),
                    sp: (s.sp + 1) as u8,
                    pc: nnn,
                    ..s
                },
            )
        },
        Instruction::CLS => Ok(MachineView { display: Seq::new(8192, |k: int| false), ..s }),
        Instruction::DRW { x, y, n } => if s.i + n > 4096 {
            Err(Fault::MemoryOverrun)
        } else {
            Ok(
                MachineView {
                    display: draw_result(s, x as int, y as int, n as int),
                    regs: s.regs.update(
                        15,
                        if draw_collision(s, x as int, y as int, n as int) {
                            1u8
                        } else {
                            0u8
                        },
                    ),
                    ..s
                },
            )
        },
        Instruction::DRWH { x, y } => if !s.super_mode {
            Ok(MachineView { regs: s.regs.update(15, 0u8), ..s })
        } else if s.i + 32 > 4096 {
            Err(Fault::MemoryOverrun)
        } else {
            Ok(
                MachineView {
                    display: draw16_result(s, x as int, y as int),
                    regs: s.regs.update(
                        15,
                        if draw16_collision(s, x as int, y as int) {
                            1u8
                        } else {
                            0u8
                        },
                    ),
                    ..s
                },
            )
        },
        Instruction::EXIT => Err(Fault::Unsupported { instruction: instr }),
        Instruction::HIGH => Ok(MachineView { super_mode: true, ..s }),
        Instruction::INVALID { opcode } => Err(Fault::Unrecognized { opcode }),
        Instruction::JPnnn { nnn } => Ok(MachineView { pc: nnn, ..s }),
        Instruction::JPnnnv { nnn } => Ok(MachineView { pc: (nnn + s.regs[0]) as u16, ..s }),
        Instruction::LDbx { x } => if s.i + 3 > 4096 {
            Err(Fault::MemoryOverrun)
        } else {
            let v = s.regs[x as int];
            Ok(
                MachineView {
                    mem: s.mem.update(s.i as int, (v / 100) as u8).update(
                        s.i + 1,
                        ((v / 10) % 10) as u8,
                    ).update(s.i + 2, (v % 10) as u8),
                    ..s
                },
            )
        },
        Instruction::LDfx { x } => Ok(MachineView { i: (s.regs[x as int] * 5) as u16, ..s }),
        Instruction::LDhfx { x } => if !s.super_mode {
            Err(Fault::Unsupported { instruction: instr })
        } else {
            Ok(MachineView { i: (s.regs[x as int] * 10) as u16, ..s })
        },
        Instruction::LDix { x } => if s.i + x + 1 > 4096 {
            Err(Fault::MemoryOverrun)
        } else {
            Ok(
                MachineView {
                    mem: Seq::new(
                        4096,
                        |k: int|
                            if s.i <= k <= s.i + x {
                                s.regs[k - s.i]
                            } else {
                                s.mem[k]
                            },
                    ),
                    ..s
                },
            )
        },
        Instruction::LDnnn { nnn } => Ok(MachineView { i: nnn, ..s }),
        Instruction::LDrx { .. } => Err(Fault::Unsupported { instruction: instr }),
        Instruction::LDsx { .. } => Ok(s),
        Instruction::LDtx { x } => Ok(MachineView { dt: s.regs[x as int], ..s }),
        Instruction::LDx { x } => match spec_check_keypad(s.keypad) {
            Some(k) => Ok(MachineView { regs: s.regs.update(x as int, k), ..s }),
            None => Ok(MachineView { pc: (s.pc - 2) as u16, ..s }),
        },
        Instruction::LDxi { x } => if s.i + x + 1 > 4096 {
            Err(Fault::MemoryOverrun)
        } else {
            Ok(
                MachineView {
                    regs: Seq::new(
                        16,
                        |k: int|
                            if 0 <= k <= x {
                                s.mem[s.i + k]
                            } else {
                                s.regs[k]
                            },
                    ),
                    ..s
                },
            )
        },
        Instruction::LDxkk { x, kk } => Ok(MachineView { regs: s.regs.update(x as int, kk), ..s }),
        Instruction::LDxr { .. } => Err(Fault::Unsupported { instruction: instr }),
        Instruction::LDxt { x } => Ok(MachineView { regs: s.regs.update(x as int, s.dt), ..s }),
        Instruction::LDxy { x, y } => Ok(
            MachineView { regs: s.regs.update(x as int, s.regs[y as int]), ..s },
        ),
        Instruction::LOW => Ok(MachineView { super_mode: false, ..s }),
        Instruction::OR { x, y } => Ok(
            MachineView {
                regs: s.regs.update(x as int, s.regs[x as int] | s.regs[y as int]),
                ..s
            },
        ),
        Instruction::RET => if s.sp == 0 {
            Err(Fault::StackUnderflow)
        } else {
            Ok(MachineView { sp: (s.sp - 1) as u8, pc: s.stack[s.sp - 1], ..s })
        },
        Instruction::RND { x, kk } => Ok(MachineView { regs: s.regs.update(x as int, rnd & kk), ..s }),
        Instruction::SCDn { n } => Ok(
            MachineView { display: scroll_down_result(s.display, n as int), ..s },
        ),
        Instruction::SCL => Ok(MachineView { display: scroll_left_result(s.display), ..s }),
        Instruction::SCR => Ok(MachineView { display: scroll_right_result(s.display), ..s }),
        Instruction::SExkk { x, kk } => if s.regs[x as int] == kk {
            Ok(MachineView { pc: (s.pc + 2) as u16, ..s })
        } else {
            Ok(s)
        },
        Instruction::SExy { x, y } => if s.regs[x as int] == s.regs[y as int] {
            Ok(MachineView { pc: (s.pc + 2) as u16, ..s })
        } else {
            Ok(s)
        },
        Instruction::SHL { x, .. } => {
            let r1 = s.regs.update(15, s.regs[x as int] >> 7);
            Ok(MachineView { regs: r1.update(x as int, r1[x as int] << 1), ..s })
        },
        Instruction::SHR { x, .. } => {
            let r1 = s.regs.update(15, s.regs[x as int] & 1);
            Ok(MachineView { regs: r1.update(x as int, r1[x as int] >> 1), ..s })
        },
        Instruction::SKNP { x } => if s.regs[x as int] >= 16 {
            Err(Fault::KeyOutOfRange)
        } else if !key_down(s.keypad, s.regs[x as int] as u16) {
            Ok(MachineView { pc: (s.pc + 2) as u16, ..s })
        } else {
            Ok(s)
        },
        Instruction::SKP { x } => if s.regs[x as int] >= 16 {
            Err(Fault::KeyOutOfRange)
        } else if key_down(s.keypad, s.regs[x as int] as u16) {
            Ok(MachineView { pc: (s.pc + 2) as u16, ..s })
        } else {
            Ok(s)
        },
        Instruction::SNExkk { x, kk } => if s.regs[x as int] != kk {
            Ok(MachineView { pc: (s.pc + 2) as u16, ..s })
        } else {
            Ok(s)
        },
        Instruction::SNExy { x, y } => if s.regs[x as int] != s.regs[y as int] {
            Ok(MachineView { pc: (s.pc + 2) as u16, ..s })
        } else {
            Ok(s)
        },
        Instruction::SUB { x, y } => {
            let a = s.regs[x as int];
            let b = s.regs[y as int];
            Ok(
                MachineView {
                    regs: s.regs.update(x as int, ((a - b + 256) % 256) as u8).update(
                        15,
                        if a >= b {
                            1u8
                        } else {
                            0u8
                        },
                    ),
                    ..s
                },
            )
        },
        Instruction::SUBN { x, y } => {
            let a = s.regs[x as int];
            let b = s.regs[y as int];
            Ok(
                MachineView {
                    regs: s.regs.update(x as int, ((b - a + 256) % 256) as u8).update(
                        15,
                        if b >= a {
                            1u8
                        } else {
                            0u8
                        },
                    ),
                    ..s
                },
            )
        },
        Instruction::XOR { x, y } => Ok(
            MachineView {
                regs: s.regs.update(x as int, s.regs[x as int] ^ s.regs[y as int]),
                ..s
            },
        ),
    }
}

/// One whole step as `tick` performs it: fetch the big-endian word at the
/// program counter, advance the counter by 2, decode and execute. The first
/// component is the machine state after the step, the second what `tick`
/// returns. A fetch outside memory faults without touching the state; a
/// faulting instruction leaves the state as it was after the advance.
pub open spec fn spec_step(s: MachineView, rnd: u8) -> (MachineView, Result<Instruction, Fault>)
    recommends
        s.wf(),
{
    if s.pc + 1 >= 4096 {
        (s, Err(Fault::MemoryOverrun))
    } else {
        let opcode = (s.mem[s.pc as int] * 256 + s.mem[s.pc + 1]) as u16;
        let s1 = MachineView { pc: (s.pc + 2) as u16, ..s };
        let instr = spec_decode(opcode);
        match spec_execute(s1, instr, rnd) {
            Ok(s2) => (s2, Ok(instr)),
            Err(f) => (s1, Err(f)),
        }
    }
}

/// Relies on `rand::random`: a fresh value drawn from the thread-local
/// generator, used for the `RND` instruction. The value depends on
/// process-level entropy, so nothing is promised of which value comes back;
/// `spec_execute` takes the drawn byte as an argument and pins down the rest.
pub assume_specification<T>[ rand::random::<T> ]() -> (r: T)
    where
        rand::distributions::Standard: rand::distributions::Distribution<T>,
;

/// The whole CPU and display state of one machine. Constructed once per
/// program load and driven by `tick`, `decrement_counter`,
/// `apply_keypad_value` and `get_display`.
pub struct Chip8 {
    super_mode: bool,
    i: u16,
    pc: u16,
    mem: Vec<u8>,
    regs: Vec<u8>,
    keypad: u16,
    display: Vec<bool>,
    stack: Vec<u16>,
    sp: u8,
    dt: u8,
}

impl View for Chip8 {
    type V = MachineView;

    closed spec fn view(&self) -> MachineView {
        MachineView {
            super_mode: self.super_mode,
            i: self.i,
            pc: self.pc,
            mem: self.mem@,
            regs: self.regs@,
            keypad: self.keypad,
            display: self.display@,
            stack: self.stack@,
            sp: self.sp,
            dt: self.dt,
        }
    }
}

/// The font glyph bytes as a vector, in glyph order.
fn font_data() -> (v: Vec<u8>)
    ensures
        v@ == font_seq(),
{
    let mut v: Vec<u8> = Vec::new();
    v.push(0xF0);
    v.push(0x90);
    v.push(0x90);
    v.push(0x90);
    v.push(0xF0);
    v.push(0x20);
    v.push(0x60);
    v.push(0x20);
    v.push(0x20);
    v.push(0x70);
    v.push(0xF0);
    v.push(0x10);
    v.push(0xF0);
    v.push(0x80);
    v.push(0xF0);
    v.push(0xF0);
    v.push(0x10);
    v.push(0xF0);
    v.push(0x10);
    v.push(0xF0);
    v.push(0x90);
    v.push(0x90);
    v.push(0xF0);
    v.push(0x10);
    v.push(0x10);
    v.push(0xF0);
    v.push(0x80);
    v.push(0xF0);
    v.push(0x10);
    v.push(0xF0);
    v.push(0xF0);
    v.push(0x80);
    v.push(0xF0);
    v.push(0x90);
    v.push(0xF0);
    v.push(0xF0);
    v.push(0x10);
    v.push(0x20);
    v.push(0x40);
    v.push(0x40);
    v.push(0xF0);
    v.push(0x90);
    v.push(0xF0);
    v.push(0x90);
    v.push(0xF0);
    v.push(0xF0);
    v.push(0x90);
    v.push(0xF0);
    v.push(0x10);
    v.push(0xF0);
    v.push(0xF0);
    v.push(0x90);
    v.push(0xF0);
    v.push(0x90);
    v.push(0x90);
    v.push(0xE0);
    v.push(0x90);
    v.push(0xE0);
    v.push(0x90);
    v.push(0xE0);
    v.push(0xF0);
    v.push(0x80);
    v.push(0x80);
    v.push(0x80);
    v.push(0xF0);
    v.push(0xE0);
    v.push(0x90);
    v.push(0x90);
    v.push(0x90);
    v.push(0xE0);
    v.push(0xF0);
    v.push(0x80);
    v.push(0xF0);
    v.push(0x80);
    v.push(0xF0);
    v.push(0xF0);
    v.push(0x80);
    v.push(0xF0);
    v.push(0x80);
    v.push(0x80);
    proof {
        assert(v@ =~= font_seq());
    }
    v
}

/// A framebuffer with every pixel unlit.
fn all_unlit() -> (v: Vec<bool>)
    ensures
        v@ == Seq::new(8192, |k: int| false),
{
    let mut v: Vec<bool> = Vec::new();
    let mut k: usize = 0;
    while k < 8192
        invariant
            v@.len() == k,
            k <= 8192,
            forall|j: int| 0 <= j < k ==> !v@[j],
        decreases 8192 - k,
    {
        v.push(false);
        k += 1;
    }
    proof {
        assert(v@ =~= Seq::new(8192, |k: int| false));
    }
    v
}

impl Chip8 {
    /// Builds a machine holding the program image `data` at offset 512, the
    /// built-in font at 0, and everything else cleared; the program counter
    /// starts at the program entry. The caller guarantees the image fits in
    /// the 3584 bytes above the reserved region.
    pub fn new(data: &[u8]) -> (r: Chip8)
        requires
            data@.len() <= 3584,
        ensures
            r@ == init_view(data@),
            r@.wf(),
    {
        let font = font_data();
        let mut mem: Vec<u8> = Vec::new();
        let mut k: usize = 0;
        while k < MEMORY
            invariant
                data@.len() <= 3584,
                font@ == font_seq(),
                mem@.len() == k,
                k <= 4096,
                forall|j: int| 0 <= j < k ==> mem@[j] == mem_init(data@)[j],
            decreases 4096 - k,
        {
            if k < 80 {
                mem.push(font[k]);
            } else if k >= ROM_OFFSET && k < ROM_OFFSET + data.len() {
                mem.push(data[k - 512]);
            } else {
                mem.push(0);
            }
            k += 1;
        }
        let mut regs: Vec<u8> = Vec::new();
        let mut stack: Vec<u16> = Vec::new();
        let mut k: usize = 0;
        while k < 16
            invariant
                regs@.len() == k,
                stack@.len() == k,
                k <= 16,
                forall|j: int| 0 <= j < k ==> regs@[j] == 0u8,
                forall|j: int| 0 <= j < k ==> stack@[j] == 0u16,
            decreases 16 - k,
        {
            regs.push(0);
            stack.push(0);
            k += 1;
        }
        let r = Chip8 {
            super_mode: false,
            i: 0,
            pc: 512,
            mem,
            regs,
            keypad: 0,
            display: all_unlit(),
            stack,
            sp: 0,
            dt: 0,
        };
        proof {
            assert(r@.mem =~= init_view(data@).mem);
            assert(r@.regs =~= init_view(data@).regs);
            assert(r@.stack =~= init_view(data@).stack);
            assert(r@ =~= init_view(data@));
        }
        r
    }

    /// The framebuffer, row-major, `WIDTH` x `HEIGHT`; a renderer reads it
    /// and never mutates it.
    pub fn get_display(&self) -> (r: &[bool])
        ensures
            r@ == self@.display,
    {
        self.display.as_slice()
    }

    /// Sets or clears exactly one bit of the keypad mask. The caller
    /// guarantees the key index is a nibble.
    pub fn apply_keypad_value(&mut self, index: u8, pressed: bool)
        requires
            index < 0x10,
        ensures
            final(self)@ == (MachineView {
                keypad: if pressed {
                    old(self)@.keypad | (1u16 << (index as u16))
                } else {
                    old(self)@.keypad & !(1u16 << (index as u16))
                },
                ..old(self)@
            }),
    {
        let sh: u16 = index as u16;
        if pressed {
            self.keypad = self.keypad | (1u16 << sh);
        } else {
            self.keypad = self.keypad & !(1u16 << sh);
        }
    }

    /// Decrements the delay timer, floored at zero; called by the host at a
    /// fixed real-time cadence independent of the instruction rate.
    pub fn decrement_counter(&mut self)
        ensures
            final(self)@ == (MachineView {
                dt: if old(self)@.dt > 0 {
                    (old(self)@.dt - 1) as u8
                } else {
                    0u8
                },
                ..old(self)@
            }),
    {
        if self.dt > 0 {
            self.dt = self.dt - 1;
        }
    }

    /// The lowest-numbered key currently pressed, or `None` when the keypad
    /// is all clear.
    pub fn check_keypad(&self) -> (r: Option<u8>)
        ensures
            r == spec_check_keypad(self@.keypad),
    {
        let mut k: u16 = 0;
        while k < 16
            invariant
                k <= 16,
                forall|j: u16| j < k ==> !key_down(self@.keypad, j),
            decreases 16 - k,
        {
            if self.keypad & (1u16 << k) != 0 {
                return Some(k as u8);
            }
            k += 1;
        }
        None
    }

    /// Register `Vx`.
    pub fn reg(&self, x: usize) -> (r: u8)
        requires
            self@.wf(),
            x < 16,
        ensures
            r == self@.regs[x as int],
    {
        self.regs[x]
    }

    /// Overwrites register `Vx`.
    pub fn set_reg(&mut self, x: usize, v: u8)
        requires
            old(self)@.wf(),
            x < 16,
        ensures
            final(self)@ == (MachineView { regs: old(self)@.regs.update(x as int, v), ..old(self)@ }),
    {
        self.regs[x] = v;
        proof {
            assert(self@ =~= (MachineView { regs: old(self)@.regs.update(x as int, v), ..old(self)@ }));
        }
    }

    /// The index register `I`.
    pub fn index_register(&self) -> (r: u16)
        ensures
            r == self@.i,
    {
        self.i
    }

    /// Overwrites the index register `I`.
    pub fn set_index_register(&mut self, v: u16)
        ensures
            final(self)@ == (MachineView { i: v, ..old(self)@ }),
    {
        self.i = v;
    }

    /// The program counter.
    pub fn program_counter(&self) -> (r: u16)
        ensures
            r == self@.pc,
    {
        self.pc
    }

    /// The memory byte at `addr`.
    pub fn mem_at(&self, addr: usize) -> (r: u8)
        requires
            self@.wf(),
            addr < 4096,
        ensures
            r == self@.mem[addr as int],
    {
        self.mem[addr]
    }

    /// Overwrites the memory byte at `addr`.
    pub fn set_mem(&mut self, addr: usize, v: u8)
        requires
            old(self)@.wf(),
            addr < 4096,
        ensures
            final(self)@ == (MachineView { mem: old(self)@.mem.update(addr as int, v), ..old(self)@ }),
    {
        self.mem[addr] = v;
        proof {
            assert(self@ =~= (MachineView { mem: old(self)@.mem.update(addr as int, v), ..old(self)@ }));
        }
    }

    /// The keypad bitmask.
    pub fn keypad_mask(&self) -> (r: u16)
        ensures
            r == self@.keypad,
    {
        self.keypad
    }

    /// Overwrites the whole keypad bitmask.
    pub fn set_keypad_mask(&mut self, mask: u16)
        ensures
            final(self)@ == (MachineView { keypad: mask, ..old(self)@ }),
    {
        self.keypad = mask;
    }

    /// The delay timer.
    pub fn delay_timer(&self) -> (r: u8)
        ensures
            r == self@.dt,
    {
        self.dt
    }

    /// Overwrites the delay timer.
    pub fn set_delay_timer(&mut self, v: u8)
        ensures
            final(self)@ == (MachineView { dt: v, ..old(self)@ }),
    {
        self.dt = v;
    }

    /// Whether the machine is in extended display mode.
    pub fn is_super_mode(&self) -> (r: bool)
        ensures
            r == self@.super_mode,
    {
        self.super_mode
    }

    /// Fetches the word at the program counter, advances the counter by 2,
    /// decodes and executes, and hands the decoded instruction back for
    /// diagnostics. A fault identifies a corrupted or unsupported program
    /// image; the host must treat it as unrecoverable.
    pub fn tick(&mut self) -> (r: Result<Instruction, Fault>)
        requires
            old(self)@.wf(),
        ensures
            final(self)@.wf(),
            exists|b: u8|
                final(self)@ == (#[trigger] spec_step(old(self)@, b)).0 && r == spec_step(
                    old(self)@,
                    b,
                ).1,
    {
        let ghost s0 = self@;
        let pc = self.pc;
        if pc as usize + 1 >= MEMORY {
            proof {
                assert(spec_step(s0, 0u8) == (s0, Err::<Instruction, Fault>(Fault::MemoryOverrun)));
            }
            return Err(Fault::MemoryOverrun);
        }
        let hi = self.mem[pc as usize];
        let lo = self.mem[pc as usize + 1];
        let opcode: u16 = ((hi as u16) << 8) | (lo as u16);
        proof {
            assert((((hi as u16) << 8) | (lo as u16)) == hi as u16 * 256 + lo as u16)
                by (bit_vector);
        }
        self.pc = pc + 2;
        let instruction = Instruction::from_opcode(opcode);
        let rnd: u8 = match instruction {
            Instruction::RND { .. } => rand::random::<u8>(),
            _ => 0,
        };
        proof {
            assert(self@ == (MachineView { pc: (s0.pc + 2) as u16, ..s0 }));
        }
        let res = self.execute(&instruction, rnd);
        let result = match res {
            Ok(()) => Ok(instruction),
            Err(f) => Err(f),
        };
        proof {
            assert(spec_step(s0, rnd).0 == self@);
            assert(spec_step(s0, rnd).1 == result);
        }
        result
    }

    /// Executes one decoded instruction against the current state, exactly
    /// as [`spec_execute`] prescribes; `rnd` is the byte the random source
    /// supplied for the `RND` instruction. The program counter must already
    /// be advanced past the instruction, which is what the bounds on it
    /// express: the blocking key wait rewinds by 2, and a skip adds 2.
    #[verifier::rlimit(60)]
    pub fn execute(&mut self, instruction: &Instruction, rnd: u8) -> (r: Result<(), Fault>)
        requires
            old(self)@.wf(),
            instruction.wf(),
            *instruction matches Instruction::LDx { .. } ==> old(self)@.pc >= 2,
            is_skip(*instruction) ==> old(self)@.pc <= 65533,
        ensures
            final(self)@.wf(),
            spec_execute(old(self)@, *instruction, rnd) matches Ok(s2) ==> r is Ok && final(self)@
                == s2,
            spec_execute(old(self)@, *instruction, rnd) matches Err(f) ==> r matches Err(g) && g
                == f && final(self)@ == old(self)@,
    {
        let ghost s = self@;
        match *instruction {
            Instruction::ADDix { x } => {
                let v = self.i as u32 + self.regs[x] as u32;
                self.i = (v % 0x10000) as u16;
                Ok(())
            },
            Instruction::ADDxkk { x, kk } => {
                let sum = self.regs[x] as u16 + kk as u16;
                self.regs[x] = (sum % 256) as u8;
                Ok(())
            },
            Instruction::ADDxy { x, y } => {
                let sum = self.regs[x] as u16 + self.regs[y] as u16;
                self.regs[x] = (sum % 256) as u8;
                self.regs[0xF] = if sum > 255 {
                    1
                } else {
                    0
                };
                Ok(())
            },
            Instruction::AND { x, y } => {
                self.regs[x] = self.regs[x] & self.regs[y];
                Ok(())
            },
            Instruction::CALL { nnn } => {
                if self.sp >= 16 {
                    return Err(Fault::StackOverflow);
                }
                self.stack[self.sp as usize] = self.pc;
                self.sp = self.sp + 1;
                self.pc = nnn;
                Ok(())
            },
            Instruction::CLS => {
                self.display = all_unlit();
                proof {
                    assert(self@.display =~= Seq::new(8192, |k: int| false));
                    assert(self@ =~= (MachineView { display: Seq::new(8192, |k: int| false), ..s }));
                }
                Ok(())
            },
            Instruction::DRW { x, y, n } => {
                if self.i as usize + n as usize > 4096 {
                    return Err(Fault::MemoryOverrun);
                }
                let col = self.draw(x, y, n);
                self.regs[0xF] = if col {
                    1
                } else {
                    0
                };
                Ok(())
            },
            Instruction::DRWH { x, y } => {
                if !self.super_mode {
                    self.regs[0xF] = 0;
                    return Ok(());
                }
                if self.i as usize + 32 > 4096 {
                    return Err(Fault::MemoryOverrun);
                }
                let col = self.draw_16(x, y);
                self.regs[0xF] = if col {
                    1
                } else {
                    0
                };
                Ok(())
            },
            Instruction::EXIT => Err(Fault::Unsupported { instruction: *instruction }),
            Instruction::HIGH => {
                self.super_mode = true;
                Ok(())
            },
            Instruction::INVALID { opcode } => Err(Fault::Unrecognized { opcode }),
            Instruction::JPnnn { nnn } => {
                self.pc = nnn;
                Ok(())
            },
            Instruction::JPnnnv { nnn } => {
                self.pc = nnn + self.regs[0] as u16;
                Ok(())
            },
            Instruction::LDbx { x } => {
                if self.i as usize + 3 > 4096 {
                    return Err(Fault::MemoryOverrun);
                }
                let v = self.regs[x];
                let base = self.i as usize;
                self.mem[base] = v / 100;
                self.mem[base + 1] = (v / 10) % 10;
                self.mem[base + 2] = v % 10;
                Ok(())
            },
            Instruction::LDfx { x } => {
                self.i = self.regs[x] as u16 * 5;
                Ok(())
            },
            Instruction::LDhfx { x } => {
                if !self.super_mode {
                    return Err(Fault::Unsupported { instruction: *instruction });
                }
                self.i = self.regs[x] as u16 * 10;
                Ok(())
            },
            Instruction::LDix { x } => {
                if self.i as usize + x + 1 > 4096 {
                    return Err(Fault::MemoryOverrun);
                }
                let base = self.i as usize;
                let mut k: usize = 0;
                while k <= x
                    invariant
                        s.wf(),
                        x < 16,
                        k <= x + 1,
                        base == s.i,
                        base + x + 1 <= 4096,
                        self@ == (MachineView { mem: self@.mem, ..s }),
                        self@.mem.len() == 4096,
                        forall|jj: int|
                            0 <= jj < 4096 ==> self@.mem[jj] == (if base <= jj < base + k {
                                s.regs[jj - base]
                            } else {
                                s.mem[jj]
                            }),
                    decreases x + 1 - k,
                {
                    self.mem[base + k] = self.regs[k];
                    k += 1;
                }
                proof {
                    assert(self@.mem =~= Seq::new(
                        4096,
                        |kk: int|
                            if s.i <= kk <= s.i + x {
                                s.regs[kk - s.i]
                            } else {
                                s.mem[kk]
                            },
                    ));
                    assert(self@ =~= (MachineView {
                        mem: Seq::new(
                            4096,
                            |kk: int|
                                if s.i <= kk <= s.i + x {
                                    s.regs[kk - s.i]
                                } else {
                                    s.mem[kk]
                                },
                        ),
                        ..s
                    }));
                }
                Ok(())
            },
            Instruction::LDnnn { nnn } => {
                self.i = nnn;
                Ok(())
            },
            Instruction::LDrx { .. } => Err(Fault::Unsupported { instruction: *instruction }),
            Instruction::LDsx { .. } => Ok(()),
            Instruction::LDtx { x } => {
                self.dt = self.regs[x];
                Ok(())
            },
            Instruction::LDx { x } => {
                if let Some(key) = self.check_keypad() {
                    self.regs[x] = key;
                } else {
                    self.pc = self.pc - 2;
                }
                Ok(())
            },
            Instruction::LDxi { x } => {
                if self.i as usize + x + 1 > 4096 {
                    return Err(Fault::MemoryOverrun);
                }
                let base = self.i as usize;
                let mut k: usize = 0;
                while k <= x
                    invariant
                        s.wf(),
                        x < 16,
                        k <= x + 1,
                        base == s.i,
                        base + x + 1 <= 4096,
                        self@ == (MachineView { regs: self@.regs, ..s }),
                        self@.regs.len() == 16,
                        forall|jj: int|
                            0 <= jj < 16 ==> self@.regs[jj] == (if 0 <= jj < k {
                                s.mem[s.i + jj]
                            } else {
                                s.regs[jj]
                            }),
                    decreases x + 1 - k,
                {
                    self.regs[k] = self.mem[base + k];
                    k += 1;
                }
                proof {
                    assert(self@.regs =~= Seq::new(
                        16,
                        |kk: int|
                            if 0 <= kk <= x {
                                s.mem[s.i + kk]
                            } else {
                                s.regs[kk]
                            },
                    ));
                    assert(self@ =~= (MachineView {
                        regs: Seq::new(
                            16,
                            |kk: int|
                                if 0 <= kk <= x {
                                    s.mem[s.i + kk]
                                } else {
                                    s.regs[kk]
                                },
                        ),
                        ..s
                    }));
                }
                Ok(())
            },
            Instruction::LDxkk { x, kk } => {
                self.regs[x] = kk;
                Ok(())
            },
            Instruction::LDxr { .. } => Err(Fault::Unsupported { instruction: *instruction }),
            Instruction::LDxt { x } => {
                self.regs[x] = self.dt;
                Ok(())
            },
            Instruction::LDxy { x, y } => {
                self.regs[x] = self.regs[y];
                Ok(())
            },
            Instruction::LOW => {
                self.super_mode = false;
                Ok(())
            },
            Instruction::OR { x, y } => {
                self.regs[x] = self.regs[x] | self.regs[y];
                Ok(())
            },
            Instruction::RET => {
                if self.sp == 0 {
                    return Err(Fault::StackUnderflow);
                }
                self.sp = self.sp - 1;
                self.pc = self.stack[self.sp as usize];
                Ok(())
            },
            Instruction::RND { x, kk } => {
                self.regs[x] = rnd & kk;
                Ok(())
            },
            Instruction::SCDn { n } => {
                self.scroll_down(n);
                Ok(())
            },
            Instruction::SCL => {
                self.scroll_left();
                Ok(())
            },
            Instruction::SCR => {
                self.scroll_right();
                Ok(())
            },
            Instruction::SExkk { x, kk } => {
                if self.regs[x] == kk {
                    self.pc = self.pc + 2;
                }
                Ok(())
            },
            Instruction::SExy { x, y } => {
                if self.regs[x] == self.regs[y] {
                    self.pc = self.pc + 2;
                }
                Ok(())
            },
            Instruction::SHL { x, .. } => {
                self.regs[0xF] = self.regs[x] >> 7u8;
                self.regs[x] = self.regs[x] << 1u8;
                Ok(())
            },
            Instruction::SHR { x, .. } => {
                self.regs[0xF] = self.regs[x] & 1;
                self.regs[x] = self.regs[x] >> 1u8;
                Ok(())
            },
            Instruction::SKNP { x } => {
                let key = self.regs[x];
                if key >= 16 {
                    return Err(Fault::KeyOutOfRange);
                }
                if self.keypad & (1u16 << (key as u16)) == 0 {
                    self.pc = self.pc + 2;
                }
                Ok(())
            },
            Instruction::SKP { x } => {
                let key = self.regs[x];
                if key >= 16 {
                    return Err(Fault::KeyOutOfRange);
                }
                if self.keypad & (1u16 << (key as u16)) != 0 {
                    self.pc = self.pc + 2;
                }
                Ok(())
            },
            Instruction::SNExkk { x, kk } => {
                if self.regs[x] != kk {
                    self.pc = self.pc + 2;
                }
                Ok(())
            },
            Instruction::SNExy { x, y } => {
                if self.regs[x] != self.regs[y] {
                    self.pc = self.pc + 2;
                }
                Ok(())
            },
            Instruction::SUB { x, y } => {
                let a = self.regs[x];
                let b = self.regs[y];
                let v = if a >= b {
                    a - b
                } else {
                    (a as u16 + 256 - b as u16) as u8
                };
                self.regs[x] = v;
                self.regs[0xF] = if a >= b {
                    1
                } else {
                    0
                };
                Ok(())
            },
            Instruction::SUBN { x, y } => {
                let a = self.regs[x];
                let b = self.regs[y];
                let v = if b >= a {
                    b - a
                } else {
                    (b as u16 + 256 - a as u16) as u8
                };
                self.regs[x] = v;
                self.regs[0xF] = if b >= a {
                    1
                } else {
                    0
                };
                Ok(())
            },
            Instruction::XOR { x, y } => {
                self.regs[x] = self.regs[x] ^ self.regs[y];
                Ok(())
            },
        }
    }

    /// Whether the `n`-row sprite at `I`, positioned by `Vx`,`Vy`, covers
    /// the cell `(cx, cy)` of a `w` x `h` grid, coordinates wrapping.
    fn hits_cell(&self, x: usize, y: usize, n: u8, w: usize, h: usize, cx: usize, cy: usize) -> (hit:
        bool)
        requires
            self@.wf(),
            x < 16,
            y < 16,
            n < 16,
            self@.i + n <= 4096,
            w >= 1,
            h >= 1,
        ensures
            hit == exists|r: int, c: int|
                #[trigger] sprite_pixel(self@, n as int, r, c) && cx == (self@.regs[x as int] + c)
                    % (w as int) && cy == (self@.regs[y as int] + r) % (h as int),
    {
        let rx = self.regs[x] as usize;
        let ry = self.regs[y] as usize;
        let mut r: usize = 0;
        while r < n as usize
            invariant
                self@.wf(),
                x < 16,
                y < 16,
                n < 16,
                self@.i + n <= 4096,
                w >= 1,
                h >= 1,
                r <= n as usize,
                rx == self@.regs[x as int],
                ry == self@.regs[y as int],
                forall|r2: int, c2: int|
                    #[trigger] sprite_pixel(self@, n as int, r2, c2) && r2 < r ==> !(cx == (
                    self@.regs[x as int] + c2) % (w as int) && cy == (self@.regs[y as int] + r2) % (
                    h as int)),
            decreases n as usize - r,
        {
            let row = self.mem[self.i as usize + r];
            let mut c: usize = 0;
            while c < 8
                invariant
                    self@.wf(),
                    x < 16,
                    y < 16,
                    n < 16,
                    self@.i + n <= 4096,
                    w >= 1,
                    h >= 1,
                    r < n as usize,
                    c <= 8,
                    rx == self@.regs[x as int],
                    ry == self@.regs[y as int],
                    row == self@.mem[self@.i + r],
                    forall|r2: int, c2: int|
                        #[trigger] sprite_pixel(self@, n as int, r2, c2) && (r2 < r || (r2 == r
                            && c2 < c)) ==> !(cx == (self@.regs[x as int] + c2) % (w as int) && cy
                            == (self@.regs[y as int] + r2) % (h as int)),
                decreases 8 - c,
            {
                if (row >> ((7 - c) as u8)) & 1 == 1 {
                    if (rx + c) % w == cx && (ry + r) % h == cy {
                        proof {
                            assert(sprite_pixel(self@, n as int, r as int, c as int));
                        }
                        return true;
                    }
                }
                c += 1;
            }
            r += 1;
        }
        false
    }

    /// Whether the 16x16 sprite at `I`, positioned by `Vx`,`Vy`, covers the
    /// cell `(cx, cy)` of the full grid, coordinates wrapping.
    fn hits16_cell(&self, x: usize, y: usize, cx: usize, cy: usize) -> (hit: bool)
        requires
            self@.wf(),
            x < 16,
            y < 16,
            self@.i + 32 <= 4096,
        ensures
            hit == exists|r: int, c: int|
                #[trigger] sprite16_pixel(self@, r, c) && cx == (self@.regs[x as int] + c) % 128
                    && cy == (self@.regs[y as int] + r) % 64,
    {
        let rx = self.regs[x] as usize;
        let ry = self.regs[y] as usize;
        let mut r: usize = 0;
        while r < 16
            invariant
                self@.wf(),
                x < 16,
                y < 16,
                self@.i + 32 <= 4096,
                r <= 16,
                rx == self@.regs[x as int],
                ry == self@.regs[y as int],
                forall|r2: int, c2: int|
                    #[trigger] sprite16_pixel(self@, r2, c2) && r2 < r ==> !(cx == (self@.regs[x
                        as int] + c2) % 128 && cy == (self@.regs[y as int] + r2) % 64),
            decreases 16 - r,
        {
            let mut c: usize = 0;
            while c < 16
                invariant
                    self@.wf(),
                    x < 16,
                    y < 16,
                    self@.i + 32 <= 4096,
                    r < 16,
                    c <= 16,
                    rx == self@.regs[x as int],
                    ry == self@.regs[y as int],
                    forall|r2: int, c2: int|
                        #[trigger] sprite16_pixel(self@, r2, c2) && (r2 < r || (r2 == r && c2 < c))
                            ==> !(cx == (self@.regs[x as int] + c2) % 128 && cy == (self@.regs[y
                            as int] + r2) % 64),
                decreases 16 - c,
            {
                let byte = self.mem[self.i as usize + 2 * r + c / 8];
                if (byte >> ((7 - (c % 8)) as u8)) & 1 == 1 {
                    if (rx + c) % 128 == cx && (ry + r) % 64 == cy {
                        proof {
                            assert(sprite16_pixel(self@, r as int, c as int));
                        }
                        return true;
                    }
                }
                c += 1;
            }
            r += 1;
        }
        false
    }

    /// Draws the `n`-row sprite at `I` positioned by `Vx`,`Vy`, XOR-toggling
    /// every covered pixel, and reports whether any toggled pixel went from
    /// lit to unlit.
    fn draw(&mut self, x: usize, y: usize, n: u8) -> (collision: bool)
        requires
            old(self)@.wf(),
            x < 16,
            y < 16,
            n < 16,
            old(self)@.i + n <= 4096,
        ensures
            final(self)@ == (MachineView {
                display: draw_result(old(self)@, x as int, y as int, n as int),
                ..old(self)@
            }),
            collision == draw_collision(old(self)@, x as int, y as int, n as int),
    {
        let ghost s0 = self@;
        let mut nd: Vec<bool> = Vec::new();
        let mut collision = false;
        let mut j: usize = 0;
        while j < 8192
            invariant
                self@ == s0,
                s0.wf(),
                x < 16,
                y < 16,
                n < 16,
                s0.i + n <= 4096,
                nd@.len() == j,
                j <= 8192,
                forall|k: int|
                    0 <= k < j ==> nd@[k] == (s0.display[k] != draw_toggles(
                        s0,
                        x as int,
                        y as int,
                        n as int,
                        k,
                    )),
                collision <==> (exists|k: int|
                    0 <= k < j && #[trigger] draw_toggles(s0, x as int, y as int, n as int, k)
                        && s0.display[k]),
            decreases 8192 - j,
        {
            let t = if self.super_mode {
                self.hits_cell(x, y, n, 128, 64, j % 128, j / 128)
            } else {
                self.hits_cell(x, y, n, 64, 32, (j % 128) / 2, (j / 128) / 2)
            };
            proof {
                assert(t == draw_toggles(s0, x as int, y as int, n as int, j as int));
            }
            let cur = self.display[j];
            if t && cur {
                collision = true;
            }
            nd.push(cur != t);
            j += 1;
        }
        self.display = nd;
        proof {
            assert(self@.display =~= draw_result(s0, x as int, y as int, n as int));
            assert(self@ =~= (MachineView {
                display: draw_result(s0, x as int, y as int, n as int),
                ..s0
            }));
        }
        collision
    }

    /// Draws the 16x16 sprite at `I` positioned by `Vx`,`Vy`, XOR-toggling
    /// every covered pixel, and reports whether any toggled pixel went from
    /// lit to unlit. The caller has already checked extended mode.
    fn draw_16(&mut self, x: usize, y: usize) -> (collision: bool)
        requires
            old(self)@.wf(),
            x < 16,
            y < 16,
            old(self)@.i + 32 <= 4096,
        ensures
            final(self)@ == (MachineView {
                display: draw16_result(old(self)@, x as int, y as int),
                ..old(self)@
            }),
            collision == draw16_collision(old(self)@, x as int, y as int),
    {
        let ghost s0 = self@;
        let mut nd: Vec<bool> = Vec::new();
        let mut collision = false;
        let mut j: usize = 0;
        while j < 8192
            invariant
                self@ == s0,
                s0.wf(),
                x < 16,
                y < 16,
                s0.i + 32 <= 4096,
                nd@.len() == j,
                j <= 8192,
                forall|k: int|
                    0 <= k < j ==> nd@[k] == (s0.display[k] != draw16_toggles(
                        s0,
                        x as int,
                        y as int,
                        k,
                    )),
                collision <==> (exists|k: int|
                    0 <= k < j && #[trigger] draw16_toggles(s0, x as int, y as int, k)
                        && s0.display[k]),
            decreases 8192 - j,
        {
            let t = self.hits16_cell(x, y, j % 128, j / 128);
            proof {
                assert(t == draw16_toggles(s0, x as int, y as int, j as int));
            }
            let cur = self.display[j];
            if t && cur {
                collision = true;
            }
            nd.push(cur != t);
            j += 1;
        }
        self.display = nd;
        proof {
            assert(self@.display =~= draw16_result(s0, x as int, y as int));
            assert(self@ =~= (MachineView {
                display: draw16_result(s0, x as int, y as int),
                ..s0
            }));
        }
        collision
    }

    /// Scrolls the framebuffer down by `n` rows, clearing the vacated rows.
    fn scroll_down(&mut self, n: u8)
        requires
            old(self)@.wf(),
            n < 16,
        ensures
            final(self)@ == (MachineView {
                display: scroll_down_result(old(self)@.display, n as int),
                ..old(self)@
            }),
    {
        let ghost s0 = self@;
        let mut nd: Vec<bool> = Vec::new();
        let mut j: usize = 0;
        while j < 8192
            invariant
                self@ == s0,
                s0.wf(),
                n < 16,
                nd@.len() == j,
                j <= 8192,
                forall|k: int| 0 <= k < j ==> nd@[k] == scroll_down_result(s0.display, n as int)[k],
            decreases 8192 - j,
        {
            proof {
                assert(j == 128 * (j / 128) + j % 128);
            }
            let v = if j / 128 < n as usize {
                false
            } else {
                self.display[j - 128 * (n as usize)]
            };
            nd.push(v);
            j += 1;
        }
        self.display = nd;
        proof {
            assert(self@.display =~= scroll_down_result(s0.display, n as int));
            assert(self@ =~= (MachineView {
                display: scroll_down_result(s0.display, n as int),
                ..s0
            }));
        }
    }

    /// Scrolls the framebuffer left by 4 columns, clearing the vacated
    /// rightmost columns.
    fn scroll_left(&mut self)
        requires
            old(self)@.wf(),
        ensures
            final(self)@ == (MachineView {
                display: scroll_left_result(old(self)@.display),
                ..old(self)@
            }),
    {
        let ghost s0 = self@;
        let mut nd: Vec<bool> = Vec::new();
        let mut j: usize = 0;
        while j < 8192
            invariant
                self@ == s0,
                s0.wf(),
                nd@.len() == j,
                j <= 8192,
                forall|k: int| 0 <= k < j ==> nd@[k] == scroll_left_result(s0.display)[k],
            decreases 8192 - j,
        {
            proof {
                assert(j == 128 * (j / 128) + j % 128);
                assert(j / 128 <= 63);
            }
            let v = if j % 128 < 124 {
                self.display[j + 4]
            } else {
                false
            };
            nd.push(v);
            j += 1;
        }
        self.display = nd;
        proof {
            assert(self@.display =~= scroll_left_result(s0.display));
            assert(self@ =~= (MachineView { display: scroll_left_result(s0.display), ..s0 }));
        }
    }

    /// Scrolls the framebuffer right by 4 columns, clearing the vacated
    /// leftmost columns.
    fn scroll_right(&mut self)
        requires
            old(self)@.wf(),
        ensures
            final(self)@ == (MachineView {
                display: scroll_right_result(old(self)@.display),
                ..old(self)@
            }),
    {
        let ghost s0 = self@;
        let mut nd: Vec<bool> = Vec::new();
        let mut j: usize = 0;
        while j < 8192
            invariant
                self@ == s0,
                s0.wf(),
                nd@.len() == j,
                j <= 8192,
                forall|k: int| 0 <= k < j ==> nd@[k] == scroll_right_result(s0.display)[k],
            decreases 8192 - j,
        {
            proof {
                assert(j == 128 * (j / 128) + j % 128);
            }
            let v = if j % 128 >= 4 {
                self.display[j - 4]
            } else {
                false
            };
            nd.push(v);
            j += 1;
        }
        self.display = nd;
        proof {
            assert(self@.display =~= scroll_right_result(s0.display));
            assert(self@ =~= (MachineView { display: scroll_right_result(s0.display), ..s0 }));
        }
    }
}

} // verus!
