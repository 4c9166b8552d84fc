//! Machine-wide laws, stated and proved over the specification of the
//! execute step.

use vstd::prelude::*;

use crate::chip8::{
    draw_toggles, is_skip, spec_execute, spec_step, sprite_pixel, MachineView,
};
use crate::instruction::{spec_decode, Instruction};

verus! {

/// Two states that agree on memory, the index register, the display mode
/// and the two operand registers toggle the same framebuffer pixels for the
/// same draw.
proof fn lemma_toggles_agree(s: MachineView, t: MachineView, x: int, y: int, n: int, j: int)
    requires
        t.mem == s.mem,
        t.i == s.i,
        t.super_mode == s.super_mode,
        0 <= x < 16,
        0 <= y < 16,
        t.regs[x] == s.regs[x],
        t.regs[y] == s.regs[y],
    ensures
        draw_toggles(t, x, y, n, j) == draw_toggles(s, x, y, n, j),
{
    assert forall|r: int, c: int| #[trigger]
        sprite_pixel(t, n, r, c) == sprite_pixel(s, n, r, c) by {
        assert(t.mem[t.i + r] == s.mem[s.i + r]);
    }
    if draw_toggles(t, x, y, n, j) {
        if s.super_mode {
            let (r, c) = choose|r: int, c: int|
                #[trigger] sprite_pixel(t, n, r, c) && j % 128 == (t.regs[x] + c) % 128 && j / 128
                    == (t.regs[y] + r) % 64;
            assert(sprite_pixel(s, n, r, c));
        } else {
            let (r, c) = choose|r: int, c: int|
                #[trigger] sprite_pixel(t, n, r, c) && (j % 128) / 2 == (t.regs[x] + c) % 64 && (j
                    / 128) / 2 == (t.regs[y] + r) % 32;
            assert(sprite_pixel(s, n, r, c));
        }
    }
    if draw_toggles(s, x, y, n, j) {
        if s.super_mode {
            let (r, c) = choose|r: int, c: int|
                #[trigger] sprite_pixel(s, n, r, c) && j % 128 == (s.regs[x] + c) % 128 && j / 128
                    == (s.regs[y] + r) % 64;
            assert(sprite_pixel(t, n, r, c));
        } else {
            let (r, c) = choose|r: int, c: int|
                #[trigger] sprite_pixel(s, n, r, c) && (j % 128) / 2 == (s.regs[x] + c) % 64 && (j
                    / 128) / 2 == (s.regs[y] + r) % 32;
            assert(sprite_pixel(t, n, r, c));
        }
    }
}

/// Drawing the same sprite twice at the same position restores the
/// framebuffer: the XOR toggles cancel. This holds whenever neither operand
/// register is `VF`, which the first draw overwrites with its collision
/// flag.
pub proof fn lemma_draw_twice_restores(s: MachineView, x: usize, y: usize, n: u8, rnd: u8)
    requires
        s.wf(),
        x < 15,
        y < 15,
        n < 16,
        s.i + n <= 4096,
    ensures
        spec_execute(s, Instruction::DRW { x, y, n }, rnd) matches Ok(s1) && spec_execute(
            s1,
            Instruction::DRW { x, y, n },
            rnd,
        ) matches Ok(s2) && s2.display == s.display,
{
    let d = Instruction::DRW { x, y, n };
    let s1 = spec_execute(s, d, rnd)->Ok_0;
    let s2 = spec_execute(s1, d, rnd)->Ok_0;
    assert forall|j: int| 0 <= j < 8192 implies s2.display[j] == s.display[j] by {
        lemma_toggles_agree(s, s1, x as int, y as int, n as int, j);
    }
    assert(s2.display =~= s.display);
}

/// `ADD Vx,Vy` always succeeds; it sets `VF` to 1 exactly when the sum of
/// the pre-operation values overflows a byte, to 0 otherwise, and stores the
/// sum modulo 256 in `Vx`. When `Vx` is `VF` itself the flag overwrites the
/// stored sum, so the result clause holds for the other registers.
pub proof fn lemma_add_carry(s: MachineView, x: usize, y: usize, rnd: u8)
    requires
        s.wf(),
        x < 16,
        y < 16,
    ensures
        spec_execute(s, Instruction::ADDxy { x, y }, rnd) matches Ok(s2) && s2.regs[15] == (if s.regs[x as int] + s.regs[y as int] > 255 {
            1u8
        } else {
            0u8
        }) && (x != 15 ==> s2.regs[x as int] == (s.regs[x as int] + s.regs[y as int]) % 256),
{
}

/// `SUB Vx,Vy` always succeeds; it sets `VF` to 1 exactly when no borrow
/// occurs (`Vx >= Vy` before the operation), to 0 otherwise, and stores the
/// wrapping difference modulo 256 in `Vx`. When `Vx` is `VF` itself the flag
/// overwrites the stored difference, so the result clause holds for the
/// other registers.
pub proof fn lemma_sub_borrow(s: MachineView, x: usize, y: usize, rnd: u8)
    requires
        s.wf(),
        x < 16,
        y < 16,
    ensures
        spec_execute(s, Instruction::SUB { x, y }, rnd) matches Ok(s2) && s2.regs[15] == (if s.regs[x as int] >= s.regs[y as int] {
            1u8
        } else {
            0u8
        }) && (x != 15 ==> s2.regs[x as int] == (s.regs[x as int] - s.regs[y as int] + 256) % 256),
{
}

/// The instructions that neither rewrite the program counter (jumps, calls,
/// returns), nor add an extra step to it (skips), nor rewind it (the
/// blocking key wait).
pub open spec fn is_plain(instr: Instruction) -> bool {
    &&& !is_skip(instr)
    &&& !(instr matches Instruction::JPnnn { .. })
    &&& !(instr matches Instruction::JPnnnv { .. })
    &&& !(instr matches Instruction::CALL { .. })
    &&& !(instr matches Instruction::RET)
    &&& !(instr matches Instruction::LDx { .. })
}

/// After a step whose fetched instruction is plain, the program counter has
/// advanced by exactly 2 from its pre-step value — whether the instruction
/// succeeded or faulted after the fetch.
pub proof fn lemma_pc_advance(s: MachineView, rnd: u8)
    requires
        s.wf(),
        s.pc + 1 < 4096,
        is_plain(spec_decode((s.mem[s.pc as int] * 256 + s.mem[s.pc + 1]) as u16)),
    ensures
        spec_step(s, rnd).0.pc == s.pc + 2,
{
}

/// Scrolling left by 4 clears the rightmost four columns of every row:
/// nothing the flat rotation wrapped in can survive there.
pub proof fn lemma_scroll_left_clears(s: MachineView, rnd: u8)
    requires
        s.wf(),
    ensures
        spec_execute(s, Instruction::SCL, rnd) matches Ok(s2) && (forall|j: int|
            0 <= j < 8192 && j % 128 >= 124 ==> !s2.display[j]),
{
}

} // verus!
