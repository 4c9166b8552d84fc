//! Decoding of 16-bit CHIP-8 / Super-CHIP opcodes into instruction values.

use vstd::prelude::*;

verus! {

/// A decoded instruction. Every 16-bit opcode maps to exactly one variant;
/// codes outside the instruction set map to `INVALID`, which carries the raw
/// opcode for diagnostics. Operand fields follow the conventional naming:
/// `x` and `y` are register indices, `kk` an immediate byte, `n` a nibble,
/// `nnn` a 12-bit address.
#[derive(Clone, Copy, Debug, PartialEq, Eq, Structural)]
pub enum Instruction {
    ADDix { x: usize },
    ADDxkk { x: usize, kk: u8 },
    ADDxy { x: usize, y: usize },
    AND { x: usize, y: usize },
    CALL { nnn: u16 },
    CLS,
    DRW { x: usize, y: usize, n: u8 },
    DRWH { x: usize, y: usize },
    EXIT,
    HIGH,
    INVALID { opcode: u16 },
    JPnnn { nnn: u16 },
    JPnnnv { nnn: u16 },
    LDbx { x: usize },
    LDfx { x: usize },
    LDhfx { x: usize },
    LDix { x: usize },
    LDnnn { nnn: u16 },
    LDrx { x: usize },
    LDsx { x: usize },
    LDtx { x: usize },
    LDx { x: usize },
    LDxi { x: usize },
    LDxkk { x: usize, kk: u8 },
    LDxr { x: usize },
    LDxt { x: usize },
    LDxy { x: usize, y: usize },
    LOW,
    OR { x: usize, y: usize },
    RET,
    RND { x: usize, kk: u8 },
    SCDn { n: u8 },
    SCL,
    SCR,
    SExkk { x: usize, kk: u8 },
    SExy { x: usize, y: usize },
    SHL { x: usize, y: usize },
    SHR { x: usize, y: usize },
    SKNP { x: usize },
    SKP { x: usize },
    SNExkk { x: usize, kk: u8 },
    SNExy { x: usize, y: usize },
    SUB { x: usize, y: usize },
    SUBN { x: usize, y: usize },
    XOR { x: usize, y: usize },
}

impl Instruction {
    /// Operand fields are within the ranges the decoder can produce: register
    /// indices and nibbles below 16, addresses below 0x1000.
    pub open spec fn wf(self) -> bool {
        match self {
            Instruction::ADDix { x } => x < 16,
            Instruction::ADDxkk { x, .. } => x < 16,
            Instruction::ADDxy { x, y } => x < 16 && y < 16,
            Instruction::AND { x, y } => x < 16 && y < 16,
            Instruction::CALL { nnn } => nnn < 0x1000,
            Instruction::CLS => true,
            Instruction::DRW { x, y, n } => x < 16 && y < 16 && n < 16,
            Instruction::DRWH { x, y } => x < 16 && y < 16,
            Instruction::EXIT => true,
            Instruction::HIGH => true,
            Instruction::INVALID { .. } => true,
            Instruction::JPnnn { nnn } => nnn < 0x1000,
            Instruction::JPnnnv { nnn } => nnn < 0x1000,
            Instruction::LDbx { x } => x < 16,
            Instruction::LDfx { x } => x < 16,
            Instruction::LDhfx { x } => x < 16,
            Instruction::LDix { x } => x < 16,
            Instruction::LDnnn { nnn } => nnn < 0x1000,
            Instruction::LDrx { x } => x < 16,
            Instruction::LDsx { x } => x < 16,
            Instruction::LDtx { x } => x < 16,
            Instruction::LDx { x } => x < 16,
            Instruction::LDxi { x } => x < 16,
            Instruction::LDxkk { x, .. } => x < 16,
            Instruction::LDxr { x } => x < 16,
            Instruction::LDxt { x } => x < 16,
            Instruction::LDxy { x, y } => x < 16 && y < 16,
            Instruction::LOW => true,
            Instruction::OR { x, y } => x < 16 && y < 16,
            Instruction::RET => true,
            Instruction::RND { x, .. } => x < 16,
            Instruction::SCDn { n } => n < 16,
            Instruction::SCL => true,
            Instruction::SCR => true,
            Instruction::SExkk { x, .. } => x < 16,
            Instruction::SExy { x, y } => x < 16 && y < 16,
            Instruction::SHL { x, y } => x < 16 && y < 16,
            Instruction::SHR { x, y } => x < 16 && y < 16,
            Instruction::SKNP { x } => x < 16,
            Instruction::SKP { x } => x < 16,
            Instruction::SNExkk { x, .. } => x < 16,
            Instruction::SNExy { x, y } => x < 16 && y < 16,
            Instruction::SUB { x, y } => x < 16 && y < 16,
            Instruction::SUBN { x, y } => x < 16 && y < 16,
            Instruction::XOR { x, y } => x < 16 && y < 16,
        }
    }
}

/// The meaning of a raw opcode: split into four nibbles, match on the nibble
/// pattern, and carry the embedded operand fields along.
pub open spec fn spec_decode(opcode: u16) -> Instruction {
    let op1 = (opcode & 0xF000) >> 12;
    let op2 = (opcode & 0x0F00) >> 8;
    let op3 = (opcode & 0x00F0) >> 4;
    let op4 = opcode & 0x000F;
    let x = ((opcode & 0x0F00) >> 8) as usize;
    let y = ((opcode & 0x00F0) >> 4) as usize;
    let nnn = opcode & 0x0FFF;
    let kk = (opcode & 0x00FF) as u8;
    let n = (opcode & 0x000F) as u8;
    if op1 == 0x0 && op2 == 0x0 && op3 == 0xC {
        Instruction::SCDn { n }
    } else if op1 == 0x0 && op2 == 0x0 && op3 == 0xE && op4 == 0x0 {
        Instruction::CLS
    } else if op1 == 0x0 && op2 == 0x0 && op3 == 0xE && op4 == 0xE {
        Instruction::RET
    } else if op1 == 0x0 && op2 == 0x0 && op3 == 0xF && op4 == 0xB {
        Instruction::SCR
    } else if op1 == 0x0 && op2 == 0x0 && op3 == 0xF && op4 == 0xC {
        Instruction::SCL
    } else if op1 == 0x0 && op2 == 0x0 && op3 == 0xF && op4 == 0xD {
        Instruction::EXIT
    } else if op1 == 0x0 && op2 == 0x0 && op3 == 0xF && op4 == 0xE {
        Instruction::LOW
    } else if op1 == 0x0 && op2 == 0x0 && op3 == 0xF && op4 == 0xF {
        Instruction::HIGH
    } else if op1 == 0x1 {
        Instruction::JPnnn { nnn }
    } else if op1 == 0x2 {
        Instruction::CALL { nnn }
    } else if op1 == 0x3 {
        Instruction::SExkk { x, kk }
    } else if op1 == 0x4 {
        Instruction::SNExkk { x, kk }
    } else if op1 == 0x5 && op4 == 0x0 {
        Instruction::SExy { x, y }
    } else if op1 == 0x6 {
        Instruction::LDxkk { x, kk }
    } else if op1 == 0x7 {
        Instruction::ADDxkk { x, kk }
    } else if op1 == 0x8 && op4 == 0x0 {
        Instruction::LDxy { x, y }
    } else if op1 == 0x8 && op4 == 0x1 {
        Instruction::OR { x, y }
    } else if op1 == 0x8 && op4 == 0x2 {
        Instruction::AND { x, y }
    } else if op1 == 0x8 && op4 == 0x3 {
        Instruction::XOR { x, y }
    } else if op1 == 0x8 && op4 == 0x4 {
        Instruction::ADDxy { x, y }
    } else if op1 == 0x8 && op4 == 0x5 {
        Instruction::SUB { x, y }
    } else if op1 == 0x8 && op4 == 0x6 {
        Instruction::SHR { x, y }
    } else if op1 == 0x8 && op4 == 0x7 {
        Instruction::SUBN { x, y }
    } else if op1 == 0x8 && op4 == 0xE {
        Instruction::SHL { x, y }
    } else if op1 == 0x9 {
        Instruction::SNExy { x, y }
    } else if op1 == 0xA {
        Instruction::LDnnn { nnn }
    } else if op1 == 0xB {
        Instruction::JPnnnv { nnn }
    } else if op1 == 0xC {
        Instruction::RND { x, kk }
    } else if op1 == 0xD && op4 == 0x0 {
        Instruction::DRWH { x, y }
    } else if op1 == 0xD {
        Instruction::DRW { x, y, n }
    } else if op1 == 0xE && op3 == 0x9 && op4 == 0xE {
        Instruction::SKP { x }
    } else if op1 == 0xE && op3 == 0xA && op4 == 0x1 {
        Instruction::SKNP { x }
    } else if op1 == 0xF && op3 == 0x0 && op4 == 0x7 {
        Instruction::LDxt { x }
    } else if op1 == 0xF && op3 == 0x0 && op4 == 0xA {
        Instruction::LDx { x }
    } else if op1 == 0xF && op3 == 0x1 && op4 == 0x5 {
        Instruction::LDtx { x }
    } else if op1 == 0xF && op3 == 0x1 && op4 == 0x8 {
        Instruction::LDsx { x }
    } else if op1 == 0xF && op3 == 0x1 && op4 == 0xE {
        Instruction::ADDix { x }
    } else if op1 == 0xF && op3 == 0x2 && op4 == 0x9 {
        Instruction::LDfx { x }
    } else if op1 == 0xF && op3 == 0x3 && op4 == 0x0 {
        Instruction::LDhfx { x }
    } else if op1 == 0xF && op3 == 0x3 && op4 == 0x3 {
        Instruction::LDbx { x }
    } else if op1 == 0xF && op3 == 0x5 && op4 == 0x5 {
        Instruction::LDix { x }
    } else if op1 == 0xF && op3 == 0x6 && op4 == 0x5 {
        Instruction::LDxi { x }
    } else if op1 == 0xF && op3 == 0x7 && op4 == 0x5 {
        Instruction::LDrx { x }
    } else if op1 == 0xF && op3 == 0x8 && op4 == 0x5 {
        Instruction::LDxr { x }
    } else {
        Instruction::INVALID { opcode }
    }
}

/// Whatever the opcode, the decoder yields an instruction whose operand
/// fields are in range.
pub proof fn lemma_decode_wf(opcode: u16)
    ensures
        spec_decode(opcode).wf(),
{
    assert(((opcode & 0x0F00) >> 8) < 16) by (bit_vector);
    assert(((opcode & 0x00F0) >> 4) < 16) by (bit_vector);
    assert((opcode & 0x0FFF) < 0x1000) by (bit_vector);
    assert((opcode & 0x000F) < 16) by (bit_vector);
}

impl Instruction {
    /// Total decoder: every 16-bit opcode produces exactly one instruction,
    /// with unknown codes mapped to the explicit `INVALID` variant.
    pub fn from_opcode(opcode: u16) -> (r: Instruction)
        ensures
            r == spec_decode(opcode),
            r.wf(),
    {
        proof {
            lemma_decode_wf(opcode);
        }
        let op1 = (opcode & 0xF000) >> 12;
        let op2 = (opcode & 0x0F00) >> 8;
        let op3 = (opcode & 0x00F0) >> 4;
        let op4 = opcode & 0x000F;
        let x = ((opcode & 0x0F00) >> 8) as usize;
        let y = ((opcode & 0x00F0) >> 4) as usize;
        let nnn = opcode & 0x0FFF;
        let kk = (opcode & 0x00FF) as u8;
        let n = (opcode & 0x000F) as u8;
        if op1 == 0x0 && op2 == 0x0 && op3 == 0xC {
            Instruction::SCDn { n }
        } else if op1 == 0x0 && op2 == 0x0 && op3 == 0xE && op4 == 0x0 {
            Instruction::CLS
        } else if op1 == 0x0 && op2 == 0x0 && op3 == 0xE && op4 == 0xE {
            Instruction::RET
        } else if op1 == 0x0 && op2 == 0x0 && op3 == 0xF && op4 == 0xB {
            Instruction::SCR
        } else if op1 == 0x0 && op2 == 0x0 && op3 == 0xF && op4 == 0xC {
            Instruction::SCL
        } else if op1 == 0x0 && op2 == 0x0 && op3 == 0xF && op4 == 0xD {
            Instruction::EXIT
        } else if op1 == 0x0 && op2 == 0x0 && op3 == 0xF && op4 == 0xE {
            Instruction::LOW
        } else if op1 == 0x0 && op2 == 0x0 && op3 == 0xF && op4 == 0xF {
            Instruction::HIGH
        } else if op1 == 0x1 {
            Instruction::JPnnn { nnn }
        } else if op1 == 0x2 {
            Instruction::CALL { nnn }
        } else if op1 == 0x3 {
            Instruction::SExkk { x, kk }
        } else if op1 == 0x4 {
            Instruction::SNExkk { x, kk }
        } else if op1 == 0x5 && op4 == 0x0 {
            Instruction::SExy { x, y }
        } else if op1 == 0x6 {
            Instruction::LDxkk { x, kk }
        } else if op1 == 0x7 {
            Instruction::ADDxkk { x, kk }
        } else if op1 == 0x8 && op4 == 0x0 {
            Instruction::LDxy { x, y }
        } else if op1 == 0x8 && op4 == 0x1 {
            Instruction::OR { x, y }
        } else if op1 == 0x8 && op4 == 0x2 {
            Instruction::AND { x, y }
        } else if op1 == 0x8 && op4 == 0x3 {
            Instruction::XOR { x, y }
        } else if op1 == 0x8 && op4 == 0x4 {
            Instruction::ADDxy { x, y }
        } else if op1 == 0x8 && op4 == 0x5 {
            Instruction::SUB { x, y }
        } else if op1 == 0x8 && op4 == 0x6 {
            Instruction::SHR { x, y }
        } else if op1 == 0x8 && op4 == 0x7 {
            Instruction::SUBN { x, y }
        } else if op1 == 0x8 && op4 == 0xE {
            Instruction::SHL { x, y }
        } else if op1 == 0x9 {
            Instruction::SNExy { x, y }
        } else if op1 == 0xA {
            Instruction::LDnnn { nnn }
        } else if op1 == 0xB {
            Instruction::JPnnnv { nnn }
        } else if op1 == 0xC {
            Instruction::RND { x, kk }
        } else if op1 == 0xD && op4 == 0x0 {
            Instruction::DRWH { x, y }
        } else if op1 == 0xD {
            Instruction::DRW { x, y, n }
        } else if op1 == 0xE && op3 == 0x9 && op4 == 0xE {
            Instruction::SKP { x }
        } else if op1 == 0xE && op3 == 0xA && op4 == 0x1 {
            Instruction::SKNP { x }
        } else if op1 == 0xF && op3 == 0x0 && op4 == 0x7 {
            Instruction::LDxt { x }
        } else if op1 == 0xF && op3 == 0x0 && op4 == 0xA {
            Instruction::LDx { x }
        } else if op1 == 0xF && op3 == 0x1 && op4 == 0x5 {
            Instruction::LDtx { x }
        } else if op1 == 0xF && op3 == 0x1 && op4 == 0x8 {
            Instruction::LDsx { x }
        } else if op1 == 0xF && op3 == 0x1 && op4 == 0xE {
            Instruction::ADDix { x }
        } else if op1 == 0xF && op3 == 0x2 && op4 == 0x9 {
            Instruction::LDfx { x }
        } else if op1 == 0xF && op3 == 0x3 && op4 == 0x0 {
            Instruction::LDhfx { x }
        } else if op1 == 0xF && op3 == 0x3 && op4 == 0x3 {
            Instruction::LDbx { x }
        } else if op1 == 0xF && op3 == 0x5 && op4 == 0x5 {
            Instruction::LDix { x }
        } else if op1 == 0xF && op3 == 0x6 && op4 == 0x5 {
            Instruction::LDxi { x }
        } else if op1 == 0xF && op3 == 0x7 && op4 == 0x5 {
            Instruction::LDrx { x }
        } else if op1 == 0xF && op3 == 0x8 && op4 == 0x5 {
            Instruction::LDxr { x }
        } else {
            Instruction::INVALID { opcode }
        }
    }
}

} // verus!
