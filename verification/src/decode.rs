//! The decode half of the dispatch engine: a 2-byte instruction word is
//! split into four 4-bit nibbles and mapped to a tagged instruction with
//! its operand fields extracted (`x`, `y`, `n` nibbles, `nn` byte, `nnn`
//! 12-bit address). Patterns no arm matches decode to `Unknown`.

use vstd::prelude::*;

verus! {

/// One decoded instruction. Variant order follows the dispatch table.
#[derive(Debug, Clone, Copy, PartialEq, Eq, Structural)]
pub enum Instr {
    /// `00Cx`: scroll down by `V[x]` rows.
    ScrollDown(u8),
    /// `00FB`: scroll right (accepted, moves nothing).
    ScrollRight,
    /// `00FC`: scroll left (accepted, moves nothing).
    ScrollLeft,
    /// `00FD`: stop fetching.
    Exit,
    /// `00FE`: leave high-resolution mode.
    LowRes,
    /// `00FF`: enter high-resolution mode.
    HighRes,
    /// `00E0`: clear the framebuffer.
    Clear,
    /// `00EE`: return from a subroutine.
    Ret,
    /// `0nnn` otherwise: native machine-code call (unsupported).
    NativeCall(u16),
    /// `1nnn`: jump.
    Jmp(u16),
    /// `2nnn`: call.
    Jsr(u16),
    /// `3xkk`: skip when `V[x] == nn`.
    SkipEqNN(u8, u8),
    /// `4xkk`: skip when `V[x] != nn`.
    SkipNeNN(u8, u8),
    /// `5xy0`: skip when `V[x] == V[y]`.
    SkipEqV(u8, u8),
    /// `6xkk`: `V[x] = nn`.
    SetV(u8, u8),
    /// `7xkk`: `V[x] += nn`, flag cleared.
    AddV(u8, u8),
    /// `8xy0`: `V[x] = V[y]`.
    MovV(u8, u8),
    /// `8xy1`: or.
    OrV(u8, u8),
    /// `8xy2`: and.
    AndV(u8, u8),
    /// `8xy3`: xor.
    XorV(u8, u8),
    /// `8xy4`: add with carry flag.
    AddCarry(u8, u8),
    /// `8xy5`: subtract with inverted borrow flag.
    SubBorrow(u8, u8),
    /// `8xy6`: shift `V[y]` right into `V[x]`.
    ShrV(u8, u8),
    /// `8xy7`: reversed subtract with inverted borrow flag.
    SubNBorrow(u8, u8),
    /// `8xyE`: shift `V[y]` left into `V[x]`.
    ShlV(u8, u8),
    /// `9xy0`: skip when `V[x] != V[y]`.
    SkipNeV(u8, u8),
    /// `Annn`: `I = nnn`.
    SetI(u16),
    /// `Bnnn`: jump to `V[0] + nnn`.
    JmpV0(u16),
    /// `Cxkk`: random byte masked with `nn`.
    Rand(u8, u8),
    /// `Dxyn`: sprite draw.
    Draw(u8, u8, u8),
    /// `Ex9E`: skip when key `V[x]` pressed.
    SkipKey(u8),
    /// `ExA1`: skip when key `V[x]` released.
    SkipNoKey(u8),
    /// `Fx07`: read the delay timer.
    GetDelay(u8),
    /// `Fx0A`: wait for a latched key.
    WaitKey(u8),
    /// `Fx15`: arm the delay timer.
    StartDelay(u8),
    /// `Fx18`: arm the sound timer.
    StartSound(u8),
    /// `Fx1E`: `I += V[x]`.
    AddI(u8),
    /// `Fx29`: point `I` at a low-resolution glyph.
    SpriteI(u8),
    /// `Fx30`: point `I` at a high-resolution glyph.
    HgrSpriteI(u8),
    /// `Fx33`: BCD expansion.
    Bcd(u8),
    /// `Fx55`: store `V[0..=x]` to memory.
    StoreV(u8),
    /// `Fx65`: read `V[0..=x]` from memory.
    ReadV(u8),
    /// `Fx75`: store `V[0..=x]` to the persistent flags.
    StoreFlags(u8),
    /// `Fx85`: read `V[0..=x]` from the persistent flags.
    ReadFlags(u8),
    /// No pattern matched.
    Unknown,
}

/// What `decode` returns for the instruction word `b0 b1`, arm by arm in
/// dispatch-table order.
pub open spec fn spec_decode(b0: u8, b1: u8) -> Instr {
    let n0 = b0 >> 4u8;
    let n1 = b0 & 0x0F;
    let n2 = b1 >> 4u8;
    let n3 = b1 & 0x0F;
    let nn = b1;
    let nnn = ((n1 as u16) * 256 + (nn as u16)) as u16;
    if n0 == 0 && n1 == 0 && n2 == 0xC {
        Instr::ScrollDown(n3)
    } else if n0 == 0 && n1 == 0 && n2 == 0xF && n3 == 0xB {
        Instr::ScrollRight
    } else if n0 == 0 && n1 == 0 && n2 == 0xF && n3 == 0xC {
        Instr::ScrollLeft
    } else if n0 == 0 && n1 == 0 && n2 == 0xF && n3 == 0xD {
        Instr::Exit
    } else if n0 == 0 && n1 == 0 && n2 == 0xF && n3 == 0xE {
        Instr::LowRes
    } else if n0 == 0 && n1 == 0 && n2 == 0xF && n3 == 0xF {
        Instr::HighRes
    } else if n0 == 0 && n1 == 0 && n2 == 0xE && n3 == 0 {
        Instr::Clear
    } else if n0 == 0 && n1 == 0 && n2 == 0xE && n3 == 0xE {
        Instr::Ret
    } else if n0 == 0 {
        Instr::NativeCall(nnn)
    } else if n0 == 1 {
        Instr::Jmp(nnn)
    } else if n0 == 2 {
        Instr::Jsr(nnn)
    } else if n0 == 3 {
        Instr::SkipEqNN(n1, nn)
    } else if n0 == 4 {
        Instr::SkipNeNN(n1, nn)
    } else if n0 == 5 && n3 == 0 {
        Instr::SkipEqV(n1, n2)
    } else if n0 == 6 {
        Instr::SetV(n1, nn)
    } else if n0 == 7 {
        Instr::AddV(n1, nn)
    } else if n0 == 8 && n3 == 0 {
        Instr::MovV(n1, n2)
    } else if n0 == 8 && n3 == 1 {
        Instr::OrV(n1, n2)
    } else if n0 == 8 && n3 == 2 {
        Instr::AndV(n1, n2)
    } else if n0 == 8 && n3 == 3 {
        Instr::XorV(n1, n2)
    } else if n0 == 8 && n3 == 4 {
        Instr::AddCarry(n1, n2)
    } else if n0 == 8 && n3 == 5 {
        Instr::SubBorrow(n1, n2)
    } else if n0 == 8 && n3 == 6 {
        Instr::ShrV(n1, n2)
    } else if n0 == 8 && n3 == 7 {
        Instr::SubNBorrow(n1, n2)
    } else if n0 == 8 && n3 == 0xE {
        Instr::ShlV(n1, n2)
    } else if n0 == 9 && n3 == 0 {
        Instr::SkipNeV(n1, n2)
    } else if n0 == 0xA {
        Instr::SetI(nnn)
    } else if n0 == 0xB {
        Instr::JmpV0(nnn)
    } else if n0 == 0xC {
        Instr::Rand(n1, nn)
    } else if n0 == 0xD {
        Instr::Draw(n1, n2, n3)
    } else if n0 == 0xE && n2 == 9 && n3 == 0xE {
        Instr::SkipKey(n1)
    } else if n0 == 0xE && n2 == 0xA && n3 == 1 {
        Instr::SkipNoKey(n1)
    } else if n0 == 0xF && n2 == 0 && n3 == 7 {
        Instr::GetDelay(n1)
    } else if n0 == 0xF && n2 == 0 && n3 == 0xA {
        Instr::WaitKey(n1)
    } else if n0 == 0xF && n2 == 1 && n3 == 5 {
        Instr::StartDelay(n1)
    } else if n0 == 0xF && n2 == 1 && n3 == 8 {
        Instr::StartSound(n1)
    } else if n0 == 0xF && n2 == 1 && n3 == 0xE {
        Instr::AddI(n1)
    } else if n0 == 0xF && n2 == 2 && n3 == 9 {
        Instr::SpriteI(n1)
    } else if n0 == 0xF && n2 == 3 && n3 == 0 {
        Instr::HgrSpriteI(n1)
    } else if n0 == 0xF && n2 == 3 && n3 == 3 {
        Instr::Bcd(n1)
    } else if n0 == 0xF && n2 == 5 && n3 == 5 {
        Instr::StoreV(n1)
    } else if n0 == 0xF && n2 == 6 && n3 == 5 {
        Instr::ReadV(n1)
    } else if n0 == 0xF && n2 == 7 && n3 == 5 {
        Instr::StoreFlags(n1)
    } else if n0 == 0xF && n2 == 8 && n3 == 5 {
        Instr::ReadFlags(n1)
    } else {
        Instr::Unknown
    }
}

/// Every operand a decoded instruction carries is in range: register
/// numbers and nibbles below 16, addresses below 4096.
pub open spec fn decode_bounded(r: Instr) -> bool {
    match r {
        Instr::ScrollDown(x) => x < 16,
        Instr::NativeCall(nnn) => nnn < 4096,
        Instr::Jmp(nnn) => nnn < 4096,
        Instr::Jsr(nnn) => nnn < 4096,
        Instr::SkipEqNN(x, _nn) => x < 16,
        Instr::SkipNeNN(x, _nn) => x < 16,
        Instr::SkipEqV(x, y) => x < 16 && y < 16,
        Instr::SetV(x, _nn) => x < 16,
        Instr::AddV(x, _nn) => x < 16,
        Instr::MovV(x, y) => x < 16 && y < 16,
        Instr::OrV(x, y) => x < 16 && y < 16,
        Instr::AndV(x, y) => x < 16 && y < 16,
        Instr::XorV(x, y) => x < 16 && y < 16,
        Instr::AddCarry(x, y) => x < 16 && y < 16,
        Instr::SubBorrow(x, y) => x < 16 && y < 16,
        Instr::ShrV(x, y) => x < 16 && y < 16,
        Instr::SubNBorrow(x, y) => x < 16 && y < 16,
        Instr::ShlV(x, y) => x < 16 && y < 16,
        Instr::SkipNeV(x, y) => x < 16 && y < 16,
        Instr::SetI(nnn) => nnn < 4096,
        Instr::JmpV0(nnn) => nnn < 4096,
        Instr::Rand(x, _nn) => x < 16,
        Instr::Draw(x, y, n) => x < 16 && y < 16 && n < 16,
        Instr::SkipKey(x) => x < 16,
        Instr::SkipNoKey(x) => x < 16,
        Instr::GetDelay(x) => x < 16,
        Instr::WaitKey(x) => x < 16,
        Instr::StartDelay(x) => x < 16,
        Instr::StartSound(x) => x < 16,
        Instr::AddI(x) => x < 16,
        Instr::SpriteI(x) => x < 16,
        Instr::HgrSpriteI(x) => x < 16,
        Instr::Bcd(x) => x < 16,
        Instr::StoreV(x) => x < 16,
        Instr::ReadV(x) => x < 16,
        Instr::StoreFlags(x) => x < 16,
        Instr::ReadFlags(x) => x < 16,
        _ => true,
    }
}

/// Decode one instruction word.
pub fn decode(b0: u8, b1: u8) -> (r: Instr)
    ensures
        r == spec_decode(b0, b1),
        decode_bounded(r),
{
    let n0 = b0 >> 4u8;
    let n1 = b0 & 0x0F;
    let n2 = b1 >> 4u8;
    let n3 = b1 & 0x0F;
    let nn = b1;
    assert(n1 < 16 && n2 < 16 && n3 < 16) by (bit_vector)
        requires
            n1 == b0 & 0x0F,
            n2 == b1 >> 4u8,
            n3 == b1 & 0x0F,
    ;
    let nnn: u16 = (n1 as u16) * 256 + (nn as u16);
    match (n0, n1, n2, n3) {
        (0, 0, 0xC, x) => Instr::ScrollDown(x),
        (0, 0, 0xF, 0xB) => Instr::ScrollRight,
        (0, 0, 0xF, 0xC) => Instr::ScrollLeft,
        (0, 0, 0xF, 0xD) => Instr::Exit,
        (0, 0, 0xF, 0xE) => Instr::LowRes,
        (0, 0, 0xF, 0xF) => Instr::HighRes,
        (0, 0, 0xE, 0) => Instr::Clear,
        (0, 0, 0xE, 0xE) => Instr::Ret,
        (0, _, _, _) => Instr::NativeCall(nnn),
        (1, _, _, _) => Instr::Jmp(nnn),
        (2, _, _, _) => Instr::Jsr(nnn),
        (3, x, _, _) => Instr::SkipEqNN(x, nn),
        (4, x, _, _) => Instr::SkipNeNN(x, nn),
        (5, x, y, 0) => Instr::SkipEqV(x, y),
        (6, x, _, _) => Instr::SetV(x, nn),
        (7, x, _, _) => Instr::AddV(x, nn),
        (8, x, y, 0) => Instr::MovV(x, y),
        (8, x, y, 1) => Instr::OrV(x, y),
        (8, x, y, 2) => Instr::AndV(x, y),
        (8, x, y, 3) => Instr::XorV(x, y),
        (8, x, y, 4) => Instr::AddCarry(x, y),
        (8, x, y, 5) => Instr::SubBorrow(x, y),
        (8, x, y, 6) => Instr::ShrV(x, y),
        (8, x, y, 7) => Instr::SubNBorrow(x, y),
        (8, x, y, 0xE) => Instr::ShlV(x, y),
        (9, x, y, 0) => Instr::SkipNeV(x, y),
        (0xA, _, _, _) => Instr::SetI(nnn),
        (0xB, _, _, _) => Instr::JmpV0(nnn),
        (0xC, x, _, _) => Instr::Rand(x, nn),
        (0xD, x, y, n) => Instr::Draw(x, y, n),
        (0xE, x, 9, 0xE) => Instr::SkipKey(x),
        (0xE, x, 0xA, 1) => Instr::SkipNoKey(x),
        (0xF, x, 0, 7) => Instr::GetDelay(x),
        (0xF, x, 0, 0xA) => Instr::WaitKey(x),
        (0xF, x, 1, 5) => Instr::StartDelay(x),
        (0xF, x, 1, 8) => Instr::StartSound(x),
        (0xF, x, 1, 0xE) => Instr::AddI(x),
        (0xF, x, 2, 9) => Instr::SpriteI(x),
        (0xF, x, 3, 0) => Instr::HgrSpriteI(x),
        (0xF, x, 3, 3) => Instr::Bcd(x),
        (0xF, x, 5, 5) => Instr::StoreV(x),
        (0xF, x, 6, 5) => Instr::ReadV(x),
        (0xF, x, 7, 5) => Instr::StoreFlags(x),
        (0xF, x, 8, 5) => Instr::ReadFlags(x),
        _ => Instr::Unknown,
    }
}

} // verus!
