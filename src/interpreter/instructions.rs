#![allow(non_snake_case)]

use vstd::prelude::*;

use super::{op_kk, op_nnn, ControlFlow, Fault, Interpreter, VmView, FLAG, REG_COUNT};
use crate::display::{blank, collides, draw};
use crate::keyboard::{lowest_pressed, KEY_COUNT};
use crate::memory::{GLYPH_SIZE, MEM_SIZE};
use crate::stack::STACK_DEPTH;
use crate::timer::Timers;

verus! {

/// Relies on `rand::random::<u8>`: a byte drawn from the thread-local
/// generator. Nothing is known of its value.
#[verifier::external_body]
pub(crate) fn random_byte() -> u8 {
    rand::random::<u8>()
}

/// `r`, `after` and `before` are what `expected` says: on success the new state
/// and the control effect, on a fault the fault and an unchanged state.
pub open spec fn outcome_is(
    expected: Result<(VmView, ControlFlow), Fault>,
    r: Result<ControlFlow, Fault>,
    before: VmView,
    after: VmView,
) -> bool {
    match expected {
        Ok((t, f)) => r == Ok::<ControlFlow, Fault>(f) && after == t,
        Err(e) => r == Err::<ControlFlow, Fault>(e) && after == before,
    }
}

/// `00E0`: clear the display.
pub open spec fn op_00E0(s: VmView) -> (VmView, ControlFlow) {
    (s.with_display(blank()), ControlFlow::Next)
}

pub fn instr_00E0(interp: &mut Interpreter) -> (r: ControlFlow)
    ensures
        (final(interp)@, r) == op_00E0(old(interp)@),
{
    interp.display_buf.clear();
    ControlFlow::Next
}

/// `00EE`: return to the address on top of the call stack.
pub open spec fn op_00EE(s: VmView) -> Result<(VmView, ControlFlow), Fault> {
    if s.stack.len() == 0 {
        Err(Fault::StackUnderflow)
    } else {
        Ok((s.with_stack(s.stack.drop_last()), ControlFlow::Jump(s.stack.last())))
    }
}

pub fn instr_00EE(interp: &mut Interpreter) -> (r: Result<ControlFlow, Fault>)
    ensures
        outcome_is(op_00EE(old(interp)@), r, old(interp)@, final(interp)@),
{
    match interp.stack.pop() {
        Some(pc) => Ok(ControlFlow::Jump(pc)),
        None => Err(Fault::StackUnderflow),
    }
}

/// `1nnn`: jump to `nnn`.
pub open spec fn op_1nnn(s: VmView, nnn: u16) -> (VmView, ControlFlow) {
    (s, ControlFlow::Jump(nnn))
}

pub fn instr_1nnn(interp: &mut Interpreter, nnn: u16) -> (r: ControlFlow)
    ensures
        (final(interp)@, r) == op_1nnn(old(interp)@, nnn),
{
    ControlFlow::Jump(nnn)
}

/// `2nnn`: call `nnn`, pushing the address of the next instruction.
pub open spec fn op_2nnn(s: VmView, nnn: u16) -> Result<(VmView, ControlFlow), Fault> {
    if s.stack.len() >= STACK_DEPTH {
        Err(Fault::StackOverflow)
    } else {
        Ok((s.with_stack(s.stack.push((s.pc + 2) as u16)), ControlFlow::Jump(nnn)))
    }
}

pub fn instr_2nnn(interp: &mut Interpreter, nnn: u16) -> (r: Result<ControlFlow, Fault>)
    requires
        old(interp).program_counter + 1 < MEM_SIZE,
    ensures
        outcome_is(op_2nnn(old(interp)@, nnn), r, old(interp)@, final(interp)@),
{
    if interp.stack.push((interp.program_counter + 2) as u16) {
        Ok(ControlFlow::Jump(nnn))
    } else {
        Err(Fault::StackOverflow)
    }
}

/// `3xkk`: skip the next instruction if `Vx == kk`.
pub open spec fn op_3xkk(s: VmView, x: u8, kk: u8) -> (VmView, ControlFlow) {
    (s, if s.v[x as int] == kk {
        ControlFlow::Skip
    } else {
        ControlFlow::Next
    })
}

pub fn instr_3xkk(interp: &mut Interpreter, x: u8, kk: u8) -> (r: ControlFlow)
    requires
        x < REG_COUNT,
    ensures
        (final(interp)@, r) == op_3xkk(old(interp)@, x, kk),
{
    if interp.reg_v[x as usize] == kk {
        ControlFlow::Skip
    } else {
        ControlFlow::Next
    }
}

/// `4xkk`: skip the next instruction if `Vx != kk`.
pub open spec fn op_4xkk(s: VmView, x: u8, kk: u8) -> (VmView, ControlFlow) {
    (s, if s.v[x as int] != kk {
        ControlFlow::Skip
    } else {
        ControlFlow::Next
    })
}

pub fn instr_4xkk(interp: &mut Interpreter, x: u8, kk: u8) -> (r: ControlFlow)
    requires
        x < REG_COUNT,
    ensures
        (final(interp)@, r) == op_4xkk(old(interp)@, x, kk),
{
    if interp.reg_v[x as usize] != kk {
        ControlFlow::Skip
    } else {
        ControlFlow::Next
    }
}

/// `5xy0`: skip the next instruction if `Vx == Vy`.
pub open spec fn op_5xy0(s: VmView, x: u8, y: u8) -> (VmView, ControlFlow) {
    (s, if s.v[x as int] == s.v[y as int] {
        ControlFlow::Skip
    } else {
        ControlFlow::Next
    })
}

pub fn instr_5xy0(interp: &mut Interpreter, x: u8, y: u8) -> (r: ControlFlow)
    requires
        x < REG_COUNT,
        y < REG_COUNT,
    ensures
        (final(interp)@, r) == op_5xy0(old(interp)@, x, y),
{
    if interp.reg_v[x as usize] == interp.reg_v[y as usize] {
        ControlFlow::Skip
    } else {
        ControlFlow::Next
    }
}

/// `6xkk`: `Vx = kk`.
pub open spec fn op_6xkk(s: VmView, x: u8, kk: u8) -> (VmView, ControlFlow) {
    (s.with_v(x as int, kk), ControlFlow::Next)
}

pub fn instr_6xkk(interp: &mut Interpreter, x: u8, kk: u8) -> (r: ControlFlow)
    requires
        x < REG_COUNT,
    ensures
        (final(interp)@, r) == op_6xkk(old(interp)@, x, kk),
{
    interp.reg_v[x as usize] = kk;
    ControlFlow::Next
}

/// `7xkk`: `Vx = Vx + kk` modulo 256; `VF` is left alone.
pub open spec fn op_7xkk(s: VmView, x: u8, kk: u8) -> (VmView, ControlFlow) {
    (s.with_v(x as int, ((s.v[x as int] + kk) % 256) as u8), ControlFlow::Next)
}

pub fn instr_7xkk(interp: &mut Interpreter, x: u8, kk: u8) -> (r: ControlFlow)
    requires
        x < REG_COUNT,
    ensures
        (final(interp)@, r) == op_7xkk(old(interp)@, x, kk),
{
    interp.reg_v[x as usize] = interp.reg_v[x as usize].wrapping_add(kk);
    ControlFlow::Next
}

/// `8xy0`: `Vx = Vy`.
pub open spec fn op_8xy0(s: VmView, x: u8, y: u8) -> (VmView, ControlFlow) {
    (s.with_v(x as int, s.v[y as int]), ControlFlow::Next)
}

pub fn instr_8xy0(interp: &mut Interpreter, x: u8, y: u8) -> (r: ControlFlow)
    requires
        x < REG_COUNT,
        y < REG_COUNT,
    ensures
        (final(interp)@, r) == op_8xy0(old(interp)@, x, y),
{
    let v_x = interp.reg_v[x as usize];
    let v_y = interp.reg_v[y as usize];
    interp.reg_v[x as usize] = v_y;
    ControlFlow::Next
}

/// `8xy1`: `Vx = Vx | Vy`.
pub open spec fn op_8xy1(s: VmView, x: u8, y: u8) -> (VmView, ControlFlow) {
    (s.with_v(x as int, s.v[x as int] | s.v[y as int]), ControlFlow::Next)
}

pub fn instr_8xy1(interp: &mut Interpreter, x: u8, y: u8) -> (r: ControlFlow)
    requires
        x < REG_COUNT,
        y < REG_COUNT,
    ensures
        (final(interp)@, r) == op_8xy1(old(interp)@, x, y),
{
    let v_x = interp.reg_v[x as usize];
    let v_y = interp.reg_v[y as usize];
    interp.reg_v[x as usize] = v_x | v_y;
    ControlFlow::Next
}

/// `8xy2`: `Vx = Vx & Vy`.
pub open spec fn op_8xy2(s: VmView, x: u8, y: u8) -> (VmView, ControlFlow) {
    (s.with_v(x as int, s.v[x as int] & s.v[y as int]), ControlFlow::Next)
}

pub fn instr_8xy2(interp: &mut Interpreter, x: u8, y: u8) -> (r: ControlFlow)
    requires
        x < REG_COUNT,
        y < REG_COUNT,
    ensures
        (final(interp)@, r) == op_8xy2(old(interp)@, x, y),
{
    let v_x = interp.reg_v[x as usize];
    let v_y = interp.reg_v[y as usize];
    interp.reg_v[x as usize] = v_x & v_y;
    ControlFlow::Next
}

/// `8xy3`: `Vx = Vx ^ Vy`.
pub open spec fn op_8xy3(s: VmView, x: u8, y: u8) -> (VmView, ControlFlow) {
    (s.with_v(x as int, s.v[x as int] ^ s.v[y as int]), ControlFlow::Next)
}

pub fn instr_8xy3(interp: &mut Interpreter, x: u8, y: u8) -> (r: ControlFlow)
    requires
        x < REG_COUNT,
        y < REG_COUNT,
    ensures
        (final(interp)@, r) == op_8xy3(old(interp)@, x, y),
{
    let v_x = interp.reg_v[x as usize];
    let v_y = interp.reg_v[y as usize];
    interp.reg_v[x as usize] = v_x ^ v_y;
    ControlFlow::Next
}

/// `8xy4`: `Vx = Vx + Vy` modulo 256; `VF` is 1 on a carry, else 0.
pub open spec fn op_8xy4(s: VmView, x: u8, y: u8) -> (VmView, ControlFlow) {
    (
        s.with_v(x as int, ((s.v[x as int] + s.v[y as int]) % 256) as u8).with_v(FLAG as int, if s.v[x as int] + s.v[y as int] > 255 {
            1
        } else {
            0
        }),
        ControlFlow::Next,
    )
}

pub fn instr_8xy4(interp: &mut Interpreter, x: u8, y: u8) -> (r: ControlFlow)
    requires
        x < REG_COUNT,
        y < REG_COUNT,
    ensures
        (final(interp)@, r) == op_8xy4(old(interp)@, x, y),
{
    let sum = interp.reg_v[x as usize] as u16 + interp.reg_v[y as usize] as u16;
    interp.reg_v[x as usize] = (sum % 256) as u8;
    interp.reg_v[FLAG as usize] = if sum > 255 {
        1
    } else {
        0
    };
    ControlFlow::Next
}

/// `8xy5`: `Vx = Vx - Vy` modulo 256; `VF` is 1 when there is no borrow, else 0.
pub open spec fn op_8xy5(s: VmView, x: u8, y: u8) -> (VmView, ControlFlow) {
    (
        s.with_v(x as int, ((s.v[x as int] - s.v[y as int]) % 256) as u8).with_v(FLAG as int, if s.v[x as int] >= s.v[y as int] {
            1
        } else {
            0
        }),
        ControlFlow::Next,
    )
}

pub fn instr_8xy5(interp: &mut Interpreter, x: u8, y: u8) -> (r: ControlFlow)
    requires
        x < REG_COUNT,
        y < REG_COUNT,
    ensures
        (final(interp)@, r) == op_8xy5(old(interp)@, x, y),
{
    let v_x = interp.reg_v[x as usize];
    let v_y = interp.reg_v[y as usize];
    interp.reg_v[x as usize] = v_x.wrapping_sub(v_y);
    interp.reg_v[FLAG as usize] = if v_x >= v_y {
        1
    } else {
        0
    };
    ControlFlow::Next
}

/// `8xy6`: `Vx = Vy >> 1`; `VF` is the bit shifted out.
pub open spec fn op_8xy6(s: VmView, x: u8, y: u8) -> (VmView, ControlFlow) {
    (
        s.with_v(x as int, s.v[y as int] / 2).with_v(FLAG as int, s.v[y as int] % 2),
        ControlFlow::Next,
    )
}

pub fn instr_8xy6(interp: &mut Interpreter, x: u8, y: u8) -> (r: ControlFlow)
    requires
        x < REG_COUNT,
        y < REG_COUNT,
    ensures
        (final(interp)@, r) == op_8xy6(old(interp)@, x, y),
{
    let v_y = interp.reg_v[y as usize];
    interp.reg_v[x as usize] = v_y / 2;
    interp.reg_v[FLAG as usize] = v_y % 2;
    ControlFlow::Next
}

/// `8xy7`: `Vx = Vy - Vx` modulo 256; `VF` is 1 when there is no borrow, else 0.
pub open spec fn op_8xy7(s: VmView, x: u8, y: u8) -> (VmView, ControlFlow) {
    (
        s.with_v(x as int, ((s.v[y as int] - s.v[x as int]) % 256) as u8).with_v(FLAG as int, if s.v[y as int] >= s.v[x as int] {
            1
        } else {
            0
        }),
        ControlFlow::Next,
    )
}

pub fn instr_8xy7(interp: &mut Interpreter, x: u8, y: u8) -> (r: ControlFlow)
    requires
        x < REG_COUNT,
        y < REG_COUNT,
    ensures
        (final(interp)@, r) == op_8xy7(old(interp)@, x, y),
{
    let v_x = interp.reg_v[x as usize];
    let v_y = interp.reg_v[y as usize];
    interp.reg_v[x as usize] = v_y.wrapping_sub(v_x);
    interp.reg_v[FLAG as usize] = if v_y >= v_x {
        1
    } else {
        0
    };
    ControlFlow::Next
}

/// `8xyE`: `Vx = Vy << 1` modulo 256; `VF` is the bit shifted out.
pub open spec fn op_8xyE(s: VmView, x: u8, y: u8) -> (VmView, ControlFlow) {
    (
        s.with_v(x as int, ((s.v[y as int] * 2) % 256) as u8).with_v(FLAG as int, s.v[y as int] / 128),
        ControlFlow::Next,
    )
}

pub fn instr_8xyE(interp: &mut Interpreter, x: u8, y: u8) -> (r: ControlFlow)
    requires
        x < REG_COUNT,
        y < REG_COUNT,
    ensures
        (final(interp)@, r) == op_8xyE(old(interp)@, x, y),
{
    let v_y = interp.reg_v[y as usize];
    interp.reg_v[x as usize] = ((v_y as u16 * 2) % 256) as u8;
    interp.reg_v[FLAG as usize] = v_y / 128;
    ControlFlow::Next
}

/// `9xy0`: skip the next instruction if `Vx != Vy`.
pub open spec fn op_9xy0(s: VmView, x: u8, y: u8) -> (VmView, ControlFlow) {
    (s, if s.v[x as int] != s.v[y as int] {
        ControlFlow::Skip
    } else {
        ControlFlow::Next
    })
}

pub fn instr_9xy0(interp: &mut Interpreter, x: u8, y: u8) -> (r: ControlFlow)
    requires
        x < REG_COUNT,
        y < REG_COUNT,
    ensures
        (final(interp)@, r) == op_9xy0(old(interp)@, x, y),
{
    if interp.reg_v[x as usize] != interp.reg_v[y as usize] {
        ControlFlow::Skip
    } else {
        ControlFlow::Next
    }
}

/// `Annn`: `I = nnn`.
pub open spec fn op_Annn(s: VmView, nnn: u16) -> (VmView, ControlFlow) {
    (s.with_i(nnn), ControlFlow::Next)
}

pub fn instr_Annn(interp: &mut Interpreter, nnn: u16) -> (r: ControlFlow)
    ensures
        (final(interp)@, r) == op_Annn(old(interp)@, nnn),
{
    interp.reg_i = nnn;
    ControlFlow::Next
}

/// `Bnnn`: jump to `nnn + V0`.
pub open spec fn op_Bnnn(s: VmView, nnn: u16) -> (VmView, ControlFlow) {
    (s, ControlFlow::Jump((nnn + s.v[0]) as u16))
}

pub fn instr_Bnnn(interp: &mut Interpreter, nnn: u16) -> (r: ControlFlow)
    requires
        nnn < 0x1000,
    ensures
        (final(interp)@, r) == op_Bnnn(old(interp)@, nnn),
{
    ControlFlow::Jump(nnn + interp.reg_v[0] as u16)
}

/// `Cxkk`: `Vx = random & kk`, for the random byte `random`.
pub open spec fn op_Cxkk(s: VmView, x: u8, kk: u8, random: u8) -> (VmView, ControlFlow) {
    (s.with_v(x as int, random & kk), ControlFlow::Next)
}

/// `Cxkk` with `random` as the drawn byte.
pub fn instr_Cxkk_from(interp: &mut Interpreter, x: u8, kk: u8, random: u8) -> (r: ControlFlow)
    requires
        x < REG_COUNT,
    ensures
        (final(interp)@, r) == op_Cxkk(old(interp)@, x, kk, random),
{
    interp.reg_v[x as usize] = random & kk;
    ControlFlow::Next
}

/// `Cxkk` with a byte drawn from the thread-local generator.
pub fn instr_Cxkk(interp: &mut Interpreter, x: u8, kk: u8) -> (r: ControlFlow)
    requires
        x < REG_COUNT,
    ensures
        exists|random: u8| (final(interp)@, r) == #[trigger] op_Cxkk(old(interp)@, x, kk, random),
{
    let random = random_byte();
    instr_Cxkk_from(interp, x, kk, random)
}

/// `Dxyn`: draw the `n`-byte sprite at `I` at `(Vx, Vy)`; `VF` is 1 on a collision, else 0.
pub open spec fn op_Dxyn(s: VmView, x: u8, y: u8, n: u8) -> Result<(VmView, ControlFlow), Fault> {
    if s.i + n > MEM_SIZE {
        Err(Fault::AddressOutOfRange)
    } else {
        let sprite = s.mem.subrange(s.i as int, s.i + n);
        let (px, py) = (s.v[x as int] as int, s.v[y as int] as int);
        Ok(
            (
                s.with_display(draw(s.display, sprite, px, py)).with_v(
                    FLAG as int,
                    if collides(s.display, sprite, px, py) {
                        1
                    } else {
                        0
                    },
                ),
                ControlFlow::Next,
            ),
        )
    }
}

pub fn instr_Dxyn(interp: &mut Interpreter, x: u8, y: u8, n: u8) -> (r: Result<ControlFlow, Fault>)
    requires
        x < REG_COUNT,
        y < REG_COUNT,
    ensures
        outcome_is(op_Dxyn(old(interp)@, x, y, n), r, old(interp)@, final(interp)@),
{
    let i = interp.reg_i as usize;
    if i + n as usize > MEM_SIZE {
        return Err(Fault::AddressOutOfRange);
    }
    let x_pos = interp.reg_v[x as usize] as usize;
    let y_pos = interp.reg_v[y as usize] as usize;
    let sprite = interp.memory.read_sprite(i, n as usize);
    let collision = interp.display_buf.write_sprite(sprite.as_slice(), x_pos, y_pos);
    interp.reg_v[FLAG as usize] = if collision {
        1
    } else {
        0
    };
    Ok(ControlFlow::Next)
}

/// `Ex9E`: skip the next instruction if key `Vx` is held down.
pub open spec fn op_Ex9E(s: VmView, x: u8) -> Result<(VmView, ControlFlow), Fault> {
    if s.v[x as int] >= KEY_COUNT {
        Err(Fault::InvalidKey)
    } else if s.keys[s.v[x as int] as int] {
        Ok((s, ControlFlow::Skip))
    } else {
        Ok((s, ControlFlow::Next))
    }
}

pub fn instr_Ex9E(interp: &mut Interpreter, x: u8) -> (r: Result<ControlFlow, Fault>)
    requires
        x < REG_COUNT,
    ensures
        outcome_is(op_Ex9E(old(interp)@, x), r, old(interp)@, final(interp)@),
{
    let hex_key = interp.reg_v[x as usize] as usize;
    if hex_key >= KEY_COUNT {
        return Err(Fault::InvalidKey);
    }
    if interp.keyboard_state.key[hex_key] {
        Ok(ControlFlow::Skip)
    } else {
        Ok(ControlFlow::Next)
    }
}

/// `ExA1`: skip the next instruction if key `Vx` is not held down.
pub open spec fn op_ExA1(s: VmView, x: u8) -> Result<(VmView, ControlFlow), Fault> {
    if s.v[x as int] >= KEY_COUNT {
        Err(Fault::InvalidKey)
    } else if s.keys[s.v[x as int] as int] {
        Ok((s, ControlFlow::Next))
    } else {
        Ok((s, ControlFlow::Skip))
    }
}

pub fn instr_ExA1(interp: &mut Interpreter, x: u8) -> (r: Result<ControlFlow, Fault>)
    requires
        x < REG_COUNT,
    ensures
        outcome_is(op_ExA1(old(interp)@, x), r, old(interp)@, final(interp)@),
{
    let hex_key = interp.reg_v[x as usize] as usize;
    if hex_key >= KEY_COUNT {
        return Err(Fault::InvalidKey);
    }
    if interp.keyboard_state.key[hex_key] {
        Ok(ControlFlow::Next)
    } else {
        Ok(ControlFlow::Skip)
    }
}

/// `Fx07`: `Vx = delay timer`.
pub open spec fn op_Fx07(s: VmView, x: u8) -> (VmView, ControlFlow) {
    (s.with_v(x as int, s.timers.delay_timer), ControlFlow::Next)
}

pub fn instr_Fx07(interp: &mut Interpreter, x: u8) -> (r: ControlFlow)
    requires
        x < REG_COUNT,
    ensures
        (final(interp)@, r) == op_Fx07(old(interp)@, x),
{
    interp.reg_v[x as usize] = interp.timers.delay_timer;
    ControlFlow::Next
}

/// `Fx0A`: wait for a key: `Vx` becomes the lowest key held down; with none held down the instruction waits.
pub open spec fn op_Fx0A(s: VmView, x: u8) -> (VmView, ControlFlow) {
    match lowest_pressed(s.keys) {
        Some(k) => (s.with_v(x as int, k as u8), ControlFlow::Next),
        None => (s, ControlFlow::Wait),
    }
}

pub fn instr_Fx0A(interp: &mut Interpreter, x: u8) -> (r: ControlFlow)
    requires
        x < REG_COUNT,
    ensures
        (final(interp)@, r) == op_Fx0A(old(interp)@, x),
{
    match interp.keyboard_state.any_pressed() {
        Some(key) => {
            interp.reg_v[x as usize] = key as u8;
            ControlFlow::Next
        },
        None => ControlFlow::Wait,
    }
}

/// `Fx15`: `delay timer = Vx`.
pub open spec fn op_Fx15(s: VmView, x: u8) -> (VmView, ControlFlow) {
    (
        s.with_timers(Timers { delay_timer: s.v[x as int], ..s.timers }),
        ControlFlow::Next,
    )
}

pub fn instr_Fx15(interp: &mut Interpreter, x: u8) -> (r: ControlFlow)
    requires
        x < REG_COUNT,
    ensures
        (final(interp)@, r) == op_Fx15(old(interp)@, x),
{
    interp.timers.delay_timer = interp.reg_v[x as usize];
    ControlFlow::Next
}

/// `Fx18`: `sound timer = Vx`.
pub open spec fn op_Fx18(s: VmView, x: u8) -> (VmView, ControlFlow) {
    (
        s.with_timers(Timers { sound_timer: s.v[x as int], ..s.timers }),
        ControlFlow::Next,
    )
}

pub fn instr_Fx18(interp: &mut Interpreter, x: u8) -> (r: ControlFlow)
    requires
        x < REG_COUNT,
    ensures
        (final(interp)@, r) == op_Fx18(old(interp)@, x),
{
    interp.timers.sound_timer = interp.reg_v[x as usize];
    ControlFlow::Next
}

/// `Fx1E`: `I = I + Vx` modulo 65536.
pub open spec fn op_Fx1E(s: VmView, x: u8) -> (VmView, ControlFlow) {
    (s.with_i(((s.i + s.v[x as int]) % 65536) as u16), ControlFlow::Next)
}

pub fn instr_Fx1E(interp: &mut Interpreter, x: u8) -> (r: ControlFlow)
    requires
        x < REG_COUNT,
    ensures
        (final(interp)@, r) == op_Fx1E(old(interp)@, x),
{
    interp.reg_i = interp.reg_i.wrapping_add(interp.reg_v[x as usize] as u16);
    ControlFlow::Next
}

/// `Fx29`: `I` = address of the font glyph of the digit `Vx`.
pub open spec fn op_Fx29(s: VmView, x: u8) -> Result<(VmView, ControlFlow), Fault> {
    if s.v[x as int] >= 16 {
        Err(Fault::InvalidDigit)
    } else {
        Ok((s.with_i((GLYPH_SIZE * s.v[x as int]) as u16), ControlFlow::Next))
    }
}

pub fn instr_Fx29(interp: &mut Interpreter, x: u8) -> (r: Result<ControlFlow, Fault>)
    requires
        x < REG_COUNT,
    ensures
        outcome_is(op_Fx29(old(interp)@, x), r, old(interp)@, final(interp)@),
{
    let digit = interp.reg_v[x as usize];
    if digit >= 16 {
        return Err(Fault::InvalidDigit);
    }
    interp.reg_i = interp.memory.sprite_address(digit) as u16;
    Ok(ControlFlow::Next)
}

/// `Fx33`: store the decimal digits of `Vx` (hundreds, tens, ones) at `I`, `I + 1`, `I + 2`.
pub open spec fn op_Fx33(s: VmView, x: u8) -> Result<(VmView, ControlFlow), Fault> {
    let v = s.v[x as int];
    if s.i + 3 > MEM_SIZE {
        Err(Fault::AddressOutOfRange)
    } else {
        Ok(
            (
                s.with_mem(
                    s.mem.update(s.i as int, v / 100).update(s.i + 1, (v / 10) % 10).update(
                        s.i + 2,
                        v % 10,
                    ),
                ),
                ControlFlow::Next,
            ),
        )
    }
}

pub fn instr_Fx33(interp: &mut Interpreter, x: u8) -> (r: Result<ControlFlow, Fault>)
    requires
        x < REG_COUNT,
    ensures
        outcome_is(op_Fx33(old(interp)@, x), r, old(interp)@, final(interp)@),
{
    let value = interp.reg_v[x as usize];
    let i = interp.reg_i as usize;
    if i + 3 > MEM_SIZE {
        return Err(Fault::AddressOutOfRange);
    }
    interp.memory.write_byte(i, value / 100);
    interp.memory.write_byte(i + 1, value / 10 % 10);
    interp.memory.write_byte(i + 2, value % 10);
    Ok(ControlFlow::Next)
}

/// `Fx55`: store `V0..=Vx` at `I..=I + x`.
pub open spec fn op_Fx55(s: VmView, x: u8) -> Result<(VmView, ControlFlow), Fault> {
    if s.i + x + 1 > MEM_SIZE {
        Err(Fault::AddressOutOfRange)
    } else {
        Ok(
            (
                s.with_mem(
                    Seq::new(
                        s.mem.len(),
                        |a: int|
                            if s.i <= a <= s.i + x {
                                s.v[a - s.i]
                            } else {
                                s.mem[a]
                            },
                    ),
                ),
                ControlFlow::Next,
            ),
        )
    }
}

pub fn instr_Fx55(interp: &mut Interpreter, x: u8) -> (r: Result<ControlFlow, Fault>)
    requires
        x < REG_COUNT,
    ensures
        outcome_is(op_Fx55(old(interp)@, x), r, old(interp)@, final(interp)@),
{
    let x = x as usize;
    let i = interp.reg_i as usize;
    if i + x + 1 > MEM_SIZE {
        return Err(Fault::AddressOutOfRange);
    }
    let ghost s = interp@;
    let mut offset: usize = 0;
    while offset <= x
        invariant
            x < REG_COUNT,
            i == s.i,
            i + x + 1 <= MEM_SIZE,
            offset <= x + 1,
            interp@ == s.with_mem(interp@.mem),
            interp@.mem.len() == MEM_SIZE,
            s.mem.len() == MEM_SIZE,
            s.v.len() == REG_COUNT,
            forall|a: int|
                0 <= a < MEM_SIZE ==> interp@.mem[a] == if i <= a < i + offset {
                    s.v[a - i]
                } else {
                    s.mem[a]
                },
        decreases x + 1 - offset,
    {
        interp.memory.write_byte(i + offset, interp.reg_v[offset]);
        offset = offset + 1;
    }
    assert(interp@.mem =~= op_Fx55(s, x as u8).unwrap().0.mem);
    Ok(ControlFlow::Next)
}

/// `Fx65`: load `V0..=Vx` from `I..=I + x`.
pub open spec fn op_Fx65(s: VmView, x: u8) -> Result<(VmView, ControlFlow), Fault> {
    if s.i + x + 1 > MEM_SIZE {
        Err(Fault::AddressOutOfRange)
    } else {
        Ok(
            (
                VmView {
                    v: Seq::new(
                        s.v.len(),
                        |r: int|
                            if r <= x {
                                s.mem[s.i + r]
                            } else {
                                s.v[r]
                            },
                    ),
                    ..s
                },
                ControlFlow::Next,
            ),
        )
    }
}

pub fn instr_Fx65(interp: &mut Interpreter, x: u8) -> (r: Result<ControlFlow, Fault>)
    requires
        x < REG_COUNT,
    ensures
        outcome_is(op_Fx65(old(interp)@, x), r, old(interp)@, final(interp)@),
{
    let x = x as usize;
    let i = interp.reg_i as usize;
    if i + x + 1 > MEM_SIZE {
        return Err(Fault::AddressOutOfRange);
    }
    let ghost s = interp@;
    let mut offset: usize = 0;
    while offset <= x
        invariant
            x < REG_COUNT,
            i == s.i,
            i + x + 1 <= MEM_SIZE,
            offset <= x + 1,
            interp@ == (VmView { v: interp@.v, ..s }),
            interp@.v.len() == REG_COUNT,
            s.mem.len() == MEM_SIZE,
            s.v.len() == REG_COUNT,
            forall|r: int|
                0 <= r < REG_COUNT ==> interp@.v[r] == if r < offset {
                    s.mem[i + r]
                } else {
                    s.v[r]
                },
        decreases x + 1 - offset,
    {
        interp.reg_v[offset] = interp.memory.read_byte(i + offset);
        offset = offset + 1;
    }
    assert(interp@.v =~= op_Fx65(s, x as u8).unwrap().0.v);
    Ok(ControlFlow::Next)
}

/// What the instruction with nibbles `op` does to `s`: the new state and the
/// control effect, or the fault that stops it. `random` is the byte that `Cxkk`
/// draws. The family is chosen by the highest nibble, then by the lowest nibble
/// (`5`, `8`, `9`) or the low byte (`0`, `E`, `F`).
pub open spec fn effect(s: VmView, op: Seq<u8>, random: u8) -> Result<(VmView, ControlFlow), Fault> {
    let (a, x, y, n) = (op[0], op[1], op[2], op[3]);
    let nnn = op_nnn(op);
    let kk = op_kk(op);
    if a == 0x0 {
        if x == 0x0 && y == 0xE && n == 0x0 {
            Ok(op_00E0(s))
        } else if x == 0x0 && y == 0xE && n == 0xE {
            op_00EE(s)
        } else {
            Err(Fault::InvalidOpcode)
        }
    } else if a == 0x1 {
        Ok(op_1nnn(s, nnn))
    } else if a == 0x2 {
        op_2nnn(s, nnn)
    } else if a == 0x3 {
        Ok(op_3xkk(s, x, kk))
    } else if a == 0x4 {
        Ok(op_4xkk(s, x, kk))
    } else if a == 0x5 {
        if n == 0x0 {
            Ok(op_5xy0(s, x, y))
        } else {
            Err(Fault::InvalidOpcode)
        }
    } else if a == 0x6 {
        Ok(op_6xkk(s, x, kk))
    } else if a == 0x7 {
        Ok(op_7xkk(s, x, kk))
    } else if a == 0x8 {
        if n == 0x0 {
            Ok(op_8xy0(s, x, y))
        } else if n == 0x1 {
            Ok(op_8xy1(s, x, y))
        } else if n == 0x2 {
            Ok(op_8xy2(s, x, y))
        } else if n == 0x3 {
            Ok(op_8xy3(s, x, y))
        } else if n == 0x4 {
            Ok(op_8xy4(s, x, y))
        } else if n == 0x5 {
            Ok(op_8xy5(s, x, y))
        } else if n == 0x6 {
            Ok(op_8xy6(s, x, y))
        } else if n == 0x7 {
            Ok(op_8xy7(s, x, y))
        } else if n == 0xE {
            Ok(op_8xyE(s, x, y))
        } else {
            Err(Fault::InvalidOpcode)
        }
    } else if a == 0x9 {
        if n == 0x0 {
            Ok(op_9xy0(s, x, y))
        } else {
            Err(Fault::InvalidOpcode)
        }
    } else if a == 0xA {
        Ok(op_Annn(s, nnn))
    } else if a == 0xB {
        Ok(op_Bnnn(s, nnn))
    } else if a == 0xC {
        Ok(op_Cxkk(s, x, kk, random))
    } else if a == 0xD {
        op_Dxyn(s, x, y, n)
    } else if a == 0xE {
        if kk == 0x9E {
            op_Ex9E(s, x)
        } else if kk == 0xA1 {
            op_ExA1(s, x)
        } else {
            Err(Fault::InvalidOpcode)
        }
    } else if a == 0xF {
        if kk == 0x07 {
            Ok(op_Fx07(s, x))
        } else if kk == 0x0A {
            Ok(op_Fx0A(s, x))
        } else if kk == 0x15 {
            Ok(op_Fx15(s, x))
        } else if kk == 0x18 {
            Ok(op_Fx18(s, x))
        } else if kk == 0x1E {
            Ok(op_Fx1E(s, x))
        } else if kk == 0x29 {
            op_Fx29(s, x)
        } else if kk == 0x33 {
            op_Fx33(s, x)
        } else if kk == 0x55 {
            op_Fx55(s, x)
        } else if kk == 0x65 {
            op_Fx65(s, x)
        } else {
            Err(Fault::InvalidOpcode)
        }
    } else {
        Err(Fault::InvalidOpcode)
    }
}

} // verus!
