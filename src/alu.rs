use vstd::prelude::*;

verus! {

/// The four condition flags of the `F` register.
#[derive(Clone, Copy, Debug, PartialEq, Eq, Structural)]
pub struct Flags {
    pub z: bool,
    pub n: bool,
    pub h: bool,
    pub c: bool,
}

/// The byte that holds `fl` in `F`: Z at bit 7, N at 6, H at 5, C at 4, low nibble zero.
pub open spec fn flags_byte(fl: Flags) -> u8 {
    ((if fl.z { 128int } else { 0 }) + (if fl.n { 64int } else { 0 }) + (if fl.h { 32int } else { 0 })
        + (if fl.c { 16int } else { 0 })) as u8
}

/// The flags that a byte of `F` holds (its low nibble is ignored).
pub open spec fn flags_of(f: u8) -> Flags {
    Flags { z: f >= 128, n: f % 128 >= 64, h: f % 64 >= 32, c: f % 32 >= 16 }
}

pub open spec fn bool_bit(b: bool) -> int {
    if b { 1 } else { 0 }
}

/// 2 to the power `n`, for a bit index of a byte.
pub open spec fn pow2(n: nat) -> nat {
    if n == 0 { 1 } else if n == 1 { 2 } else if n == 2 { 4 } else if n == 3 { 8 } else if n == 4 {
        16
    } else if n == 5 { 32 } else if n == 6 { 64 } else { 128 }
}

/// Bit `n` of `v`.
pub open spec fn bit_of(v: u8, n: nat) -> bool {
    if n == 0 { v % 2 == 1 } else if n == 1 { (v / 2) % 2 == 1 } else if n == 2 { (v / 4) % 2 == 1 }
    else if n == 3 { (v / 8) % 2 == 1 } else if n == 4 { (v / 16) % 2 == 1 } else if n == 5 {
        (v / 32) % 2 == 1
    } else if n == 6 { (v / 64) % 2 == 1 } else { v / 128 == 1 }
}

pub open spec fn zflag(r: u8, n: bool, h: bool, c: bool) -> Flags {
    Flags { z: r == 0, n, h, c }
}

/// `ADD A,v`.
pub open spec fn add8_spec(a: u8, v: u8) -> (u8, Flags) {
    let r = ((a + v) % 256) as u8;
    (r, zflag(r, false, a % 16 + v % 16 > 15, a + v > 255))
}

/// `ADC A,v` with incoming carry `cin`.
pub open spec fn adc8_spec(a: u8, v: u8, cin: bool) -> (u8, Flags) {
    let t = a + v + bool_bit(cin);
    let r = (t % 256) as u8;
    (r, zflag(r, false, a % 16 + v % 16 + bool_bit(cin) > 15, t > 255))
}

/// `SUB v` (and the flags of `CP v`).
pub open spec fn sub8_spec(a: u8, v: u8) -> (u8, Flags) {
    let r = ((a - v + 256) % 256) as u8;
    (r, zflag(r, true, a % 16 < v % 16, a < v))
}

/// `SBC A,v` with incoming carry `cin`.
pub open spec fn sbc8_spec(a: u8, v: u8, cin: bool) -> (u8, Flags) {
    let r = ((a - v - bool_bit(cin) + 512) % 256) as u8;
    (r, zflag(r, true, a % 16 < v % 16 + bool_bit(cin), a < v + bool_bit(cin)))
}

/// `INC r8`: the carry is kept.
pub open spec fn inc8_spec(v: u8, cin: bool) -> (u8, Flags) {
    let r = ((v + 1) % 256) as u8;
    (r, zflag(r, false, v % 16 == 15, cin))
}

/// `DEC r8`: the carry is kept.
pub open spec fn dec8_spec(v: u8, cin: bool) -> (u8, Flags) {
    let r = ((v + 255) % 256) as u8;
    (r, zflag(r, true, v % 16 == 0, cin))
}

/// `ADD HL,rr`: Z is kept.
pub open spec fn add16_spec(hl: u16, rr: u16, zin: bool) -> (u16, Flags) {
    (((hl + rr) % 65536) as u16, Flags { z: zin, n: false, h: hl % 4096 + rr % 4096 > 4095, c: hl + rr > 65535 })
}

/// The signed value of an offset byte.
pub open spec fn signed8(e: u8) -> int {
    if e < 128 { e as int } else { e - 256 }
}

/// `ADD SP,e8` and `LD HL,SP+e8`: half carry and carry come from the low byte.
pub open spec fn add_sp_spec(sp: u16, e: u8) -> (u16, Flags) {
    (((sp + signed8(e) + 65536) % 65536) as u16, Flags {
        z: false,
        n: false,
        h: sp % 16 + e % 16 > 15,
        c: sp % 256 + e as int > 255,
    })
}

/// `DAA`: decimal adjust after an addition (N clear) or a subtraction (N set).
pub open spec fn daa_spec(a: u8, fl: Flags) -> (u8, Flags) {
    if !fl.n {
        let lo = fl.h || a % 16 > 9;
        let hi = fl.c || a > 0x99;
        let adj = (if lo { 6int } else { 0 }) + (if hi { 0x60int } else { 0 });
        let r = ((a + adj) % 256) as u8;
        (r, Flags { z: r == 0, n: fl.n, h: false, c: hi })
    } else {
        let adj = (if fl.h { 6int } else { 0 }) + (if fl.c { 0x60int } else { 0 });
        let r = ((a - adj + 256) % 256) as u8;
        (r, Flags { z: r == 0, n: fl.n, h: false, c: fl.c })
    }
}

/// Rotate left, bit 7 into bit 0 (`RLC`); the carry receives bit 7.
pub open spec fn rlc_value(a: u8) -> u8 {
    ((a * 2) % 256 + a / 128) as u8
}

/// Rotate right, bit 0 into bit 7 (`RRC`); the carry receives bit 0.
pub open spec fn rrc_value(a: u8) -> u8 {
    (a / 2 + (a % 2) * 128) as u8
}

/// Rotate left through the carry (`RL`).
pub open spec fn rl_value(a: u8, cin: bool) -> u8 {
    ((a * 2) % 256 + bool_bit(cin)) as u8
}

/// Rotate right through the carry (`RR`).
pub open spec fn rr_value(a: u8, cin: bool) -> u8 {
    (a / 2 + bool_bit(cin) * 128) as u8
}

/// Arithmetic shift right: bit 7 is kept (`SRA`).
pub open spec fn sra_value(a: u8) -> u8 {
    (a / 2 + (if a >= 128 { 128int } else { 0 })) as u8
}

/// Exchange of the two nibbles (`SWAP`).
pub open spec fn swap_value(a: u8) -> u8 {
    ((a % 16) * 16 + a / 16) as u8
}

/// The eight shift and rotate operations of the CB table, by their row (bits 3..5).
pub open spec fn cb_shift_spec(row: u8, v: u8, cin: bool) -> (u8, Flags) {
    let (r, c) = if row == 0 {
        (rlc_value(v), v >= 128)
    } else if row == 1 {
        (rrc_value(v), v % 2 == 1)
    } else if row == 2 {
        (rl_value(v, cin), v >= 128)
    } else if row == 3 {
        (rr_value(v, cin), v % 2 == 1)
    } else if row == 4 {
        (((v * 2) % 256) as u8, v >= 128)
    } else if row == 5 {
        (sra_value(v), v % 2 == 1)
    } else if row == 6 {
        (swap_value(v), false)
    } else {
        ((v / 2) as u8, v % 2 == 1)
    };
    (r, zflag(r, false, false, c))
}

/// `v` with bit `n` cleared (`RES`).
pub open spec fn res_value(n: nat, v: u8) -> u8 {
    if bit_of(v, n) { (v - pow2(n)) as u8 } else { v }
}

/// `v` with bit `n` set (`SET`).
pub open spec fn set_value(n: nat, v: u8) -> u8 {
    if bit_of(v, n) { v } else { (v + pow2(n)) as u8 }
}

/// The packed byte of a set of flags.
pub fn pack_flags(fl: Flags) -> (r: u8)
    ensures
        r == flags_byte(fl),
        r % 16 == 0,
        flags_of(r) == fl,
{
    let mut r: u8 = 0;
    if fl.z {
        r = r + 128;
    }
    if fl.n {
        r = r + 64;
    }
    if fl.h {
        r = r + 32;
    }
    if fl.c {
        r = r + 16;
    }
    r
}

/// The flags held by a byte of `F`.
pub fn unpack_flags(f: u8) -> (r: Flags)
    ensures
        r == flags_of(f),
{
    Flags { z: f >= 128, n: f % 128 >= 64, h: f % 64 >= 32, c: f % 32 >= 16 }
}

pub fn add8(a: u8, v: u8) -> (r: (u8, Flags))
    ensures
        r == add8_spec(a, v),
{
    let t: u16 = a as u16 + v as u16;
    let r = (t % 256) as u8;
    (r, Flags { z: r == 0, n: false, h: a % 16 + v % 16 > 15, c: t > 255 })
}

pub fn adc8(a: u8, v: u8, cin: bool) -> (r: (u8, Flags))
    ensures
        r == adc8_spec(a, v, cin),
{
    let ci: u16 = if cin { 1 } else { 0 };
    let t: u16 = a as u16 + v as u16 + ci;
    let r = (t % 256) as u8;
    (r, Flags { z: r == 0, n: false, h: (a % 16) as u16 + (v % 16) as u16 + ci > 15, c: t > 255 })
}

pub fn sub8(a: u8, v: u8) -> (r: (u8, Flags))
    ensures
        r == sub8_spec(a, v),
{
    let r = ((a as u16 + 256 - v as u16) % 256) as u8;
    (r, Flags { z: r == 0, n: true, h: a % 16 < v % 16, c: a < v })
}

pub fn sbc8(a: u8, v: u8, cin: bool) -> (r: (u8, Flags))
    ensures
        r == sbc8_spec(a, v, cin),
{
    let ci: u16 = if cin { 1 } else { 0 };
    let r = ((a as u16 + 512 - v as u16 - ci) % 256) as u8;
    (r, Flags { z: r == 0, n: true, h: ((a % 16) as u16) < (v % 16) as u16 + ci, c: (a as u16) < v as u16 + ci })
}

/// `AND v`: H is set, N and C are cleared.
pub fn and8(a: u8, v: u8) -> (r: (u8, Flags))
    ensures
        r.0 == a & v,
        r.1 == zflag(a & v, false, true, false),
{
    let r = a & v;
    (r, Flags { z: r == 0, n: false, h: true, c: false })
}

/// `XOR v`: N, H and C are cleared.
pub fn xor8(a: u8, v: u8) -> (r: (u8, Flags))
    ensures
        r.0 == a ^ v,
        r.1 == zflag(a ^ v, false, false, false),
{
    let r = a ^ v;
    (r, Flags { z: r == 0, n: false, h: false, c: false })
}

/// `OR v`: N, H and C are cleared.
pub fn or8(a: u8, v: u8) -> (r: (u8, Flags))
    ensures
        r.0 == a | v,
        r.1 == zflag(a | v, false, false, false),
{
    let r = a | v;
    (r, Flags { z: r == 0, n: false, h: false, c: false })
}

pub fn inc8(v: u8, cin: bool) -> (r: (u8, Flags))
    ensures
        r == inc8_spec(v, cin),
{
    let r = if v == 255 { 0 } else { v + 1 };
    (r, Flags { z: r == 0, n: false, h: v % 16 == 15, c: cin })
}

pub fn dec8(v: u8, cin: bool) -> (r: (u8, Flags))
    ensures
        r == dec8_spec(v, cin),
{
    let r = if v == 0 { 255 } else { v - 1 };
    (r, Flags { z: r == 0, n: true, h: v % 16 == 0, c: cin })
}

pub fn add16(hl: u16, rr: u16, zin: bool) -> (r: (u16, Flags))
    ensures
        r == add16_spec(hl, rr, zin),
{
    let t: u32 = hl as u32 + rr as u32;
    ((t % 65536) as u16, Flags { z: zin, n: false, h: hl % 4096 + rr % 4096 > 4095, c: t > 65535 })
}

pub fn add_sp(sp: u16, e: u8) -> (r: (u16, Flags))
    ensures
        r == add_sp_spec(sp, e),
{
    let t: u32 = if e < 128 { sp as u32 + e as u32 } else { sp as u32 + 65536 + e as u32 - 256 };
    ((t % 65536) as u16, Flags {
        z: false,
        n: false,
        h: sp % 16 + (e % 16) as u16 > 15,
        c: sp % 256 + e as u16 > 255,
    })
}

pub fn daa(a: u8, fl: Flags) -> (r: (u8, Flags))
    ensures
        r == daa_spec(a, fl),
{
    if !fl.n {
        let lo = fl.h || a % 16 > 9;
        let hi = fl.c || a > 0x99;
        let adj: u16 = (if lo { 6 } else { 0 }) + (if hi { 0x60 } else { 0 });
        let r = ((a as u16 + adj) % 256) as u8;
        (r, Flags { z: r == 0, n: fl.n, h: false, c: hi })
    } else {
        let adj: u16 = (if fl.h { 6 } else { 0 }) + (if fl.c { 0x60 } else { 0 });
        let r = ((a as u16 + 256 - adj) % 256) as u8;
        (r, Flags { z: r == 0, n: fl.n, h: false, c: fl.c })
    }
}

/// `RLCA`: like `RLC A` but Z is always cleared.
pub fn rlca(a: u8) -> (r: (u8, Flags))
    ensures
        r == (rlc_value(a), Flags { z: false, n: false, h: false, c: a >= 128 }),
{
    (((a as u16 * 2) % 256 + (a / 128) as u16) as u8, Flags { z: false, n: false, h: false, c: a >= 128 })
}

/// `RRCA`: like `RRC A` but Z is always cleared.
pub fn rrca(a: u8) -> (r: (u8, Flags))
    ensures
        r == (rrc_value(a), Flags { z: false, n: false, h: false, c: a % 2 == 1 }),
{
    ((a / 2 + (a % 2) * 128) as u8, Flags { z: false, n: false, h: false, c: a % 2 == 1 })
}

/// `RLA`: like `RL A` but Z is always cleared.
pub fn rla(a: u8, cin: bool) -> (r: (u8, Flags))
    ensures
        r == (rl_value(a, cin), Flags { z: false, n: false, h: false, c: a >= 128 }),
{
    let ci: u16 = if cin { 1 } else { 0 };
    (((a as u16 * 2) % 256 + ci) as u8, Flags { z: false, n: false, h: false, c: a >= 128 })
}

/// `RRA`: like `RR A` but Z is always cleared.
pub fn rra(a: u8, cin: bool) -> (r: (u8, Flags))
    ensures
        r == (rr_value(a, cin), Flags { z: false, n: false, h: false, c: a % 2 == 1 }),
{
    let ci: u8 = if cin { 128 } else { 0 };
    (a / 2 + ci, Flags { z: false, n: false, h: false, c: a % 2 == 1 })
}

/// One of the eight CB shift/rotate operations, selected by `row` (bits 3..5 of the CB opcode).
pub fn cb_shift(row: u8, v: u8, cin: bool) -> (r: (u8, Flags))
    requires
        row < 8,
    ensures
        r == cb_shift_spec(row, v, cin),
{
    let (r, c) = if row == 0 {
        (((v as u16 * 2) % 256 + (v / 128) as u16) as u8, v >= 128)
    } else if row == 1 {
        ((v / 2 + (v % 2) * 128) as u8, v % 2 == 1)
    } else if row == 2 {
        (((v as u16 * 2) % 256 + if cin { 1 } else { 0 }) as u8, v >= 128)
    } else if row == 3 {
        (v / 2 + if cin { 128 } else { 0 }, v % 2 == 1)
    } else if row == 4 {
        (((v as u16 * 2) % 256) as u8, v >= 128)
    } else if row == 5 {
        (v / 2 + if v >= 128 { 128 } else { 0 }, v % 2 == 1)
    } else if row == 6 {
        ((v % 16) * 16 + v / 16, false)
    } else {
        (v / 2, v % 2 == 1)
    };
    (r, Flags { z: r == 0, n: false, h: false, c })
}

/// 2 to the power `n` as a byte.
pub fn bit_mask(n: u8) -> (r: u8)
    requires
        n < 8,
    ensures
        r == pow2(n as nat),
{
    match n {
        0 => 1,
        1 => 2,
        2 => 4,
        3 => 8,
        4 => 16,
        5 => 32,
        6 => 64,
        _ => 128,
    }
}

/// Whether bit `n` of `v` is set.
pub fn test_bit(v: u8, n: u8) -> (r: bool)
    requires
        n < 8,
    ensures
        r == bit_of(v, n as nat),
{
    match n {
        0 => v % 2 == 1,
        1 => (v / 2) % 2 == 1,
        2 => (v / 4) % 2 == 1,
        3 => (v / 8) % 2 == 1,
        4 => (v / 16) % 2 == 1,
        5 => (v / 32) % 2 == 1,
        6 => (v / 64) % 2 == 1,
        _ => v / 128 == 1,
    }
}

/// `BIT n,v`: Z is the complement of the bit, H is set, C is kept.
pub fn bit_test(n: u8, v: u8, cin: bool) -> (r: Flags)
    requires
        n < 8,
    ensures
        r == (Flags { z: !bit_of(v, n as nat), n: false, h: true, c: cin }),
{
    Flags { z: !test_bit(v, n), n: false, h: true, c: cin }
}

/// `RES n,v`.
pub fn bit_reset(n: u8, v: u8) -> (r: u8)
    requires
        n < 8,
    ensures
        r == res_value(n as nat, v),
{
    let m = bit_mask(n);
    proof {
        lemma_bit_bounds(v, n as nat);
    }
    if test_bit(v, n) { v - m } else { v }
}

/// `SET n,v`.
pub fn bit_set(n: u8, v: u8) -> (r: u8)
    requires
        n < 8,
    ensures
        r == set_value(n as nat, v),
{
    let m = bit_mask(n);
    proof {
        lemma_bit_bounds(v, n as nat);
    }
    if test_bit(v, n) { v } else { v + m }
}

/// A set bit is at most the value; a clear bit leaves room to set it.
pub proof fn lemma_bit_bounds(v: u8, n: nat)
    requires
        n < 8,
    ensures
        bit_of(v, n) ==> pow2(n) <= v,
        !bit_of(v, n) ==> v + pow2(n) <= 255,
{
}

} // verus!
