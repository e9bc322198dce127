use vstd::prelude::*;

verus! {

/// Modular 16-bit addition: the sum reduced mod 65536.
pub fn add_with_carry_16_bit(arg1: u16, arg2: u16) -> (r: u16)
    ensures
        r == (arg1 + arg2) % 0x10000,
{
    (((arg1 as u32) + (arg2 as u32)) % 0x10000) as u16
}

/// Modular 8-bit addition: the sum reduced mod 256.
pub fn add_with_carry_8_bit(arg1: u8, arg2: u8) -> (r: u8)
    ensures
        r == (arg1 + arg2) % 0x100,
{
    (((arg1 as u16) + (arg2 as u16)) % 0x100) as u8
}

/// Modular 16-bit subtraction: the difference reduced mod 65536.
pub fn sub_with_carry_16_bit(arg1: u16, arg2: u16) -> (r: u16)
    ensures
        r == (arg1 - arg2) % 0x10000,
{
    if arg1 >= arg2 {
        arg1 - arg2
    } else {
        let d: u32 = 0x10000 + (arg1 as u32) - (arg2 as u32);
        d as u16
    }
}

/// Modular 8-bit subtraction: the difference reduced mod 256.
pub fn sub_with_carry_8_bit(arg1: u8, arg2: u8) -> (r: u8)
    ensures
        r == (arg1 - arg2) % 0x100,
{
    if arg1 >= arg2 {
        arg1 - arg2
    } else {
        let d: u16 = 0x100 + (arg1 as u16) - (arg2 as u16);
        d as u8
    }
}

/// Two's complement of a word: the flipped bits plus one, which equals the
/// negation mod 65536.
pub fn twos_compliment_word(arg: u16) -> (r: u16)
    ensures
        r == (0 - arg) % 0x10000,
{
    assert((!arg) as int == 0xFFFF - arg) by (bit_vector);
    add_with_carry_16_bit(!arg, 1)
}

/// Two's complement of a byte: the flipped bits plus one, which equals the
/// negation mod 256.
pub fn twos_compliment_byte(arg: u8) -> (r: u8)
    ensures
        r == (0 - arg) % 0x100,
{
    assert((!arg) as int == 0xFF - arg) by (bit_vector);
    add_with_carry_8_bit(!arg, 1)
}

/// How many of the low eight bits are set.
pub open spec fn spec_ones8(b: u8) -> int {
    (b & 1) + ((b >> 1) & 1) + ((b >> 2) & 1) + ((b >> 3) & 1) + ((b >> 4) & 1) + ((b >> 5) & 1) + (
    (b >> 6) & 1) + ((b >> 7) & 1)
}

/// The PARITY predicate: an even number of set bits in the low byte.
pub open spec fn spec_parity_even(b: u8) -> bool {
    spec_ones8(b) % 2 == 0
}

/// Computes the parity of a byte by folding its bits together.
pub fn parity_even(b: u8) -> (r: bool)
    ensures
        r == spec_parity_even(b),
{
    let p1: u8 = b ^ (b >> 4);
    let p2: u8 = p1 ^ (p1 >> 2);
    let p3: u8 = p2 ^ (p2 >> 1);
    let r = p3 & 1 == 0;
    assert(r == (((b & 1) + ((b >> 1) & 1) + ((b >> 2) & 1) + ((b >> 3) & 1) + ((b >> 4) & 1) + ((b
        >> 5) & 1) + ((b >> 6) & 1) + ((b >> 7) & 1)) % 2 == 0)) by (bit_vector)
        requires
            p1 == b ^ (b >> 4),
            p2 == p1 ^ (p1 >> 2),
            p3 == p2 ^ (p2 >> 1),
            r == (p3 & 1 == 0),
    ;
    r
}

/// One left rotation of a byte: the top bit moves to the bottom.
pub open spec fn spec_rol8_once(x: u8) -> u8 {
    (((x * 2) % 0x100) + x / 0x80) as u8
}

/// One left rotation of a word.
pub open spec fn spec_rol16_once(x: u16) -> u16 {
    (((x * 2) % 0x10000) + x / 0x8000) as u16
}

/// One right rotation of a byte: the bottom bit moves to the top.
pub open spec fn spec_ror8_once(x: u8) -> u8 {
    (x / 2 + (x % 2) * 0x80) as u8
}

/// One right rotation of a word.
pub open spec fn spec_ror16_once(x: u16) -> u16 {
    (x / 2 + (x % 2) * 0x8000) as u16
}

/// A byte rotated left by the given count.
pub open spec fn spec_rol8(x: u8, times: nat) -> u8
    decreases times,
{
    if times == 0 {
        x
    } else {
        spec_rol8(spec_rol8_once(x), (times - 1) as nat)
    }
}

pub open spec fn spec_rol16(x: u16, times: nat) -> u16
    decreases times,
{
    if times == 0 {
        x
    } else {
        spec_rol16(spec_rol16_once(x), (times - 1) as nat)
    }
}

pub open spec fn spec_ror8(x: u8, times: nat) -> u8
    decreases times,
{
    if times == 0 {
        x
    } else {
        spec_ror8(spec_ror8_once(x), (times - 1) as nat)
    }
}

pub open spec fn spec_ror16(x: u16, times: nat) -> u16
    decreases times,
{
    if times == 0 {
        x
    } else {
        spec_ror16(spec_ror16_once(x), (times - 1) as nat)
    }
}

/// A byte rotated left by the count, one bit position at a time.
pub fn rotate_left_byte(arg: u8, times: u8) -> (r: u8)
    ensures
        r == spec_rol8(arg, times as nat),
{
    let mut x = arg;
    let mut i: u8 = 0;
    while i < times
        invariant
            i <= times,
            spec_rol8(x, (times - i) as nat) == spec_rol8(arg, times as nat),
        decreases times - i,
    {
        x = ((x as u16 * 2) % 0x100) as u8 + x / 0x80;
        i = i + 1;
    }
    x
}

pub fn rotate_left_word(arg: u16, times: u16) -> (r: u16)
    ensures
        r == spec_rol16(arg, times as nat),
{
    let mut x = arg;
    let mut i: u16 = 0;
    while i < times
        invariant
            i <= times,
            spec_rol16(x, (times - i) as nat) == spec_rol16(arg, times as nat),
        decreases times - i,
    {
        x = ((x as u32 * 2) % 0x10000) as u16 + x / 0x8000;
        i = i + 1;
    }
    x
}

pub fn rotate_right_byte(arg: u8, times: u8) -> (r: u8)
    ensures
        r == spec_ror8(arg, times as nat),
{
    let mut x = arg;
    let mut i: u8 = 0;
    while i < times
        invariant
            i <= times,
            spec_ror8(x, (times - i) as nat) == spec_ror8(arg, times as nat),
        decreases times - i,
    {
        x = x / 2 + (x % 2) * 0x80;
        i = i + 1;
    }
    x
}

pub fn rotate_right_word(arg: u16, times: u16) -> (r: u16)
    ensures
        r == spec_ror16(arg, times as nat),
{
    let mut x = arg;
    let mut i: u16 = 0;
    while i < times
        invariant
            i <= times,
            spec_ror16(x, (times - i) as nat) == spec_ror16(arg, times as nat),
        decreases times - i,
    {
        x = x / 2 + (x % 2) * 0x8000;
        i = i + 1;
    }
    x
}

/// One left rotation of a byte through the carry: a nine-bit rotation whose
/// extra bit is the carry flag. Gives the new value and the new carry.
pub open spec fn spec_rcl8_once(x: u8, c: bool) -> (u8, bool) {
    ((((x * 2) % 0x100) + if c {
        1int
    } else {
        0int
    }) as u8, x >= 0x80)
}

pub open spec fn spec_rcl16_once(x: u16, c: bool) -> (u16, bool) {
    ((((x * 2) % 0x10000) + if c {
        1int
    } else {
        0int
    }) as u16, x >= 0x8000)
}

pub open spec fn spec_rcr8_once(x: u8, c: bool) -> (u8, bool) {
    ((x / 2 + if c {
        0x80int
    } else {
        0int
    }) as u8, x % 2 == 1)
}

pub open spec fn spec_rcr16_once(x: u16, c: bool) -> (u16, bool) {
    ((x / 2 + if c {
        0x8000int
    } else {
        0int
    }) as u16, x % 2 == 1)
}

pub open spec fn spec_rcl8(x: u8, c: bool, times: nat) -> (u8, bool)
    decreases times,
{
    if times == 0 {
        (x, c)
    } else {
        let once = spec_rcl8_once(x, c);
        spec_rcl8(once.0, once.1, (times - 1) as nat)
    }
}

pub open spec fn spec_rcl16(x: u16, c: bool, times: nat) -> (u16, bool)
    decreases times,
{
    if times == 0 {
        (x, c)
    } else {
        let once = spec_rcl16_once(x, c);
        spec_rcl16(once.0, once.1, (times - 1) as nat)
    }
}

pub open spec fn spec_rcr8(x: u8, c: bool, times: nat) -> (u8, bool)
    decreases times,
{
    if times == 0 {
        (x, c)
    } else {
        let once = spec_rcr8_once(x, c);
        spec_rcr8(once.0, once.1, (times - 1) as nat)
    }
}

pub open spec fn spec_rcr16(x: u16, c: bool, times: nat) -> (u16, bool)
    decreases times,
{
    if times == 0 {
        (x, c)
    } else {
        let once = spec_rcr16_once(x, c);
        spec_rcr16(once.0, once.1, (times - 1) as nat)
    }
}

/// A byte rotated left through the carry, one bit position at a time.
pub fn rotate_left_carry_byte(arg: u8, times: u8, carry: bool) -> (r: (u8, bool))
    ensures
        r == spec_rcl8(arg, carry, times as nat),
{
    let mut x = arg;
    let mut c = carry;
    let mut i: u8 = 0;
    while i < times
        invariant
            i <= times,
            spec_rcl8(x, c, (times - i) as nat) == spec_rcl8(arg, carry, times as nat),
        decreases times - i,
    {
        let new_c = x >= 0x80;
        x = ((x as u16 * 2) % 0x100) as u8 + if c {
            1
        } else {
            0
        };
        c = new_c;
        i = i + 1;
    }
    (x, c)
}

pub fn rotate_left_carry_word(arg: u16, times: u16, carry: bool) -> (r: (u16, bool))
    ensures
        r == spec_rcl16(arg, carry, times as nat),
{
    let mut x = arg;
    let mut c = carry;
    let mut i: u16 = 0;
    while i < times
        invariant
            i <= times,
            spec_rcl16(x, c, (times - i) as nat) == spec_rcl16(arg, carry, times as nat),
        decreases times - i,
    {
        let new_c = x >= 0x8000;
        x = ((x as u32 * 2) % 0x10000) as u16 + if c {
            1
        } else {
            0
        };
        c = new_c;
        i = i + 1;
    }
    (x, c)
}

pub fn rotate_right_carry_byte(arg: u8, times: u8, carry: bool) -> (r: (u8, bool))
    ensures
        r == spec_rcr8(arg, carry, times as nat),
{
    let mut x = arg;
    let mut c = carry;
    let mut i: u8 = 0;
    while i < times
        invariant
            i <= times,
            spec_rcr8(x, c, (times - i) as nat) == spec_rcr8(arg, carry, times as nat),
        decreases times - i,
    {
        let new_c = x % 2 == 1;
        x = x / 2 + if c {
            0x80
        } else {
            0
        };
        c = new_c;
        i = i + 1;
    }
    (x, c)
}

pub fn rotate_right_carry_word(arg: u16, times: u16, carry: bool) -> (r: (u16, bool))
    ensures
        r == spec_rcr16(arg, carry, times as nat),
{
    let mut x = arg;
    let mut c = carry;
    let mut i: u16 = 0;
    while i < times
        invariant
            i <= times,
            spec_rcr16(x, c, (times - i) as nat) == spec_rcr16(arg, carry, times as nat),
        decreases times - i,
    {
        let new_c = x % 2 == 1;
        x = x / 2 + if c {
            0x8000
        } else {
            0
        };
        c = new_c;
        i = i + 1;
    }
    (x, c)
}

/// One left shift step: the new value and the bit shifted out.
pub open spec fn spec_shl8(x: u8, times: nat) -> (u8, bool)
    decreases times,
{
    if times == 0 {
        (x, false)
    } else {
        spec_shl8_from(((x * 2) % 0x100) as u8, x >= 0x80, (times - 1) as nat)
    }
}

/// Left shifting that carries the last bit out once the count is exhausted.
pub open spec fn spec_shl8_from(x: u8, c: bool, times: nat) -> (u8, bool)
    decreases times,
{
    if times == 0 {
        (x, c)
    } else {
        spec_shl8_from(((x * 2) % 0x100) as u8, x >= 0x80, (times - 1) as nat)
    }
}

pub open spec fn spec_shl16(x: u16, times: nat) -> (u16, bool)
    decreases times,
{
    if times == 0 {
        (x, false)
    } else {
        spec_shl16_from(((x * 2) % 0x10000) as u16, x >= 0x8000, (times - 1) as nat)
    }
}

pub open spec fn spec_shl16_from(x: u16, c: bool, times: nat) -> (u16, bool)
    decreases times,
{
    if times == 0 {
        (x, c)
    } else {
        spec_shl16_from(((x * 2) % 0x10000) as u16, x >= 0x8000, (times - 1) as nat)
    }
}

pub open spec fn spec_shr8(x: u8, times: nat) -> (u8, bool)
    decreases times,
{
    if times == 0 {
        (x, false)
    } else {
        spec_shr8_from(x / 2, x % 2 == 1, (times - 1) as nat)
    }
}

pub open spec fn spec_shr8_from(x: u8, c: bool, times: nat) -> (u8, bool)
    decreases times,
{
    if times == 0 {
        (x, c)
    } else {
        spec_shr8_from(x / 2, x % 2 == 1, (times - 1) as nat)
    }
}

pub open spec fn spec_shr16(x: u16, times: nat) -> (u16, bool)
    decreases times,
{
    if times == 0 {
        (x, false)
    } else {
        spec_shr16_from(x / 2, x % 2 == 1, (times - 1) as nat)
    }
}

pub open spec fn spec_shr16_from(x: u16, c: bool, times: nat) -> (u16, bool)
    decreases times,
{
    if times == 0 {
        (x, c)
    } else {
        spec_shr16_from(x / 2, x % 2 == 1, (times - 1) as nat)
    }
}

/// One arithmetic right shift step of a byte: the sign bit stays put.
pub open spec fn spec_sar8_once(x: u8) -> u8 {
    (x / 2 + (x / 0x80) * 0x80) as u8
}

pub open spec fn spec_sar16_once(x: u16) -> u16 {
    (x / 2 + (x / 0x8000) * 0x8000) as u16
}

pub open spec fn spec_sar8(x: u8, times: nat) -> (u8, bool)
    decreases times,
{
    if times == 0 {
        (x, false)
    } else {
        spec_sar8_from(spec_sar8_once(x), x % 2 == 1, (times - 1) as nat)
    }
}

pub open spec fn spec_sar8_from(x: u8, c: bool, times: nat) -> (u8, bool)
    decreases times,
{
    if times == 0 {
        (x, c)
    } else {
        spec_sar8_from(spec_sar8_once(x), x % 2 == 1, (times - 1) as nat)
    }
}

pub open spec fn spec_sar16(x: u16, times: nat) -> (u16, bool)
    decreases times,
{
    if times == 0 {
        (x, false)
    } else {
        spec_sar16_from(spec_sar16_once(x), x % 2 == 1, (times - 1) as nat)
    }
}

pub open spec fn spec_sar16_from(x: u16, c: bool, times: nat) -> (u16, bool)
    decreases times,
{
    if times == 0 {
        (x, c)
    } else {
        spec_sar16_from(spec_sar16_once(x), x % 2 == 1, (times - 1) as nat)
    }
}

/// A byte shifted left by the count; gives the result and the carry-out of
/// the last shifted bit.
pub fn shift_left_byte(arg: u8, times: u8) -> (r: (u8, bool))
    ensures
        r == spec_shl8(arg, times as nat),
{
    let mut x = arg;
    let mut c = false;
    let mut i: u8 = 0;
    while i < times
        invariant
            i <= times,
            if i == 0 {
                spec_shl8(x, times as nat) == spec_shl8(arg, times as nat) && c == false
            } else {
                spec_shl8_from(x, c, (times - i) as nat) == spec_shl8(arg, times as nat)
            },
        decreases times - i,
    {
        let new_c = x >= 0x80;
        x = ((x as u16 * 2) % 0x100) as u8;
        c = new_c;
        i = i + 1;
    }
    (x, c)
}

pub fn shift_left_word(arg: u16, times: u8) -> (r: (u16, bool))
    ensures
        r == spec_shl16(arg, times as nat),
{
    let mut x = arg;
    let mut c = false;
    let mut i: u8 = 0;
    while i < times
        invariant
            i <= times,
            if i == 0 {
                spec_shl16(x, times as nat) == spec_shl16(arg, times as nat) && c == false
            } else {
                spec_shl16_from(x, c, (times - i) as nat) == spec_shl16(arg, times as nat)
            },
        decreases times - i,
    {
        let new_c = x >= 0x8000;
        x = ((x as u32 * 2) % 0x10000) as u16;
        c = new_c;
        i = i + 1;
    }
    (x, c)
}

pub fn shift_right_byte(arg: u8, times: u8) -> (r: (u8, bool))
    ensures
        r == spec_shr8(arg, times as nat),
{
    let mut x = arg;
    let mut c = false;
    let mut i: u8 = 0;
    while i < times
        invariant
            i <= times,
            if i == 0 {
                spec_shr8(x, times as nat) == spec_shr8(arg, times as nat) && c == false
            } else {
                spec_shr8_from(x, c, (times - i) as nat) == spec_shr8(arg, times as nat)
            },
        decreases times - i,
    {
        let new_c = x % 2 == 1;
        x = x / 2;
        c = new_c;
        i = i + 1;
    }
    (x, c)
}

pub fn shift_right_word(arg: u16, times: u8) -> (r: (u16, bool))
    ensures
        r == spec_shr16(arg, times as nat),
{
    let mut x = arg;
    let mut c = false;
    let mut i: u8 = 0;
    while i < times
        invariant
            i <= times,
            if i == 0 {
                spec_shr16(x, times as nat) == spec_shr16(arg, times as nat) && c == false
            } else {
                spec_shr16_from(x, c, (times - i) as nat) == spec_shr16(arg, times as nat)
            },
        decreases times - i,
    {
        let new_c = x % 2 == 1;
        x = x / 2;
        c = new_c;
        i = i + 1;
    }
    (x, c)
}

/// A byte shifted right arithmetically: the sign bit is preserved and the
/// carry-out is the last bit shifted off the bottom.
pub fn shift_right_arith_byte(arg: u8, times: u8) -> (r: (u8, bool))
    ensures
        r == spec_sar8(arg, times as nat),
{
    let mut x = arg;
    let mut c = false;
    let mut i: u8 = 0;
    while i < times
        invariant
            i <= times,
            if i == 0 {
                spec_sar8(x, times as nat) == spec_sar8(arg, times as nat) && c == false
            } else {
                spec_sar8_from(x, c, (times - i) as nat) == spec_sar8(arg, times as nat)
            },
        decreases times - i,
    {
        let new_c = x % 2 == 1;
        x = x / 2 + (x / 0x80) * 0x80;
        c = new_c;
        i = i + 1;
    }
    (x, c)
}

pub fn shift_right_arith_word(arg: u16, times: u8) -> (r: (u16, bool))
    ensures
        r == spec_sar16(arg, times as nat),
{
    let mut x = arg;
    let mut c = false;
    let mut i: u8 = 0;
    while i < times
        invariant
            i <= times,
            if i == 0 {
                spec_sar16(x, times as nat) == spec_sar16(arg, times as nat) && c == false
            } else {
                spec_sar16_from(x, c, (times - i) as nat) == spec_sar16(arg, times as nat)
            },
        decreases times - i,
    {
        let new_c = x % 2 == 1;
        x = x / 2 + (x / 0x8000) * 0x8000;
        c = new_c;
        i = i + 1;
    }
    (x, c)
}

} // verus!
