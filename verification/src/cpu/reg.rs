use vstd::prelude::*;

verus! {

/// Low byte of a 16-bit word.
pub open spec fn low_byte(w: u16) -> u8 {
    (w % 256) as u8
}

/// High byte of a 16-bit word.
pub open spec fn high_byte(w: u16) -> u8 {
    (w / 256) as u8
}

/// The 16-bit word built from a high and a low byte.
pub open spec fn word_of(hi: u8, lo: u8) -> u16 {
    (hi * 256 + lo) as u16
}

/// A 16-bit machine register with independent access to its byte halves.
pub struct Reg {
    pub value: u16,
}

impl Reg {
    pub fn new() -> (r: Reg)
        ensures
            r.value == 0,
    {
        Reg { value: 0 }
    }

    pub fn get_low(&self) -> (r: u8)
        ensures
            r == low_byte(self.value),
    {
        (self.value % 256) as u8
    }

    pub fn get_high(&self) -> (r: u8)
        ensures
            r == high_byte(self.value),
    {
        (self.value / 256) as u8
    }

    /// Replaces the low byte, leaving the high byte unchanged.
    pub fn set_low(&mut self, val: u8)
        ensures
            final(self).value == word_of(high_byte(old(self).value), val),
    {
        let hi: u16 = self.value / 256;
        assert(hi * 256 + 255 < 65536) by (nonlinear_arith)
            requires hi <= 255;
        self.value = hi * 256 + (val as u16);
    }

    /// Replaces the high byte, leaving the low byte unchanged.
    pub fn set_high(&mut self, val: u8)
        ensures
            final(self).value == word_of(val, low_byte(old(self).value)),
    {
        let lo: u16 = self.value % 256;
        self.value = (val as u16) * 256 + lo;
    }
}

/// Writing one byte half of a register leaves the other half unchanged,
/// and reading the half just written gives the byte back.
pub proof fn lemma_byte_halves_round_trip(w: u16, v: u8)
    ensures
        low_byte(word_of(high_byte(w), v)) == v,
        high_byte(word_of(high_byte(w), v)) == high_byte(w),
        high_byte(word_of(v, low_byte(w))) == v,
        low_byte(word_of(v, low_byte(w))) == low_byte(w),
{
    assert(low_byte(word_of(high_byte(w), v)) == v) by (nonlinear_arith);
    assert(high_byte(word_of(high_byte(w), v)) == high_byte(w)) by (nonlinear_arith);
    assert(high_byte(word_of(v, low_byte(w))) == v) by (nonlinear_arith);
    assert(low_byte(word_of(v, low_byte(w))) == low_byte(w)) by (nonlinear_arith);
}

/// A word is exactly its two byte halves put back together.
pub proof fn lemma_word_of_halves(w: u16)
    ensures
        word_of(high_byte(w), low_byte(w)) == w,
{
    assert(word_of(high_byte(w), low_byte(w)) == w) by (nonlinear_arith);
}

} // verus!
