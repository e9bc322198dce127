use vstd::prelude::*;

verus! {

/// A fixed-width container of named boolean flags, seen as a bag of bits.
/// The `bits` view maps every container width to a 64-bit mask so that the
/// contracts speak of all widths in one vocabulary.
pub trait FlagContainer: Sized {
    type Index;

    /// The container's contents as a 64-bit mask.
    spec fn bits(&self) -> u64;

    /// The mask that one index value stands for.
    spec fn index_bits(bit: &Self::Index) -> u64;

    /// The empty container.
    fn none() -> (r: Self)
        ensures
            r.bits() == 0,
    ;

    /// The index of the lowest bit.
    fn identity() -> (r: Self::Index)
        ensures
            Self::index_bits(&r) == 1,
    ;

    /// Turns the given bits on.
    fn add(&mut self, bit: Self::Index)
        ensures
            final(self).bits() == old(self).bits() | Self::index_bits(&bit),
    ;

    /// Turns the given bits off.
    fn remove(&mut self, bit: Self::Index)
        ensures
            final(self).bits() == old(self).bits() & !Self::index_bits(&bit),
    ;

    /// True when any of the given bits is on.
    fn has(&self, bit: Self::Index) -> (r: bool)
        ensures
            r == (self.bits() & Self::index_bits(&bit) != 0),
    ;
}

impl FlagContainer for u8 {
    type Index = u8;

    open spec fn bits(&self) -> u64 {
        *self as u64
    }

    open spec fn index_bits(bit: &u8) -> u64 {
        *bit as u64
    }

    fn none() -> (r: Self) {
        0
    }

    fn identity() -> (r: Self::Index) {
        1
    }

    fn add(&mut self, bit: u8) {
        let old_val: u8 = *self;
        *self = old_val | bit;
        assert((old_val | bit) as u64 == (old_val as u64) | (bit as u64)) by (bit_vector);
    }

    fn remove(&mut self, bit: u8) {
        let old_val: u8 = *self;
        *self = old_val & !bit;
        assert((old_val & !bit) as u64 == (old_val as u64) & !(bit as u64)) by (bit_vector);
    }

    fn has(&self, bit: u8) -> (r: bool) {
        let v: u8 = *self;
        assert((v & bit) as u64 == (v as u64) & (bit as u64)) by (bit_vector);
        v & bit != 0
    }
}

impl FlagContainer for u16 {
    type Index = u16;

    open spec fn bits(&self) -> u64 {
        *self as u64
    }

    open spec fn index_bits(bit: &u16) -> u64 {
        *bit as u64
    }

    fn none() -> (r: Self) {
        0
    }

    fn identity() -> (r: Self::Index) {
        1
    }

    fn add(&mut self, bit: u16) {
        let old_val: u16 = *self;
        *self = old_val | bit;
        assert((old_val | bit) as u64 == (old_val as u64) | (bit as u64)) by (bit_vector);
    }

    fn remove(&mut self, bit: u16) {
        let old_val: u16 = *self;
        *self = old_val & !bit;
        assert((old_val & !bit) as u64 == (old_val as u64) & !(bit as u64)) by (bit_vector);
    }

    fn has(&self, bit: u16) -> (r: bool) {
        let v: u16 = *self;
        assert((v & bit) as u64 == (v as u64) & (bit as u64)) by (bit_vector);
        v & bit != 0
    }
}

impl FlagContainer for u32 {
    type Index = u32;

    open spec fn bits(&self) -> u64 {
        *self as u64
    }

    open spec fn index_bits(bit: &u32) -> u64 {
        *bit as u64
    }

    fn none() -> (r: Self) {
        0
    }

    fn identity() -> (r: Self::Index) {
        1
    }

    fn add(&mut self, bit: u32) {
        let old_val: u32 = *self;
        *self = old_val | bit;
        assert((old_val | bit) as u64 == (old_val as u64) | (bit as u64)) by (bit_vector);
    }

    fn remove(&mut self, bit: u32) {
        let old_val: u32 = *self;
        *self = old_val & !bit;
        assert((old_val & !bit) as u64 == (old_val as u64) & !(bit as u64)) by (bit_vector);
    }

    fn has(&self, bit: u32) -> (r: bool) {
        let v: u32 = *self;
        assert((v & bit) as u64 == (v as u64) & (bit as u64)) by (bit_vector);
        v & bit != 0
    }
}

impl FlagContainer for u64 {
    type Index = u64;

    open spec fn bits(&self) -> u64 {
        *self
    }

    open spec fn index_bits(bit: &u64) -> u64 {
        *bit
    }

    fn none() -> (r: Self) {
        0
    }

    fn identity() -> (r: Self::Index) {
        1
    }

    fn add(&mut self, bit: u64) {
        *self = *self | bit;
    }

    fn remove(&mut self, bit: u64) {
        *self = *self & !bit;
    }

    fn has(&self, bit: u64) -> (r: bool) {
        *self & bit != 0
    }
}

impl FlagContainer for usize {
    type Index = usize;

    open spec fn bits(&self) -> u64 {
        *self as u64
    }

    open spec fn index_bits(bit: &usize) -> u64 {
        *bit as u64
    }

    fn none() -> (r: Self) {
        0
    }

    fn identity() -> (r: Self::Index) {
        1
    }

    fn add(&mut self, bit: usize) {
        let old_val: usize = *self;
        *self = old_val | bit;
        assert((old_val | bit) as u64 == (old_val as u64) | (bit as u64)) by (bit_vector);
    }

    fn remove(&mut self, bit: usize) {
        let old_val: usize = *self;
        *self = old_val & !bit;
        assert((old_val & !bit) as u64 == (old_val as u64) & !(bit as u64)) by (bit_vector);
    }

    fn has(&self, bit: usize) -> (r: bool) {
        let v: usize = *self;
        assert((v & bit) as u64 == (v as u64) & (bit as u64)) by (bit_vector);
        v & bit != 0
    }
}

/// A type whose values name single flags within some container width.
pub trait FlagBits {
    type Container: FlagContainer;

    /// The mask this flag occupies, in the 64-bit vocabulary.
    spec fn loc_bits(&self) -> u64;

    /// The container mask that this flag occupies.
    fn to_loc(&self) -> (r: <Self::Container as FlagContainer>::Index)
        ensures
            Self::Container::index_bits(&r) == self.loc_bits(),
    ;
}

/// A flag together with a polarity: either "this flag on" or "this flag off".
pub enum FlagBit<T: FlagBits> {
    Is(T),
    Not(T),
}

impl<T: FlagBits> FlagBit<T> {
    /// The same flag with the opposite polarity.
    pub fn flip(self) -> (r: Self)
        ensures
            r is Is <==> self is Not,
    {
        match self {
            FlagBit::Is(val) => FlagBit::Not(val),
            FlagBit::Not(val) => FlagBit::Is(val),
        }
    }
}

/// A set of named flags stored in the container width that the flag type
/// declares.
pub struct Flags<Flag: FlagBits> {
    pub flags: Flag::Container,
}

impl<Flag: FlagBits> Flags<Flag> {
    /// The empty flag set.
    pub fn new() -> (r: Self)
        ensures
            r.flags.bits() == 0,
    {
        Self { flags: Flag::Container::none() }
    }

    /// True when any bit of the given flag is on.
    pub fn has(&self, flag: Flag) -> (r: bool)
        ensures
            r == (self.flags.bits() & flag.loc_bits() != 0),
    {
        let loc = flag.to_loc();
        self.flags.has(loc)
    }

    /// Adds a flag with polarity: `Is` turns its bits on, `Not` turns them off.
    pub fn add(&mut self, flag: FlagBit<Flag>)
        ensures
            (flag matches FlagBit::Is(f) ==> final(self).flags.bits() == old(self).flags.bits()
                | f.loc_bits()),
            (flag matches FlagBit::Not(f) ==> final(self).flags.bits() == old(self).flags.bits()
                & !f.loc_bits()),
    {
        match flag {
            FlagBit::Is(val) => {
                let loc = val.to_loc();
                self.flags.add(loc);
            }
            FlagBit::Not(val) => {
                let loc = val.to_loc();
                self.flags.remove(loc);
            }
        }
    }
}

} // verus!
