use vstd::prelude::*;

verus! {

/// The processor status as eight independent booleans.
pub struct FlagSet {
    pub carry: bool,
    pub zero: bool,
    pub interrupt_disable: bool,
    pub decimal_mode: bool,
    pub break_command: bool,
    pub break2: bool,
    pub overflow: bool,
    pub negative: bool,
}

impl FlagSet {
    /// The flags whose bit is set in `bits`.
    ///
    /// ```text
    ///  7 6 5 4 3 2 1 0
    ///  N V _ B D I Z C
    /// ```
    pub open spec fn from_bits(bits: u8) -> FlagSet {
        FlagSet {
            carry: bits & 0x01 != 0,
            zero: bits & 0x02 != 0,
            interrupt_disable: bits & 0x04 != 0,
            decimal_mode: bits & 0x08 != 0,
            break_command: bits & 0x10 != 0,
            break2: bits & 0x20 != 0,
            overflow: bits & 0x40 != 0,
            negative: bits & 0x80 != 0,
        }
    }

    /// The byte with exactly the bits of the flags that are set.
    pub open spec fn to_bits(self) -> u8 {
        (if self.carry { 0x01u8 } else { 0u8 })
            | (if self.zero { 0x02u8 } else { 0u8 })
            | (if self.interrupt_disable { 0x04u8 } else { 0u8 })
            | (if self.decimal_mode { 0x08u8 } else { 0u8 })
            | (if self.break_command { 0x10u8 } else { 0u8 })
            | (if self.break2 { 0x20u8 } else { 0u8 })
            | (if self.overflow { 0x40u8 } else { 0u8 })
            | (if self.negative { 0x80u8 } else { 0u8 })
    }

    /// The flags set in `self` or in `other`.
    pub open spec fn union(self, other: FlagSet) -> FlagSet {
        FlagSet {
            carry: self.carry || other.carry,
            zero: self.zero || other.zero,
            interrupt_disable: self.interrupt_disable || other.interrupt_disable,
            decimal_mode: self.decimal_mode || other.decimal_mode,
            break_command: self.break_command || other.break_command,
            break2: self.break2 || other.break2,
            overflow: self.overflow || other.overflow,
            negative: self.negative || other.negative,
        }
    }

    /// The flags set in `self` and not in `other`.
    pub open spec fn difference(self, other: FlagSet) -> FlagSet {
        FlagSet {
            carry: self.carry && !other.carry,
            zero: self.zero && !other.zero,
            interrupt_disable: self.interrupt_disable && !other.interrupt_disable,
            decimal_mode: self.decimal_mode && !other.decimal_mode,
            break_command: self.break_command && !other.break_command,
            break2: self.break2 && !other.break2,
            overflow: self.overflow && !other.overflow,
            negative: self.negative && !other.negative,
        }
    }

    /// Whether every flag set in `other` is set in `self`.
    pub open spec fn contains_all(self, other: FlagSet) -> bool {
        &&& other.carry ==> self.carry
        &&& other.zero ==> self.zero
        &&& other.interrupt_disable ==> self.interrupt_disable
        &&& other.decimal_mode ==> self.decimal_mode
        &&& other.break_command ==> self.break_command
        &&& other.break2 ==> self.break2
        &&& other.overflow ==> self.overflow
        &&& other.negative ==> self.negative
    }

    /// The status after a reset: only Interrupt Disable and Break2 are set.
    pub open spec fn initial() -> FlagSet {
        FlagSet {
            carry: false,
            zero: false,
            interrupt_disable: true,
            decimal_mode: false,
            break_command: false,
            break2: true,
            overflow: false,
            negative: false,
        }
    }

    /// `self` with Zero and Negative recomputed from `result`: Zero is set
    /// exactly when `result` is zero, Negative exactly when its bit 7 is set.
    pub open spec fn with_zero_negative(self, result: u8) -> FlagSet {
        FlagSet { zero: result == 0, negative: result >= 0x80, ..self }
    }
}

/// Bit 7 of a byte is set exactly when the byte is at least `0x80`.
pub proof fn lemma_sign_bit(v: u8)
    by (bit_vector)
    ensures
        (v & 0x80 != 0) == (v >= 0x80),
{
}

proof fn lemma_bit_tests(a: u8, b: u8)
    by (bit_vector)
    ensures
        ((a | b) & 0x01 != 0) == (a & 0x01 != 0 || b & 0x01 != 0),
        ((a | b) & 0x02 != 0) == (a & 0x02 != 0 || b & 0x02 != 0),
        ((a | b) & 0x04 != 0) == (a & 0x04 != 0 || b & 0x04 != 0),
        ((a | b) & 0x08 != 0) == (a & 0x08 != 0 || b & 0x08 != 0),
        ((a | b) & 0x10 != 0) == (a & 0x10 != 0 || b & 0x10 != 0),
        ((a | b) & 0x20 != 0) == (a & 0x20 != 0 || b & 0x20 != 0),
        ((a | b) & 0x40 != 0) == (a & 0x40 != 0 || b & 0x40 != 0),
        ((a | b) & 0x80 != 0) == (a & 0x80 != 0 || b & 0x80 != 0),
        ((a & !b) & 0x01 != 0) == (a & 0x01 != 0 && !(b & 0x01 != 0)),
        ((a & !b) & 0x02 != 0) == (a & 0x02 != 0 && !(b & 0x02 != 0)),
        ((a & !b) & 0x04 != 0) == (a & 0x04 != 0 && !(b & 0x04 != 0)),
        ((a & !b) & 0x08 != 0) == (a & 0x08 != 0 && !(b & 0x08 != 0)),
        ((a & !b) & 0x10 != 0) == (a & 0x10 != 0 && !(b & 0x10 != 0)),
        ((a & !b) & 0x20 != 0) == (a & 0x20 != 0 && !(b & 0x20 != 0)),
        ((a & !b) & 0x40 != 0) == (a & 0x40 != 0 && !(b & 0x40 != 0)),
        ((a & !b) & 0x80 != 0) == (a & 0x80 != 0 && !(b & 0x80 != 0)),
        (a & b == b) == ((b & 0x01 != 0 ==> a & 0x01 != 0) && (b & 0x02 != 0 ==> a & 0x02 != 0)
            && (b & 0x04 != 0 ==> a & 0x04 != 0) && (b & 0x08 != 0 ==> a & 0x08 != 0) && (b & 0x10
            != 0 ==> a & 0x10 != 0) && (b & 0x20 != 0 ==> a & 0x20 != 0) && (b & 0x40 != 0 ==> a
            & 0x40 != 0) && (b & 0x80 != 0 ==> a & 0x80 != 0)),
{
}

proof fn lemma_bits_of_flags(
    c: bool,
    z: bool,
    i: bool,
    d: bool,
    b: bool,
    b2: bool,
    v: bool,
    n: bool,
)
    by (bit_vector)
    ensures
        ({
            let bits = (if c { 0x01u8 } else { 0u8 }) | (if z { 0x02u8 } else { 0u8 }) | (if i {
                0x04u8
            } else {
                0u8
            }) | (if d { 0x08u8 } else { 0u8 }) | (if b { 0x10u8 } else { 0u8 }) | (if b2 {
                0x20u8
            } else {
                0u8
            }) | (if v { 0x40u8 } else { 0u8 }) | (if n { 0x80u8 } else { 0u8 });
            &&& (bits & 0x01 != 0) == c
            &&& (bits & 0x02 != 0) == z
            &&& (bits & 0x04 != 0) == i
            &&& (bits & 0x08 != 0) == d
            &&& (bits & 0x10 != 0) == b
            &&& (bits & 0x20 != 0) == b2
            &&& (bits & 0x40 != 0) == v
            &&& (bits & 0x80 != 0) == n
        }),
{
}

proof fn lemma_flags_of_bits(bits: u8)
    by (bit_vector)
    ensures
        bits == (if bits & 0x01 != 0 { 0x01u8 } else { 0u8 }) | (if bits & 0x02 != 0 {
            0x02u8
        } else {
            0u8
        }) | (if bits & 0x04 != 0 { 0x04u8 } else { 0u8 }) | (if bits & 0x08 != 0 {
            0x08u8
        } else {
            0u8
        }) | (if bits & 0x10 != 0 { 0x10u8 } else { 0u8 }) | (if bits & 0x20 != 0 {
            0x20u8
        } else {
            0u8
        }) | (if bits & 0x40 != 0 { 0x40u8 } else { 0u8 }) | (if bits & 0x80 != 0 {
            0x80u8
        } else {
            0u8
        }),
{
}

/// Reading the flags of a byte and writing them back gives the byte again.
pub proof fn lemma_to_bits_from_bits(bits: u8)
    ensures
        FlagSet::from_bits(bits).to_bits() == bits,
{
    lemma_flags_of_bits(bits);
}

/// Writing flags as a byte and reading them back gives the flags again.
pub proof fn lemma_from_bits_to_bits(flags: FlagSet)
    ensures
        FlagSet::from_bits(flags.to_bits()) == flags,
{
    lemma_bits_of_flags(
        flags.carry,
        flags.zero,
        flags.interrupt_disable,
        flags.decimal_mode,
        flags.break_command,
        flags.break2,
        flags.overflow,
        flags.negative,
    );
}

/// Each mask of `CPUFlags` stands for exactly one flag, and the reset pattern
/// for Interrupt Disable together with Break2.
pub proof fn lemma_masks()
    ensures
        FlagSet::from_bits(0) == (FlagSet {
            carry: false,
            zero: false,
            interrupt_disable: false,
            decimal_mode: false,
            break_command: false,
            break2: false,
            overflow: false,
            negative: false,
        }),
        FlagSet::from_bits(CPUFlags::CARRY) == (FlagSet { carry: true, ..FlagSet::from_bits(0) }),
        FlagSet::from_bits(CPUFlags::ZERO) == (FlagSet { zero: true, ..FlagSet::from_bits(0) }),
        FlagSet::from_bits(CPUFlags::INTERRUPT_DISABLE) == (FlagSet {
            interrupt_disable: true,
            ..FlagSet::from_bits(0)
        }),
        FlagSet::from_bits(CPUFlags::DECIMAL_MODE) == (FlagSet {
            decimal_mode: true,
            ..FlagSet::from_bits(0)
        }),
        FlagSet::from_bits(CPUFlags::BREAK) == (FlagSet {
            break_command: true,
            ..FlagSet::from_bits(0)
        }),
        FlagSet::from_bits(CPUFlags::BREAK2) == (FlagSet { break2: true, ..FlagSet::from_bits(0) }),
        FlagSet::from_bits(CPUFlags::OVERFLOW) == (FlagSet {
            overflow: true,
            ..FlagSet::from_bits(0)
        }),
        FlagSet::from_bits(CPUFlags::NEGATIV) == (FlagSet {
            negative: true,
            ..FlagSet::from_bits(0)
        }),
        FlagSet::from_bits(CPUFlags::RESET) == FlagSet::initial(),
{
    lemma_mask_bits();
}

proof fn lemma_mask_bits()
    by (bit_vector)
    ensures
        0x00u8 & 0x01 == 0 && 0x00u8 & 0x02 == 0 && 0x00u8 & 0x04 == 0 && 0x00u8 & 0x08 == 0
            && 0x00u8 & 0x10 == 0 && 0x00u8 & 0x20 == 0 && 0x00u8 & 0x40 == 0 && 0x00u8 & 0x80
            == 0,
        0x01u8 & 0x01 != 0 && 0x01u8 & 0x02 == 0 && 0x01u8 & 0x04 == 0 && 0x01u8 & 0x08 == 0
            && 0x01u8 & 0x10 == 0 && 0x01u8 & 0x20 == 0 && 0x01u8 & 0x40 == 0 && 0x01u8 & 0x80
            == 0,
        0x02u8 & 0x01 == 0 && 0x02u8 & 0x02 != 0 && 0x02u8 & 0x04 == 0 && 0x02u8 & 0x08 == 0
            && 0x02u8 & 0x10 == 0 && 0x02u8 & 0x20 == 0 && 0x02u8 & 0x40 == 0 && 0x02u8 & 0x80
            == 0,
        0x04u8 & 0x01 == 0 && 0x04u8 & 0x02 == 0 && 0x04u8 & 0x04 != 0 && 0x04u8 & 0x08 == 0
            && 0x04u8 & 0x10 == 0 && 0x04u8 & 0x20 == 0 && 0x04u8 & 0x40 == 0 && 0x04u8 & 0x80
            == 0,
        0x08u8 & 0x01 == 0 && 0x08u8 & 0x02 == 0 && 0x08u8 & 0x04 == 0 && 0x08u8 & 0x08 != 0
            && 0x08u8 & 0x10 == 0 && 0x08u8 & 0x20 == 0 && 0x08u8 & 0x40 == 0 && 0x08u8 & 0x80
            == 0,
        0x10u8 & 0x01 == 0 && 0x10u8 & 0x02 == 0 && 0x10u8 & 0x04 == 0 && 0x10u8 & 0x08 == 0
            && 0x10u8 & 0x10 != 0 && 0x10u8 & 0x20 == 0 && 0x10u8 & 0x40 == 0 && 0x10u8 & 0x80
            == 0,
        0x20u8 & 0x01 == 0 && 0x20u8 & 0x02 == 0 && 0x20u8 & 0x04 == 0 && 0x20u8 & 0x08 == 0
            && 0x20u8 & 0x10 == 0 && 0x20u8 & 0x20 != 0 && 0x20u8 & 0x40 == 0 && 0x20u8 & 0x80
            == 0,
        0x40u8 & 0x01 == 0 && 0x40u8 & 0x02 == 0 && 0x40u8 & 0x04 == 0 && 0x40u8 & 0x08 == 0
            && 0x40u8 & 0x10 == 0 && 0x40u8 & 0x20 == 0 && 0x40u8 & 0x40 != 0 && 0x40u8 & 0x80
            == 0,
        0x80u8 & 0x01 == 0 && 0x80u8 & 0x02 == 0 && 0x80u8 & 0x04 == 0 && 0x80u8 & 0x08 == 0
            && 0x80u8 & 0x10 == 0 && 0x80u8 & 0x20 == 0 && 0x80u8 & 0x40 == 0 && 0x80u8 & 0x80
            != 0,
        0x24u8 & 0x01 == 0 && 0x24u8 & 0x02 == 0 && 0x24u8 & 0x04 != 0 && 0x24u8 & 0x08 == 0
            && 0x24u8 & 0x10 == 0 && 0x24u8 & 0x20 != 0 && 0x24u8 & 0x40 == 0 && 0x24u8 & 0x80
            == 0,
{
}

/// The status register: one bit for each flag.
#[derive(Clone, Copy, Debug, PartialEq, Eq)]
pub struct CPUFlags {
    bits: u8,
}

impl View for CPUFlags {
    type V = FlagSet;

    closed spec fn view(&self) -> FlagSet {
        FlagSet::from_bits(self.bits)
    }
}

impl CPUFlags {
    /// Mask of the Carry flag.
    pub const CARRY: u8 = 0b0000_0001;

    /// Mask of the Zero flag.
    pub const ZERO: u8 = 0b0000_0010;

    /// Mask of the Interrupt Disable flag.
    pub const INTERRUPT_DISABLE: u8 = 0b0000_0100;

    /// Mask of the Decimal Mode flag.
    pub const DECIMAL_MODE: u8 = 0b0000_1000;

    /// Mask of the Break Command flag.
    pub const BREAK: u8 = 0b0001_0000;

    /// Mask of the second Break bit.
    pub const BREAK2: u8 = 0b0010_0000;

    /// Mask of the Overflow flag.
    pub const OVERFLOW: u8 = 0b0100_0000;

    /// Mask of the Negative flag.
    pub const NEGATIV: u8 = 0b1000_0000;

    /// The bit pattern of the status after a reset.
    pub const RESET: u8 = 0b0010_0100;

    /// The status whose flags are the bits of `bits`. All eight bits name a
    /// flag, so none is dropped.
    pub fn from_bits_truncate(bits: u8) -> (flags: CPUFlags)
        ensures
            flags@ == FlagSet::from_bits(bits),
    {
        CPUFlags { bits }
    }

    /// The status as a byte.
    pub fn bits(&self) -> (bits: u8)
        ensures
            bits == self@.to_bits(),
    {
        proof {
            lemma_to_bits_from_bits(self.bits);
        }
        self.bits
    }

    /// Whether every flag of `mask` is set.
    pub fn contains(&self, mask: u8) -> (all: bool)
        ensures
            all == self@.contains_all(FlagSet::from_bits(mask)),
    {
        proof {
            lemma_bit_tests(self.bits, mask);
        }
        self.bits & mask == mask
    }

    /// Sets every flag of `mask`.
    pub fn insert(&mut self, mask: u8)
        ensures
            final(self)@ == old(self)@.union(FlagSet::from_bits(mask)),
    {
        proof {
            lemma_bit_tests(self.bits, mask);
        }
        self.bits = self.bits | mask;
    }

    /// Clears every flag of `mask`.
    pub fn remove(&mut self, mask: u8)
        ensures
            final(self)@ == old(self)@.difference(FlagSet::from_bits(mask)),
    {
        proof {
            lemma_bit_tests(self.bits, mask);
        }
        self.bits = self.bits & !mask;
    }
}

} // verus!
