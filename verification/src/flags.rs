//! The status register: three condition codes kept in one 16-bit word.

use vstd::prelude::*;

verus! {

/// One of the three condition codes of the status register.
pub enum Flag {
    /// The last result was zero or carried a sign.
    Sign,
    /// The last signed operation overflowed.
    Overflow,
    /// The last unsigned operation overflowed or carried out.
    Carry,
}

/// Whether the bit of `flag` is one in `word`. The sign flag is the lowest
/// bit of the word, the overflow flag the next, the carry flag the third.
pub open spec fn records(word: u16, flag: Flag) -> bool {
    match flag {
        Flag::Sign => word % 2 == 1,
        Flag::Overflow => (word / 2) % 2 == 1,
        Flag::Carry => (word / 4) % 2 == 1,
    }
}

/// The flags that a word records.
pub open spec fn flags_of(word: u16) -> Set<Flag> {
    Set::new(|flag: Flag| records(word, flag))
}

/// The word that records the flags of `flags` and has no other bit set.
pub open spec fn word_of(flags: Set<Flag>) -> int {
    (if flags.contains(Flag::Sign) { 1int } else { 0 })
    + (if flags.contains(Flag::Overflow) { 2int } else { 0 })
    + (if flags.contains(Flag::Carry) { 4int } else { 0 })
}

/// Whether every bit of `word` that belongs to no flag is zero. The flags
/// are the three lowest bits, so these are the words up to seven.
pub open spec fn is_status_word(word: u16) -> bool {
    word <= 7
}

/// The bit of the sign flag.
const SIGN_BIT: u16 = 0x0001;

/// The bit of the overflow flag.
const OVERFLOW_BIT: u16 = 0x0002;

/// The bit of the carry flag.
const CARRY_BIT: u16 = 0x0004;

/// The bits of all three flags.
const ALL_BITS: u16 = 0x0007;

/// The status register of the machine.
///
/// Its value is a set of flags. The set is stored as a word in which every
/// bit that belongs to no flag is zero.
#[derive(Clone, Copy, Debug)]
pub struct StatusFlags {
    bits: u16,
}

impl View for StatusFlags {
    type V = Set<Flag>;

    closed spec fn view(&self) -> Set<Flag> {
        flags_of(self.bits)
    }
}

/// The word zero records no flag, so not every flag.
proof fn lemma_word_zero()
    ensures
        flags_of(0) =~= Set::<Flag>::empty(),
        flags_of(0) != Set::<Flag>::full(),
{
    assert(!flags_of(0).contains(Flag::Sign));
}

/// The word seven records every flag, so at least one.
proof fn lemma_word_seven()
    ensures
        flags_of(7) =~= Set::<Flag>::full(),
        flags_of(7) =~= set![Flag::Sign, Flag::Overflow, Flag::Carry],
        flags_of(7) != Set::<Flag>::empty(),
{
    assert(flags_of(7).contains(Flag::Sign));
}

/// The words one, two and four record one flag each.
proof fn lemma_single_bit()
    ensures
        flags_of(1) =~= set![Flag::Sign],
        flags_of(2) =~= set![Flag::Overflow],
        flags_of(4) =~= set![Flag::Carry],
{
}

/// A status word is the word of the flags that it records: no two status
/// words record the same flags.
pub proof fn lemma_word_of_flags_of(word: u16)
    requires
        is_status_word(word),
    ensures
        word_of(flags_of(word)) == word,
{
}

/// Every combination of the three flags has a status word, and that word
/// records the combination and nothing else.
pub proof fn lemma_flags_of_word_of(flags: Set<Flag>)
    ensures
        0 <= word_of(flags) <= 7,
        is_status_word(word_of(flags) as u16),
        flags_of(word_of(flags) as u16) == flags,
{
}

/// Masking a word with the three flag bits leaves a status word that
/// records the same flags, and changes nothing if it was a status word.
proof fn lemma_mask(word: u16)
    by (bit_vector)
    ensures
        word & 7 <= 7,
        (word & !7u16 == 0) <==> word <= 7,
        ((word & 7) % 2 == 1) <==> (word % 2 == 1),
        (((word & 7) / 2) % 2 == 1) <==> ((word / 2) % 2 == 1),
        (((word & 7) / 4) % 2 == 1) <==> ((word / 4) % 2 == 1),
{
}

/// The bitwise or of two status words is a status word with a bit set
/// where either has it set.
proof fn lemma_or(a: u16, b: u16)
    by (bit_vector)
    requires
        a <= 7,
        b <= 7,
    ensures
        a | b <= 7,
        ((a | b) % 2 == 1) <==> (a % 2 == 1 || b % 2 == 1),
        (((a | b) / 2) % 2 == 1) <==> ((a / 2) % 2 == 1 || (b / 2) % 2 == 1),
        (((a | b) / 4) % 2 == 1) <==> ((a / 4) % 2 == 1 || (b / 4) % 2 == 1),
{
}

/// Clearing the bits of one status word in another leaves a status word
/// with a bit set where the first has it set and the second has not.
proof fn lemma_and_not(a: u16, b: u16)
    by (bit_vector)
    requires
        a <= 7,
        b <= 7,
    ensures
        a & !b <= 7,
        ((a & !b) % 2 == 1) <==> (a % 2 == 1 && !(b % 2 == 1)),
        (((a & !b) / 2) % 2 == 1) <==> ((a / 2) % 2 == 1 && !((b / 2) % 2 == 1)),
        (((a & !b) / 4) % 2 == 1) <==> ((a / 4) % 2 == 1 && !((b / 4) % 2 == 1)),
{
}

/// The bitwise exclusive or of two status words is a status word with a
/// bit set where exactly one of them has it set.
proof fn lemma_xor(a: u16, b: u16)
    by (bit_vector)
    requires
        a <= 7,
        b <= 7,
    ensures
        a ^ b <= 7,
        ((a ^ b) % 2 == 1) <==> ((a % 2 == 1) != (b % 2 == 1)),
        (((a ^ b) / 2) % 2 == 1) <==> (((a / 2) % 2 == 1) != ((b / 2) % 2 == 1)),
        (((a ^ b) / 4) % 2 == 1) <==> (((a / 4) % 2 == 1) != ((b / 4) % 2 == 1)),
{
}

/// The bitwise and of two status words is a status word with a bit set
/// where both have it set.
proof fn lemma_and(a: u16, b: u16)
    by (bit_vector)
    requires
        a <= 7,
        b <= 7,
    ensures
        a & b <= 7,
        ((a & b) % 2 == 1) <==> (a % 2 == 1 && b % 2 == 1),
        (((a & b) / 2) % 2 == 1) <==> ((a / 2) % 2 == 1 && (b / 2) % 2 == 1),
        (((a & b) / 4) % 2 == 1) <==> ((a / 4) % 2 == 1 && (b / 4) % 2 == 1),
{
}

impl StatusFlags {
    /// The stored word has no bit set outside the three flags. This holds
    /// of every register that a program can hold.
    #[verifier::type_invariant]
    pub closed spec fn wf(self) -> bool {
        is_status_word(self.bits)
    }

    /// The stored word.
    pub closed spec fn spec_bits(&self) -> u16 {
        self.bits
    }

    /// No flag is set.
    pub open spec fn spec_is_empty(&self) -> bool {
        self@ =~= Set::<Flag>::empty()
    }

    /// Every flag is set.
    pub open spec fn spec_is_all(&self) -> bool {
        self@ =~= Set::<Flag>::full()
    }

    /// Every flag that is set in `other` is set in this register.
    pub open spec fn spec_contains(&self, other: StatusFlags) -> bool {
        other@.subset_of(self@)
    }

    /// Some flag is set in both this register and `other`.
    pub open spec fn spec_intersects(&self, other: StatusFlags) -> bool {
        !self@.disjoint(other@)
    }

    /// The union of two registers: the register that stores the bitwise or
    /// of the two stored words.
    pub closed spec fn spec_union(self, other: StatusFlags) -> StatusFlags {
        StatusFlags { bits: self.bits | other.bits }
    }

    /// The register with no flag set.
    pub fn empty() -> (r: StatusFlags)
        ensures
            r@ == Set::<Flag>::empty(),
            r.bits() == 0,
            r.is_empty(),
            !r.is_all(),
    {
        proof {
            lemma_word_zero();
        }
        StatusFlags { bits: 0 }
    }

    /// The register with all three flags set.
    pub fn all() -> (r: StatusFlags)
        ensures
            r@ == set![Flag::Sign, Flag::Overflow, Flag::Carry],
            r.bits() == 7,
            r.is_all(),
            !r.is_empty(),
    {
        proof {
            lemma_word_seven();
        }
        StatusFlags { bits: ALL_BITS }
    }

    /// The register with the sign flag set and no other. A constant in all
    /// but form, and named as one.
    #[allow(non_snake_case)]
    pub fn SIGN() -> (r: StatusFlags)
        ensures
            r@ == set![Flag::Sign],
            r.bits() == 1,
    {
        proof {
            lemma_single_bit();
        }
        StatusFlags { bits: SIGN_BIT }
    }

    /// The register with the overflow flag set and no other. A constant in
    /// all but form, and named as one.
    #[allow(non_snake_case)]
    pub fn OVERFLOW() -> (r: StatusFlags)
        ensures
            r@ == set![Flag::Overflow],
            r.bits() == 2,
    {
        proof {
            lemma_single_bit();
        }
        StatusFlags { bits: OVERFLOW_BIT }
    }

    /// The register with the carry flag set and no other. A constant in
    /// all but form, and named as one.
    #[allow(non_snake_case)]
    pub fn CARRY() -> (r: StatusFlags)
        ensures
            r@ == set![Flag::Carry],
            r.bits() == 4,
    {
        proof {
            lemma_single_bit();
        }
        StatusFlags { bits: CARRY_BIT }
    }

    /// The register as a word: bit 0 is the sign flag, bit 1 the overflow
    /// flag, bit 2 the carry flag, and every other bit is zero.
    #[verifier::when_used_as_spec(spec_bits)]
    pub fn bits(&self) -> (r: u16)
        ensures
            r == self.spec_bits(),
            r == word_of(self@),
            is_status_word(r),
            flags_of(r) == self@,
    {
        proof {
            use_type_invariant(self);
            lemma_word_of_flags_of(self.bits);
        }
        self.bits
    }

    /// The register that a word stands for, if the word has no bit set
    /// outside the three flags, and nothing if it has.
    pub fn from_bits(bits: u16) -> (r: Option<StatusFlags>)
        ensures
            r is Some <==> is_status_word(bits),
            r matches Some(flags) ==> flags@ == flags_of(bits) && flags.bits() == bits,
    {
        proof {
            lemma_mask(bits);
        }
        if bits & !ALL_BITS == 0 {
            Some(StatusFlags { bits })
        } else {
            None
        }
    }

    /// The register that a word stands for once its bits outside the three
    /// flags are dropped.
    pub fn from_bits_truncate(bits: u16) -> (r: StatusFlags)
        ensures
            r@ == flags_of(bits),
            r.bits() == bits % 8,
    {
        proof {
            lemma_mask(bits);
            assert(bits & 7 == bits % 8) by (bit_vector);
        }
        StatusFlags { bits: bits & ALL_BITS }
    }

    /// Whether no flag is set.
    #[verifier::when_used_as_spec(spec_is_empty)]
    pub fn is_empty(&self) -> (r: bool)
        ensures
            r == self.spec_is_empty(),
    {
        proof {
            use_type_invariant(self);
            lemma_word_of_flags_of(self.bits);
            lemma_word_zero();
        }
        self.bits == 0
    }

    /// Whether all three flags are set.
    #[verifier::when_used_as_spec(spec_is_all)]
    pub fn is_all(&self) -> (r: bool)
        ensures
            r == self.spec_is_all(),
    {
        proof {
            use_type_invariant(self);
            lemma_word_of_flags_of(self.bits);
            lemma_word_seven();
        }
        self.bits == ALL_BITS
    }

    /// Tests flags: whether every flag that is set in `other` is set in
    /// this register.
    #[verifier::when_used_as_spec(spec_contains)]
    pub fn contains(&self, other: StatusFlags) -> (r: bool)
        ensures
            r == self.spec_contains(other),
    {
        proof {
            use_type_invariant(self);
            use_type_invariant(&other);
            lemma_and(self.bits, other.bits);
            lemma_word_of_flags_of(self.bits & other.bits);
            lemma_word_of_flags_of(other.bits);
        }
        self.bits & other.bits == other.bits
    }

    /// Whether some flag is set in both this register and `other`.
    #[verifier::when_used_as_spec(spec_intersects)]
    pub fn intersects(&self, other: StatusFlags) -> (r: bool)
        ensures
            r == self.spec_intersects(other),
    {
        proof {
            use_type_invariant(self);
            use_type_invariant(&other);
            lemma_and(self.bits, other.bits);
            lemma_word_of_flags_of(self.bits & other.bits);
        }
        self.bits & other.bits != 0
    }

    /// Sets the flags that are set in `other` and leaves the others as
    /// they are. Where they were all set already, nothing changes.
    pub fn insert(&mut self, other: StatusFlags)
        ensures
            final(self)@ == old(self)@.union(other@),
            old(self).contains(other) ==> *final(self) == *old(self),
    {
        proof {
            use_type_invariant(&*self);
            use_type_invariant(&other);
            lemma_or(self.bits, other.bits);
            lemma_word_of_flags_of(self.bits);
            lemma_word_of_flags_of(self.bits | other.bits);
        }
        self.bits = self.bits | other.bits;
    }

    /// Clears the flags that are set in `other` and leaves the others as
    /// they are. Where they were all clear already, nothing changes.
    pub fn remove(&mut self, other: StatusFlags)
        ensures
            final(self)@ == old(self)@.difference(other@),
            !old(self).intersects(other) ==> *final(self) == *old(self),
    {
        proof {
            use_type_invariant(&*self);
            use_type_invariant(&other);
            lemma_and_not(self.bits, other.bits);
            lemma_word_of_flags_of(self.bits);
            lemma_word_of_flags_of(self.bits & !other.bits);
        }
        self.bits = self.bits & !other.bits;
    }

    /// Inverts the flags that are set in `other` and leaves the others as
    /// they are.
    pub fn toggle(&mut self, other: StatusFlags)
        ensures
            final(self)@ == old(self)@.difference(other@).union(other@.difference(old(self)@)),
    {
        proof {
            use_type_invariant(&*self);
            use_type_invariant(&other);
            lemma_xor(self.bits, other.bits);
        }
        self.bits = self.bits ^ other.bits;
    }

    /// Sets the flags of `other` if `value` is true, and clears them if it
    /// is false.
    pub fn set(&mut self, other: StatusFlags, value: bool)
        ensures
            value ==> final(self)@ == old(self)@.union(other@),
            !value ==> final(self)@ == old(self)@.difference(other@),
    {
        if value {
            self.insert(other);
        } else {
            self.remove(other);
        }
    }

    /// Clears all status flags: the whole word becomes zero, whatever it
    /// held.
    pub fn reset(&mut self)
        ensures
            final(self)@ == Set::<Flag>::empty(),
            final(self).bits() == 0,
            final(self).is_empty(),
            !final(self).is_all(),
    {
        proof {
            lemma_word_zero();
        }
        self.bits = 0;
    }

    /// In the word that a register stores, every bit that belongs to no
    /// flag is zero: the word is the word of the flags that are set, and it
    /// records those flags.
    pub proof fn lemma_bits_of_flags(flags: StatusFlags)
        requires
            flags.wf(),
        ensures
            is_status_word(flags.bits()),
            flags.bits() == word_of(flags@),
            flags_of(flags.bits()) == flags@,
    {
        lemma_word_of_flags_of(flags.bits);
    }

    /// The union of two registers is a register, and a flag is set in it
    /// exactly when it is set in one of the two.
    pub proof fn lemma_union(a: StatusFlags, b: StatusFlags)
        requires
            a.wf(),
            b.wf(),
        ensures
            a.spec_union(b).wf(),
            a.spec_union(b)@ == a@.union(b@),
    {
        lemma_or(a.bits, b.bits);
    }

    /// Two registers are equal exactly when they store the same word, and
    /// that is exactly when the same flags are set in both.
    pub proof fn lemma_equal_iff_same_flags(a: StatusFlags, b: StatusFlags)
        requires
            a.wf(),
            b.wf(),
        ensures
            (a == b) <==> (a.bits() == b.bits()),
            (a == b) <==> (a@ == b@),
    {
        lemma_word_of_flags_of(a.bits);
        lemma_word_of_flags_of(b.bits);
    }
}

impl Default for StatusFlags {
    /// The register with no flag set.
    fn default() -> (r: StatusFlags)
        ensures
            r@ == Set::<Flag>::empty(),
            r.bits() == 0,
            r.is_empty(),
            !r.is_all(),
    {
        StatusFlags::empty()
    }
}

impl PartialEq for StatusFlags {
    /// Whether the same flags are set in both registers.
    fn eq(&self, other: &StatusFlags) -> (r: bool) {
        proof {
            use_type_invariant(self);
            use_type_invariant(other);
            lemma_word_of_flags_of(self.bits);
            lemma_word_of_flags_of(other.bits);
        }
        self.bits == other.bits
    }
}

impl vstd::std_specs::cmp::PartialEqSpecImpl for StatusFlags {
    open spec fn obeys_eq_spec() -> bool {
        true
    }

    open spec fn eq_spec(&self, other: &StatusFlags) -> bool {
        self@ == other@
    }
}

impl Eq for StatusFlags {}

impl core::ops::BitOr for StatusFlags {
    type Output = StatusFlags;

    /// The register with the flags that are set in either operand.
    fn bitor(self, rhs: StatusFlags) -> (r: StatusFlags)
        ensures
            r@ == self@.union(rhs@),
    {
        proof {
            use_type_invariant(&self);
            use_type_invariant(&rhs);
            lemma_or(self.bits, rhs.bits);
        }
        StatusFlags { bits: self.bits | rhs.bits }
    }
}

impl vstd::std_specs::ops::BitOrSpecImpl for StatusFlags {
    open spec fn obeys_bitor_spec() -> bool {
        true
    }

    open spec fn bitor_req(self, rhs: StatusFlags) -> bool {
        true
    }

    open spec fn bitor_spec(self, rhs: StatusFlags) -> StatusFlags {
        self.spec_union(rhs)
    }
}

} // verus!
