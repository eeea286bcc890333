//! The flags of a GPIO line: the single flags and the set of them that a line has.

use std::ops::{BitAnd, BitAndAssign, BitOr, BitOrAssign, BitXor, BitXorAssign, Not};
use vstd::prelude::*;
use vstd::std_specs::convert::FromSpecImpl;
use vstd::std_specs::ops::{BitAndSpecImpl, BitOrSpecImpl, BitXorSpecImpl, NotSpecImpl};

verus! {

/// Possible bits for [`GpioLineFlags`].
#[derive(Clone, Copy, Debug, PartialEq, Eq, Structural)]
pub enum GpioLineFlag {
    /// Line is not available for requests.
    Used,
    /// The line's active state is physical low.
    ActiveLow,
    /// Line is an input.
    Input,
    /// Line is an output.
    Output,
    /// The line detects rising (inactive to active) edges.
    EdgeRising,
    /// The line detects falling (active to inactive) edges.
    EdgeFalling,
    /// The line is an open-drain output.
    OpenDrain,
    /// The line is an open-source output.
    OpenSource,
    /// The line has a pull-up bias resistor enabled.
    BiasPullUp,
    /// The line has a pull-down bias resistor enabled.
    BiasPullDown,
    /// The line has no bias resistor enabled.
    BiasDisabled,
    /// Line events contain realtime timestamps.
    EventClockRealtime,
    /// Line events contain timestamps from the hardware timestamp engine.
    EventClockHte,
}

/// All flags, in the order in which they are declared.
pub open spec fn all_flags() -> Seq<GpioLineFlag> {
    seq![
        GpioLineFlag::Used,
        GpioLineFlag::ActiveLow,
        GpioLineFlag::Input,
        GpioLineFlag::Output,
        GpioLineFlag::EdgeRising,
        GpioLineFlag::EdgeFalling,
        GpioLineFlag::OpenDrain,
        GpioLineFlag::OpenSource,
        GpioLineFlag::BiasPullUp,
        GpioLineFlag::BiasPullDown,
        GpioLineFlag::BiasDisabled,
        GpioLineFlag::EventClockRealtime,
        GpioLineFlag::EventClockHte,
    ]
}

impl GpioLineFlag {
    /// The place of the flag in the order of declaration, which is the number of its bit.
    pub open spec fn position(self) -> nat {
        match self {
            GpioLineFlag::Used => 0,
            GpioLineFlag::ActiveLow => 1,
            GpioLineFlag::Input => 2,
            GpioLineFlag::Output => 3,
            GpioLineFlag::EdgeRising => 4,
            GpioLineFlag::EdgeFalling => 5,
            GpioLineFlag::OpenDrain => 6,
            GpioLineFlag::OpenSource => 7,
            GpioLineFlag::BiasPullUp => 8,
            GpioLineFlag::BiasPullDown => 9,
            GpioLineFlag::BiasDisabled => 10,
            GpioLineFlag::EventClockRealtime => 11,
            GpioLineFlag::EventClockHte => 12,
        }
    }

    /// The flag as a word with its one bit set.
    pub open spec fn spec_bit(self) -> u64 {
        match self {
            GpioLineFlag::Used => 0x1,
            GpioLineFlag::ActiveLow => 0x2,
            GpioLineFlag::Input => 0x4,
            GpioLineFlag::Output => 0x8,
            GpioLineFlag::EdgeRising => 0x10,
            GpioLineFlag::EdgeFalling => 0x20,
            GpioLineFlag::OpenDrain => 0x40,
            GpioLineFlag::OpenSource => 0x80,
            GpioLineFlag::BiasPullUp => 0x100,
            GpioLineFlag::BiasPullDown => 0x200,
            GpioLineFlag::BiasDisabled => 0x400,
            GpioLineFlag::EventClockRealtime => 0x800,
            GpioLineFlag::EventClockHte => 0x1000,
        }
    }

    /// The flag as a word with its one bit set.
    #[verifier::when_used_as_spec(spec_bit)]
    pub fn bit(self) -> (bit: u64)
        ensures
            bit == self.spec_bit(),
    {
        match self {
            GpioLineFlag::Used => 0x1,
            GpioLineFlag::ActiveLow => 0x2,
            GpioLineFlag::Input => 0x4,
            GpioLineFlag::Output => 0x8,
            GpioLineFlag::EdgeRising => 0x10,
            GpioLineFlag::EdgeFalling => 0x20,
            GpioLineFlag::OpenDrain => 0x40,
            GpioLineFlag::OpenSource => 0x80,
            GpioLineFlag::BiasPullUp => 0x100,
            GpioLineFlag::BiasPullDown => 0x200,
            GpioLineFlag::BiasDisabled => 0x400,
            GpioLineFlag::EventClockRealtime => 0x800,
            GpioLineFlag::EventClockHte => 0x1000,
        }
    }

    /// The name of the flag.
    pub open spec fn spec_name(self) -> Seq<char> {
        match self {
            GpioLineFlag::Used => "Used"@,
            GpioLineFlag::ActiveLow => "ActiveLow"@,
            GpioLineFlag::Input => "Input"@,
            GpioLineFlag::Output => "Output"@,
            GpioLineFlag::EdgeRising => "EdgeRising"@,
            GpioLineFlag::EdgeFalling => "EdgeFalling"@,
            GpioLineFlag::OpenDrain => "OpenDrain"@,
            GpioLineFlag::OpenSource => "OpenSource"@,
            GpioLineFlag::BiasPullUp => "BiasPullUp"@,
            GpioLineFlag::BiasPullDown => "BiasPullDown"@,
            GpioLineFlag::BiasDisabled => "BiasDisabled"@,
            GpioLineFlag::EventClockRealtime => "EventClockRealtime"@,
            GpioLineFlag::EventClockHte => "EventClockHte"@,
        }
    }

    /// The name of the flag: that of its variant.
    pub fn name(self) -> (name: &'static str)
        ensures
            name@ == self.spec_name(),
    {
        match self {
            GpioLineFlag::Used => "Used",
            GpioLineFlag::ActiveLow => "ActiveLow",
            GpioLineFlag::Input => "Input",
            GpioLineFlag::Output => "Output",
            GpioLineFlag::EdgeRising => "EdgeRising",
            GpioLineFlag::EdgeFalling => "EdgeFalling",
            GpioLineFlag::OpenDrain => "OpenDrain",
            GpioLineFlag::OpenSource => "OpenSource",
            GpioLineFlag::BiasPullUp => "BiasPullUp",
            GpioLineFlag::BiasPullDown => "BiasPullDown",
            GpioLineFlag::BiasDisabled => "BiasDisabled",
            GpioLineFlag::EventClockRealtime => "EventClockRealtime",
            GpioLineFlag::EventClockHte => "EventClockHte",
        }
    }

    /// The flag as text: its name.
    pub fn to_string(&self) -> (text: String)
        ensures
            text@ == self.spec_name(),
    {
        self.name().to_owned()
    }

    /// Return all flags, in the order in which they are declared.
    pub fn all() -> (flags: &'static [Self])
        ensures
            flags@ == all_flags(),
    {
        let flags: &'static [Self] = &[
            Self::Used,
            Self::ActiveLow,
            Self::Input,
            Self::Output,
            Self::EdgeRising,
            Self::EdgeFalling,
            Self::OpenDrain,
            Self::OpenSource,
            Self::BiasPullUp,
            Self::BiasPullDown,
            Self::BiasDisabled,
            Self::EventClockRealtime,
            Self::EventClockHte,
        ];
        assert(flags@ =~= all_flags());
        flags
    }
}

/// Flags associated with a GPIO line: a word of 64 bits, of which each flag names one.
///
/// Bits that no flag names are kept as they are.
#[derive(Clone, Copy, Debug, PartialEq, Eq, Structural)]
pub struct GpioLineFlags(pub u64);

impl View for GpioLineFlags {
    type V = u64;

    open spec fn view(&self) -> u64 {
        self.0
    }
}

impl Default for GpioLineFlags {
    /// No flag.
    fn default() -> (flags: Self)
        ensures
            flags@ == 0,
    {
        GpioLineFlags(0)
    }
}

/// Reinterpret the flags word of a record as a set of flags. No bit is checked or changed.
pub fn decode_flags(raw: u64) -> (flags: GpioLineFlags)
    ensures
        flags@ == raw,
{
    GpioLineFlags(raw)
}

impl BitAnd for GpioLineFlags {
    type Output = Self;

    #[inline(always)]
    fn bitand(self, rhs: Self) -> (out: Self) {
        Self(self.0 & rhs.0)
    }
}

impl BitAndSpecImpl for GpioLineFlags {
    open spec fn obeys_bitand_spec() -> bool {
        true
    }

    open spec fn bitand_req(self, rhs: Self) -> bool {
        true
    }

    open spec fn bitand_spec(self, rhs: Self) -> Self {
        GpioLineFlags(self.0 & rhs.0)
    }
}

impl BitAndAssign for GpioLineFlags {
    #[inline(always)]
    fn bitand_assign(&mut self, rhs: Self)
        ensures
            final(self)@ == old(self)@ & rhs@,
    {
        self.0 = self.0 & rhs.0;
    }
}

impl BitOr for GpioLineFlags {
    type Output = Self;

    #[inline(always)]
    fn bitor(self, rhs: Self) -> (out: Self) {
        Self(self.0 | rhs.0)
    }
}

impl BitOrSpecImpl for GpioLineFlags {
    open spec fn obeys_bitor_spec() -> bool {
        true
    }

    open spec fn bitor_req(self, rhs: Self) -> bool {
        true
    }

    open spec fn bitor_spec(self, rhs: Self) -> Self {
        GpioLineFlags(self.0 | rhs.0)
    }
}

impl BitOrAssign for GpioLineFlags {
    #[inline(always)]
    fn bitor_assign(&mut self, rhs: Self)
        ensures
            final(self)@ == old(self)@ | rhs@,
    {
        self.0 = self.0 | rhs.0;
    }
}

impl BitXor for GpioLineFlags {
    type Output = Self;

    #[inline(always)]
    fn bitxor(self, rhs: Self) -> (out: Self) {
        Self(self.0 ^ rhs.0)
    }
}

impl BitXorSpecImpl for GpioLineFlags {
    open spec fn obeys_bitxor_spec() -> bool {
        true
    }

    open spec fn bitxor_req(self, rhs: Self) -> bool {
        true
    }

    open spec fn bitxor_spec(self, rhs: Self) -> Self {
        GpioLineFlags(self.0 ^ rhs.0)
    }
}

impl BitXorAssign for GpioLineFlags {
    #[inline(always)]
    fn bitxor_assign(&mut self, rhs: Self)
        ensures
            final(self)@ == old(self)@ ^ rhs@,
    {
        self.0 = self.0 ^ rhs.0;
    }
}

impl Not for GpioLineFlags {
    type Output = Self;

    #[inline(always)]
    fn not(self) -> (out: Self) {
        Self(!self.0)
    }
}

impl NotSpecImpl for GpioLineFlags {
    open spec fn obeys_not_spec() -> bool {
        true
    }

    open spec fn not_req(self) -> bool {
        true
    }

    open spec fn not_spec(self) -> Self {
        GpioLineFlags(!self.0)
    }
}

impl From<GpioLineFlag> for GpioLineFlags {
    #[inline(always)]
    fn from(flag: GpioLineFlag) -> (flags: Self) {
        Self(flag.bit())
    }
}

impl FromSpecImpl<GpioLineFlag> for GpioLineFlags {
    open spec fn obeys_from_spec() -> bool {
        true
    }

    open spec fn from_spec(flag: GpioLineFlag) -> Self {
        GpioLineFlags(flag.spec_bit())
    }
}

impl BitAnd for GpioLineFlag {
    type Output = GpioLineFlags;

    #[inline(always)]
    fn bitand(self, rhs: Self) -> (out: GpioLineFlags) {
        GpioLineFlags(self.bit() & rhs.bit())
    }
}

impl BitAndSpecImpl for GpioLineFlag {
    open spec fn obeys_bitand_spec() -> bool {
        true
    }

    open spec fn bitand_req(self, rhs: Self) -> bool {
        true
    }

    open spec fn bitand_spec(self, rhs: Self) -> GpioLineFlags {
        GpioLineFlags(self.spec_bit() & rhs.spec_bit())
    }
}

impl BitOr for GpioLineFlag {
    type Output = GpioLineFlags;

    #[inline(always)]
    fn bitor(self, rhs: Self) -> (out: GpioLineFlags) {
        GpioLineFlags(self.bit() | rhs.bit())
    }
}

impl BitOrSpecImpl for GpioLineFlag {
    open spec fn obeys_bitor_spec() -> bool {
        true
    }

    open spec fn bitor_req(self, rhs: Self) -> bool {
        true
    }

    open spec fn bitor_spec(self, rhs: Self) -> GpioLineFlags {
        GpioLineFlags(self.spec_bit() | rhs.spec_bit())
    }
}

impl BitXor for GpioLineFlag {
    type Output = GpioLineFlags;

    #[inline(always)]
    fn bitxor(self, rhs: Self) -> (out: GpioLineFlags) {
        GpioLineFlags(self.bit() ^ rhs.bit())
    }
}

impl BitXorSpecImpl for GpioLineFlag {
    open spec fn obeys_bitxor_spec() -> bool {
        true
    }

    open spec fn bitxor_req(self, rhs: Self) -> bool {
        true
    }

    open spec fn bitxor_spec(self, rhs: Self) -> GpioLineFlags {
        GpioLineFlags(self.spec_bit() ^ rhs.spec_bit())
    }
}

impl Not for GpioLineFlag {
    type Output = GpioLineFlags;

    #[inline(always)]
    fn not(self) -> (out: GpioLineFlags) {
        GpioLineFlags(!self.bit())
    }
}

impl NotSpecImpl for GpioLineFlag {
    open spec fn obeys_not_spec() -> bool {
        true
    }

    open spec fn not_req(self) -> bool {
        true
    }

    open spec fn not_spec(self) -> GpioLineFlags {
        GpioLineFlags(!self.spec_bit())
    }
}

/// The names of those of the first `n` flags, in the order of declaration, that have their
/// bit set in `bits`.
pub open spec fn set_flag_names(bits: u64, n: nat) -> Seq<Seq<char>>
    decreases n,
{
    if n == 0 || n > all_flags().len() {
        Seq::empty()
    } else {
        let before = set_flag_names(bits, (n - 1) as nat);
        let flag = all_flags()[n - 1];
        if bits & flag.spec_bit() != 0 {
            before.push(flag.spec_name())
        } else {
            before
        }
    }
}

/// The parts one after the other, with the separator between each two of them.
pub open spec fn join(parts: Seq<Seq<char>>, separator: Seq<char>) -> Seq<char>
    decreases parts.len(),
{
    if parts.len() == 0 {
        Seq::empty()
    } else if parts.len() == 1 {
        parts[0]
    } else {
        join(parts.drop_last(), separator) + separator + parts.last()
    }
}

/// The text of a flags word: `None` for the word without any bit, else the names of the
/// flags whose bit is set, in the order of declaration, joined by ` | `. A bit that no flag
/// names adds nothing to the text.
pub open spec fn flags_text(bits: u64) -> Seq<char> {
    if bits == 0 {
        "None"@
    } else {
        join(set_flag_names(bits, all_flags().len()), " | "@)
    }
}

impl GpioLineFlags {
    /// The flags as a word.
    pub fn bits(&self) -> (bits: u64)
        ensures
            bits == self@,
    {
        self.0
    }

    /// The bit of `flag` is set.
    pub open spec fn spec_contains(&self, flag: GpioLineFlag) -> bool {
        self.0 & flag.spec_bit() != 0
    }

    /// Tell whether the bit of `flag` is set.
    #[verifier::when_used_as_spec(spec_contains)]
    pub fn contains(&self, flag: GpioLineFlag) -> (set: bool)
        ensures
            set == self.spec_contains(flag),
    {
        self.0 & flag.bit() != 0
    }

    /// The flags as text: `None` if no bit is set, else the names of the flags that are set,
    /// in the order in which the flags are declared, joined by ` | `.
    pub fn to_string(&self) -> (text: String)
        ensures
            text@ == flags_text(self@),
    {
        if self.0 == 0 {
            return "None".to_owned();
        }
        let all = GpioLineFlag::all();
        let mut text = String::new();
        let mut first = true;
        let mut i: usize = 0;
        while i < all.len()
            invariant
                i <= all@.len(),
                all@ == all_flags(),
                first <==> set_flag_names(self.0, i as nat).len() == 0,
                text@ == join(set_flag_names(self.0, i as nat), " | "@),
            decreases all@.len() - i,
        {
            let flag = all[i];
            let ghost before = set_flag_names(self.0, i as nat);
            if self.0 & flag.bit() != 0 {
                if !first {
                    text.append(" | ");
                }
                text.append(flag.name());
                first = false;
                proof {
                    let now = before.push(flag.spec_name());
                    assert(now.drop_last() =~= before);
                    assert(now.last() == flag.spec_name());
                    assert(text@ =~= join(now, " | "@));
                }
            }
            i += 1;
        }
        text
    }
}

/// The bit of each flag, by its place in the order of declaration.
proof fn lemma_bits_by_position()
    by (bit_vector)
    ensures
        1u64 << 0u64 == 0x1,
        1u64 << 1u64 == 0x2,
        1u64 << 2u64 == 0x4,
        1u64 << 3u64 == 0x8,
        1u64 << 4u64 == 0x10,
        1u64 << 5u64 == 0x20,
        1u64 << 6u64 == 0x40,
        1u64 << 7u64 == 0x80,
        1u64 << 8u64 == 0x100,
        1u64 << 9u64 == 0x200,
        1u64 << 10u64 == 0x400,
        1u64 << 11u64 == 0x800,
        1u64 << 12u64 == 0x1000,
{
}

/// How the bit at one place of a word follows from the words that it is made of.
proof fn lemma_one_bit(a: u64, b: u64, p: u64, q: u64)
    by (bit_vector)
    requires
        p < 64,
        q < 64,
    ensures
        ((a & b) & (1u64 << p) != 0) <==> (a & (1u64 << p) != 0) && (b & (1u64 << p) != 0),
        ((a | b) & (1u64 << p) != 0) <==> (a & (1u64 << p) != 0) || (b & (1u64 << p) != 0),
        ((a ^ b) & (1u64 << p) != 0) <==> ((a & (1u64 << p) != 0) != (b & (1u64 << p) != 0)),
        ((!a) & (1u64 << p) != 0) <==> !(a & (1u64 << p) != 0),
        ((1u64 << q) & (1u64 << p) != 0) <==> p == q,
{
}

/// The flags are declared in the order of their bits: the flag at place `i` of
/// [`all_flags`] has bit `i`, each flag stands at its own place, and so no flag is missing
/// and none occurs twice.
pub proof fn lemma_all_flags(flag: GpioLineFlag)
    ensures
        all_flags().len() == 13,
        flag.position() < all_flags().len(),
        all_flags()[flag.position() as int] == flag,
        flag.spec_bit() == 1u64 << (flag.position() as u64),
        forall|i: int|
            0 <= i < all_flags().len() ==> (#[trigger] all_flags()[i]).position() == i,
{
    lemma_bits_by_position();
}

/// The flags word is a set of flags, and `&`, `|`, `^` and `!` are its intersection, union,
/// symmetric difference and complement: a flag is in the result by whether it is in the
/// operands.
pub proof fn lemma_set_algebra(a: GpioLineFlags, b: GpioLineFlags, flag: GpioLineFlag)
    ensures
        GpioLineFlags(a@ & b@).spec_contains(flag) <==> a.spec_contains(flag) && b.spec_contains(
            flag,
        ),
        GpioLineFlags(a@ | b@).spec_contains(flag) <==> a.spec_contains(flag) || b.spec_contains(
            flag,
        ),
        GpioLineFlags(a@ ^ b@).spec_contains(flag) <==> (a.spec_contains(flag)
            != b.spec_contains(flag)),
        GpioLineFlags(!a@).spec_contains(flag) <==> !a.spec_contains(flag),
{
    lemma_all_flags(flag);
    lemma_one_bit(a.0, b.0, flag.position() as u64, 0);
}

/// The set made of one flag holds that flag and no other.
pub proof fn lemma_single_flag(flag: GpioLineFlag, other: GpioLineFlag)
    ensures
        GpioLineFlags(flag.spec_bit()).spec_contains(other) <==> flag == other,
{
    lemma_all_flags(flag);
    lemma_all_flags(other);
    lemma_one_bit(0, 0, other.position() as u64, flag.position() as u64);
}

} // verus!
