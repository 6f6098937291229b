use vstd::prelude::*;

verus! {

/// Options for modifying how a signal connection behaves.
///
/// Each option is an independent toggle; options are only ever added, never removed.
#[derive(Debug, Clone, Copy, PartialEq, Eq, Structural, Hash)]
pub struct ConnectFlags {
    /// Deferred connections trigger their callables on idle time, rather than instantly.
    deferred: bool,
    /// Persisting connections are stored when the object is serialized.
    persist: bool,
    /// One-shot connections disconnect themselves after emission.
    one_shot: bool,
    /// Reference-counted connections can be made to the same callable several times; the
    /// connection is fully removed only once every one of them has been disconnected.
    ref_counted: bool,
}

/// The options that a `ConnectFlags` value sets: its view.
pub struct FlagSet {
    pub deferred: bool,
    pub persist: bool,
    pub one_shot: bool,
    pub ref_counted: bool,
}

impl View for ConnectFlags {
    type V = FlagSet;

    closed spec fn view(&self) -> FlagSet {
        FlagSet {
            deferred: self.deferred,
            persist: self.persist,
            one_shot: self.one_shot,
            ref_counted: self.ref_counted,
        }
    }
}

/// The value of one flag as a binary digit.
pub open spec fn flag_digit(set: bool) -> int {
    if set {
        1
    } else {
        0
    }
}

/// The integer encoding of a set of flags: bit 0 deferred, bit 1 persist, bit 2 one-shot,
/// bit 3 reference-counted.
pub open spec fn flags_bits(f: FlagSet) -> int {
    flag_digit(f.deferred) + 2 * flag_digit(f.persist) + 4 * flag_digit(f.one_shot) + 8
        * flag_digit(f.ref_counted)
}

/// The flags that are set in either `a` or `b`.
pub open spec fn flags_union(a: FlagSet, b: FlagSet) -> FlagSet {
    FlagSet {
        deferred: a.deferred || b.deferred,
        persist: a.persist || b.persist,
        one_shot: a.one_shot || b.one_shot,
        ref_counted: a.ref_counted || b.ref_counted,
    }
}

impl ConnectFlags {
    /// Deferred connection, nothing else set.
    #[allow(non_snake_case)]
    pub fn DEFERRED() -> (r: ConnectFlags)
        ensures
            r@ == (FlagSet { deferred: true, persist: false, one_shot: false, ref_counted: false }),
    {
        ConnectFlags { deferred: true, persist: false, one_shot: false, ref_counted: false }
    }

    /// Persisting connection, nothing else set.
    #[allow(non_snake_case)]
    pub fn PERSIST() -> (r: ConnectFlags)
        ensures
            r@ == (FlagSet { deferred: false, persist: true, one_shot: false, ref_counted: false }),
    {
        ConnectFlags { deferred: false, persist: true, one_shot: false, ref_counted: false }
    }

    /// One-shot connection, nothing else set.
    #[allow(non_snake_case)]
    pub fn ONE_SHOT() -> (r: ConnectFlags)
        ensures
            r@ == (FlagSet { deferred: false, persist: false, one_shot: true, ref_counted: false }),
    {
        ConnectFlags { deferred: false, persist: false, one_shot: true, ref_counted: false }
    }

    /// Reference-counted connection, nothing else set.
    #[allow(non_snake_case)]
    pub fn REF_COUNTED() -> (r: ConnectFlags)
        ensures
            r@ == (FlagSet { deferred: false, persist: false, one_shot: false, ref_counted: true }),
    {
        ConnectFlags { deferred: false, persist: false, one_shot: false, ref_counted: true }
    }

    /// Create connect flags with the given settings.
    pub fn new(deferred: bool, persist: bool, one_shot: bool, ref_counted: bool) -> (r: Self)
        ensures
            r@ == (FlagSet { deferred: deferred, persist: persist, one_shot: one_shot, ref_counted: ref_counted }),
    {
        ConnectFlags { deferred, persist, one_shot, ref_counted }
    }

    /// Combine two sets of connect flags: every option set in either is set in the result.
    pub fn and(self, other: Self) -> (r: Self)
        ensures
            r@ == flags_union(self@, other@),
    {
        ConnectFlags {
            deferred: self.deferred || other.deferred,
            persist: self.persist || other.persist,
            one_shot: self.one_shot || other.one_shot,
            ref_counted: self.ref_counted || other.ref_counted,
        }
    }

    /// The integer bitmask that the host receives for these flags.
    pub fn bits(self) -> (r: i64)
        ensures
            r == flags_bits(self@),
    {
        let d: i64 = if self.deferred { 1 } else { 0 };
        let p: i64 = if self.persist { 1 } else { 0 };
        let o: i64 = if self.one_shot { 1 } else { 0 };
        let c: i64 = if self.ref_counted { 1 } else { 0 };
        let r: i64 = d | p << 1u32 | o << 2u32 | c << 3u32;
        assert(r == d + 2 * p + 4 * o + 8 * c) by (bit_vector)
            requires
                r == d | p << 1u32 | o << 2u32 | c << 3u32,
                0 <= d <= 1,
                0 <= p <= 1,
                0 <= o <= 1,
                0 <= c <= 1,
        ;
        r
    }
}

impl Default for ConnectFlags {
    /// No option set: an immediate, non-persisting, repeating, single connection.
    fn default() -> (r: Self)
        ensures
            r@ == (FlagSet { deferred: false, persist: false, one_shot: false, ref_counted: false }),
    {
        ConnectFlags { deferred: false, persist: false, one_shot: false, ref_counted: false }
    }
}

impl From<ConnectFlags> for i64 {
    fn from(flags: ConnectFlags) -> (r: i64)
        ensures
            r == flags_bits(flags@),
    {
        flags.bits()
    }
}

impl vstd::std_specs::convert::FromSpecImpl<ConnectFlags> for i64 {
    open spec fn obeys_from_spec() -> bool {
        true
    }

    open spec fn from_spec(flags: ConnectFlags) -> i64 {
        flags_bits(flags@) as i64
    }
}

/// Combining flags does not depend on the order of the two operands.
pub proof fn lemma_and_commutative(a: FlagSet, b: FlagSet)
    ensures
        flags_union(a, b) == flags_union(b, a),
{
}

/// Combining a set of flags with itself gives the same set.
pub proof fn lemma_and_idempotent(f: FlagSet)
    ensures
        flags_union(f, f) == f,
{
}

/// Combining three sets of flags does not depend on how the combinations are grouped.
pub proof fn lemma_and_associative(a: FlagSet, b: FlagSet, c: FlagSet)
    ensures
        flags_union(flags_union(a, b), c) == flags_union(a, flags_union(b, c)),
{
}

/// Every encoding lies in `0..16`.
pub proof fn lemma_bits_range(f: FlagSet)
    ensures
        0 <= flags_bits(f) < 16,
{
}

/// The encoding of combined flags is the bitwise or of the two encodings.
pub proof fn lemma_bits_of_and(a: FlagSet, b: FlagSet)
    ensures
        flags_bits(flags_union(a, b)) == (flags_bits(a) as i64 | flags_bits(b) as i64),
{
    let d1 = flag_digit(a.deferred) as i64;
    let p1 = flag_digit(a.persist) as i64;
    let o1 = flag_digit(a.one_shot) as i64;
    let c1 = flag_digit(a.ref_counted) as i64;
    let d2 = flag_digit(b.deferred) as i64;
    let p2 = flag_digit(b.persist) as i64;
    let o2 = flag_digit(b.one_shot) as i64;
    let c2 = flag_digit(b.ref_counted) as i64;
    assert(((d1 + 2 * p1 + 4 * o1 + 8 * c1) as i64 | (d2 + 2 * p2 + 4 * o2 + 8 * c2) as i64) == ((
    d1 | d2) + 2 * (p1 | p2) + 4 * (o1 | o2) + 8 * (c1 | c2)) as i64) by (bit_vector)
        requires
            0 <= d1 <= 1,
            0 <= p1 <= 1,
            0 <= o1 <= 1,
            0 <= c1 <= 1,
            0 <= d2 <= 1,
            0 <= p2 <= 1,
            0 <= o2 <= 1,
            0 <= c2 <= 1,
    ;
    assert(0i64 | 0i64 == 0i64) by (bit_vector);
    assert(0i64 | 1i64 == 1i64) by (bit_vector);
    assert(1i64 | 0i64 == 1i64) by (bit_vector);
    assert(1i64 | 1i64 == 1i64) by (bit_vector);
}

/// Deferred combined with one-shot sets exactly bits 0 and 2.
pub proof fn lemma_deferred_one_shot_bits()
    ensures
        flags_bits(
            flags_union(
                FlagSet { deferred: true, persist: false, one_shot: false, ref_counted: false },
                FlagSet { deferred: false, persist: false, one_shot: true, ref_counted: false },
            ),
        ) == 5,
{
}

} // verus!
