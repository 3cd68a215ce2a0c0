//! The set of operations that a source is ready for.

use vstd::prelude::*;

verus! {

/// One kind of readiness that a source can report.
#[derive(Clone, Copy, Debug, PartialEq, Eq, Structural, Hash)]
pub enum Readiness {
    /// The source can be read from.
    Readable,
    /// The source can be written to.
    Writable,
    /// The source is in an error state.
    Error,
    /// The other end of the source has hung up.
    Hup,
}

/// The bit that stands for `kind` in an [`EventSet`].
spec fn bit_of(kind: Readiness) -> u8 {
    match kind {
        Readiness::Readable => 0x1,
        Readiness::Writable => 0x2,
        Readiness::Error => 0x4,
        Readiness::Hup => 0x8,
    }
}

/// The bit that stands for `kind`, computed.
fn bit(kind: Readiness) -> (bit: u8)
    ensures
        bit == bit_of(kind),
{
    match kind {
        Readiness::Readable => 0x1,
        Readiness::Writable => 0x2,
        Readiness::Error => 0x4,
        Readiness::Hup => 0x8,
    }
}

/// Which operations a source is ready for, as one value.
///
/// The loop reports everything that became ready on a source in a single
/// set, however many kinds that is. The set is a bit field; its view is the
/// mathematical set of the kinds whose bit is on. No other bit is ever on.
#[derive(Clone, Copy, Debug, PartialEq, Eq, Structural, Hash)]
pub struct EventSet {
    bits: u8,
}

impl View for EventSet {
    type V = Set<Readiness>;

    closed spec fn view(&self) -> Set<Readiness> {
        Set::new(|kind: Readiness| self.bits & bit_of(kind) != 0)
    }
}

impl EventSet {
    #[verifier::type_invariant]
    spec fn only_known_bits(self) -> bool {
        self.bits < 0x10
    }

    /// The set with no member.
    pub fn none() -> (set: EventSet)
        ensures
            set@ == Set::<Readiness>::empty(),
    {
        let set = EventSet { bits: 0 };
        proof {
            assert forall|kind: Readiness| !set@.contains(kind) by {
                assert(0u8 & bit_of(kind) == 0) by (bit_vector);
            }
            assert(set@ =~= Set::<Readiness>::empty());
        }
        set
    }

    /// The set whose one member is `kind`.
    fn of(kind: Readiness) -> (set: EventSet)
        ensures
            set@ == set![kind],
    {
        let set = EventSet { bits: bit(kind) };
        proof {
            assert forall|other: Readiness| set@.contains(other) == (other == kind) by {
                lemma_bits_apart(kind, other);
            }
            assert(set@ =~= set![kind]);
        }
        set
    }

    /// The set whose one member is [`Readiness::Readable`].
    pub fn readable() -> (set: EventSet)
        ensures
            set@ == set![Readiness::Readable],
    {
        EventSet::of(Readiness::Readable)
    }

    /// The set whose one member is [`Readiness::Writable`].
    pub fn writable() -> (set: EventSet)
        ensures
            set@ == set![Readiness::Writable],
    {
        EventSet::of(Readiness::Writable)
    }

    /// The set whose one member is [`Readiness::Error`].
    pub fn error() -> (set: EventSet)
        ensures
            set@ == set![Readiness::Error],
    {
        EventSet::of(Readiness::Error)
    }

    /// The set whose one member is [`Readiness::Hup`].
    pub fn hup() -> (set: EventSet)
        ensures
            set@ == set![Readiness::Hup],
    {
        EventSet::of(Readiness::Hup)
    }

    /// Whether `kind` is a member.
    fn has(&self, kind: Readiness) -> (found: bool)
        ensures
            found == self@.contains(kind),
    {
        self.bits & bit(kind) != 0
    }

    /// Whether the source can be read from.
    pub fn is_readable(&self) -> (found: bool)
        ensures
            found == self@.contains(Readiness::Readable),
    {
        self.has(Readiness::Readable)
    }

    /// Whether the source can be written to.
    pub fn is_writable(&self) -> (found: bool)
        ensures
            found == self@.contains(Readiness::Writable),
    {
        self.has(Readiness::Writable)
    }

    /// Whether the source is in an error state.
    pub fn is_error(&self) -> (found: bool)
        ensures
            found == self@.contains(Readiness::Error),
    {
        self.has(Readiness::Error)
    }

    /// Whether the other end of the source has hung up.
    pub fn is_hup(&self) -> (found: bool)
        ensures
            found == self@.contains(Readiness::Hup),
    {
        self.has(Readiness::Hup)
    }

    /// Whether the set has no member.
    pub fn is_none(&self) -> (empty: bool)
        ensures
            empty == (self@ == Set::<Readiness>::empty()),
    {
        proof {
            use_type_invariant(self);
            let bits = self.bits;
            if bits == 0 {
                assert forall|kind: Readiness| !self@.contains(kind) by {
                    assert(0u8 & bit_of(kind) == 0) by (bit_vector);
                }
                assert(self@ =~= Set::<Readiness>::empty());
            } else {
                assert(bits & 0x1 != 0 || bits & 0x2 != 0 || bits & 0x4 != 0 || bits & 0x8 != 0)
                    by (bit_vector)
                    requires
                        bits != 0,
                        bits < 0x10,
                ;
                assert(self@.contains(Readiness::Readable) || self@.contains(Readiness::Writable)
                    || self@.contains(Readiness::Error) || self@.contains(Readiness::Hup));
            }
        }
        self.bits == 0
    }

    /// The set of what is in `self`, in `other`, or in both.
    pub fn union(self, other: EventSet) -> (both: EventSet)
        ensures
            both@ == self@.union(other@),
    {
        proof {
            use_type_invariant(self);
            use_type_invariant(other);
        }
        let a = self.bits;
        let b = other.bits;
        assert((a | b) < 0x10) by (bit_vector)
            requires
                a < 0x10,
                b < 0x10,
        ;
        let both = EventSet { bits: a | b };
        proof {
            assert forall|kind: Readiness|
                both@.contains(kind) == (self@.contains(kind) || other@.contains(kind)) by {
                let m = bit_of(kind);
                assert(((a | b) & m != 0) == (a & m != 0 || b & m != 0)) by (bit_vector);
            }
            assert(both@ =~= self@.union(other@));
        }
        both
    }

    /// Whether every member of `other` is a member of `self`.
    pub fn contains(&self, other: EventSet) -> (all: bool)
        ensures
            all == other@.subset_of(self@),
    {
        proof {
            use_type_invariant(other);
        }
        let a = self.bits;
        let b = other.bits;
        proof {
            if a & b == b {
                assert forall|kind: Readiness| other@.contains(kind) implies self@.contains(
                    kind,
                ) by {
                    let m = bit_of(kind);
                    assert(b & m != 0 ==> a & m != 0) by (bit_vector)
                        requires
                            a & b == b,
                    ;
                }
            } else {
                assert((b & 0x1 != 0 && a & 0x1 == 0) || (b & 0x2 != 0 && a & 0x2 == 0) || (b & 0x4
                    != 0 && a & 0x4 == 0) || (b & 0x8 != 0 && a & 0x8 == 0)) by (bit_vector)
                    requires
                        a & b != b,
                        b < 0x10,
                ;
                assert((other@.contains(Readiness::Readable) && !self@.contains(Readiness::Readable))
                    || (other@.contains(Readiness::Writable) && !self@.contains(Readiness::Writable))
                    || (other@.contains(Readiness::Error) && !self@.contains(Readiness::Error))
                    || (other@.contains(Readiness::Hup) && !self@.contains(Readiness::Hup)));
            }
        }
        a & b == b
    }
}

/// The bits of two kinds overlap only where the kinds are the same.
proof fn lemma_bits_apart(kind: Readiness, other: Readiness)
    ensures
        (bit_of(kind) & bit_of(other) != 0) == (other == kind),
{
    assert(0x1u8 & 0x1 != 0 && 0x1u8 & 0x2 == 0 && 0x1u8 & 0x4 == 0 && 0x1u8 & 0x8 == 0)
        by (bit_vector);
    assert(0x2u8 & 0x1 == 0 && 0x2u8 & 0x2 != 0 && 0x2u8 & 0x4 == 0 && 0x2u8 & 0x8 == 0)
        by (bit_vector);
    assert(0x4u8 & 0x1 == 0 && 0x4u8 & 0x2 == 0 && 0x4u8 & 0x4 != 0 && 0x4u8 & 0x8 == 0)
        by (bit_vector);
    assert(0x8u8 & 0x1 == 0 && 0x8u8 & 0x2 == 0 && 0x8u8 & 0x4 == 0 && 0x8u8 & 0x8 != 0)
        by (bit_vector);
}

} // verus!
