//! The flag sets of a record query: what a caller may ask for, and what a
//! reply may carry.
//!
//! A set is a byte in which each declared flag owns one bit.  Its view is the
//! mathematical set of its members; every contract below speaks of that view.
//! Flags and sets combine with `|`, and `&` tests a flag or intersects two
//! sets.
use vstd::prelude::*;
use crate::bits::{lemma_intersection_bit, lemma_union_bit};
use crate::native::{FLAGS_ADD, FLAGS_LONG_LIVED_QUERY, FLAGS_MORE_COMING};

verus! {

/// Flags that come with the result of a record query.
#[derive(Clone, Copy, PartialEq, Eq, Structural, PartialOrd, Ord, Hash, Debug)]
pub enum QueriedRecordFlag {
    /// At least one more result is queued right behind this one.  When it is
    /// not set, more results may still come later.
    MoreComing,
    /// The result is new.  When it is not set, the result was removed.
    Add,
}

impl QueriedRecordFlag {
    /// The bit that stands for this flag inside a [`QueriedRecordFlags`].
    pub open spec fn mask(self) -> u8 {
        match self {
            QueriedRecordFlag::MoreComing => 1,
            QueriedRecordFlag::Add => 2,
        }
    }

    /// The bit that stands for this flag in a native flag word.
    pub open spec fn native_bit(self) -> u32 {
        match self {
            QueriedRecordFlag::MoreComing => FLAGS_MORE_COMING,
            QueriedRecordFlag::Add => FLAGS_ADD,
        }
    }

    fn bit(self) -> (m: u8)
        ensures
            m == self.mask(),
    {
        match self {
            QueriedRecordFlag::MoreComing => 1,
            QueriedRecordFlag::Add => 2,
        }
    }
}

/// Set of [`QueriedRecordFlag`]s.
#[derive(Clone, Copy, PartialEq, Eq, Structural, PartialOrd, Ord, Hash, Debug)]
pub struct QueriedRecordFlags(u8);

impl View for QueriedRecordFlags {
    type V = Set<QueriedRecordFlag>;

    /// The flags that are members of the set.
    closed spec fn view(&self) -> Set<QueriedRecordFlag> {
        Set::new(|f: QueriedRecordFlag| self.0 & f.mask() != 0)
    }
}

impl QueriedRecordFlags {
    /// Only bits of declared flags are ever set.
    #[verifier::type_invariant]
    spec fn only_declared_bits(self) -> bool {
        self.0 & !3u8 == 0
    }

    /// The native bits of all declared flags.
    pub open spec fn known_mask() -> u32 {
        FLAGS_MORE_COMING | FLAGS_ADD
    }

    /// The flags whose native bit is set in `bits`; its other bits count for
    /// nothing.
    pub open spec fn decoded(bits: u32) -> Set<QueriedRecordFlag> {
        Set::new(|f: QueriedRecordFlag| bits & f.native_bit() != 0)
    }

    /// The native flag word that has exactly the bits of the members of
    /// `flags`.
    pub open spec fn encoded(flags: Set<QueriedRecordFlag>) -> u32 {
        (if flags.contains(QueriedRecordFlag::MoreComing) { FLAGS_MORE_COMING } else { 0 })
            | (if flags.contains(QueriedRecordFlag::Add) { FLAGS_ADD } else { 0 })
    }

    /// The set without any member.
    pub fn empty() -> (r: Self)
        ensures
            r@ == Set::<QueriedRecordFlag>::empty(),
    {
        assert(0u8 & !3u8 == 0) by (bit_vector);
        let r = QueriedRecordFlags(0);
        assert forall|f: QueriedRecordFlag| !r@.contains(f) by {
            let m = f.mask();
            assert(0u8 & m == 0) by (bit_vector);
        }
        assert(r@ =~= Set::<QueriedRecordFlag>::empty());
        r
    }

    /// Whether `flag` is a member of the set.
    pub fn contains(self, flag: QueriedRecordFlag) -> (r: bool)
        ensures
            r == self@.contains(flag),
    {
        self.0 & flag.bit() != 0
    }

    /// Whether the two sets have the same members.
    pub fn same_as(self, other: Self) -> (r: bool)
        ensures
            r == (self@ == other@),
    {
        proof {
            use_type_invariant(&self);
            use_type_invariant(&other);
        }
        let a: u8 = self.0;
        let b: u8 = other.0;
        proof {
            if a == b {
                assert(self@ =~= other@);
            }
            if self@ == other@ {
                assert(self@.contains(QueriedRecordFlag::MoreComing) == other@.contains(
                    QueriedRecordFlag::MoreComing,
                ));
                assert(self@.contains(QueriedRecordFlag::Add) == other@.contains(
                    QueriedRecordFlag::Add,
                ));
                assert(a == b) by (bit_vector)
                    requires
                        a & !3u8 == 0,
                        b & !3u8 == 0,
                        (a & 1 != 0) == (b & 1 != 0),
                        (a & 2 != 0) == (b & 2 != 0),
                ;
            }
        }
        a == b
    }

    /// The set of the flags that are in `self`, in `other`, or in both.
    pub fn union(self, other: Self) -> (r: Self)
        ensures
            r@ == self@.union(other@),
    {
        self | other
    }

    /// The set of the flags that are in both `self` and `other`.
    pub fn intersection(self, other: Self) -> (r: Self)
        ensures
            r@ == self@.intersect(other@),
    {
        self & other
    }

    /// Decodes a native flag word.  Bits that belong to no declared flag are
    /// dropped.
    pub fn from_native(bits: u32) -> (r: Self)
        ensures
            r@ == Self::decoded(bits),
    {
        let more: u8 = if bits & FLAGS_MORE_COMING != 0 { 1 } else { 0 };
        let add: u8 = if bits & FLAGS_ADD != 0 { 2 } else { 0 };
        assert((more | add) & !3u8 == 0 && ((more | add) & 1 != 0) == (more == 1) && ((more | add)
            & 2 != 0) == (add == 2)) by (bit_vector)
            requires
                more == 0 || more == 1,
                add == 0 || add == 2,
        ;
        let r = QueriedRecordFlags(more | add);
        assert forall|f: QueriedRecordFlag| r@.contains(f) == Self::decoded(bits).contains(f) by {
            match f {
                QueriedRecordFlag::MoreComing => {},
                QueriedRecordFlag::Add => {},
            }
        }
        assert(r@ =~= Self::decoded(bits));
        r
    }

    /// Encodes the set as a native flag word.
    pub fn to_native(self) -> (bits: u32)
        ensures
            bits == Self::encoded(self@),
    {
        let more: u32 = if self.contains(QueriedRecordFlag::MoreComing) {
            FLAGS_MORE_COMING
        } else {
            0
        };
        let add: u32 = if self.contains(QueriedRecordFlag::Add) {
            FLAGS_ADD
        } else {
            0
        };
        more | add
    }

    /// Decoding a native flag word and encoding the result again keeps the
    /// bits of the declared flags and clears all others.
    pub proof fn lemma_decode_then_encode(bits: u32)
        ensures
            Self::encoded(Self::decoded(bits)) == bits & Self::known_mask(),
    {
        assert(((if bits & 1u32 != 0 { 1u32 } else { 0u32 }) | (if bits & 2u32 != 0 { 2u32 } else {
            0u32
        })) == bits & (1u32 | 2u32)) by (bit_vector);
    }

    /// Encoding a set of flags and decoding the word gives the set back.
    pub proof fn lemma_encode_then_decode(flags: Set<QueriedRecordFlag>)
        ensures
            Self::decoded(Self::encoded(flags)) == flags,
    {
        let more: u32 = if flags.contains(QueriedRecordFlag::MoreComing) { 1u32 } else { 0u32 };
        let add: u32 = if flags.contains(QueriedRecordFlag::Add) { 2u32 } else { 0u32 };
        assert((((more | add) & 1u32 != 0) == (more == 1)) && (((more | add) & 2u32 != 0) == (add
            == 2))) by (bit_vector)
            requires
                more == 0 || more == 1,
                add == 0 || add == 2,
        ;
        assert forall|f: QueriedRecordFlag|
            Self::decoded(Self::encoded(flags)).contains(f) == flags.contains(f) by {
            match f {
                QueriedRecordFlag::MoreComing => {},
                QueriedRecordFlag::Add => {},
            }
        }
        assert(Self::decoded(Self::encoded(flags)) =~= flags);
    }
}

impl Default for QueriedRecordFlags {
    fn default() -> (r: Self)
        ensures
            r@ == Set::<QueriedRecordFlag>::empty(),
    {
        QueriedRecordFlags::empty()
    }
}

impl From<QueriedRecordFlag> for QueriedRecordFlags {
    fn from(flag: QueriedRecordFlag) -> (r: Self)
        ensures
            r@ == set![flag],
    {
        let m: u8 = flag.bit();
        assert(m & !3u8 == 0) by (bit_vector)
            requires
                m == 1 || m == 2,
        ;
        let r = QueriedRecordFlags(m);
        assert forall|f: QueriedRecordFlag| r@.contains(f) == (f == flag) by {
            let n = f.mask();
            assert((m & n != 0) == (m == n)) by (bit_vector)
                requires
                    m == 1 || m == 2,
                    n == 1 || n == 2,
            ;
        }
        assert(r@ =~= set![flag]);
        r
    }
}

impl vstd::std_specs::convert::FromSpecImpl<QueriedRecordFlag> for QueriedRecordFlags {
    open spec fn obeys_from_spec() -> bool {
        true
    }

    closed spec fn from_spec(flag: QueriedRecordFlag) -> Self {
        QueriedRecordFlags(flag.mask())
    }
}

impl core::ops::BitOr for QueriedRecordFlags {
    type Output = QueriedRecordFlags;

    fn bitor(self, rhs: QueriedRecordFlags) -> (r: QueriedRecordFlags)
        ensures
            r@ == self@.union(rhs@),
    {
        proof {
            use_type_invariant(&self);
            use_type_invariant(&rhs);
        }
        let a: u8 = self.0;
        let b: u8 = rhs.0;
        assert((a | b) & !3u8 == 0) by (bit_vector)
            requires
                a & !3u8 == 0,
                b & !3u8 == 0,
        ;
        let r = QueriedRecordFlags(a | b);
        assert forall|f: QueriedRecordFlag|
            r@.contains(f) == (self@.contains(f) || rhs@.contains(f)) by {
            lemma_union_bit(a, b, f.mask());
        }
        assert(r@ =~= self@.union(rhs@));
        r
    }
}

impl vstd::std_specs::ops::BitOrSpecImpl for QueriedRecordFlags {
    open spec fn obeys_bitor_spec() -> bool {
        true
    }

    open spec fn bitor_req(self, rhs: QueriedRecordFlags) -> bool {
        true
    }

    closed spec fn bitor_spec(self, rhs: QueriedRecordFlags) -> QueriedRecordFlags {
        QueriedRecordFlags(self.0 | rhs.0)
    }
}

impl core::ops::BitOr<QueriedRecordFlag> for QueriedRecordFlags {
    type Output = QueriedRecordFlags;

    fn bitor(self, rhs: QueriedRecordFlag) -> (r: QueriedRecordFlags)
        ensures
            r@ == self@.insert(rhs),
    {
        let single = QueriedRecordFlags::from(rhs);
        let r = self | single;
        assert(r@ =~= self@.insert(rhs));
        r
    }
}

impl vstd::std_specs::ops::BitOrSpecImpl<QueriedRecordFlag> for QueriedRecordFlags {
    open spec fn obeys_bitor_spec() -> bool {
        true
    }

    open spec fn bitor_req(self, rhs: QueriedRecordFlag) -> bool {
        true
    }

    closed spec fn bitor_spec(self, rhs: QueriedRecordFlag) -> QueriedRecordFlags {
        QueriedRecordFlags(self.0 | rhs.mask())
    }
}

impl core::ops::BitOr for QueriedRecordFlag {
    type Output = QueriedRecordFlags;

    fn bitor(self, rhs: QueriedRecordFlag) -> (r: QueriedRecordFlags)
        ensures
            r@ == set![self, rhs],
    {
        let r = QueriedRecordFlags::from(self) | QueriedRecordFlags::from(rhs);
        assert(r@ =~= set![self, rhs]);
        r
    }
}

impl vstd::std_specs::ops::BitOrSpecImpl for QueriedRecordFlag {
    open spec fn obeys_bitor_spec() -> bool {
        true
    }

    open spec fn bitor_req(self, rhs: QueriedRecordFlag) -> bool {
        true
    }

    closed spec fn bitor_spec(self, rhs: QueriedRecordFlag) -> QueriedRecordFlags {
        QueriedRecordFlags(self.mask() | rhs.mask())
    }
}

impl core::ops::BitAnd<QueriedRecordFlag> for QueriedRecordFlags {
    type Output = bool;

    fn bitand(self, rhs: QueriedRecordFlag) -> (r: bool) {
        self.contains(rhs)
    }
}

impl vstd::std_specs::ops::BitAndSpecImpl<QueriedRecordFlag> for QueriedRecordFlags {
    open spec fn obeys_bitand_spec() -> bool {
        true
    }

    open spec fn bitand_req(self, rhs: QueriedRecordFlag) -> bool {
        true
    }

    open spec fn bitand_spec(self, rhs: QueriedRecordFlag) -> bool {
        self@.contains(rhs)
    }
}

impl core::ops::BitAnd for QueriedRecordFlags {
    type Output = QueriedRecordFlags;

    fn bitand(self, rhs: QueriedRecordFlags) -> (r: QueriedRecordFlags)
        ensures
            r@ == self@.intersect(rhs@),
    {
        proof {
            use_type_invariant(&self);
        }
        let a: u8 = self.0;
        let b: u8 = rhs.0;
        assert((a & b) & !3u8 == 0) by (bit_vector)
            requires
                a & !3u8 == 0,
        ;
        let r = QueriedRecordFlags(a & b);
        assert forall|f: QueriedRecordFlag|
            r@.contains(f) == (self@.contains(f) && rhs@.contains(f)) by {
            lemma_intersection_bit(a, b, f.mask());
        }
        assert(r@ =~= self@.intersect(rhs@));
        r
    }
}

impl vstd::std_specs::ops::BitAndSpecImpl for QueriedRecordFlags {
    open spec fn obeys_bitand_spec() -> bool {
        true
    }

    open spec fn bitand_req(self, rhs: QueriedRecordFlags) -> bool {
        true
    }

    closed spec fn bitand_spec(self, rhs: QueriedRecordFlags) -> QueriedRecordFlags {
        QueriedRecordFlags(self.0 & rhs.0)
    }
}

/// Flags used to query for a record.
#[derive(Clone, Copy, PartialEq, Eq, Structural, PartialOrd, Ord, Hash, Debug)]
pub enum QueryRecordFlag {
    /// Long-lived unicast query.
    LongLivedQuery,
}

impl QueryRecordFlag {
    /// The bit that stands for this flag inside a [`QueryRecordFlags`].
    pub open spec fn mask(self) -> u8 {
        match self {
            QueryRecordFlag::LongLivedQuery => 1,
        }
    }

    /// The bit that stands for this flag in a native flag word.
    pub open spec fn native_bit(self) -> u32 {
        match self {
            QueryRecordFlag::LongLivedQuery => FLAGS_LONG_LIVED_QUERY,
        }
    }

    fn bit(self) -> (m: u8)
        ensures
            m == self.mask(),
    {
        match self {
            QueryRecordFlag::LongLivedQuery => 1,
        }
    }
}

/// Set of [`QueryRecordFlag`]s.
#[derive(Clone, Copy, PartialEq, Eq, Structural, PartialOrd, Ord, Hash, Debug)]
pub struct QueryRecordFlags(u8);

impl View for QueryRecordFlags {
    type V = Set<QueryRecordFlag>;

    /// The flags that are members of the set.
    closed spec fn view(&self) -> Set<QueryRecordFlag> {
        Set::new(|f: QueryRecordFlag| self.0 & f.mask() != 0)
    }
}

impl QueryRecordFlags {
    /// Only bits of declared flags are ever set.
    #[verifier::type_invariant]
    spec fn only_declared_bits(self) -> bool {
        self.0 & !1u8 == 0
    }

    /// The native bits of all declared flags.
    pub open spec fn known_mask() -> u32 {
        FLAGS_LONG_LIVED_QUERY
    }

    /// The flags whose native bit is set in `bits`; its other bits count for
    /// nothing.
    pub open spec fn decoded(bits: u32) -> Set<QueryRecordFlag> {
        Set::new(|f: QueryRecordFlag| bits & f.native_bit() != 0)
    }

    /// The native flag word that has exactly the bits of the members of
    /// `flags`.
    pub open spec fn encoded(flags: Set<QueryRecordFlag>) -> u32 {
        if flags.contains(QueryRecordFlag::LongLivedQuery) {
            FLAGS_LONG_LIVED_QUERY
        } else {
            0
        }
    }

    /// The set without any member.
    pub fn empty() -> (r: Self)
        ensures
            r@ == Set::<QueryRecordFlag>::empty(),
    {
        assert(0u8 & !1u8 == 0) by (bit_vector);
        let r = QueryRecordFlags(0);
        assert forall|f: QueryRecordFlag| !r@.contains(f) by {
            let m = f.mask();
            assert(0u8 & m == 0) by (bit_vector);
        }
        assert(r@ =~= Set::<QueryRecordFlag>::empty());
        r
    }

    /// Whether `flag` is a member of the set.
    pub fn contains(self, flag: QueryRecordFlag) -> (r: bool)
        ensures
            r == self@.contains(flag),
    {
        self.0 & flag.bit() != 0
    }

    /// Whether the two sets have the same members.
    pub fn same_as(self, other: Self) -> (r: bool)
        ensures
            r == (self@ == other@),
    {
        proof {
            use_type_invariant(&self);
            use_type_invariant(&other);
        }
        let a: u8 = self.0;
        let b: u8 = other.0;
        proof {
            if a == b {
                assert(self@ =~= other@);
            }
            if self@ == other@ {
                assert(self@.contains(QueryRecordFlag::LongLivedQuery) == other@.contains(
                    QueryRecordFlag::LongLivedQuery,
                ));
                assert(a == b) by (bit_vector)
                    requires
                        a & !1u8 == 0,
                        b & !1u8 == 0,
                        (a & 1 != 0) == (b & 1 != 0),
                ;
            }
        }
        a == b
    }

    /// The set of the flags that are in `self`, in `other`, or in both.
    pub fn union(self, other: Self) -> (r: Self)
        ensures
            r@ == self@.union(other@),
    {
        self | other
    }

    /// The set of the flags that are in both `self` and `other`.
    pub fn intersection(self, other: Self) -> (r: Self)
        ensures
            r@ == self@.intersect(other@),
    {
        self & other
    }

    /// Decodes a native flag word.  Bits that belong to no declared flag are
    /// dropped.
    pub fn from_native(bits: u32) -> (r: Self)
        ensures
            r@ == Self::decoded(bits),
    {
        let long_lived: u8 = if bits & FLAGS_LONG_LIVED_QUERY != 0 { 1 } else { 0 };
        assert(long_lived & !1u8 == 0 && (long_lived & 1 != 0) == (long_lived == 1))
            by (bit_vector)
            requires
                long_lived == 0 || long_lived == 1,
        ;
        let r = QueryRecordFlags(long_lived);
        assert forall|f: QueryRecordFlag| r@.contains(f) == Self::decoded(bits).contains(f) by {
            match f {
                QueryRecordFlag::LongLivedQuery => {},
            }
        }
        assert(r@ =~= Self::decoded(bits));
        r
    }

    /// Encodes the set as a native flag word.
    pub fn to_native(self) -> (bits: u32)
        ensures
            bits == Self::encoded(self@),
    {
        if self.contains(QueryRecordFlag::LongLivedQuery) {
            FLAGS_LONG_LIVED_QUERY
        } else {
            0
        }
    }

    /// Decoding a native flag word and encoding the result again keeps the
    /// bits of the declared flags and clears all others.
    pub proof fn lemma_decode_then_encode(bits: u32)
        ensures
            Self::encoded(Self::decoded(bits)) == bits & Self::known_mask(),
    {
        assert((if bits & 0x100u32 != 0 { 0x100u32 } else { 0u32 }) == bits & 0x100u32)
            by (bit_vector);
    }

    /// Encoding a set of flags and decoding the word gives the set back.
    pub proof fn lemma_encode_then_decode(flags: Set<QueryRecordFlag>)
        ensures
            Self::decoded(Self::encoded(flags)) == flags,
    {
        assert(0x100u32 & 0x100u32 != 0 && 0u32 & 0x100u32 == 0) by (bit_vector);
        assert forall|f: QueryRecordFlag|
            Self::decoded(Self::encoded(flags)).contains(f) == flags.contains(f) by {
            match f {
                QueryRecordFlag::LongLivedQuery => {},
            }
        }
        assert(Self::decoded(Self::encoded(flags)) =~= flags);
    }
}

impl Default for QueryRecordFlags {
    fn default() -> (r: Self)
        ensures
            r@ == Set::<QueryRecordFlag>::empty(),
    {
        QueryRecordFlags::empty()
    }
}

impl From<QueryRecordFlag> for QueryRecordFlags {
    fn from(flag: QueryRecordFlag) -> (r: Self)
        ensures
            r@ == set![flag],
    {
        let m: u8 = flag.bit();
        assert(1u8 & !1u8 == 0 && 1u8 & 1u8 != 0) by (bit_vector);
        let r = QueryRecordFlags(m);
        assert forall|f: QueryRecordFlag| r@.contains(f) == (f == flag) by {
            match f {
                QueryRecordFlag::LongLivedQuery => {},
            }
        }
        assert(r@ =~= set![flag]);
        r
    }
}

impl vstd::std_specs::convert::FromSpecImpl<QueryRecordFlag> for QueryRecordFlags {
    open spec fn obeys_from_spec() -> bool {
        true
    }

    closed spec fn from_spec(flag: QueryRecordFlag) -> Self {
        QueryRecordFlags(flag.mask())
    }
}

impl core::ops::BitOr for QueryRecordFlags {
    type Output = QueryRecordFlags;

    fn bitor(self, rhs: QueryRecordFlags) -> (r: QueryRecordFlags)
        ensures
            r@ == self@.union(rhs@),
    {
        proof {
            use_type_invariant(&self);
            use_type_invariant(&rhs);
        }
        let a: u8 = self.0;
        let b: u8 = rhs.0;
        assert((a | b) & !1u8 == 0) by (bit_vector)
            requires
                a & !1u8 == 0,
                b & !1u8 == 0,
        ;
        let r = QueryRecordFlags(a | b);
        assert forall|f: QueryRecordFlag|
            r@.contains(f) == (self@.contains(f) || rhs@.contains(f)) by {
            lemma_union_bit(a, b, f.mask());
        }
        assert(r@ =~= self@.union(rhs@));
        r
    }
}

impl vstd::std_specs::ops::BitOrSpecImpl for QueryRecordFlags {
    open spec fn obeys_bitor_spec() -> bool {
        true
    }

    open spec fn bitor_req(self, rhs: QueryRecordFlags) -> bool {
        true
    }

    closed spec fn bitor_spec(self, rhs: QueryRecordFlags) -> QueryRecordFlags {
        QueryRecordFlags(self.0 | rhs.0)
    }
}

impl core::ops::BitOr<QueryRecordFlag> for QueryRecordFlags {
    type Output = QueryRecordFlags;

    fn bitor(self, rhs: QueryRecordFlag) -> (r: QueryRecordFlags)
        ensures
            r@ == self@.insert(rhs),
    {
        let single = QueryRecordFlags::from(rhs);
        let r = self | single;
        assert(r@ =~= self@.insert(rhs));
        r
    }
}

impl vstd::std_specs::ops::BitOrSpecImpl<QueryRecordFlag> for QueryRecordFlags {
    open spec fn obeys_bitor_spec() -> bool {
        true
    }

    open spec fn bitor_req(self, rhs: QueryRecordFlag) -> bool {
        true
    }

    closed spec fn bitor_spec(self, rhs: QueryRecordFlag) -> QueryRecordFlags {
        QueryRecordFlags(self.0 | rhs.mask())
    }
}

impl core::ops::BitOr for QueryRecordFlag {
    type Output = QueryRecordFlags;

    fn bitor(self, rhs: QueryRecordFlag) -> (r: QueryRecordFlags)
        ensures
            r@ == set![self, rhs],
    {
        let r = QueryRecordFlags::from(self) | QueryRecordFlags::from(rhs);
        assert(r@ =~= set![self, rhs]);
        r
    }
}

impl vstd::std_specs::ops::BitOrSpecImpl for QueryRecordFlag {
    open spec fn obeys_bitor_spec() -> bool {
        true
    }

    open spec fn bitor_req(self, rhs: QueryRecordFlag) -> bool {
        true
    }

    closed spec fn bitor_spec(self, rhs: QueryRecordFlag) -> QueryRecordFlags {
        QueryRecordFlags(self.mask() | rhs.mask())
    }
}

impl core::ops::BitAnd<QueryRecordFlag> for QueryRecordFlags {
    type Output = bool;

    fn bitand(self, rhs: QueryRecordFlag) -> (r: bool) {
        self.contains(rhs)
    }
}

impl vstd::std_specs::ops::BitAndSpecImpl<QueryRecordFlag> for QueryRecordFlags {
    open spec fn obeys_bitand_spec() -> bool {
        true
    }

    open spec fn bitand_req(self, rhs: QueryRecordFlag) -> bool {
        true
    }

    open spec fn bitand_spec(self, rhs: QueryRecordFlag) -> bool {
        self@.contains(rhs)
    }
}

impl core::ops::BitAnd for QueryRecordFlags {
    type Output = QueryRecordFlags;

    fn bitand(self, rhs: QueryRecordFlags) -> (r: QueryRecordFlags)
        ensures
            r@ == self@.intersect(rhs@),
    {
        proof {
            use_type_invariant(&self);
        }
        let a: u8 = self.0;
        let b: u8 = rhs.0;
        assert((a & b) & !1u8 == 0) by (bit_vector)
            requires
                a & !1u8 == 0,
        ;
        let r = QueryRecordFlags(a & b);
        assert forall|f: QueryRecordFlag|
            r@.contains(f) == (self@.contains(f) && rhs@.contains(f)) by {
            lemma_intersection_bit(a, b, f.mask());
        }
        assert(r@ =~= self@.intersect(rhs@));
        r
    }
}

impl vstd::std_specs::ops::BitAndSpecImpl for QueryRecordFlags {
    open spec fn obeys_bitand_spec() -> bool {
        true
    }

    open spec fn bitand_req(self, rhs: QueryRecordFlags) -> bool {
        true
    }

    closed spec fn bitand_spec(self, rhs: QueryRecordFlags) -> QueryRecordFlags {
        QueryRecordFlags(self.0 & rhs.0)
    }
}

} // verus!
