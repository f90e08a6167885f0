use vstd::prelude::*;
use url::Url;

verus! {

/// The kinds of file system events a watcher is interested in, as a set of bit
/// flags: `Create` (1), `Change` (2) and `Delete` (4). No other bit is ever set.
#[derive(Debug, Clone, Copy, PartialEq, Eq, Structural, PartialOrd, Ord, Hash)]
pub struct WatchKind {
    bits: u8,
}

impl View for WatchKind {
    type V = u8;

    closed spec fn view(&self) -> u8 {
        self.bits
    }
}

/// The bits of all flags together.
pub open spec fn all_watch_bits() -> u8 {
    7
}

impl WatchKind {
    /// Interested in create events.
    #[allow(non_snake_case)]
    pub fn Create() -> (res: WatchKind)
        ensures
            res@ == 1,
    {
        WatchKind { bits: 1 }
    }

    /// Interested in change events.
    #[allow(non_snake_case)]
    pub fn Change() -> (res: WatchKind)
        ensures
            res@ == 2,
    {
        WatchKind { bits: 2 }
    }

    /// Interested in delete events.
    #[allow(non_snake_case)]
    pub fn Delete() -> (res: WatchKind)
        ensures
            res@ == 4,
    {
        WatchKind { bits: 4 }
    }


    #[verifier::type_invariant]
    spec fn only_known_bits(self) -> bool {
        self.bits <= 7
    }

    /// The flag set that `from_bits` gives for `bits`: `None` when a bit is set
    /// that is not one of the three flags.
    pub closed spec fn from_bits_spec(bits: u8) -> Option<WatchKind> {
        if bits <= 7 {
            Some(WatchKind { bits })
        } else {
            None
        }
    }

    /// The empty flag set.
    pub fn empty() -> (res: WatchKind)
        ensures
            res@ == 0,
    {
        WatchKind { bits: 0 }
    }

    /// The set of all three flags.
    pub fn all() -> (res: WatchKind)
        ensures
            res@ == all_watch_bits(),
    {
        WatchKind { bits: 7 }
    }

    /// The raw bits of the flag set.
    pub fn bits(&self) -> (res: u8)
        ensures
            res == self@,
            res <= all_watch_bits(),
    {
        proof {
            use_type_invariant(self);
        }
        self.bits
    }

    /// The flag set with the given bits, or `None` when `bits` holds a bit that
    /// is not one of the three flags.
    pub fn from_bits(bits: u8) -> (res: Option<WatchKind>)
        ensures
            res == Self::from_bits_spec(bits),
            res is Some <==> bits <= all_watch_bits(),
            res matches Some(k) ==> k@ == bits,
    {
        if bits <= 7 {
            Some(WatchKind { bits })
        } else {
            None
        }
    }

    /// The flag set with the known bits of `bits`; the other bits are dropped.
    pub fn from_bits_truncate(bits: u8) -> (res: WatchKind)
        ensures
            res@ == bits & all_watch_bits(),
    {
        let b = bits & 7;
        assert(b <= 7) by (bit_vector)
            requires
                b == bits & 7,
        ;
        WatchKind { bits: b }
    }

    /// Whether no flag is set.
    pub fn is_empty(&self) -> (res: bool)
        ensures
            res == (self@ == 0),
    {
        self.bits == 0
    }

    /// Whether all three flags are set.
    pub fn is_all(&self) -> (res: bool)
        ensures
            res == (self@ == all_watch_bits()),
    {
        proof {
            use_type_invariant(self);
        }
        let b = self.bits;
        assert((7u8 | b == b) == (b == 7)) by (bit_vector)
            requires
                b <= 7,
        ;
        7u8 | b == b
    }

    /// Whether the two flag sets have a flag in common.
    pub fn intersects(&self, other: WatchKind) -> (res: bool)
        ensures
            res == (self@ & other@ != 0),
    {
        self.bits & other.bits != 0
    }

    /// Whether every flag of `other` is set in `self`.
    pub fn contains(&self, other: WatchKind) -> (res: bool)
        ensures
            res == (self@ & other@ == other@),
    {
        self.bits & other.bits == other.bits
    }

    /// The flags set in both.
    pub fn intersection(self, other: WatchKind) -> (res: WatchKind)
        ensures
            res@ == self@ & other@,
    {
        proof {
            use_type_invariant(self);
        }
        let a = self.bits;
        let b = other.bits;
        assert(a & b <= 7) by (bit_vector)
            requires
                a <= 7,
        ;
        WatchKind { bits: a & b }
    }

    /// The flags set in either.
    pub fn union(self, other: WatchKind) -> (res: WatchKind)
        ensures
            res@ == self@ | other@,
    {
        proof {
            use_type_invariant(self);
            use_type_invariant(other);
        }
        let a = self.bits;
        let b = other.bits;
        assert(a | b <= 7) by (bit_vector)
            requires
                a <= 7,
                b <= 7,
        ;
        WatchKind { bits: a | b }
    }

    /// The flags set in `self` and not in `other`.
    pub fn difference(self, other: WatchKind) -> (res: WatchKind)
        ensures
            res@ == self@ & !other@,
    {
        proof {
            use_type_invariant(self);
        }
        let a = self.bits;
        let b = other.bits;
        assert(a & !b <= 7) by (bit_vector)
            requires
                a <= 7,
        ;
        WatchKind { bits: a & !b }
    }

    /// The flags set in exactly one of the two.
    pub fn symmetric_difference(self, other: WatchKind) -> (res: WatchKind)
        ensures
            res@ == self@ ^ other@,
    {
        proof {
            use_type_invariant(self);
            use_type_invariant(other);
        }
        let a = self.bits;
        let b = other.bits;
        assert(a ^ b <= 7) by (bit_vector)
            requires
                a <= 7,
                b <= 7,
        ;
        WatchKind { bits: a ^ b }
    }

    /// The flags that are not set in `self`.
    pub fn complement(self) -> (res: WatchKind)
        ensures
            res@ == !self@ & all_watch_bits(),
    {
        Self::from_bits_truncate(!self.bits)
    }

    /// Sets the flags of `other`.
    pub fn insert(&mut self, other: WatchKind)
        ensures
            final(self)@ == old(self)@ | other@,
    {
        *self = self.union(other);
    }

    /// Clears the flags of `other`.
    pub fn remove(&mut self, other: WatchKind)
        ensures
            final(self)@ == old(self)@ & !other@,
    {
        *self = self.difference(other);
    }

    /// Flips the flags of `other`.
    pub fn toggle(&mut self, other: WatchKind)
        ensures
            final(self)@ == old(self)@ ^ other@,
    {
        *self = self.symmetric_difference(other);
    }

    /// Sets the flags of `other` when `value` holds, and clears them otherwise.
    pub fn set(&mut self, other: WatchKind, value: bool)
        ensures
            final(self)@ == if value {
                old(self)@ | other@
            } else {
                old(self)@ & !other@
            },
    {
        if value {
            self.insert(other);
        } else {
            self.remove(other);
        }
    }
}

/// The set of all flags is exactly create, change and delete together: bits
/// 1, 2 and 4, and no other.
pub proof fn lemma_all_watch_bits()
    ensures
        all_watch_bits() == 7,
        all_watch_bits() == 1u8 | 2u8 | 4u8,
{
    assert(1u8 | 2u8 | 4u8 == 7u8) by (bit_vector);
}

/// Reading a flag set back from its own bits gives the same flag set: what a
/// watcher's kind is written as, it is read back as.
pub proof fn lemma_watch_kind_bits_roundtrip(k: WatchKind)
    requires
        k@ <= all_watch_bits(),
    ensures
        WatchKind::from_bits_spec(k@) == Some(k),
{
}

impl core::ops::BitOr for WatchKind {
    type Output = WatchKind;

    fn bitor(self, other: WatchKind) -> (res: WatchKind)
        ensures
            res@ == self@ | other@,
    {
        self.union(other)
    }
}

impl vstd::std_specs::ops::BitOrSpecImpl for WatchKind {
    open spec fn obeys_bitor_spec() -> bool {
        true
    }

    open spec fn bitor_req(self, rhs: WatchKind) -> bool {
        true
    }

    closed spec fn bitor_spec(self, rhs: WatchKind) -> WatchKind {
        WatchKind { bits: self.bits | rhs.bits }
    }
}

impl core::ops::BitAnd for WatchKind {
    type Output = WatchKind;

    fn bitand(self, other: WatchKind) -> (res: WatchKind)
        ensures
            res@ == self@ & other@,
    {
        self.intersection(other)
    }
}

impl vstd::std_specs::ops::BitAndSpecImpl for WatchKind {
    open spec fn obeys_bitand_spec() -> bool {
        true
    }

    open spec fn bitand_req(self, rhs: WatchKind) -> bool {
        true
    }

    closed spec fn bitand_spec(self, rhs: WatchKind) -> WatchKind {
        WatchKind { bits: self.bits & rhs.bits }
    }
}

impl core::ops::BitXor for WatchKind {
    type Output = WatchKind;

    fn bitxor(self, other: WatchKind) -> (res: WatchKind)
        ensures
            res@ == self@ ^ other@,
    {
        self.symmetric_difference(other)
    }
}

impl vstd::std_specs::ops::BitXorSpecImpl for WatchKind {
    open spec fn obeys_bitxor_spec() -> bool {
        true
    }

    open spec fn bitxor_req(self, rhs: WatchKind) -> bool {
        true
    }

    closed spec fn bitxor_spec(self, rhs: WatchKind) -> WatchKind {
        WatchKind { bits: self.bits ^ rhs.bits }
    }
}

impl core::ops::Sub for WatchKind {
    type Output = WatchKind;

    fn sub(self, other: WatchKind) -> (res: WatchKind)
        ensures
            res@ == self@ & !other@,
    {
        self.difference(other)
    }
}

impl vstd::std_specs::ops::SubSpecImpl for WatchKind {
    open spec fn obeys_sub_spec() -> bool {
        true
    }

    open spec fn sub_req(self, rhs: WatchKind) -> bool {
        true
    }

    closed spec fn sub_spec(self, rhs: WatchKind) -> WatchKind {
        WatchKind { bits: self.bits & !rhs.bits }
    }
}

impl core::ops::BitOrAssign for WatchKind {
    fn bitor_assign(&mut self, other: WatchKind)
        ensures
            final(self)@ == old(self)@ | other@,
    {
        *self = self.union(other);
    }
}

impl core::ops::BitAndAssign for WatchKind {
    fn bitand_assign(&mut self, other: WatchKind)
        ensures
            final(self)@ == old(self)@ & other@,
    {
        *self = self.intersection(other);
    }
}

impl core::ops::BitXorAssign for WatchKind {
    fn bitxor_assign(&mut self, other: WatchKind)
        ensures
            final(self)@ == old(self)@ ^ other@,
    {
        *self = self.symmetric_difference(other);
    }
}

impl core::ops::SubAssign for WatchKind {
    fn sub_assign(&mut self, other: WatchKind)
        ensures
            final(self)@ == old(self)@ & !other@,
    {
        *self = self.difference(other);
    }
}

impl core::ops::Not for WatchKind {
    type Output = WatchKind;

    fn not(self) -> (res: WatchKind)
        ensures
            res@ == !self@ & all_watch_bits(),
    {
        self.complement()
    }
}

impl vstd::std_specs::ops::NotSpecImpl for WatchKind {
    open spec fn obeys_not_spec() -> bool {
        true
    }

    open spec fn not_req(self) -> bool {
        true
    }

    closed spec fn not_spec(self) -> WatchKind {
        WatchKind { bits: !self.bits & 7 }
    }
}



/// Parameters of a `workspace/didChangeWatchedFiles` notification.
#[derive(Debug, Eq, PartialEq, Clone)]
pub struct DidChangeWatchedFilesParams {
    /// The actual file events.
    pub changes: Vec<FileEvent>,
}

/// The file event type.
#[derive(Debug, Eq, PartialEq, Copy, Clone)]
pub enum FileChangeType {
    /// The file got created.
    Created,
    /// The file got changed.
    Changed,
    /// The file got deleted.
    Deleted,
}

impl FileChangeType {
    /// The number that stands for this value in the protocol.
    pub open spec fn protocol_code(self) -> u8 {
        match self {
            FileChangeType::Created => 1,
            FileChangeType::Changed => 2,
            FileChangeType::Deleted => 3,
        }
    }

    /// The number that stands for this value in the protocol.
    pub fn code(&self) -> (res: u8)
        ensures
            res == self.protocol_code(),
    {
        match self {
            FileChangeType::Created => 1,
            FileChangeType::Changed => 2,
            FileChangeType::Deleted => 3,
        }
    }
}

/// Each value has its fixed protocol number.
pub proof fn lemma_file_change_type_codes()
    ensures
        FileChangeType::Created.protocol_code() == 1,
        FileChangeType::Changed.protocol_code() == 2,
        FileChangeType::Deleted.protocol_code() == 3,
{
}

/// An event describing a file change.
#[derive(Debug, Eq, PartialEq, Clone)]
pub struct FileEvent {
    /// The file's URI.
    pub uri: Url,
    /// The change type.
    pub typ: FileChangeType,
}

impl FileEvent {
    pub fn new(uri: Url, typ: FileChangeType) -> (res: FileEvent)
        ensures
            res.uri == uri,
            res.typ == typ,
    {
        FileEvent { uri, typ }
    }
}

/// Options to register for file change events.
#[derive(Debug, PartialEq, Eq, PartialOrd, Ord, Clone)]
pub struct DidChangeWatchedFilesRegistrationOptions {
    /// The watchers to register.
    pub watchers: Vec<FileSystemWatcher>,
}

/// A file system watcher.
#[derive(Debug, PartialEq, Eq, PartialOrd, Ord, Clone)]
pub struct FileSystemWatcher {
    /// The glob pattern to watch.
    pub glob_pattern: String,
    /// The kind of events of interest; all three when omitted.
    pub kind: Option<WatchKind>,
}

} // verus!
