use vstd::prelude::*;

verus! {

/// One independent condition of a device.
#[derive(Debug, Clone, Copy, PartialEq, Eq, Structural)]
pub enum StatusFlag {
    /// Drive not initialized.
    NotInitialized,
    /// Drive is write protected.
    WriteProtected,
    /// Error occured.
    ErrorOccured,
}

impl StatusFlag {
    /// The bit that stands for this flag in a status byte.
    pub open spec fn spec_bit(self) -> u8 {
        match self {
            StatusFlag::NotInitialized => 0x01,
            StatusFlag::WriteProtected => 0x02,
            StatusFlag::ErrorOccured => 0x04,
        }
    }

    /// The bit that stands for this flag in a status byte.
    pub fn bit(self) -> (r: u8)
        ensures
            r == self.spec_bit(),
    {
        match self {
            StatusFlag::NotInitialized => 0x01,
            StatusFlag::WriteProtected => 0x02,
            StatusFlag::ErrorOccured => 0x04,
        }
    }
}

/// A set of [`StatusFlag`]s describing the condition of a device.
#[derive(Debug, Clone, Copy, PartialEq, Eq, Structural)]
pub struct Status {
    not_initialized: bool,
    write_protected: bool,
    error_occured: bool,
}

impl View for Status {
    type V = Set<StatusFlag>;

    open spec fn view(&self) -> Set<StatusFlag> {
        Set::new(|f: StatusFlag| self.has(f))
    }
}

impl Status {
    /// Whether `f` is in the set.
    pub closed spec fn has(self, f: StatusFlag) -> bool {
        match f {
            StatusFlag::NotInitialized => self.not_initialized,
            StatusFlag::WriteProtected => self.write_protected,
            StatusFlag::ErrorOccured => self.error_occured,
        }
    }

    /// The empty set.
    pub fn empty() -> (r: Status)
        ensures
            r@ == Set::<StatusFlag>::empty(),
    {
        let r = Status { not_initialized: false, write_protected: false, error_occured: false };
        assert(r@ =~= Set::<StatusFlag>::empty());
        r
    }

    /// The set that holds `f` alone.
    pub fn from_flag(f: StatusFlag) -> (r: Status)
        ensures
            r@ == set![f],
    {
        let mut r = Status::empty();
        r.insert(f);
        assert(r@ =~= set![f]);
        r
    }

    /// Whether `f` is in the set.
    pub fn contains(&self, f: StatusFlag) -> (r: bool)
        ensures
            r == self@.contains(f),
    {
        match f {
            StatusFlag::NotInitialized => self.not_initialized,
            StatusFlag::WriteProtected => self.write_protected,
            StatusFlag::ErrorOccured => self.error_occured,
        }
    }

    /// Whether the set holds no flag.
    pub fn is_empty(&self) -> (r: bool)
        ensures
            r == (self@ == Set::<StatusFlag>::empty()),
    {
        let r = !self.not_initialized && !self.write_protected && !self.error_occured;
        if !r {
            if self.not_initialized {
                assert(self@.contains(StatusFlag::NotInitialized));
            } else if self.write_protected {
                assert(self@.contains(StatusFlag::WriteProtected));
            } else {
                assert(self@.contains(StatusFlag::ErrorOccured));
            }
        } else {
            assert(self@ =~= Set::<StatusFlag>::empty());
        }
        r
    }

    /// Adds `f` to the set.
    pub fn insert(&mut self, f: StatusFlag)
        ensures
            final(self)@ == old(self)@.insert(f),
    {
        match f {
            StatusFlag::NotInitialized => self.not_initialized = true,
            StatusFlag::WriteProtected => self.write_protected = true,
            StatusFlag::ErrorOccured => self.error_occured = true,
        }
        assert(self@ =~= old(self)@.insert(f));
    }

    /// Takes `f` out of the set.
    pub fn remove(&mut self, f: StatusFlag)
        ensures
            final(self)@ == old(self)@.remove(f),
    {
        match f {
            StatusFlag::NotInitialized => self.not_initialized = false,
            StatusFlag::WriteProtected => self.write_protected = false,
            StatusFlag::ErrorOccured => self.error_occured = false,
        }
        assert(self@ =~= old(self)@.remove(f));
    }

    /// The flags that are in either set.
    pub fn union(&self, o: &Status) -> (r: Status)
        ensures
            r@ == self@.union(o@),
    {
        let r = Status {
            not_initialized: self.not_initialized || o.not_initialized,
            write_protected: self.write_protected || o.write_protected,
            error_occured: self.error_occured || o.error_occured,
        };
        assert(r@ =~= self@.union(o@));
        r
    }

    /// The flags that are in both sets.
    pub fn intersection(&self, o: &Status) -> (r: Status)
        ensures
            r@ == self@.intersect(o@),
    {
        let r = Status {
            not_initialized: self.not_initialized && o.not_initialized,
            write_protected: self.write_protected && o.write_protected,
            error_occured: self.error_occured && o.error_occured,
        };
        assert(r@ =~= self@.intersect(o@));
        r
    }

    /// The status byte: the bits of the flags in the set, or-ed together.
    pub fn bits(&self) -> (r: u8)
        ensures
            r == (if self@.contains(StatusFlag::NotInitialized) { 0x01u8 } else { 0u8 })
                | (if self@.contains(StatusFlag::WriteProtected) { 0x02u8 } else { 0u8 })
                | (if self@.contains(StatusFlag::ErrorOccured) { 0x04u8 } else { 0u8 }),
    {
        let a: u8 = if self.not_initialized { 0x01 } else { 0 };
        let b: u8 = if self.write_protected { 0x02 } else { 0 };
        let c: u8 = if self.error_occured { 0x04 } else { 0 };
        a | b | c
    }
}

} // verus!
