//! Unix-style permissions for one entry.
//!
//! [`UnixPexClass`] holds the three capabilities (read, write, execute) of a
//! single subject class; [`UnixPex`] aggregates the three classes (owner,
//! group, others) and converts losslessly to and from the numeric mode in
//! `0..=0o777`. Mode bits above `0o777` (setuid, setgid, sticky) are not
//! modeled: `from_mode` ignores them and `to_mode` never produces them.

use vstd::prelude::*;

verus! {

/// The permission set of one subject class: three independent capabilities.
#[derive(Clone, Copy, Debug, PartialEq, Eq, Hash, Structural)]
pub struct UnixPexClass {
    /// Whether the class may read the entry.
    pub read: bool,
    /// Whether the class may write the entry.
    pub write: bool,
    /// Whether the class may execute (or, for a directory, enter) the entry.
    pub execute: bool,
}

impl UnixPexClass {
    /// The octal digit in `0..=7` that encodes these three capabilities.
    pub open spec fn spec_octal(self) -> int {
        (if self.read { 4int } else { 0int }) + (if self.write { 2int } else { 0int })
            + (if self.execute { 1int } else { 0int })
    }

    /// The permission set encoded by the octal digit `d`.
    pub open spec fn spec_from_octal(d: int) -> UnixPexClass {
        UnixPexClass { read: (d / 4) % 2 == 1, write: (d / 2) % 2 == 1, execute: d % 2 == 1 }
    }

    /// Builds a permission set from its three capabilities.
    pub fn new(read: bool, write: bool, execute: bool) -> (r: UnixPexClass)
        ensures
            r == (UnixPexClass { read, write, execute }),
    {
        UnixPexClass { read, write, execute }
    }

    /// Decodes one octal digit of a mode.
    pub fn from_octal(d: u32) -> (r: UnixPexClass)
        requires
            d < 8,
        ensures
            r == Self::spec_from_octal(d as int),
    {
        UnixPexClass { read: (d / 4) % 2 == 1, write: (d / 2) % 2 == 1, execute: d % 2 == 1 }
    }

    /// Encodes the three capabilities as one octal digit.
    pub fn as_octal(&self) -> (r: u32)
        ensures
            r as int == self.spec_octal(),
            r < 8,
    {
        (if self.read { 4u32 } else { 0u32 }) + (if self.write { 2u32 } else { 0u32 })
            + (if self.execute { 1u32 } else { 0u32 })
    }

    /// Whether the read capability is set.
    pub fn can_read(&self) -> (r: bool)
        ensures
            r == self.read,
    {
        self.read
    }

    /// Whether the write capability is set.
    pub fn can_write(&self) -> (r: bool)
        ensures
            r == self.write,
    {
        self.write
    }

    /// Whether the execute capability is set.
    pub fn can_execute(&self) -> (r: bool)
        ensures
            r == self.execute,
    {
        self.execute
    }
}

/// The permission aggregate of an entry: one permission set per subject class.
#[derive(Clone, Copy, Debug, PartialEq, Eq, Hash, Structural)]
pub struct UnixPex {
    /// Permissions of the owning user.
    pub owner: UnixPexClass,
    /// Permissions of the owning group.
    pub group: UnixPexClass,
    /// Permissions of everybody else.
    pub others: UnixPexClass,
}

impl UnixPex {
    /// The numeric mode in `0..=0o777` that encodes this aggregate.
    pub open spec fn spec_mode(self) -> int {
        self.owner.spec_octal() * 64 + self.group.spec_octal() * 8 + self.others.spec_octal()
    }

    /// The aggregate encoded by the low nine bits of the mode `m`.
    pub open spec fn spec_from_mode(m: int) -> UnixPex {
        UnixPex {
            owner: UnixPexClass::spec_from_octal((m / 64) % 8),
            group: UnixPexClass::spec_from_octal((m / 8) % 8),
            others: UnixPexClass::spec_from_octal(m % 8),
        }
    }

    /// Builds an aggregate from its three per-class permission sets.
    pub fn new(owner: UnixPexClass, group: UnixPexClass, others: UnixPexClass) -> (r: UnixPex)
        ensures
            r == (UnixPex { owner, group, others }),
    {
        UnixPex { owner, group, others }
    }

    /// Decodes a numeric Unix mode. Bits above `0o777` are ignored.
    pub fn from_mode(mode: u32) -> (r: UnixPex)
        ensures
            r == Self::spec_from_mode(mode as int),
    {
        UnixPex {
            owner: UnixPexClass::from_octal((mode / 64) % 8),
            group: UnixPexClass::from_octal((mode / 8) % 8),
            others: UnixPexClass::from_octal(mode % 8),
        }
    }

    /// Encodes the aggregate as a numeric Unix mode in `0..=0o777`.
    pub fn to_mode(&self) -> (r: u32)
        ensures
            r as int == self.spec_mode(),
            r <= 0o777,
    {
        self.owner.as_octal() * 64 + self.group.as_octal() * 8 + self.others.as_octal()
    }

    /// The permission set of the owning user.
    pub fn owner(&self) -> (r: UnixPexClass)
        ensures
            r == self.owner,
    {
        self.owner
    }

    /// The permission set of the owning group.
    pub fn group(&self) -> (r: UnixPexClass)
        ensures
            r == self.group,
    {
        self.group
    }

    /// The permission set of everybody else.
    pub fn others(&self) -> (r: UnixPexClass)
        ensures
            r == self.others,
    {
        self.others
    }
}

/// Decoding one octal digit and re-encoding it gives the digit back.
proof fn lemma_octal_round_trip(d: int)
    requires
        0 <= d < 8,
    ensures
        UnixPexClass::spec_from_octal(d).spec_octal() == d,
{
}

/// Law: every mode in the valid range `0..=0o777` survives the round trip
/// through the permission aggregate: decoding it and re-encoding the result
/// gives the same mode back.
pub proof fn lemma_mode_round_trip(m: int)
    requires
        0 <= m <= 0o777,
    ensures
        UnixPex::spec_from_mode(m).spec_mode() == m,
{
    lemma_octal_round_trip((m / 64) % 8);
    lemma_octal_round_trip((m / 8) % 8);
    lemma_octal_round_trip(m % 8);
    assert(((m / 64) % 8) * 64 + ((m / 8) % 8) * 8 + m % 8 == m) by (nonlinear_arith)
        requires
            0 <= m <= 0o777,
    ;
}

/// Encoding a permission set as its octal digit and decoding that digit
/// gives the set back.
proof fn lemma_class_round_trip(c: UnixPexClass)
    ensures
        UnixPexClass::spec_from_octal(c.spec_octal()) == c,
{
}

/// Law: the encoding loses nothing in the other direction either: every
/// aggregate is recovered from its own mode.
pub proof fn lemma_aggregate_round_trip(p: UnixPex)
    ensures
        UnixPex::spec_from_mode(p.spec_mode()) == p,
{
    let a = p.owner.spec_octal();
    let b = p.group.spec_octal();
    let c = p.others.spec_octal();
    assert((a * 64 + b * 8 + c) / 64 % 8 == a && (a * 64 + b * 8 + c) / 8 % 8 == b && (a * 64 + b
        * 8 + c) % 8 == c) by (nonlinear_arith)
        requires
            0 <= a < 8,
            0 <= b < 8,
            0 <= c < 8,
    ;
    lemma_class_round_trip(p.owner);
    lemma_class_round_trip(p.group);
    lemma_class_round_trip(p.others);
}

} // verus!
