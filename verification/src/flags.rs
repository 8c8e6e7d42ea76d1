//! Access and lifetime flags that can be passed when exporting a buffer.

use vstd::prelude::*;

verus! {

/// Bit for close-on-exec, the value of `O_CLOEXEC` on Linux.
pub const FLAG_CLOEXEC: u32 = 0x80000;

/// Bit pattern for read-only access, the value of `O_RDONLY` on Linux (no bit set).
pub const FLAG_RDONLY: u32 = 0x0;

/// Bit for write-only access, the value of `O_WRONLY` on Linux.
pub const FLAG_WRONLY: u32 = 0x1;

/// Bit for read-write access, the value of `O_RDWR` on Linux.
pub const FLAG_RDWR: u32 = 0x2;

/// Every bit in the flag vocabulary.
pub const FLAG_MASK: u32 = FLAG_CLOEXEC | FLAG_RDONLY | FLAG_WRONLY | FLAG_RDWR;

/// Flags that can be passed when exporting a buffer: a bitset over the
/// vocabulary close-on-exec, read-only, write-only, read-write.
///
/// Combinations are composed with [`ExpbufFlags::union`]; no combination is
/// rejected here, the driver is the authority on which are meaningful.
#[derive(Clone, Copy, Debug, PartialEq, Eq, Structural)]
pub struct ExpbufFlags {
    bits: u32,
}

impl ExpbufFlags {
    /// The raw bit pattern, exactly as the driver ABI sees it.
    pub closed spec fn spec_bits(self) -> u32 {
        self.bits
    }

    /// No flag set.
    pub fn empty() -> (r: Self)
        ensures
            r.spec_bits() == 0,
    {
        ExpbufFlags { bits: 0 }
    }

    /// Close-on-exec: the exported descriptor is closed across `exec`.
    pub fn cloexec() -> (r: Self)
        ensures
            r.spec_bits() == FLAG_CLOEXEC,
    {
        ExpbufFlags { bits: FLAG_CLOEXEC }
    }

    /// Read-only access. On Linux this is the all-zero pattern, so it is
    /// indistinguishable from the empty set on the wire.
    pub fn rdonly() -> (r: Self)
        ensures
            r.spec_bits() == FLAG_RDONLY,
    {
        ExpbufFlags { bits: FLAG_RDONLY }
    }

    /// Write-only access.
    pub fn wronly() -> (r: Self)
        ensures
            r.spec_bits() == FLAG_WRONLY,
    {
        ExpbufFlags { bits: FLAG_WRONLY }
    }

    /// Read-write access.
    pub fn rdwr() -> (r: Self)
        ensures
            r.spec_bits() == FLAG_RDWR,
    {
        ExpbufFlags { bits: FLAG_RDWR }
    }

    /// A flag set from a raw bit pattern, kept as given; the driver, not this
    /// core, decides whether unknown bits are meaningful.
    pub fn from_bits(bits: u32) -> (r: Self)
        ensures
            r.spec_bits() == bits,
    {
        ExpbufFlags { bits }
    }

    /// The raw bit pattern to place in the request record.
    pub fn bits(self) -> (r: u32)
        ensures
            r == self.spec_bits(),
    {
        self.bits
    }

    /// Both sets of flags combined.
    pub fn union(self, other: Self) -> (r: Self)
        ensures
            r.spec_bits() == (self.spec_bits() | other.spec_bits()),
    {
        ExpbufFlags { bits: self.bits | other.bits }
    }

    /// Whether every flag of `other` is also set in `self`.
    pub fn contains(self, other: Self) -> (r: bool)
        ensures
            r == ((self.spec_bits() & other.spec_bits()) == other.spec_bits()),
    {
        (self.bits & other.bits) == other.bits
    }
}

} // verus!
