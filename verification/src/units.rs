//! Exact megabyte quantities.

use vstd::prelude::*;

verus! {

/// Bytes in one megabyte.
pub const BYTES_PER_MEGABYTE: u64 = 1_048_576;

/// Kilobytes in one megabyte.
pub const KILOBYTES_PER_MEGABYTE: u64 = 1_024;

/// Bytes in one kilobyte.
pub const BYTES_PER_KILOBYTE: u64 = 1_024;

/// An amount of storage in megabytes, kept exactly: whole megabytes and the
/// bytes left over. The value it stands for is `whole + bytes / 1048576`.
#[derive(Clone, Copy, Debug, PartialEq, Eq, Structural)]
pub struct Megabytes {
    pub whole: u64,
    pub bytes: u32,
}

impl Megabytes {
    /// The leftover is less than one megabyte.
    pub open spec fn wf(&self) -> bool {
        self.bytes < BYTES_PER_MEGABYTE
    }

    /// The amount in bytes.
    pub open spec fn total_bytes(&self) -> nat {
        (self.whole * BYTES_PER_MEGABYTE + self.bytes) as nat
    }

    /// The amount that a byte count divided by 1048576 gives.
    pub open spec fn of_bytes(bytes: u64) -> Megabytes {
        Megabytes {
            whole: bytes / BYTES_PER_MEGABYTE,
            bytes: (bytes % BYTES_PER_MEGABYTE) as u32,
        }
    }

    /// The amount that a kilobyte count divided by 1024 gives.
    pub open spec fn of_kilobytes(kilobytes: u64) -> Megabytes {
        Megabytes {
            whole: kilobytes / KILOBYTES_PER_MEGABYTE,
            bytes: ((kilobytes % KILOBYTES_PER_MEGABYTE) * BYTES_PER_KILOBYTE) as u32,
        }
    }

    /// Nothing at all.
    pub fn zero() -> (r: Megabytes)
        ensures
            r == Megabytes::of_bytes(0),
            r.whole == 0,
            r.bytes == 0,
    {
        Megabytes { whole: 0, bytes: 0 }
    }

    /// Converts a byte count.
    pub fn from_bytes(bytes: u64) -> (r: Megabytes)
        ensures
            r == Megabytes::of_bytes(bytes),
            r.wf(),
            r.total_bytes() == bytes,
    {
        let rest: u64 = bytes % BYTES_PER_MEGABYTE;
        Megabytes { whole: bytes / BYTES_PER_MEGABYTE, bytes: rest as u32 }
    }

    /// Converts a kilobyte count.
    pub fn from_kilobytes(kilobytes: u64) -> (r: Megabytes)
        ensures
            r == Megabytes::of_kilobytes(kilobytes),
            r.wf(),
            r.total_bytes() == kilobytes * BYTES_PER_KILOBYTE,
    {
        let rest: u64 = (kilobytes % KILOBYTES_PER_MEGABYTE) * BYTES_PER_KILOBYTE;
        Megabytes { whole: kilobytes / KILOBYTES_PER_MEGABYTE, bytes: rest as u32 }
    }

    /// The amount in bytes, where it fits in 64 bits.
    pub fn to_bytes(&self) -> (r: Option<u64>)
        requires
            self.wf(),
        ensures
            r is Some <==> self.total_bytes() <= u64::MAX,
            r is Some ==> r.unwrap() == self.total_bytes(),
    {
        match self.whole.checked_mul(BYTES_PER_MEGABYTE) {
            Some(scaled) => {
                let rest: u64 = self.bytes as u64;
                scaled.checked_add(rest)
            },
            None => None,
        }
    }
}

/// Dividing a byte count by 1048576 loses nothing: the megabytes stand for
/// exactly the bytes that went in.
pub proof fn lemma_bytes_conversion_exact(bytes: u64)
    ensures
        Megabytes::of_bytes(bytes).wf(),
        Megabytes::of_bytes(bytes).total_bytes() == bytes,
{
}

/// Dividing a kilobyte count by 1024 loses nothing: the megabytes stand for
/// exactly 1024 bytes per kilobyte that went in.
pub proof fn lemma_kilobytes_conversion_exact(kilobytes: u64)
    ensures
        Megabytes::of_kilobytes(kilobytes).wf(),
        Megabytes::of_kilobytes(kilobytes).total_bytes() == kilobytes * BYTES_PER_KILOBYTE,
{
}

/// Two byte counts that convert to the same megabytes are the same count.
pub proof fn lemma_bytes_conversion_injective(a: u64, b: u64)
    requires
        Megabytes::of_bytes(a) == Megabytes::of_bytes(b),
    ensures
        a == b,
{
    lemma_bytes_conversion_exact(a);
    lemma_bytes_conversion_exact(b);
}

} // verus!
