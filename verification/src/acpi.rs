//! The ACPI tables the kernel reads at boot — the RSDP, the system
//! description headers, the XSDT — and the PM-timer arithmetic, all
//! over the raw bytes the firmware handed over.

use vstd::prelude::*;

verus! {

/// Frequency of the ACPI PM timer in Hz.
pub const PM_TIMER_FREQ: u32 = 3579545;

/// The wrapped sum of the first `until` bytes, reduced modulo 256 at
/// every step; a valid table sums to zero.
pub open spec fn spec_sum_bytes(b: Seq<u8>, until: int) -> u8
    decreases until,
{
    if until <= 0 {
        0
    } else {
        ((spec_sum_bytes(b, until - 1) + b[until - 1]) % 256) as u8
    }
}

/// Sums the first `until` bytes of a table image, wrapping at 256.
pub fn sum_bytes(b: &Vec<u8>, until: usize) -> (r: u8)
    requires
        until <= b@.len(),
    ensures
        r == spec_sum_bytes(b@, until as int),
{
    let mut acc: u8 = 0;
    let mut i: usize = 0;
    while i < until
        invariant
            i <= until,
            until <= b@.len(),
            acc == spec_sum_bytes(b@, i as int),
        decreases until - i,
    {
        let sum: u32 = (acc as u32) + (b[i] as u32);
        proof {
            assert(sum < 512 ==> (sum & 0xff) == sum % 256) by (bit_vector);
        }
        acc = (sum & 0xff) as u8;
        i = i + 1;
    }
    acc
}

/// The ACPI 2.0 Root System Description Pointer, as its 36-byte
/// image: signature and revision parsed out, the raw bytes kept for
/// the two checksums.
pub struct RSDP {
    pub bytes: Vec<u8>,
}

impl RSDP {
    pub open spec fn wf(&self) -> bool {
        self.bytes@.len() == 36
    }

    /// The 64-bit XSDT address at offset 24.
    pub fn xsdt_address(&self) -> (r: u64)
        requires
            self.wf(),
        ensures
            r == ((self.bytes@[24] as u64) | ((self.bytes@[25] as u64) << 8) | ((
            self.bytes@[26] as u64) << 16) | ((self.bytes@[27] as u64) << 24) | ((
            self.bytes@[28] as u64) << 32) | ((self.bytes@[29] as u64) << 40) | ((
            self.bytes@[30] as u64) << 48) | ((self.bytes@[31] as u64) << 56)),
    {
        (self.bytes[24] as u64) | ((self.bytes[25] as u64) << 8) | ((self.bytes[26] as u64) << 16)
            | ((self.bytes[27] as u64) << 24) | ((self.bytes[28] as u64) << 32) | ((
        self.bytes[29] as u64) << 40) | ((self.bytes[30] as u64) << 48) | ((self.bytes[31] as u64)
            << 56)
    }

    /// An RSDP is valid when it carries the "RSD PTR " signature,
    /// revision 2, and both its 20-byte and its 36-byte checksums
    /// sum to zero.
    pub fn is_valid(&self) -> (r: bool)
        requires
            self.wf(),
        ensures
            r == (self.bytes@[0] == 82 && self.bytes@[1] == 83 && self.bytes@[2] == 68
                && self.bytes@[3] == 32 && self.bytes@[4] == 80 && self.bytes@[5] == 84
                && self.bytes@[6] == 82 && self.bytes@[7] == 32 && self.bytes@[15] == 2
                && spec_sum_bytes(self.bytes@, 20) == 0 && spec_sum_bytes(self.bytes@, 36) == 0),
    {
        // "RSD PTR " as bytes
        if !(self.bytes[0] == 82 && self.bytes[1] == 83 && self.bytes[2] == 68 && self.bytes[3]
            == 32 && self.bytes[4] == 80 && self.bytes[5] == 84 && self.bytes[6] == 82
            && self.bytes[7] == 32) {
            return false;
        }
        if self.bytes[15] != 2 {
            return false;
        }
        if sum_bytes(&self.bytes, 20) != 0 {
            return false;
        }
        if sum_bytes(&self.bytes, 36) != 0 {
            return false;
        }
        true
    }
}

/// A system description table header with its whole table image:
/// the four signature bytes, the length, and the raw bytes for the
/// checksum.
pub struct DescriptionHeader {
    pub bytes: Vec<u8>,
}

impl DescriptionHeader {
    pub open spec fn wf(&self) -> bool {
        self.bytes@.len() >= 36
    }

    /// The table length at offset 4.
    pub fn length(&self) -> (r: u32)
        requires
            self.wf(),
        ensures
            r == ((self.bytes@[4] as u32) | ((self.bytes@[5] as u32) << 8) | ((
            self.bytes@[6] as u32) << 16) | ((self.bytes@[7] as u32) << 24)),
    {
        (self.bytes[4] as u32) | ((self.bytes[5] as u32) << 8) | ((self.bytes[6] as u32) << 16) | (
        (self.bytes[7] as u32) << 24)
    }

    /// A table is valid for an expected signature when its four
    /// signature bytes match and the bytes of its whole length sum
    /// to zero.
    pub fn is_valid(&self, expected_signature: &Vec<u8>) -> (r: bool)
        requires
            self.wf(),
            expected_signature@.len() == 4,
        ensures
            r == (self.bytes@[0] == expected_signature@[0] && self.bytes@[1]
                == expected_signature@[1] && self.bytes@[2] == expected_signature@[2]
                && self.bytes@[3] == expected_signature@[3] && ({
                let len = (self.bytes@[4] as u32) | ((self.bytes@[5] as u32) << 8) | ((
                self.bytes@[6] as u32) << 16) | ((self.bytes@[7] as u32) << 24);
                len <= self.bytes@.len() && spec_sum_bytes(self.bytes@, len as int) == 0
            })),
    {
        if !(self.bytes[0] == expected_signature[0] && self.bytes[1] == expected_signature[1]
            && self.bytes[2] == expected_signature[2] && self.bytes[3] == expected_signature[3]) {
            return false;
        }
        let len = self.length();
        if (len as usize) > self.bytes.len() {
            return false;
        }
        sum_bytes(&self.bytes, len as usize) == 0
    }

    /// How many 64-bit entries an XSDT of this length holds after
    /// its 36-byte header.
    pub fn xsdt_count(&self) -> (r: u32)
        requires
            self.wf(),
            self.bytes@.len() <= u32::MAX,
        ensures
            r == (self.bytes@.len() - 36) / 8,
    {
        ((self.bytes.len() - 36) / 8) as u32
    }
}

/// The PM-timer target for a wait of `msec` milliseconds from
/// `start`: the wrapped end count, reduced to 24 bits when the
/// timer is narrow. The caller spins until the timer passes it.
pub fn wait_millis_target(start: u32, msec: u32, pm_timer_is_32: bool) -> (r: u32)
    requires
        msec <= 1000,
    ensures
        ({
            let sum = start + (PM_TIMER_FREQ as int) * (msec as int) / 1000;
            let end: u32 = (if sum <= u32::MAX {
                sum
            } else {
                sum - 0x1_0000_0000
            }) as u32;
            r == (if pm_timer_is_32 {
                end
            } else {
                end & 0x00ff_ffff
            })
        }),
{
    proof {
        assert(0 <= 3579545int * msec <= 3579545int * 1000) by (nonlinear_arith)
            requires
                0 <= msec <= 1000,
        ;
        assert((3579545int * msec) / 1000 < 0x1_0000_0000) by (nonlinear_arith)
            requires
                0 <= 3579545int * msec <= 3579545int * 1000,
        ;
        assert((3579545int * msec) / 1000 >= 0) by (nonlinear_arith)
            requires
                msec >= 0,
        ;
    }
    let ticks: u32 = ((PM_TIMER_FREQ as u64) * (msec as u64) / 1000) as u32;
    let end = start.wrapping_add(ticks);
    if pm_timer_is_32 {
        end
    } else {
        end & 0x00ff_ffff
    }
}

} // verus!
