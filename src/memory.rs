//! Virtual memory addresses of analyzed snapshots, with wrapping and
//! checked arithmetic.

use vstd::prelude::*;
use vstd::std_specs::convert::IntoSpec;

verus! {

/// Two to the sixty-fourth: addresses wrap modulo this value.
pub open spec fn address_space() -> int {
    0x1_0000_0000_0000_0000
}

/// The lowest kernel-space address in the higher canonical range.
pub const KERNEL_SPACE_MASK: u64 = 0xffff_8000_0000_0000;

/// The value of eight bytes read in little-endian order.
pub open spec fn le_value(b: Seq<u8>) -> int {
    b[0] as int + b[1] as int * 0x100 + b[2] as int * 0x1_0000 + b[3] as int * 0x100_0000
        + b[4] as int * 0x1_0000_0000 + b[5] as int * 0x100_0000_0000
        + b[6] as int * 0x1_0000_0000_0000 + b[7] as int * 0x100_0000_0000_0000
}

/// Virtual memory address.
#[derive(Clone, Copy, PartialEq, Eq, PartialOrd, Ord, Hash, Default, Debug, Structural)]
pub struct VirtualAddress(pub u64);

impl VirtualAddress {
    /// True if the address is the null pointer.
    pub fn is_null(&self) -> (r: bool)
        ensures
            r == (self.0 == 0),
    {
        self.0 == 0
    }

    /// True if the address lies in the higher canonical (kernel) range.
    pub fn is_kernel_space(&self) -> (r: bool)
        ensures
            r == (self.0 & KERNEL_SPACE_MASK == KERNEL_SPACE_MASK),
    {
        self.0 & KERNEL_SPACE_MASK == KERNEL_SPACE_MASK
    }

    /// Build an address from its in-memory little-endian representation.
    pub fn from_le_bytes(bytes: [u8; 8]) -> (r: Self)
        ensures
            r.0 as int == le_value(bytes@),
    {
        let b0 = bytes[0] as u64;
        let b1 = bytes[1] as u64;
        let b2 = bytes[2] as u64;
        let b3 = bytes[3] as u64;
        let b4 = bytes[4] as u64;
        let b5 = bytes[5] as u64;
        let b6 = bytes[6] as u64;
        let b7 = bytes[7] as u64;
        let v = b0 + b1 * 0x100 + b2 * 0x1_0000 + b3 * 0x100_0000 + b4 * 0x1_0000_0000
            + b5 * 0x100_0000_0000 + b6 * 0x1_0000_0000_0000 + b7 * 0x100_0000_0000_0000;
        VirtualAddress(v)
    }

    /// Addition modulo the address space.
    pub fn wrapping_add(&self, v: &Self) -> (r: Self)
        ensures
            r.0 as int == (self.0 as int + v.0 as int) % address_space(),
    {
        VirtualAddress(self.0.wrapping_add(v.0))
    }

    /// Subtraction modulo the address space.
    pub fn wrapping_sub(&self, v: &Self) -> (r: Self)
        ensures
            r.0 as int == (self.0 as int - v.0 as int) % address_space(),
    {
        VirtualAddress(self.0.wrapping_sub(v.0))
    }

    /// Addition, `None` when the sum leaves the address space.
    pub fn checked_add(&self, v: &Self) -> (r: Option<Self>)
        ensures
            self.0 as int + v.0 as int <= u64::MAX ==> r == Some(
                VirtualAddress((self.0 + v.0) as u64),
            ),
            self.0 as int + v.0 as int > u64::MAX ==> r is None,
    {
        match self.0.checked_add(v.0) {
            Some(s) => Some(VirtualAddress(s)),
            None => None,
        }
    }

    /// Subtraction, `None` when the difference is negative.
    pub fn checked_sub(&self, v: &Self) -> (r: Option<Self>)
        ensures
            v.0 <= self.0 ==> r == Some(VirtualAddress((self.0 - v.0) as u64)),
            v.0 > self.0 ==> r is None,
    {
        if v.0 <= self.0 {
            Some(VirtualAddress(self.0 - v.0))
        } else {
            None
        }
    }
}

impl From<[u8; 8]> for VirtualAddress {
    fn from(v: [u8; 8]) -> (r: Self) {
        VirtualAddress::from_le_bytes(v)
    }
}

impl vstd::std_specs::convert::FromSpecImpl<[u8; 8]> for VirtualAddress {
    open spec fn obeys_from_spec() -> bool {
        true
    }

    open spec fn from_spec(v: [u8; 8]) -> Self {
        VirtualAddress(le_value(v@) as u64)
    }
}

impl From<u8> for VirtualAddress {
    fn from(v: u8) -> (r: Self) {
        VirtualAddress(v as u64)
    }
}

impl vstd::std_specs::convert::FromSpecImpl<u8> for VirtualAddress {
    open spec fn obeys_from_spec() -> bool {
        true
    }

    open spec fn from_spec(v: u8) -> Self {
        VirtualAddress(v as u64)
    }
}

impl From<u16> for VirtualAddress {
    fn from(v: u16) -> (r: Self) {
        VirtualAddress(v as u64)
    }
}

impl vstd::std_specs::convert::FromSpecImpl<u16> for VirtualAddress {
    open spec fn obeys_from_spec() -> bool {
        true
    }

    open spec fn from_spec(v: u16) -> Self {
        VirtualAddress(v as u64)
    }
}

impl From<u32> for VirtualAddress {
    fn from(v: u32) -> (r: Self) {
        VirtualAddress(v as u64)
    }
}

impl vstd::std_specs::convert::FromSpecImpl<u32> for VirtualAddress {
    open spec fn obeys_from_spec() -> bool {
        true
    }

    open spec fn from_spec(v: u32) -> Self {
        VirtualAddress(v as u64)
    }
}

impl From<u64> for VirtualAddress {
    fn from(v: u64) -> (r: Self) {
        VirtualAddress(v)
    }
}

impl vstd::std_specs::convert::FromSpecImpl<u64> for VirtualAddress {
    open spec fn obeys_from_spec() -> bool {
        true
    }

    open spec fn from_spec(v: u64) -> Self {
        VirtualAddress(v)
    }
}

/// A signed value as an address: its residue modulo the address space.
pub open spec fn signed_address(v: int) -> VirtualAddress {
    VirtualAddress((v % address_space()) as u64)
}

impl From<i8> for VirtualAddress {
    fn from(v: i8) -> (r: Self) {
        VirtualAddress(0u64.wrapping_add_signed(v as i64))
    }
}

impl vstd::std_specs::convert::FromSpecImpl<i8> for VirtualAddress {
    open spec fn obeys_from_spec() -> bool {
        true
    }

    open spec fn from_spec(v: i8) -> Self {
        signed_address(v as int)
    }
}

impl From<i16> for VirtualAddress {
    fn from(v: i16) -> (r: Self) {
        VirtualAddress(0u64.wrapping_add_signed(v as i64))
    }
}

impl vstd::std_specs::convert::FromSpecImpl<i16> for VirtualAddress {
    open spec fn obeys_from_spec() -> bool {
        true
    }

    open spec fn from_spec(v: i16) -> Self {
        signed_address(v as int)
    }
}

impl From<i32> for VirtualAddress {
    fn from(v: i32) -> (r: Self) {
        VirtualAddress(0u64.wrapping_add_signed(v as i64))
    }
}

impl vstd::std_specs::convert::FromSpecImpl<i32> for VirtualAddress {
    open spec fn obeys_from_spec() -> bool {
        true
    }

    open spec fn from_spec(v: i32) -> Self {
        signed_address(v as int)
    }
}

impl From<i64> for VirtualAddress {
    fn from(v: i64) -> (r: Self) {
        VirtualAddress(0u64.wrapping_add_signed(v))
    }
}

impl vstd::std_specs::convert::FromSpecImpl<i64> for VirtualAddress {
    open spec fn obeys_from_spec() -> bool {
        true
    }

    open spec fn from_spec(v: i64) -> Self {
        signed_address(v as int)
    }
}

impl From<VirtualAddress> for u64 {
    fn from(v: VirtualAddress) -> (r: u64) {
        v.0
    }
}

impl vstd::std_specs::convert::FromSpecImpl<VirtualAddress> for u64 {
    open spec fn obeys_from_spec() -> bool {
        true
    }

    open spec fn from_spec(v: VirtualAddress) -> u64 {
        v.0
    }
}

impl From<VirtualAddress> for usize {
    fn from(v: VirtualAddress) -> (r: usize) {
        v.0 as usize
    }
}

impl vstd::std_specs::convert::FromSpecImpl<VirtualAddress> for usize {
    open spec fn obeys_from_spec() -> bool {
        true
    }

    open spec fn from_spec(v: VirtualAddress) -> usize {
        v.0 as usize
    }
}

impl<T: Into<VirtualAddress>> core::ops::Add<T> for VirtualAddress {
    type Output = VirtualAddress;

    /// Addition wraps by design.
    fn add(self, value: T) -> VirtualAddress {
        self.wrapping_add(&value.into())
    }
}

impl<T: Into<VirtualAddress>> core::ops::Sub<T> for VirtualAddress {
    type Output = VirtualAddress;

    /// Subtraction wraps by design.
    fn sub(self, value: T) -> VirtualAddress {
        self.wrapping_sub(&value.into())
    }
}

impl<T: Into<VirtualAddress>> vstd::std_specs::ops::AddSpecImpl<T> for VirtualAddress {
    open spec fn obeys_add_spec() -> bool {
        <T as IntoSpec<VirtualAddress>>::obeys_into_spec()
    }

    open spec fn add_req(self, rhs: T) -> bool {
        true
    }

    open spec fn add_spec(self, rhs: T) -> VirtualAddress {
        VirtualAddress(
            ((self.0 as int + rhs.into_spec().0 as int) % address_space()) as u64,
        )
    }
}

impl<T: Into<VirtualAddress>> vstd::std_specs::ops::SubSpecImpl<T> for VirtualAddress {
    open spec fn obeys_sub_spec() -> bool {
        <T as IntoSpec<VirtualAddress>>::obeys_into_spec()
    }

    open spec fn sub_req(self, rhs: T) -> bool {
        true
    }

    open spec fn sub_spec(self, rhs: T) -> VirtualAddress {
        VirtualAddress(
            ((self.0 as int - rhs.into_spec().0 as int) % address_space()) as u64,
        )
    }
}

impl<T: Into<VirtualAddress>> core::ops::AddAssign<T> for VirtualAddress {
    /// Addition wraps by design.
    fn add_assign(&mut self, value: T)
        ensures
            <T as IntoSpec<VirtualAddress>>::obeys_into_spec() ==> final(self).0 as int == (old(
                self,
            ).0 as int + value.into_spec().0 as int) % address_space(),
    {
        *self = self.wrapping_add(&value.into());
    }
}

impl<T: Into<VirtualAddress>> core::ops::SubAssign<T> for VirtualAddress {
    /// Subtraction wraps by design.
    fn sub_assign(&mut self, value: T)
        ensures
            <T as IntoSpec<VirtualAddress>>::obeys_into_spec() ==> final(self).0 as int == (old(
                self,
            ).0 as int - value.into_spec().0 as int) % address_space(),
    {
        *self = self.wrapping_sub(&value.into());
    }
}

} // verus!

