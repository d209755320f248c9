//! Physical and virtual addresses and physical frames as distinct value types.

use vstd::prelude::*;

verus! {

/// Size in bytes of a page and of a physical frame.
pub const PAGE_SIZE: u64 = 4096;

/// First value that is no physical address: physical addresses have 52 bits.
pub const PHYS_ADDR_LIMIT: u64 = 0x10_0000_0000_0000;

/// First address above the lower canonical half of the virtual address space.
pub const LOWER_HALF_END: u64 = 0x8000_0000_0000;

/// First address that needs more than 48 bits.
pub const ADDR_48_END: u64 = 0x1_0000_0000_0000;

/// First address of the upper canonical half of the virtual address space.
pub const UPPER_HALF_START: u64 = 0xffff_8000_0000_0000;

/// The greatest multiple of the page size that is not above `addr`.
pub open spec fn align_down(addr: u64) -> u64 {
    (addr - addr % PAGE_SIZE) as u64
}

/// Whether `addr` can be made a virtual address: it lies in one of the two
/// canonical halves, or sets bit 47 and nothing above it.
pub open spec fn virt_representable(addr: u64) -> bool {
    addr < ADDR_48_END || addr >= UPPER_HALF_START
}

/// The canonical form of a representable address: bit 47 copied into the
/// sixteen bits above it.
pub open spec fn canonical(addr: u64) -> u64 {
    if LOWER_HALF_END <= addr < ADDR_48_END {
        (addr + 0xffff_0000_0000_0000) as u64
    } else {
        addr
    }
}

/// Whether the address `offset` bytes after `addr` fits in 64 bits and can be
/// made a virtual address.
pub open spec fn reaches(addr: u64, offset: u64) -> bool {
    addr + offset <= u64::MAX && virt_representable((addr + offset) as u64)
}

/// Calls `x86_64::PhysAddr::try_new`, which accepts exactly the values with
/// bits 52 to 63 clear and keeps the value as it is.
#[verifier::external_body]
fn phys_addr_try_new(addr: u64) -> (r: Option<u64>)
    ensures
        r == (if addr < PHYS_ADDR_LIMIT { Some(addr) } else { None }),
{
    match x86_64::PhysAddr::try_new(addr) {
        Ok(a) => Some(a.as_u64()),
        Err(_) => None,
    }
}

/// Calls `x86_64::VirtAddr::try_new`, which accepts an address whose bits 47
/// to 63 are all clear, all set, or clear but for bit 47, and in the last case
/// sign-extends bit 47.
#[verifier::external_body]
fn virt_addr_try_new(addr: u64) -> (r: Option<u64>)
    ensures
        r == (if virt_representable(addr) { Some(canonical(addr)) } else { None }),
{
    match x86_64::VirtAddr::try_new(addr) {
        Ok(a) => Some(a.as_u64()),
        Err(_) => None,
    }
}

/// Calls `x86_64::structures::paging::PhysFrame::containing_address` for 4 KiB
/// frames, which aligns the address down to the frame size. The address is
/// made with `PhysAddr::new`, which panics from bit 52 on.
#[verifier::external_body]
fn frame_containing(addr: u64) -> (start: u64)
    requires
        addr < PHYS_ADDR_LIMIT,
    ensures
        start == align_down(addr),
{
    let address = x86_64::PhysAddr::new(addr);
    x86_64::structures::paging::PhysFrame::<x86_64::structures::paging::Size4KiB>::containing_address(address)
        .start_address()
        .as_u64()
}

/// Calls `x86_64::structures::paging::Page::containing_address` for 4 KiB
/// pages, which aligns the address down to the page size. The address is
/// made with `VirtAddr::new`, which keeps a canonical address.
#[verifier::external_body]
fn page_containing(addr: u64) -> (start: u64)
    requires
        addr < LOWER_HALF_END || addr >= UPPER_HALF_START,
    ensures
        start == align_down(addr),
{
    let address = x86_64::VirtAddr::new(addr);
    x86_64::structures::paging::Page::<x86_64::structures::paging::Size4KiB>::containing_address(address)
        .start_address()
        .as_u64()
}

/// A physical memory address.
#[derive(Clone, Copy, Debug)]
pub struct PhysAddr {
    value: u64,
}

impl View for PhysAddr {
    type V = u64;

    closed spec fn view(&self) -> u64 {
        self.value
    }
}

impl PhysAddr {
    #[verifier::type_invariant]
    spec fn valid(self) -> bool {
        self.value < PHYS_ADDR_LIMIT
    }

    /// The address `addr`, which has bits 52 to 63 clear.
    pub fn new(addr: u64) -> (r: PhysAddr)
        requires
            addr < PHYS_ADDR_LIMIT,
        ensures
            r@ == addr,
    {
        match phys_addr_try_new(addr) {
            Some(value) => PhysAddr { value },
            None => vstd::pervasive::unreached(),
        }
    }

    /// The address `addr`, or `None` from bit 52 on.
    pub fn try_new(addr: u64) -> (r: Option<PhysAddr>)
        ensures
            r.is_some() <==> addr < PHYS_ADDR_LIMIT,
            r.is_some() ==> r.unwrap()@ == addr,
    {
        match phys_addr_try_new(addr) {
            Some(value) => Some(PhysAddr { value }),
            None => None,
        }
    }

    /// The address as an integer, which is below 2^52.
    pub fn as_u64(self) -> (r: u64)
        ensures
            r == self@,
            r < PHYS_ADDR_LIMIT,
    {
        proof {
            use_type_invariant(self);
        }
        self.value
    }
}

/// A canonical virtual memory address.
#[derive(Clone, Copy, Debug)]
pub struct VirtAddr {
    value: u64,
}

impl View for VirtAddr {
    type V = u64;

    closed spec fn view(&self) -> u64 {
        self.value
    }
}

impl VirtAddr {
    #[verifier::type_invariant]
    spec fn valid(self) -> bool {
        self.value < LOWER_HALF_END || self.value >= UPPER_HALF_START
    }

    /// The address 0.
    pub fn zero() -> (r: VirtAddr)
        ensures
            r@ == 0,
    {
        VirtAddr { value: 0 }
    }

    /// The canonical form of `addr`, or `None` where bits 48 to 63 hold
    /// anything but a copy of bit 47 or zeros.
    pub fn try_new(addr: u64) -> (r: Option<VirtAddr>)
        ensures
            r.is_some() <==> virt_representable(addr),
            r.is_some() ==> r.unwrap()@ == canonical(addr),
    {
        match virt_addr_try_new(addr) {
            Some(value) => Some(VirtAddr { value }),
            None => None,
        }
    }

    /// The address as an integer, which lies in a canonical half.
    pub fn as_u64(self) -> (r: u64)
        ensures
            r == self@,
            r < LOWER_HALF_END || r >= UPPER_HALF_START,
    {
        proof {
            use_type_invariant(self);
        }
        self.value
    }

    /// The address `offset` bytes further on, in canonical form.
    pub fn add_offset(self, offset: u64) -> (r: VirtAddr)
        requires
            reaches(self@, offset),
        ensures
            r@ == canonical((self@ + offset) as u64),
    {
        match virt_addr_try_new(self.value + offset) {
            Some(value) => VirtAddr { value },
            None => vstd::pervasive::unreached(),
        }
    }

    /// The address `offset` bytes further on, or `None` where the sum leaves
    /// 64 bits or cannot be made canonical.
    pub fn checked_add(self, offset: u64) -> (r: Option<VirtAddr>)
        ensures
            r.is_some() <==> reaches(self@, offset),
            r.is_some() ==> r.unwrap()@ == canonical((self@ + offset) as u64),
    {
        match self.value.checked_add(offset) {
            Some(sum) => VirtAddr::try_new(sum),
            None => None,
        }
    }
}

/// A 4 KiB frame of physical memory, known by its first address.
#[derive(Clone, Copy, Debug)]
pub struct PhysFrame {
    start: u64,
}

impl View for PhysFrame {
    type V = u64;

    closed spec fn view(&self) -> u64 {
        self.start
    }
}

impl PhysFrame {
    #[verifier::type_invariant]
    spec fn valid(self) -> bool {
        self.start < PHYS_ADDR_LIMIT && self.start % PAGE_SIZE == 0
    }

    /// The frame in which `address` lies.
    pub fn containing_address(address: PhysAddr) -> (frame: PhysFrame)
        ensures
            frame@ == align_down(address@),
    {
        let addr: u64 = address.as_u64();
        let start: u64 = frame_containing(addr);
        PhysFrame { start }
    }

    /// The first address of the frame: a multiple of the page size.
    pub fn start_address(self) -> (address: PhysAddr)
        ensures
            address@ == self@,
            address@ % PAGE_SIZE == 0,
    {
        proof {
            use_type_invariant(self);
        }
        PhysAddr { value: self.start }
    }
}

/// A 4 KiB page of virtual memory, known by its first address.
#[derive(Clone, Copy, Debug)]
pub struct Page {
    start: u64,
}

impl View for Page {
    type V = u64;

    closed spec fn view(&self) -> u64 {
        self.start
    }
}

impl Page {
    #[verifier::type_invariant]
    spec fn valid(self) -> bool {
        &&& self.start < LOWER_HALF_END || self.start >= UPPER_HALF_START
        &&& self.start % PAGE_SIZE == 0
    }

    /// The page in which `address` lies.
    pub fn containing_address(address: VirtAddr) -> (page: Page)
        ensures
            page@ == align_down(address@),
    {
        let addr: u64 = address.as_u64();
        let start: u64 = page_containing(addr);
        Page { start }
    }

    /// The first address of the page: a multiple of the page size.
    pub fn start_address(self) -> (address: VirtAddr)
        ensures
            address@ == self@,
            address@ % PAGE_SIZE == 0,
    {
        proof {
            use_type_invariant(self);
        }
        VirtAddr { value: self.start }
    }
}

} // verus!
