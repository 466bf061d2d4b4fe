//! Device buffers, as the engine accounts for them.

use vstd::prelude::*;

verus! {

/// A device allocation that mirrors a host slice of `host_len` items.
///
/// `allocation` identifies the device memory that the buffer owns at the
/// moment; swapping two buffers exchanges what they own and copies nothing.
#[derive(Debug, PartialEq, Eq, Structural)]
pub struct DeviceParam {
    host_len: usize,
    item_size: usize,
    allocation: usize,
}

impl DeviceParam {
    /// The number of items of the mirrored host slice.
    pub closed spec fn spec_host_len(self) -> nat {
        self.host_len as nat
    }

    /// The number of bytes of one item.
    pub closed spec fn spec_item_size(self) -> nat {
        self.item_size as nat
    }

    /// The device memory that the buffer owns at the moment.
    pub closed spec fn spec_allocation(self) -> usize {
        self.allocation
    }

    /// The number of bytes of the mirrored slice, and of the allocation.
    pub open spec fn spec_bytes(self) -> nat {
        self.spec_host_len() * self.spec_item_size()
    }

    /// The allocation has a size in bytes.
    #[verifier::type_invariant]
    pub open spec fn well_formed(self) -> bool {
        self.spec_bytes() <= usize::MAX
    }

    /// A buffer for a host slice of `host_len` items of `item_size` bytes,
    /// owning the device memory `allocation`.
    pub fn new(host_len: usize, item_size: usize, allocation: usize) -> (p: DeviceParam)
        requires
            host_len * item_size <= usize::MAX,
        ensures
            p.spec_host_len() == host_len,
            p.spec_item_size() == item_size,
            p.spec_allocation() == allocation,
    {
        DeviceParam { host_len, item_size, allocation }
    }

    /// The number of items of the mirrored host slice.
    pub fn host_len(&self) -> (n: usize)
        ensures
            n == self.spec_host_len(),
    {
        self.host_len
    }

    /// The device memory that the buffer owns at the moment.
    pub fn allocation(&self) -> (a: usize)
        ensures
            a == self.spec_allocation(),
    {
        self.allocation
    }

    /// The number of bytes of the allocation.
    pub fn bytes(&self) -> (n: usize)
        ensures
            n == self.spec_bytes(),
    {
        proof {
            use_type_invariant(self);
        }
        self.host_len * self.item_size
    }

    /// Exchanges the device memory of two buffers that mirror equally long
    /// slices. The host sides stay where they are.
    pub fn swap_device_pointer(me: &mut DeviceParam, another: &mut DeviceParam)
        requires
            old(me).spec_host_len() == old(another).spec_host_len(),
        ensures
            final(me).spec_allocation() == old(another).spec_allocation(),
            final(another).spec_allocation() == old(me).spec_allocation(),
            final(me).spec_host_len() == old(me).spec_host_len(),
            final(me).spec_item_size() == old(me).spec_item_size(),
            final(another).spec_host_len() == old(another).spec_host_len(),
            final(another).spec_item_size() == old(another).spec_item_size(),
    {
        proof {
            use_type_invariant(&*me);
            use_type_invariant(&*another);
        }
        let a: usize = me.allocation;
        me.allocation = another.allocation;
        another.allocation = a;
    }
}

/// A device-resident buffer of `size` bytes with no host side.
#[derive(Debug, PartialEq, Eq, Structural)]
pub struct DeviceData {
    size: usize,
    allocation: usize,
}

impl DeviceData {
    /// The number of bytes of the buffer.
    pub closed spec fn spec_size(self) -> nat {
        self.size as nat
    }

    /// The device memory that the buffer owns at the moment.
    pub closed spec fn spec_allocation(self) -> usize {
        self.allocation
    }

    /// A buffer of `size` bytes whose content is not initialized.
    pub fn uninitialized(size: usize, allocation: usize) -> (d: DeviceData)
        ensures
            d.spec_size() == size,
            d.spec_allocation() == allocation,
    {
        DeviceData { size, allocation }
    }

    /// A buffer that holds a copy of a host slice of `len` items of
    /// `item_size` bytes.
    pub fn upload(len: usize, item_size: usize, allocation: usize) -> (d: DeviceData)
        requires
            len * item_size <= usize::MAX,
        ensures
            d.spec_size() == len * item_size,
            d.spec_allocation() == allocation,
    {
        DeviceData { size: len * item_size, allocation }
    }

    /// Exchanges the device memory of two buffers of equal size.
    pub fn swap_device_pointer(me: &mut DeviceData, another: &mut DeviceData)
        requires
            old(me).spec_size() == old(another).spec_size(),
        ensures
            final(me).spec_allocation() == old(another).spec_allocation(),
            final(another).spec_allocation() == old(me).spec_allocation(),
            final(me).spec_size() == old(me).spec_size(),
            final(another).spec_size() == old(another).spec_size(),
    {
        let a: usize = me.allocation;
        me.allocation = another.allocation;
        another.allocation = a;
    }

    /// The number of bytes of the buffer.
    pub fn size(&self) -> (n: usize)
        ensures
            n == self.spec_size(),
    {
        self.size
    }

    /// The device memory that the buffer owns at the moment.
    pub fn allocation(&self) -> (a: usize)
        ensures
            a == self.spec_allocation(),
    {
        self.allocation
    }
}

} // verus!
