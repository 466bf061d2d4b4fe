//! Shapes of kernel arguments and of device buffers.
//!
//! The engine never looks into the data that an argument carries: what it
//! decides (whether a device buffer is needed, how large it is, in which
//! directions it is copied) depends on the shape alone.

use vstd::prelude::*;

verus! {

/// A scalar that is copied directly into the launch arguments.
#[derive(Clone, Copy, Debug, PartialEq, Eq, Structural)]
pub enum Value {
    U32(u32),
    Bool(bool),
}

impl Value {
    /// The number of bytes that the scalar occupies.
    pub open spec fn spec_size(self) -> nat {
        match self {
            Value::U32(_) => 4,
            Value::Bool(_) => 1,
        }
    }

    /// The number of bytes that the scalar occupies.
    pub fn size(&self) -> (n: usize)
        ensures
            n == self.spec_size(),
    {
        match self {
            Value::U32(_) => 4,
            Value::Bool(_) => 1,
        }
    }
}

/// A host-side kernel argument: a scalar passed by value, or a value or slice
/// that is mirrored in a device buffer for the duration of the call.
#[derive(Clone, Copy, Debug, PartialEq, Eq, Structural)]
pub enum Param {
    /// Passed by value; no device buffer.
    InVal(Value),
    /// One value of `item_size` bytes, copied to the device before the launch.
    InRef { item_size: usize },
    /// One value, copied to the device before and back after the launch.
    InMut { item_size: usize },
    /// One value, copied back from the device after the launch.
    Out { item_size: usize },
    /// A slice of `len` items, copied to the device before the launch.
    InRefSlice { len: usize, item_size: usize },
    /// A slice, copied to the device before and back after the launch.
    InMutSlice { len: usize, item_size: usize },
    /// A slice, copied back from the device after the launch.
    OutSlice { len: usize, item_size: usize },
}

impl Param {
    /// The number of items that the argument holds.
    pub open spec fn spec_items(self) -> nat {
        match self {
            Param::InVal(_) => 1,
            Param::InRef { .. } => 1,
            Param::InMut { .. } => 1,
            Param::Out { .. } => 1,
            Param::InRefSlice { len, .. } => len as nat,
            Param::InMutSlice { len, .. } => len as nat,
            Param::OutSlice { len, .. } => len as nat,
        }
    }

    /// The number of bytes of one item.
    pub open spec fn spec_item_size(self) -> nat {
        match self {
            Param::InVal(v) => v.spec_size(),
            Param::InRef { item_size } => item_size as nat,
            Param::InMut { item_size } => item_size as nat,
            Param::Out { item_size } => item_size as nat,
            Param::InRefSlice { item_size, .. } => item_size as nat,
            Param::InMutSlice { item_size, .. } => item_size as nat,
            Param::OutSlice { item_size, .. } => item_size as nat,
        }
    }

    /// The number of bytes that the argument occupies.
    pub open spec fn spec_size(self) -> nat {
        self.spec_item_size() * self.spec_items()
    }

    /// The argument describes memory that can exist: its bytes can be counted
    /// in a `usize`.
    pub open spec fn wf(self) -> bool {
        self.spec_size() <= usize::MAX
    }

    /// Whether the host holds data that the kernel reads.
    pub open spec fn spec_has_input(self) -> bool {
        self is InRef || self is InMut || self is InRefSlice || self is InMutSlice
    }

    /// Whether the kernel writes data that the host reads afterwards.
    pub open spec fn spec_has_output(self) -> bool {
        self is InMut || self is Out || self is InMutSlice || self is OutSlice
    }

    /// Whether the argument is mirrored in a device buffer.
    pub open spec fn spec_needs_buffer(self) -> bool {
        !(self is InVal)
    }

    /// The number of items that the argument holds.
    pub fn items(&self) -> (n: usize)
        ensures
            n == self.spec_items(),
    {
        match self {
            Param::InVal(_) | Param::InRef { .. } | Param::InMut { .. } | Param::Out { .. } => 1,
            Param::InRefSlice { len, .. } => *len,
            Param::InMutSlice { len, .. } | Param::OutSlice { len, .. } => *len,
        }
    }

    /// The number of bytes of one item.
    pub fn item_size(&self) -> (n: usize)
        ensures
            n == self.spec_item_size(),
    {
        match self {
            Param::InVal(v) => v.size(),
            Param::InRef { item_size } => *item_size,
            Param::InMut { item_size } => *item_size,
            Param::Out { item_size } => *item_size,
            Param::InRefSlice { item_size, .. } => *item_size,
            Param::InMutSlice { item_size, .. } => *item_size,
            Param::OutSlice { item_size, .. } => *item_size,
        }
    }

    /// The number of bytes that the argument occupies.
    pub fn size(&self) -> (n: usize)
        requires
            self.wf(),
        ensures
            n == self.spec_size(),
    {
        self.item_size() * self.items()
    }

    /// Whether the host holds data that the kernel reads: such an argument is
    /// copied to the device before the launch.
    pub fn has_input(&self) -> (b: bool)
        ensures
            b == self.spec_has_input(),
    {
        match self {
            Param::InVal(_) => false,
            Param::InRef { .. } => true,
            Param::InMut { .. } => true,
            Param::Out { .. } => false,
            Param::InRefSlice { .. } => true,
            Param::InMutSlice { .. } => true,
            Param::OutSlice { .. } => false,
        }
    }

    /// Whether the kernel writes data that the host reads afterwards: such an
    /// argument is copied back after the launch.
    pub fn has_output(&self) -> (b: bool)
        ensures
            b == self.spec_has_output(),
    {
        match self {
            Param::InVal(_) => false,
            Param::InRef { .. } => false,
            Param::InMut { .. } => true,
            Param::Out { .. } => true,
            Param::InRefSlice { .. } => false,
            Param::InMutSlice { .. } => true,
            Param::OutSlice { .. } => true,
        }
    }

    /// What has to happen before the call: the size of the device buffer to
    /// allocate, if the argument needs one, and whether the host data is
    /// copied into it.
    pub fn before_call(&self) -> (r: Option<(usize, bool)>)
        requires
            self.wf(),
        ensures
            r is Some <==> self.spec_needs_buffer(),
            r matches Some(b) ==> b.0 == self.spec_size() && b.1 == self.spec_has_input(),
    {
        match self {
            Param::InVal(_) => None,
            _ => Some((self.size(), self.has_input())),
        }
    }
}

} // verus!
