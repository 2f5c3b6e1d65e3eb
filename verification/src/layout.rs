//! Size and alignment rules: when a value may be kept in a container.

use vstd::layout::align_of;
use vstd::layout::size_of;
use vstd::prelude::*;

verus! {

/// Size and alignment of a concrete value, in bytes.
#[derive(Clone, Copy, Debug, PartialEq, Eq, Structural)]
pub struct Layout {
    pub size: usize,
    pub align: usize,
}

/// What a container offers to a value.
#[derive(Clone, Copy, Debug, PartialEq, Eq, Structural)]
pub struct Room {
    /// Bytes reserved inline for the value.
    pub capacity: usize,
    /// Largest alignment a stored value may ask for: that of the descriptor.
    pub align: usize,
    /// Size of the descriptor type.
    pub descriptor_size: usize,
    /// Size of a machine word.
    pub word: usize,
}

/// Why a value cannot be kept in a container.
#[derive(Clone, Copy, Debug, PartialEq, Eq, Structural)]
pub enum LayoutError {
    /// The value is larger than the container's capacity.
    InsufficientSize,
    /// The value asks for more alignment than the storage guarantees.
    ExcessiveAlignment,
    /// The descriptor is not one word, so a view would not be a pair of a data
    /// address and a descriptor.
    NotDynInterface,
}

/// The validator's answer for a value of layout `layout` offered to `room`.
/// Size is judged first, then alignment, then the shape of the descriptor.
pub open spec fn verdict(layout: Layout, room: Room) -> Result<(), LayoutError> {
    if layout.size > room.capacity {
        Err(LayoutError::InsufficientSize)
    } else if layout.align > room.align {
        Err(LayoutError::ExcessiveAlignment)
    } else if room.descriptor_size != room.word {
        Err(LayoutError::NotDynInterface)
    } else {
        Ok(())
    }
}

/// A value of layout `layout` may be kept in `room`.
pub open spec fn fits(layout: Layout, room: Room) -> bool {
    &&& layout.size <= room.capacity
    &&& layout.align <= room.align
    &&& room.descriptor_size == room.word
}

/// The room of a container of `SIZE` bytes whose descriptors have type `D`.
pub open spec fn room_of<D>(capacity: usize) -> Room {
    Room {
        capacity,
        align: align_of::<D>() as usize,
        descriptor_size: size_of::<D>() as usize,
        word: size_of::<usize>() as usize,
    }
}

impl Layout {
    /// The layout of the type `U`.
    pub fn of<U>() -> (r: Layout)
        ensures
            r.size as nat == size_of::<U>(),
            r.align as nat == align_of::<U>(),
    {
        Layout { size: core::mem::size_of::<U>(), align: core::mem::align_of::<U>() }
    }

    /// Whether a value of this layout may be kept in `room`.
    pub fn fits_in(&self, room: &Room) -> (r: bool)
        ensures
            r == fits(*self, *room),
    {
        self.size <= room.capacity && self.align <= room.align && room.descriptor_size
            == room.word
    }
}

impl Room {
    /// The room of a container of `capacity` bytes whose descriptors have type `D`.
    pub fn of<D>(capacity: usize) -> (r: Room)
        ensures
            r == room_of::<D>(capacity),
    {
        Room {
            capacity,
            align: core::mem::align_of::<D>(),
            descriptor_size: core::mem::size_of::<D>(),
            word: core::mem::size_of::<usize>(),
        }
    }

    /// Judges a value of layout `layout`: `Ok` exactly when it fits, else the
    /// first rule it breaks.
    pub fn check(&self, layout: Layout) -> (r: Result<(), LayoutError>)
        ensures
            r == verdict(layout, *self),
            r is Ok <==> fits(layout, *self),
    {
        if layout.size > self.capacity {
            Err(LayoutError::InsufficientSize)
        } else if layout.align > self.align {
            Err(LayoutError::ExcessiveAlignment)
        } else if self.descriptor_size != self.word {
            Err(LayoutError::NotDynInterface)
        } else {
            Ok(())
        }
    }
}

impl LayoutError {
    /// The text of the failed check.
    pub fn message(&self) -> (r: &'static str)
        ensures
            r@ == message_of(*self),
    {
        match self {
            LayoutError::InsufficientSize => "Insufficient size of `InplaceBox` to store the object",
            LayoutError::ExcessiveAlignment => "Value alignment exceeds maximum allowed alignment",
            LayoutError::NotDynInterface => "`InplaceBox` only works for `dyn Trait` types",
        }
    }
}

/// The text that goes with each failed check.
pub open spec fn message_of(e: LayoutError) -> Seq<char> {
    match e {
        LayoutError::InsufficientSize => "Insufficient size of `InplaceBox` to store the object"@,
        LayoutError::ExcessiveAlignment => "Value alignment exceeds maximum allowed alignment"@,
        LayoutError::NotDynInterface => "`InplaceBox` only works for `dyn Trait` types"@,
    }
}

/// The verdict is `Ok` exactly on the values that fit.
pub proof fn lemma_verdict_ok_iff_fits(layout: Layout, room: Room)
    ensures
        verdict(layout, room) is Ok <==> fits(layout, room),
        layout.size > room.capacity ==> verdict(layout, room) == Err::<(), LayoutError>(
            LayoutError::InsufficientSize,
        ),
{
}

} // verus!
