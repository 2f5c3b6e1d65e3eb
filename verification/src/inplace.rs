//! The container: a storage cell, the descriptor of the value in it, and the
//! phase of that value's life.

use crate::layout::fits;
use crate::layout::room_of;
use crate::layout::Layout;
use crate::layout::Room;
use crate::lifecycle::next;
use crate::lifecycle::step;
use crate::lifecycle::Event;
use crate::lifecycle::Phase;
use crate::storage::StorageCell;
use vstd::prelude::*;

verus! {

/// A concrete value as a container takes it in: its byte representation, the
/// alignment of its type, and the descriptor under which it meets the
/// interface.
pub struct Concrete<'a, D> {
    pub bytes: &'a [u8],
    pub align: usize,
    pub descriptor: D,
}

/// A dispatchable view of a stored value: where its bytes are, and the
/// descriptor that says how to read them.
pub struct AbstractView<'a, D> {
    pub data: &'a [u8],
    pub descriptor: D,
}

/// A dispatchable view of a stored value that may change it in place.
pub struct AbstractViewMut<'a, D> {
    pub data: &'a mut [u8],
    pub descriptor: D,
}

/// A container of `SIZE` bytes for one value behind the interface that the
/// descriptor type `D` stands for.
///
/// The container is never empty. It is built around a value and holds it
/// until the value is taken out or destroyed; what is left after that offers
/// no view and only waits to be released.
pub struct InplaceBox<D, const SIZE: usize> {
    storage: StorageCell<SIZE>,
    align: usize,
    vtable: D,
    phase: Phase,
}

impl<'a, D> Concrete<'a, D> {
    /// Size and alignment of the value.
    pub open spec fn spec_layout(&self) -> Layout {
        Layout { size: self.bytes.len(), align: self.align }
    }

    /// Size and alignment of the value.
    #[verifier::when_used_as_spec(spec_layout)]
    pub fn layout(&self) -> (r: Layout)
        ensures
            r == self.spec_layout(),
    {
        Layout { size: self.bytes.len(), align: self.align }
    }
}

impl<D: Copy, const SIZE: usize> InplaceBox<D, SIZE> {
    /// The byte representation of the stored value.
    pub closed spec fn bytes(&self) -> Seq<u8> {
        self.storage@
    }

    /// Size and alignment of the stored value.
    pub closed spec fn spec_layout(&self) -> Layout {
        Layout { size: self.storage.spec_len(), align: self.align }
    }

    /// The descriptor recorded at construction.
    pub closed spec fn spec_descriptor(&self) -> D {
        self.vtable
    }

    /// Where the stored value is in its life.
    pub closed spec fn spec_phase(&self) -> Phase {
        self.phase
    }

    /// The stored value respects the room of this container. Construction
    /// establishes this, and no operation changes the layout.
    pub open spec fn wf(&self) -> bool {
        &&& fits(self.spec_layout(), room_of::<D>(SIZE))
        &&& self.spec_layout().size == self.bytes().len()
    }

    /// The container holds `value`, live, exactly as it was handed in.
    pub open spec fn holds(&self, value: Concrete<'_, D>) -> bool {
        &&& self.bytes() == value.bytes@
        &&& self.spec_descriptor() == value.descriptor
        &&& self.spec_layout() == value.spec_layout()
        &&& self.spec_phase() == Phase::Live
    }

    /// `view` is the view of the stored value: its bytes and its descriptor.
    pub open spec fn shows(&self, view: AbstractView<'_, D>) -> bool {
        &&& view.data@ == self.bytes()
        &&& view.descriptor == self.spec_descriptor()
    }

    /// Whether `value` may be kept in a container of this type.
    pub fn accepts(value: &Concrete<'_, D>) -> (r: bool)
        ensures
            r == fits(value.spec_layout(), room_of::<D>(SIZE)),
    {
        value.layout().fits_in(&Room::of::<D>(SIZE))
    }

    /// Keeps `value` in a new container without judging its layout: that it
    /// fits is for the caller to show.
    pub fn new_unchecked(value: Concrete<'_, D>) -> (r: Self)
        requires
            fits(value.spec_layout(), room_of::<D>(SIZE)),
        ensures
            r.holds(value),
            r.wf(),
    {
        InplaceBox {
            storage: StorageCell::write(value.bytes),
            align: value.align,
            vtable: value.descriptor,
            phase: Phase::Live,
        }
    }

    /// Size and alignment of the stored value.
    #[verifier::when_used_as_spec(spec_layout)]
    pub fn layout(&self) -> (r: Layout)
        ensures
            r == self.spec_layout(),
            r.size == self.bytes().len(),
            r.size <= SIZE,
    {
        Layout { size: self.storage.len(), align: self.align }
    }

    /// The descriptor recorded at construction.
    #[verifier::when_used_as_spec(spec_descriptor)]
    pub fn descriptor(&self) -> (r: D)
        ensures
            r == self.spec_descriptor(),
    {
        self.vtable
    }

    /// Where the stored value is in its life.
    #[verifier::when_used_as_spec(spec_phase)]
    pub fn phase(&self) -> (r: Phase)
        ensures
            r == self.spec_phase(),
    {
        self.phase
    }

    /// Whether the container still holds its value.
    pub fn is_live(&self) -> (r: bool)
        ensures
            r == (self.spec_phase() == Phase::Live),
    {
        match self.phase {
            Phase::Live => true,
            Phase::MovedOut => false,
        }
    }

    /// Rebuilds the view of the stored value from the storage as it is now.
    pub fn deref(&self) -> (r: AbstractView<'_, D>)
        requires
            self.spec_phase() == Phase::Live,
        ensures
            self.shows(r),
    {
        AbstractView { data: self.storage.as_slice(), descriptor: self.vtable }
    }

    /// Rebuilds the view of the stored value for writing in place. The value
    /// keeps its length; its bytes become what the borrower leaves behind.
    pub fn deref_mut(&mut self) -> (r: AbstractViewMut<'_, D>)
        requires
            old(self).spec_phase() == Phase::Live,
        ensures
            r.data@ == old(self).bytes(),
            r.descriptor == old(self).spec_descriptor(),
            final(r.data)@.len() == old(self).bytes().len(),
            final(self).bytes() == final(r.data)@,
            final(self).spec_descriptor() == old(self).spec_descriptor(),
            final(self).spec_layout() == old(self).spec_layout(),
            final(self).spec_phase() == Phase::Live,
    {
        let descriptor = self.vtable;
        AbstractViewMut { data: self.storage.as_mut_slice(), descriptor }
    }

    /// Takes the value out by copying its bytes into a cell of their own and
    /// marks the container as moved out, so that releasing it destroys
    /// nothing. A container that was moved out before gives `None`.
    pub fn extract(&mut self) -> (r: Option<StorageCell<SIZE>>)
        ensures
            r is Some <==> old(self).spec_phase() == Phase::Live,
            r matches Some(slot) ==> slot@ == old(self).bytes(),
            final(self).spec_phase() == next(old(self).spec_phase(), Event::CallOnce),
            final(self).bytes() == old(self).bytes(),
            final(self).spec_descriptor() == old(self).spec_descriptor(),
            final(self).spec_layout() == old(self).spec_layout(),
    {
        match step(self.phase, Event::CallOnce) {
            Some((after, _)) => {
                let slot = self.storage;
                self.phase = after;
                Some(slot)
            },
            None => None,
        }
    }

    /// Ends the life of the stored value when the owner releases the
    /// container. A live value is handed out once, in place, for its
    /// destructor to run on; the container is moved out from then on. A
    /// container that was moved out before gives `None` and stays as it is.
    pub fn finalize(&mut self) -> (r: Option<AbstractViewMut<'_, D>>)
        ensures
            r is Some <==> old(self).spec_phase() == Phase::Live,
            r matches Some(view) ==> {
                &&& view.data@ == old(self).bytes()
                &&& view.descriptor == old(self).spec_descriptor()
                &&& final(self).bytes() == final(view.data)@
            },
            r is None ==> final(self).bytes() == old(self).bytes(),
            final(self).spec_phase() == next(old(self).spec_phase(), Event::Release),
            final(self).spec_descriptor() == old(self).spec_descriptor(),
            final(self).spec_layout() == old(self).spec_layout(),
    {
        match step(self.phase, Event::Release) {
            Some((after, true)) => {
                self.phase = after;
                let descriptor = self.vtable;
                Some(AbstractViewMut { data: self.storage.as_mut_slice(), descriptor })
            },
            _ => None,
        }
    }
}

/// Access right after construction shows the value itself: whatever an
/// interface method computes from the bytes and the descriptor of a value, it
/// computes the same from the view of the container that holds the value.
pub proof fn lemma_access_shows_value<D: Copy, R, const SIZE: usize>(
    b: InplaceBox<D, SIZE>,
    value: Concrete<'_, D>,
    view: AbstractView<'_, D>,
    method: spec_fn(Seq<u8>, D) -> R,
)
    requires
        b.holds(value),
        b.shows(view),
    ensures
        view.data@ == value.bytes@,
        view.descriptor == value.descriptor,
        method(view.data@, view.descriptor) == method(value.bytes@, value.descriptor),
{
}

} // verus!
