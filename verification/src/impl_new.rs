//! Checked construction, and absorbing a container that already exists.
//!
//! A candidate for construction is either a concrete value, which is judged
//! and then stored, or a container of the very same descriptor type and
//! capacity, which is moved as it is. Which of the two applies is settled by
//! the candidate's type.

use crate::inplace::Concrete;
use crate::inplace::InplaceBox;
use crate::layout::fits;
use crate::layout::room_of;
use crate::layout::verdict;
use crate::layout::LayoutError;
use crate::layout::Room;
use vstd::prelude::*;

verus! {

/// Implemented by the container alone: it can be moved out as it is.
pub trait IsInPlaceBox<D: Copy, const SIZE: usize>: Sized {
    /// The container that this candidate is.
    spec fn as_box(self) -> InplaceBox<D, SIZE>;

    /// Hands the container over unchanged.
    fn move_out(self) -> (r: InplaceBox<D, SIZE>)
        ensures
            r == self.as_box(),
    ;
}

impl<D: Copy, const SIZE: usize> IsInPlaceBox<D, SIZE> for InplaceBox<D, SIZE> {
    open spec fn as_box(self) -> InplaceBox<D, SIZE> {
        self
    }

    #[inline]
    fn move_out(self) -> (r: InplaceBox<D, SIZE>) {
        self
    }
}

/// A candidate for construction: something that can become a container.
pub trait ConvertIntoInplaceBox<D: Copy, const SIZE: usize>: Sized {
    /// What the conversion of this candidate gives.
    spec fn converts_to(self, r: Result<InplaceBox<D, SIZE>, LayoutError>) -> bool;

    /// Turns the candidate into a container, or says why it cannot be kept.
    fn convert_into_inplace_box(self) -> (r: Result<InplaceBox<D, SIZE>, LayoutError>)
        ensures
            self.converts_to(r),
    ;
}

impl<'a, D: Copy, const SIZE: usize> ConvertIntoInplaceBox<D, SIZE> for Concrete<'a, D> {
    /// A concrete value is judged by the validator. If it fits, the container
    /// holds it exactly as it was handed in; if not, the first broken rule is
    /// the error and no container comes to be.
    open spec fn converts_to(self, r: Result<InplaceBox<D, SIZE>, LayoutError>) -> bool {
        match verdict(self.spec_layout(), room_of::<D>(SIZE)) {
            Ok(_) => r matches Ok(b) && b.holds(self) && b.wf(),
            Err(e) => r == Err::<InplaceBox<D, SIZE>, LayoutError>(e),
        }
    }

    #[inline]
    fn convert_into_inplace_box(self) -> (r: Result<InplaceBox<D, SIZE>, LayoutError>) {
        InplaceBox::new_impl(self)
    }
}

impl<D: Copy, const SIZE: usize> ConvertIntoInplaceBox<D, SIZE> for InplaceBox<D, SIZE> {
    /// A container of the same descriptor type and capacity is taken over
    /// unchanged: nothing is judged again and nothing is stored again.
    open spec fn converts_to(self, r: Result<InplaceBox<D, SIZE>, LayoutError>) -> bool {
        r == Ok::<InplaceBox<D, SIZE>, LayoutError>(self)
    }

    #[inline]
    fn convert_into_inplace_box(self) -> (r: Result<InplaceBox<D, SIZE>, LayoutError>) {
        Ok(self.move_out())
    }
}

impl<D: Copy, const SIZE: usize> InplaceBox<D, SIZE> {
    /// Builds a container from `value`.
    ///
    /// A concrete value is stored if its size and alignment fit and the
    /// descriptor is one word; else the error names the first rule it breaks.
    /// A container of this same type is moved in unchanged.
    pub fn new<U: ConvertIntoInplaceBox<D, SIZE>>(value: U) -> (r: Result<Self, LayoutError>)
        ensures
            value.converts_to(r),
    {
        value.convert_into_inplace_box()
    }

    /// Judges `value`, then stores it.
    pub(crate) fn new_impl(value: Concrete<'_, D>) -> (r: Result<Self, LayoutError>)
        ensures
            match verdict(value.spec_layout(), room_of::<D>(SIZE)) {
                Ok(_) => r matches Ok(b) && b.holds(value) && b.wf(),
                Err(e) => r == Err::<Self, LayoutError>(e),
            },
    {
        match Room::of::<D>(SIZE).check(value.layout()) {
            Ok(_) => Ok(Self::new_unchecked(value)),
            Err(e) => Err(e),
        }
    }
}

/// A value that is larger than the capacity is turned away before anything is
/// stored: construction gives the size error and no container.
pub proof fn lemma_oversize_is_rejected<D: Copy, const SIZE: usize>(
    value: Concrete<'_, D>,
    r: Result<InplaceBox<D, SIZE>, LayoutError>,
)
    requires
        value.bytes@.len() > SIZE,
        value.converts_to(r),
    ensures
        r == Err::<InplaceBox<D, SIZE>, LayoutError>(LayoutError::InsufficientSize),
{
}

/// Construction succeeds exactly on the values that fit, and then the
/// container holds the value as it was handed in.
pub proof fn lemma_construction_succeeds_iff_fits<D: Copy, const SIZE: usize>(
    value: Concrete<'_, D>,
    r: Result<InplaceBox<D, SIZE>, LayoutError>,
)
    requires
        value.converts_to(r),
    ensures
        r is Ok <==> fits(value.spec_layout(), room_of::<D>(SIZE)),
        r matches Ok(b) ==> b.holds(value) && b.wf(),
{
}

/// Absorbing a container into a construction of its own type relocates it:
/// the bytes, the descriptor, the layout and the phase of the result are
/// those of the container that went in. Nothing is judged, and no value is
/// constructed or destroyed on the way.
pub proof fn lemma_absorb_relocates<D: Copy, const SIZE: usize>(
    b: InplaceBox<D, SIZE>,
    r: Result<InplaceBox<D, SIZE>, LayoutError>,
)
    requires
        b.converts_to(r),
    ensures
        r matches Ok(moved) && moved == b,
        r->Ok_0.bytes() == b.bytes(),
        r->Ok_0.spec_descriptor() == b.spec_descriptor(),
        r->Ok_0.spec_layout() == b.spec_layout(),
        r->Ok_0.spec_phase() == b.spec_phase(),
{
}

} // verus!
