//! The container as a callable, for descriptors that are themselves callable.
//!
//! A callable descriptor is the call operation of the stored value: it takes
//! the value's bytes and the arguments of the call. The three forms differ in
//! what the call may do to the value: read it, change it, or use it up.

use crate::inplace::InplaceBox;
use crate::lifecycle::next;
use crate::lifecycle::Event;
use crate::lifecycle::Phase;
use vstd::prelude::*;

verus! {

impl<D: Copy, const SIZE: usize> InplaceBox<D, SIZE> {
    /// The consuming call: takes the value out, marks the container as moved
    /// out, and hands the value that was taken out to its call operation,
    /// which uses it up. The container is gone after the call.
    pub fn call_once<A, R>(self, args: A) -> (r: R) where D: Fn(&[u8], A) -> R
        requires
            self.spec_phase() == Phase::Live,
            forall|data: &[u8]|
                data@ == self.bytes() ==> call_requires(self.spec_descriptor(), (data, args)),
        ensures
            exists|data: &[u8]|
                data@ == self.bytes() && call_ensures(self.spec_descriptor(), (data, args), r),
    {
        let mut husk = self;
        let call = husk.descriptor();
        match husk.extract() {
            Some(slot) => call(slot.as_slice(), args),
            None => vstd::pervasive::unreached(),
        }
    }

    /// The mutable call: forwards to the call operation of the stored value,
    /// which may change the value in place. The value stays in the container.
    pub fn call_mut<A, R>(&mut self, args: A) -> (r: R) where D: Fn(&mut [u8], A) -> R
        requires
            old(self).spec_phase() == Phase::Live,
            forall|data: &mut [u8]|
                data@ == old(self).bytes() ==> call_requires(
                    old(self).spec_descriptor(),
                    (data, args),
                ),
        ensures
            exists|data: &mut [u8]|
                data@ == old(self).bytes() && final(data)@ == final(self).bytes() && call_ensures(
                    old(self).spec_descriptor(),
                    (data, args),
                    r,
                ),
            final(self).spec_phase() == next(old(self).spec_phase(), Event::CallMut),
            final(self).spec_descriptor() == old(self).spec_descriptor(),
            final(self).spec_layout() == old(self).spec_layout(),
    {
        let view = self.deref_mut();
        let call = view.descriptor;
        call(view.data, args)
    }

    /// The shared call: forwards to the call operation of the stored value,
    /// which only reads it.
    pub fn call<A, R>(&self, args: A) -> (r: R) where D: Fn(&[u8], A) -> R
        requires
            self.spec_phase() == Phase::Live,
            forall|data: &[u8]|
                data@ == self.bytes() ==> call_requires(self.spec_descriptor(), (data, args)),
        ensures
            exists|data: &[u8]|
                data@ == self.bytes() && call_ensures(self.spec_descriptor(), (data, args), r),
    {
        let view = self.deref();
        let call = view.descriptor;
        call(view.data, args)
    }
}

} // verus!
