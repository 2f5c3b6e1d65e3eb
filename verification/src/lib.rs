//! A fixed-capacity, heap-free container that keeps a type-erased value inline.
//!
//! A value enters the container as its byte representation together with a
//! descriptor: an opaque, word-sized token that stands for the concrete type
//! behind an interface, the way a dispatch-table reference does. The container
//! never inspects the descriptor. It stores the bytes in a buffer of `SIZE`
//! bytes and rebuilds a dispatchable view (bytes and descriptor) on every
//! access.

pub mod impl_fn_traits;
pub mod impl_new;
pub mod inplace;
pub mod layout;
pub mod lifecycle;
pub mod storage;

pub use impl_new::ConvertIntoInplaceBox;
pub use impl_new::IsInPlaceBox;
pub use inplace::AbstractView;
pub use inplace::AbstractViewMut;
pub use inplace::Concrete;
pub use inplace::InplaceBox;
pub use layout::Layout;
pub use layout::LayoutError;
pub use layout::Room;
pub use lifecycle::Event;
pub use lifecycle::Phase;
pub use storage::StorageCell;
