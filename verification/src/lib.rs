//! A statically checked binding layer for a foreign, reference-counted,
//! single-inheritance object system.
//!
//! The foreign runtime registers classes by name, lays a subclass struct out
//! so that it begins with its parent's struct, resolves virtual-method tables
//! at class-registration time, and counts references manually.  This crate
//! models that runtime's bookkeeping explicitly — a type registry, a table of
//! live instances, a log of native-method invocations, and a heap of foreign
//! allocations — and proves that the binding layer's rules (casting, handle
//! lifetime, struct layout, value marshaling, the error convention) are sound
//! over that model.

pub mod error;
pub mod foreign;
pub mod layout;
pub mod object;
pub mod refs;
pub mod runtime;

pub use error::Error;
pub use error::ErrorSlot;
pub use foreign::BorrowedMutPointer;
pub use foreign::BorrowedPointer;
pub use foreign::CloneToForeign;
pub use foreign::ForeignBorrow;
pub use foreign::ForeignBorrowMut;
pub use foreign::ForeignHeap;
pub use foreign::ForeignPtr;
pub use foreign::FromForeign;
pub use foreign::IntoNative;
pub use foreign::OwnedPointer;
pub use layout::FieldDesc;
pub use object::DeviceClass;
pub use object::DeviceImpl;
pub use object::DeviceTypeImpl;
pub use object::ObjectClass;
pub use object::ObjectImpl;
pub use object::Property;
pub use object::PropertyInfo;
pub use object::QdevPropBool;
pub use object::Registry;
pub use object::TypeInfo;
pub use object::Zeroed;
pub use refs::Owned;
pub use runtime::Runtime;
