//! By-address identity for pointer-like values.
//!
//! [`ByAddress`] and [`ByThinAddress`] wrap a pointer-like value and give it
//! equality, ordering, and hashing based on the address of its pointee rather
//! than on the pointee's value.
//!
//! A pointer-like value is modelled here by [`Pointer`]: the data address of
//! its pointee, the secondary word that a fat pointer carries (a slice length
//! or a dispatch-table address; absent for a thin pointer), and the pointee
//! value itself.  The two wrappers differ only in how they treat the secondary
//! word: [`ByAddress`] compares and hashes the full pointer fingerprint (data
//! address and secondary word), while [`ByThinAddress`] uses the data address
//! alone.

pub mod by_address;
pub mod by_thin_address;
pub mod dedup;
pub mod pointer;
pub mod render;

pub use by_address::ByAddress;
pub use by_thin_address::ByThinAddress;
pub use dedup::first_occurrence_indices;
pub use pointer::Pointer;
pub use render::RenderPointee;
