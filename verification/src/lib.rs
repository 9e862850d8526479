//! Encoding of USB Binary Object Store (BOS) descriptors.
//!
//! A `bos::BosDescriptor` holds an ordered list of platform capability
//! descriptors and serializes the whole structure into the exact byte
//! sequence a USB host expects during enumeration.

pub mod bos;
