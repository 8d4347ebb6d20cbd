//! MurmurHash3 (x86, 32-bit) as an incremental hasher for
//! [`std::collections::HashMap`] and [`std::collections::HashSet`].
//!
//! MurmurHash3 is not a cryptographic hash. A [`BuildMurmur`] draws one
//! seed and hands it to every [`Murmur3`] it builds; bytes are written to a
//! hasher in any number of pieces, and `finish` reads the hash of their
//! concatenation. [`model`] defines that hash, [`laws`] states what follows
//! for every stream.

use std::collections::{HashMap, HashSet};
use vstd::prelude::*;

pub mod builder;
pub mod hasher;
pub mod laws;
pub mod mix;
pub mod model;

pub use crate::builder::BuildMurmur;
pub use crate::hasher::Murmur3;

verus! {

/// A `HashMap` whose keys are hashed with [`Murmur3`].
pub type Murmur3HashMap<K, V> = HashMap<K, V, BuildMurmur>;

/// A `HashSet` whose items are hashed with [`Murmur3`].
pub type Murmur3HashSet<T> = HashSet<T, BuildMurmur>;

} // verus!
