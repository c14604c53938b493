//! Permission newtypes for permission-based access control.
//!
//! Each wraps the name of a granted permission.  Writing and appending are
//! separate because appending can be hard for some storage; the same holds
//! for truncation.

use vstd::prelude::*;

verus! {

/// Permission to read an entity.
#[derive(Debug, Eq, PartialEq, Ord, PartialOrd, Hash)]
pub struct Read(String);

/// Permission to write an entity.
#[derive(Debug, Eq, PartialEq, Ord, PartialOrd, Hash)]
pub struct Write(String);

/// Permission to append to an entity.
#[derive(Debug, Eq, PartialEq, Ord, PartialOrd, Hash)]
pub struct Append(String);

/// Permission to truncate an entity.
#[derive(Debug, Eq, PartialEq, Ord, PartialOrd, Hash)]
pub struct Truncate(String);

} // verus!
