//! An in-memory note store: short title/body records, keyed by a numeric id
//! that the store assigns. Ids grow monotonically and are never reused, even
//! after a delete. The store itself is single-owner; a service puts it behind
//! a lock and calls one operation at a time.

pub mod model;
pub mod note;
pub mod store;
