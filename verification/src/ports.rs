//! Opaque handles of libports' port classes and buckets.
use vstd::prelude::*;

verus! {

/// A libports port class; only ever seen behind a pointer.
pub struct port_class {
    _opaque: (),
}

/// A libports port bucket; only ever seen behind a pointer.
pub struct port_bucket {
    _opaque: (),
}

} // verus!
