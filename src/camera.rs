//! The configured cameras.

use vstd::prelude::*;

verus! {

/// One configured camera: its display name, stream address and a free note.
#[derive(Debug)]
pub struct CameraDescriptor {
    pub name: String,
    pub url: String,
    pub comment: String,
}

impl CameraDescriptor {
    pub fn new(name: String, url: String, comment: String) -> (r: CameraDescriptor)
        ensures
            r.name@ == name@,
            r.url@ == url@,
            r.comment@ == comment@,
    {
        CameraDescriptor { name, url, comment }
    }
}

} // verus!
