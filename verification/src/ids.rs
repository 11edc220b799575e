//! Typed identifiers for layers, features and attachments.

use vstd::prelude::*;
use crate::text::{dec_digits, u32_text};

verus! {

/// Layer ID within a feature or map service.
#[derive(Debug, Clone, Copy, PartialEq, Eq, PartialOrd, Ord, Hash, Structural)]
pub struct LayerId(pub u32);

impl LayerId {
    /// Creates a new layer ID.
    pub fn new(id: u32) -> (r: Self)
        ensures
            r.0 == id,
    {
        LayerId(id)
    }

    /// Returns the inner ID value.
    pub fn get(&self) -> (r: u32)
        ensures
            r == self.0,
    {
        self.0
    }

    /// The decimal text of the ID, as its `Display` writes it.
    pub fn to_string(&self) -> (r: String)
        ensures
            r@ == dec_digits(self.0 as nat),
    {
        u32_text(self.0)
    }
}

impl From<u32> for LayerId {
    fn from(id: u32) -> (r: Self) {
        LayerId(id)
    }
}

impl vstd::std_specs::convert::FromSpecImpl<u32> for LayerId {
    open spec fn obeys_from_spec() -> bool {
        true
    }

    open spec fn from_spec(v: u32) -> LayerId {
        LayerId(v)
    }
}

/// Object ID of a feature within a layer.
#[derive(Debug, Clone, Copy, PartialEq, Eq, PartialOrd, Ord, Hash, Structural)]
pub struct ObjectId(pub u32);

impl ObjectId {
    /// Creates a new object ID.
    pub fn new(id: u32) -> (r: Self)
        ensures
            r.0 == id,
    {
        ObjectId(id)
    }

    /// Returns the inner ID value.
    pub fn get(&self) -> (r: u32)
        ensures
            r == self.0,
    {
        self.0
    }

    /// The decimal text of the ID, as its `Display` writes it.
    pub fn to_string(&self) -> (r: String)
        ensures
            r@ == dec_digits(self.0 as nat),
    {
        u32_text(self.0)
    }
}

impl From<u32> for ObjectId {
    fn from(id: u32) -> (r: Self) {
        ObjectId(id)
    }
}

impl vstd::std_specs::convert::FromSpecImpl<u32> for ObjectId {
    open spec fn obeys_from_spec() -> bool {
        true
    }

    open spec fn from_spec(v: u32) -> ObjectId {
        ObjectId(v)
    }
}

/// Attachment ID of an attachment within a feature.
#[derive(Debug, Clone, Copy, PartialEq, Eq, PartialOrd, Ord, Hash, Structural)]
pub struct AttachmentId(pub u32);

impl AttachmentId {
    /// Creates a new attachment ID.
    pub fn new(id: u32) -> (r: Self)
        ensures
            r.0 == id,
    {
        AttachmentId(id)
    }

    /// Returns the inner ID value.
    pub fn get(&self) -> (r: u32)
        ensures
            r == self.0,
    {
        self.0
    }

    /// The decimal text of the ID, as its `Display` writes it.
    pub fn to_string(&self) -> (r: String)
        ensures
            r@ == dec_digits(self.0 as nat),
    {
        u32_text(self.0)
    }
}

impl From<u32> for AttachmentId {
    fn from(id: u32) -> (r: Self) {
        AttachmentId(id)
    }
}

impl vstd::std_specs::convert::FromSpecImpl<u32> for AttachmentId {
    open spec fn obeys_from_spec() -> bool {
        true
    }

    open spec fn from_spec(v: u32) -> AttachmentId {
        AttachmentId(v)
    }
}

} // verus!
