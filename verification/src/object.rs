//! Objects and their references.

use vstd::prelude::*;

use crate::bytes::{same_digest, Digest, ObjectId};
use crate::error::DecodeError;
use crate::sdk;
use crate::sdk::object_reference_of;
use crate::views::result_view;

verus! {

/// An object at one version, with the digest of its contents.
#[derive(Clone, Copy, Debug, PartialEq, Eq)]
pub struct ObjectRef {
    pub object_id: ObjectId,
    pub version: u64,
    pub digest: Digest,
}

impl ObjectRef {
    /// Tells whether two references are the same.
    pub fn same(&self, other: &ObjectRef) -> (same: bool)
        ensures
            same == (*self == *other),
    {
        same_digest(&self.object_id, &other.object_id) && self.version == other.version
            && same_digest(&self.digest, &other.digest)
    }
}

/// What an object is: its encoding and its reference.
pub struct ObjectView {
    pub bcs: Seq<u8>,
    pub reference: ObjectRef,
}

/// The object that `bcs` encodes.
pub open spec fn object_from_bcs(bcs: Seq<u8>) -> Result<ObjectView, DecodeError> {
    match object_reference_of(bcs) {
        Some(reference) => Ok(ObjectView { bcs, reference }),
        None => Err(DecodeError::Object),
    }
}

/// The contents of an object.
#[derive(Debug)]
pub struct Object {
    bcs: Vec<u8>,
    reference: ObjectRef,
}

impl View for Object {
    type V = ObjectView;

    closed spec fn view(&self) -> ObjectView {
        ObjectView { bcs: self.bcs@, reference: self.reference }
    }
}

impl Object {
    #[verifier::type_invariant]
    spec fn inv(self) -> bool {
        object_from_bcs(self.bcs@) == Ok::<_, DecodeError>(self@)
    }

    /// Decodes an object from the versioned BCS form of the gRPC API.
    pub fn from_bcs(bcs: Vec<u8>) -> (object: Result<Object, DecodeError>)
        ensures
            result_view(object) == object_from_bcs(bcs@),
            match object {
                Ok(object) => object@.bcs == bcs@ && object_reference_of(bcs@) == Some(
                    object@.reference,
                ),
                Err(error) => error == DecodeError::Object && object_reference_of(bcs@) is None,
            },
    {
        match sdk::object_reference(&bcs) {
            Ok(reference) => Ok(Object { bcs, reference }),
            Err(_) => Err(DecodeError::Object),
        }
    }

    /// The encoding of this object.
    pub fn bcs(&self) -> (bcs: &Vec<u8>)
        ensures
            bcs@ == self@.bcs,
            object_from_bcs(bcs@) == Ok::<_, DecodeError>(self@),
    {
        proof {
            use_type_invariant(self);
        }
        &self.bcs
    }

    /// The reference computed from the contents of this object.
    pub fn compute_object_reference(&self) -> (reference: ObjectRef)
        ensures
            reference == self@.reference,
            object_reference_of(self@.bcs) == Some(reference),
    {
        proof {
            use_type_invariant(self);
        }
        self.reference
    }
}

} // verus!
