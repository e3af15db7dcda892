//! A link between two bodies, measured through their handles.

use crate::arena::{body_get, body_map, BodySet, Handle};
use crate::scalar::Real;
use crate::vector::{v3_mag, v3_sub};
use vstd::prelude::*;

verus! {

/// Two linked bodies, named by their handles.
pub struct Link {
    pub body_handle: Handle,
    pub other_body_handle: Handle,
}

impl Link {
    /// The current distance between the linked bodies, or nothing when
    /// either handle is stale.
    pub fn length(&self, bodies: &BodySet) -> (r: Option<Real>)
        ensures
            match r {
                Some(len) => body_map(*bodies).dom().contains(self.body_handle) && body_map(
                    *bodies,
                ).dom().contains(self.other_body_handle) && len as int == v3_mag(
                    v3_sub(
                        body_map(*bodies)[self.body_handle].position,
                        body_map(*bodies)[self.other_body_handle].position,
                    ),
                ),
                None => !body_map(*bodies).dom().contains(self.body_handle) || !body_map(
                    *bodies,
                ).dom().contains(self.other_body_handle),
            },
    {
        let body = match body_get(bodies, self.body_handle) {
            Some(b) => b,
            None => {
                return None;
            },
        };
        let other_body = match body_get(bodies, self.other_body_handle) {
            Some(b) => b,
            None => {
                return None;
            },
        };
        Some(body.position.sub(&other_body.position).magnitude())
    }
}

} // verus!
