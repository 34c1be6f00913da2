//! A structured payload together with the schema that it was validated against.

use crate::json::{Json, JsonView};
use crate::schema::{SchemaHandle, SchemaView};
use vstd::prelude::*;

verus! {

/// A structured payload and its schema.
#[derive(Debug)]
pub struct StructuredPayload {
    schema: SchemaHandle,
    value: Json,
}

impl View for StructuredPayload {
    type V = (SchemaView, JsonView);

    closed spec fn view(&self) -> (SchemaView, JsonView) {
        (self.schema@, self.value@)
    }
}

impl StructuredPayload {
    /// The payload `value` with its schema.
    pub fn new(schema: SchemaHandle, value: Json) -> (payload: StructuredPayload)
        ensures
            payload@ == (schema@, value@),
    {
        StructuredPayload { schema, value }
    }

    /// The schema.
    pub fn schema(&self) -> (schema: &SchemaHandle)
        ensures
            schema@ == self@.0,
    {
        &self.schema
    }

    /// The payload.
    pub fn value(&self) -> (value: &Json)
        ensures
            value@ == self@.1,
    {
        &self.value
    }

    /// The schema and the payload.
    pub fn into_inner(self) -> (parts: (SchemaHandle, Json))
        ensures
            parts.0@ == self@.0,
            parts.1@ == self@.1,
    {
        (self.schema, self.value)
    }
}

impl Clone for StructuredPayload {
    fn clone(&self) -> (copy: Self)
        ensures
            copy@ == self@,
    {
        StructuredPayload { schema: self.schema.clone(), value: self.value.clone() }
    }
}

} // verus!
