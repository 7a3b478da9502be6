use vstd::prelude::*;

verus! {

/// Why a resource could not be resolved.
#[derive(Debug, Clone, Copy, PartialEq, Eq, Structural)]
pub enum UuidError {
    /// The id, or a row that the resource requires, is absent.
    NotFound,
    /// The id names a kind that no builder handles.
    UnsupportedDiscriminator,
    /// An instance code is not one of the known instances.
    InvalidInstance,
    /// An entity of a kind that needs a parent has no parent link.
    EntityMissingRequiredParent,
    /// The store failed.
    DatabaseError,
}

/// Why an event could not be loaded or projected.
#[derive(Debug, PartialEq, Eq)]
pub enum EventError {
    /// The event id is absent.
    NotFound,
    /// The event's type tag is not one of the known tags.
    UnsupportedEventType,
    /// An instance code is not one of the known instances.
    InvalidInstance,
    /// The projection needs a named parameter that the event lacks.
    MissingParameter { name: String },
    /// The store failed.
    DatabaseError,
}

} // verus!
