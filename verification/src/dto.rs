//! Typed request bodies for the command surface the core exposes to the
//! surrounding application (model-source management). The core defines the
//! shapes; their business logic lives outside. The application-side copies
//! carry the wire-format derives; these are the plain types contracts can
//! speak about.

use vstd::prelude::*;

verus! {

/// Request to create a model entry under a source.
#[derive(Clone, Debug, PartialEq, Eq)]
pub struct CreateBody {
    pub name: String,
    pub source_id: String,
}

/// Request to rename a model entry.
#[derive(Clone, Debug, PartialEq, Eq)]
pub struct UpdateBody {
    pub id: String,
    pub name: String,
}

/// Request to switch a model entry on or off.
#[derive(Clone, Debug, PartialEq, Eq)]
pub struct EnableBody {
    pub id: String,
    pub enable: bool,
}

/// Request to mark a model entry for synchronisation.
#[derive(Clone, Debug, PartialEq, Eq)]
pub struct SyncBody {
    pub id: String,
    pub sync: bool,
}

/// Request to list the model entries of one source.
#[derive(Clone, Debug, PartialEq, Eq)]
pub struct ListBody {
    pub source_id: String,
}

/// Request that addresses one entry by its identifier.
#[derive(Clone, Debug, PartialEq, Eq)]
pub struct CommonBody {
    pub id: String,
}

} // verus!
