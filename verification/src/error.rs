use vstd::prelude::*;

verus! {

/// Error taxonomy of the containment engine.
///
/// The index/query path absorbs its failures locally (a bad ring yields an
/// empty fill, a bad coordinate yields "not contained"), so the engine itself
/// never surfaces one of these; the variants exist for the loading and
/// parsing collaborators around the engine, which fail fast.  Payloads are
/// plain messages.
#[derive(Clone, Debug)]
pub enum GeoContainsError {
    Io(String),
    Json(String),
    GeoJson(String),
    InvalidCoordinate(String),
    InvalidGeometry(String),
    Other(String),
}

} // verus!
