//! `GET /api/health`.

use vstd::prelude::*;

verus! {

/// The body of `GET /api/health`.
#[derive(Clone, Copy, Debug)]
pub struct Health {
    pub status: &'static str,
    pub version: &'static str,
}

/// Answers `GET /api/health`: the service is up, at `version`.
pub fn health(version: &'static str) -> (h: Health)
    ensures
        h.status@ == "ok"@,
        h.version == version,
{
    Health { status: "ok", version }
}

} // verus!
