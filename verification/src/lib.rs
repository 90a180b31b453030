//! Companion-client core: session bootstrap, match discovery and the
//! multi-source merge that produces a single match projection.
//!
//! The crate is organised around the pipeline stages: `lockfile` parses the
//! local client descriptor, `sessions` derives the play-session parameters,
//! `presence` decodes locally observed player presences, `seasons` and
//! `agents` hold the reference catalogs, `matchdata` normalises the raw
//! match payloads, `mmr` filters per-player rank history, `projection`
//! builds the display-ready view, and `pipeline` ties the stages together
//! over a shared session state.

pub mod agents;
pub mod entitlements;
pub mod lockfile;
pub mod matchdata;
pub mod mmr;
pub mod names;
pub mod pipeline;
pub mod presence;
pub mod projection;
pub mod seasons;
pub mod seqs;
pub mod sessions;
pub mod text;

use vstd::prelude::*;

verus! {

} // verus!
