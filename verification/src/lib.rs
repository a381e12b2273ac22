//! Reactive state layer for a real-time interactive application.
//!
//! Scattered, independently-authored gameplay signals (proximity checks,
//! input events, dialogue activity, controller phase) are merged into a
//! small number of coherent, edge-triggered outcomes: the crosshair glyph
//! and its visibility, and the character animation selection.
//!
//! The two leaf components are [`registry::ClaimRegistry`], a per-entity
//! store of named boolean conditions each backed by a set of claimant
//! identities, and [`animation::DirectiveEngine`], which turns a
//! continuously recomputed animation intent into discrete transition
//! directives.

pub mod animation;
pub mod claims;
pub mod registry;
pub mod transitions;
