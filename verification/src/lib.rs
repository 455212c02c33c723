//! Treat a product type whose fields all share one element type as a
//! fixed-length homogeneous array.
//!
//! The crate is a code generator in three stages, run as a straight-line
//! pipeline: [`descriptor`] turns a raw type definition into a normalized
//! descriptor, [`uniformity`] checks that every field shares the first
//! field's declared type, and [`synthesis`] emits the interface — length and
//! emptiness queries, indexed accessors, and, behind a build-time capability
//! gate, a family of view operations — in structured form, ready to be
//! rendered as source text by the surrounding build step.
//!
//! [`subjects`] holds example subject types carrying the generated interface
//! written out in full, with the contracts the generator promises for it.

pub mod descriptor;
pub mod subjects;
pub mod synthesis;
pub mod uniformity;
