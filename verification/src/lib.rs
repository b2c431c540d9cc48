//! Decision logic for a derive that exposes Rust types to an embedded Ruby
//! interpreter as typed data objects.
//!
//! The derive itself assembles token streams, which is outside the scope of
//! verification; everything the derive has to *decide* — which attribute keys
//! are recognised and what each one changes, how a configuration is resolved,
//! in which order the data-type builder flags are emitted, which accessor a
//! field gets, and how a Ruby class path splits into modules — is ordinary
//! logic on plain values, and is specified and verified here.

pub mod accessors;
pub mod attrs;
pub mod builder;
pub mod classpath;
pub mod generics;
pub mod strutil;
