//! A capability bridge between a dynamically typed scripting runtime and a
//! native windowing/graphics/input subsystem.
//!
//! The bridge has three layers: a uniform object protocol that lets opaque
//! native resources masquerade as script-visible values ([`objects`]), an
//! argument decoder that turns untyped script call arguments into validated
//! native parameters ([`decode`]), and an event marshaller that turns every
//! native event variant into one generic tagged-record shape ([`event`]).
//!
//! The native subsystem itself (window creation, rendering, event polling) is
//! driven by the embedding program: the library decides, the embedder acts.
//! Every decision — which native call a script request denotes, with which
//! validated parameters, or which record a native event becomes — is made
//! here and verified.

pub mod value;

pub mod error;

pub mod objects;

pub mod decode;

pub mod options;

pub mod text;

pub mod event;
