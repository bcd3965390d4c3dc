//! Stringly-typed data for the entities of an entity-component system.
//!
//! - [`props`]: named properties of an entity or of the world. A property
//!   is a [`value::Value`]: a boolean, a number or a text.
//! - [`links`]: named links from one entity to others.
//! - [`registry`]: entities found by a name of their own or by their class.
//!
//! A property that was never set, or that is read as another type than it
//! holds, reads as the zero value of the type asked for: nothing here
//! fails on a missing or mistyped property.
//!
//! Numbers are in the IEEE-754 binary32 format and are held as bit
//! patterns, see [`number`]. The library compares them and flips their
//! sign; arithmetic on two numbers is left to the caller, see [`arith`].

pub mod arith;
pub mod entities;
pub mod laws;
pub mod links;
pub mod name_map;
pub mod names;
pub mod number;
pub mod plain;
pub mod prelude;
pub mod props;
pub mod registry;
pub mod text;
pub mod value;
