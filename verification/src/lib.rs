//! Typed deserialization of an untyped JSON value tree.
//!
//! A [`value::Value`] is a closed sum type for a parsed JSON document.
//! The [`convert::FromJson`] trait is the conversion capability: a pure
//! function from a `Value` to a typed result or a [`error::FromJsonError`].
//! Built-in capabilities cover primitives and containers; the field-mapping
//! rules in [`record`] compose them into capabilities for record types.

pub mod convert;
pub mod error;
pub mod record;
pub mod value;
