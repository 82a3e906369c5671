//! Tagged values: closed enumerations of variants, optional values, and
//! pattern dispatch that is checked for exhaustiveness when it is defined.

pub mod datum;
pub mod dispatch;
pub mod enums;
pub mod error;
pub mod if_let;
pub mod optional;
pub mod partial;
pub mod pattern;
pub mod schema;
pub mod shape;
pub mod value;
