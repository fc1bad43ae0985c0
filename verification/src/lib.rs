//! A host-side safety bridge around an embeddable, garbage-collected script
//! engine.
//!
//! The bridge lets host code create isolated execution environments, evaluate
//! source in them, exchange values with them, and react to failures.  Every
//! value handed out is tagged with the epoch of the environment that produced
//! it, and use under another environment is rejected at the API boundary.  The
//! engine's pending-exception protocol is converted into host-native fallible
//! results by a single choke point, [`bridge::handle_exception`].

pub mod assoc;
pub mod ast;
pub mod bridge;
pub mod convert;
pub mod coproduct;
pub mod ctx;
pub mod engine;
pub mod error;
pub mod laws;
pub mod lex;
pub mod opaque;
pub mod parse;
pub mod raw;
pub mod string;
pub mod value;

pub use convert::{FromJs, IntoJs};
pub use coproduct::{CNil, Coproduct};
pub use ctx::{Context, Ctx, RegisteryKey};
pub use engine::Runtime;
pub use error::Error;
pub use opaque::TypedKey;
pub use value::{Function, Module, Object, Value};
