//! JSON-RPC 2.0 messages: how they are built, written as JSON, and told
//! apart when read.
//!
//! [`JsonRpc`] is a message of any of the four kinds: request, notification,
//! success, error. [`JsonRpc::to_json`] writes a message as a JSON document,
//! and [`JsonRpc::from_json`] tells what message a JSON document is, from
//! the members that the document has. Both are stated over mathematical
//! models: [`wire`] says what the wire form of a message is, [`classify`]
//! what message a document is, and [`laws`] what holds of the two together.
//!
//! Text is read and written by `serde_json`, in [`text`], and the members
//! of an object are found by their names through `serde_json`'s map, in
//! [`index`]: these two are the parts of the crate that are trusted and not
//! proved.

pub mod classify;
pub mod equality;
pub mod error;
pub mod id;
pub mod index;
pub mod json;
pub mod laws;
pub mod names;
pub mod number;
pub mod params;
pub mod rpc_methods;
pub mod rpc_object;
pub mod text;
pub mod version;
pub mod wire;

pub use crate::error::Error as RpcError;
pub use crate::error::ErrorCode;
pub use crate::error::IntoData;
pub use crate::id::Id;
pub use crate::id::IntoId;
pub use crate::json::Json;
pub use crate::json::Object;
pub use crate::number::Number;
pub use crate::number::NumberKind;
pub use crate::params::IntoParams;
pub use crate::params::Params;
pub use crate::rpc_object::JsonRpc;
pub use crate::version::VersionError;
