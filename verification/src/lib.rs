//! The boundary layer of a GraphQL engine.
//!
//! Two things happen where the engine meets the outside. A finished result
//! is turned into a transport response: a body, a media type, a cache
//! directive where one applies, and the headers that resolvers asked for
//! (`transport`). And a value that is serialized already is carried through
//! the engine under the type that the schema declares for it, without being
//! parsed or serialized again (`raw`).

pub mod base;
pub mod cache_control;
pub mod error;
pub mod header;
pub mod numeral;
pub mod raw;
pub mod registry;
pub mod response;
pub mod scalars;
pub mod transport;
pub mod value;

pub use base::{InputType, OutputType};
pub use cache_control::CacheControl;
pub use error::{InputValueError, InputValueResult, Refusal, ServerError, ServerResult};
pub use raw::RawType;
pub use registry::Registry;
pub use response::{BatchResponse, HeaderOverride, Members, Response};
pub use transport::{GraphQLBatchResponse, GraphQLResponse, HttpResponse};
pub use value::Value;
