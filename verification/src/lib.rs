//! Backend-agnostic core of a unified storage-access layer.
//!
//! The crate models capability negotiation, the polymorphic backend
//! contract, generic streaming I/O adapters (one-shot / append / multipart
//! writing, paginated listing, one-shot deletion), the OpenDrive backend's
//! decision logic, and the start/await execution bridge. All network
//! transport lives outside the library; the functions here compute request
//! plans from plain values and fold backend replies into results.

pub mod accessor;
pub mod backend;
pub mod bridge;
pub mod capability;
pub mod d1;
pub mod error;
pub mod external;
pub mod layer;
pub mod lister;
pub mod metadata;
pub mod model;
pub mod oio;
pub mod opendrive;
pub mod operator;
pub mod ops;
pub mod path;
pub mod response;
pub mod text;
pub mod writer;

pub use error::Error;
pub use error::ErrorKind;
pub use error::parse_numeric_types_error;
