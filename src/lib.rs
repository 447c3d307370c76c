//! Ships structured log records to a document-indexing service.
pub mod allocator;
pub mod credentials;
pub mod http;
pub mod json;
pub mod writer;

pub use allocator::DocumentIdAllocator;
pub use credentials::{Credentials, RequestTemplate};
pub use writer::{MeiliWriter, ShippingRequest, WriteError};
