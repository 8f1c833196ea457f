//! The core of a service that draws progress bars as SVG images: the
//! arguments of a request are validated, completed to the fields a template
//! reads, rendered by a minijinja template and answered, each step with its
//! contract.

pub mod color;
pub mod fields;
pub mod handler;
pub mod number;
pub mod quotient;
pub mod request;
pub mod response;
pub mod rounding;
pub mod store;
pub mod template;
