//! Desktop notifications configured through a builder, and the replies of a
//! small HTTP API that shows them.

pub mod api;
pub mod notification;
pub mod timeout;
