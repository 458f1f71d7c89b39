//! Task records for a hosted document database: the shape of a new task, the
//! requests a command turns into, and the text a listing prints.

pub mod listing;
pub mod model;
pub mod request;
pub mod session;
