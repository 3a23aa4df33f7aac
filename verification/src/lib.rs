//! Request pipeline for a catalog backend: bearer-token verification, the
//! authentication gate, the request logger and the composition of those
//! stages per route group, with the small rules the account services rely on.

pub mod accounts;
pub mod catalog;
pub mod date_time;
pub mod forms;
pub mod gate;
pub mod logger;
pub mod machine;
pub mod paging;
pub mod pipeline;
pub mod routes;
pub mod text;
pub mod token;
pub mod validation;
