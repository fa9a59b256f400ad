//! Request handling decisions and the records they produce.

pub mod chat;
pub mod json_text;
pub mod stamp;
