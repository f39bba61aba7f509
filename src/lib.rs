//! Decodes the worker table of a web server's scoreboard status page into
//! typed worker records.

pub mod data;
pub mod text;
pub mod parser;
pub mod html;
pub mod laws;
