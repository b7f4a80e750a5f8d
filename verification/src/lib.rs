pub mod entry;
pub mod json;
pub mod openapi;
pub mod response;
pub mod service;
pub mod strutil;
