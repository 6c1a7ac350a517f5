//! A URL shortener: short codes, link creation and resolution, with the
//! decisions of each HTTP operation stated and proved.

pub mod code;
pub mod http;
pub mod link;
pub mod store;
pub mod service;
pub mod laws;
