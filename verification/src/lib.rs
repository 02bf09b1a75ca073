//! A layered request pipeline: a domain record, a repository capability, a
//! create use case, a composition root, and a controller/presenter chain.

pub mod text;
pub mod kernel;
pub mod driver;
pub mod application;
pub mod inject;
pub mod adaptor;
pub mod form;
pub mod laws;
