pub mod config;
pub mod locate;
pub mod negotiate;
pub mod orchestrate;
pub mod resolver;
pub mod validate;
