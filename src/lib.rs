//! Call-site extraction over the syntax tree of a plugin scripting language,
//! and reconstruction of a script's text from the calls it makes.
pub mod statement;
pub mod replace;
pub mod error;
