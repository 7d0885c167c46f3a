//! Option validation and misfire reporting for a command-line file lister.
//!
//! A tokenizer turns the raw arguments into an [`options::OptionSet`] or a
//! [`syntax::SyntaxError`]; [`validate::validate`] checks that result against a
//! [`validate::Constraints`] table and yields either a validated configuration
//! or a single [`misfire::Misfire`], which knows its exit code and its text.

pub mod syntax;
pub mod misfire;
pub mod options;
pub mod number;
pub mod validate;
