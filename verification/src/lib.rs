//! Request validation for the authentication boundary: raw sign-in and
//! sign-up requests are converted into validated, strongly typed parameter
//! objects, or rejected with the single rule they broke, before any business
//! logic sees them. Validation is fail-fast: fields are checked in a fixed
//! order and the first failure wins.

pub mod auth;
pub mod errors;
pub mod parser;
