//! Request handling, validation and record keeping of the BlackWell messaging API.
pub mod text;
pub mod checks;
pub mod verification;
pub mod records;
pub mod schemas;
pub mod ratelimiter;
pub mod systems;
pub mod endpoints;
pub mod db;
