pub mod blockers;
pub mod documents;
pub mod failures;
pub mod operations;
pub mod providers;
pub mod requests;
pub mod responses;
pub mod tables;
