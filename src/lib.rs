pub mod key;
pub mod addressing;
pub mod records;
pub mod ledger;
pub mod editing;
pub mod validation;
pub mod profile;
pub mod messaging;
pub mod setup;
pub mod projects;
