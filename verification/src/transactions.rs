pub mod accounts;
pub mod bookkeeping;
pub mod records;
pub mod files;
pub mod import;
