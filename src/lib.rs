//! Turns a process's argument list into a validated search request, and a
//! few small record types with owned text fields.
pub mod request;
pub mod decimal;
pub mod person;
pub mod records;
