//! The panels of the shell. Everything here runs on the UI thread, once per
//! frame, and never waits.

pub mod agenda;
pub mod billing;
pub mod management;
pub mod patient_files;

pub use agenda::Agenda;
pub use billing::Billing;
pub use management::Management;
pub use patient_files::PatientFiles;
