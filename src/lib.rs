//! Startup and update-polling decisions of a desktop application shell.
//!
//! The library holds the logic; the program around it talks to the window
//! system, the persistent store, the dialog service and the updater, and
//! hands the outcomes to the functions here.
pub mod startup;
pub mod updates;
pub mod window;
