//! Reads and sets the polling rates of gaming mice, and decides which mouse
//! should run at which rate.
//!
//! A mouse is spoken to through a [`transport::DeviceTransport`]; everything
//! that is sent, and everything that is made of the answers, is stated as a
//! course over the history of that transport. On top of this stand the search
//! for devices, the watcher that follows running processes, and the states of
//! the terminal and the window.
pub mod answer_laws;
pub mod bytes;
pub mod catalog_laws;
pub mod cli;
pub mod config;
pub mod courses;
pub mod device_laws;
pub mod devices;
pub mod error;
pub mod gui;
pub mod gwolves;
pub mod hid_device;
pub mod interfaces;
pub mod laws;
pub mod memory_laws;
pub mod models;
pub mod payloads;
pub mod policy_laws;
pub mod probing;
pub mod process_rules;
pub mod protocols;
pub mod reading_laws;
pub mod report_laws;
pub mod reports;
pub mod run_laws;
pub mod scan_laws;
pub mod screen_laws;
pub mod snapshots;
pub mod table;
pub mod text;
pub mod text_laws;
pub mod transport;
pub mod tui;
pub mod tui_text;
pub mod view_laws;
pub mod watch;
pub mod watch_laws;
pub mod watcher;
