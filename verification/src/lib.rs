//! A WebDriver intermediary for webview-based desktop applications.
//!
//! The intermediary sits between a WebDriver test client and two remote
//! ends: an OS-native browser-engine driver that it launches itself, and an
//! automation plugin embedded in the application under test.  This crate
//! holds the verified core: command-line grammar, driver location decisions,
//! native-driver command construction, the session registry correlating the
//! client-visible session with both remote ends, and request routing.
//! Process spawning and network relaying live outside the library.

pub mod cli;

pub mod digits;

pub mod locate;

pub mod payload;

pub mod registry;

pub mod route;

pub mod router;

pub mod supervisor;

pub mod text;
