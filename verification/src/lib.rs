//! The decisions of the PixelVault menubar app, verified.
//!
//! The app turns a copied or captured image into a hosted URL on the clipboard.
//! This crate holds what it computes and decides: the trial counter and the
//! recent list (`state`), the upload form and its replies (`upload`), sign-in
//! (`auth`), the clipboard watcher (`watcher`), the hotkey capture (`capture`),
//! the tray menu (`tray`) and the upload pipeline (`desktop`). The shell around
//! it does the clipboard, keychain, network, file and window work.

pub mod auth;
pub mod capture;
pub mod config;
pub mod desktop;
pub mod state;
pub mod text;
pub mod tray;
pub mod upload;
pub mod watcher;
