//! The SweetRPG landing page (`main-web`): suite branding, a light/dark/system theme toggle,
//! and a card grid linking out to each app of the suite, decorated with `admin-api` banners
//! and maintenance badges and with the visitor's shared session.
//!
//! This crate holds what the page decides, with its contracts: the configuration read at
//! startup, the build metadata, locale resolution and translation, the app cards and their
//! maintenance badges, the page assembly and its HTML, the `admin-api` cache, and the reading
//! of the shared session. The service binary around it does the I/O.

pub mod admin;
pub mod build_info;
pub mod config;
pub mod i18n;
pub mod landing;
pub mod render;
pub mod session;
pub mod state;
pub mod text;
