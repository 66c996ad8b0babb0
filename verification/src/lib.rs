//! Release-channel selection for the desktop application.
//!
//! A compatibility build is marked at build time; it is distributed through
//! manual releases so that upstream updates cannot remove its patch.
//! Ordinary builds keep the upstream release page.
pub mod distribution;
