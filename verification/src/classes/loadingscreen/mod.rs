//! Loading screens.
pub mod loadingscreen;

pub use loadingscreen::LoadingScreen;
