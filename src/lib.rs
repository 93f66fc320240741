pub mod clipboard;
pub mod delivery;
pub mod keyboard;
pub mod protocol;
pub mod session;
pub mod text;
