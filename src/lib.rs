pub mod text;
pub mod json;
pub mod event;
pub mod error;
pub mod decoder;
pub mod provider;
