pub mod encoding;
pub mod helpers;
pub mod metadata;
pub mod text;
