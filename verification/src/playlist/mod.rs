pub mod internal;
pub mod key;
