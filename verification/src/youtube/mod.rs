pub mod download;
pub mod playlist;
