//! The root image builder: a manifest of files, the image written from it, and
//! the reader that gets the files back.
pub mod error;
pub mod image;
pub mod laws;
pub mod manifest;
pub mod path_laws;
pub mod plan;
pub mod plan_laws;
pub mod read_laws;
pub mod same_laws;
pub mod verify;
