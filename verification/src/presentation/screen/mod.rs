pub mod home;
pub mod landing;
