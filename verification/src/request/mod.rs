pub mod gemini;
pub mod generic;
pub mod image;
pub mod vertex;
