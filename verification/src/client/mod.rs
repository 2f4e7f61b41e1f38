pub mod gemini;
pub mod vertex;
