pub mod canvas;
pub mod spectrum;
pub mod stroke;
