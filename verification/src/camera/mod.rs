pub mod pixels;
pub mod shading;
pub mod sunlight;
pub mod shot;
