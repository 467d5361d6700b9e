pub mod services;
pub mod structures;
pub mod usecase;
