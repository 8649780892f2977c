pub mod cache;
pub mod clock;
pub mod compositor;
pub mod plane;
pub mod resize;
pub mod sequence;
pub mod viewer;
