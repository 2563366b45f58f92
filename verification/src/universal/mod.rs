pub mod null_return;
pub mod try_cast;
pub mod d3d;
pub mod d2d;
