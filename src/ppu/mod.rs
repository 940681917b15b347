pub mod palette;
pub mod object;
pub mod timing;
