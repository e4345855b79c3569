pub mod bus;
pub mod hl;
pub mod ll;
