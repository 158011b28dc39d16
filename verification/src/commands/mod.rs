pub mod start;
pub mod stop;
