pub mod peripheral;
pub mod signal;
pub mod uarte;
pub mod laws;
pub mod pll;
