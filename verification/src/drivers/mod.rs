pub mod axis;
pub mod tmc2209;
pub mod uln2003;
