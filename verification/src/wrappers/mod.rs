pub mod args;
pub mod enums;
pub mod func;
