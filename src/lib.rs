pub mod model;
pub mod pstack;
pub mod stack;
