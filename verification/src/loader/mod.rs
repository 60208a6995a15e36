pub mod loader;
pub mod user_stack;
