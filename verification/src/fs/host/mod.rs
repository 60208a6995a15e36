pub mod tty;
pub mod util;
