pub mod readonly_file;
pub mod seek;
