pub mod cstring;
