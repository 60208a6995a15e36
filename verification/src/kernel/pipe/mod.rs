pub mod pipe;
pub mod reader_writer;
