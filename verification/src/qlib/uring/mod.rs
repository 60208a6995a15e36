pub mod porting;
pub mod register;
