pub mod constraints;
pub mod make;
pub mod refund;
pub mod take;
pub mod update;
