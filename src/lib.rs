//! A fixed-layout binary message record and the instruction dispatcher that
//! routes an envelope byte plus an encoded record to one of three operations.
pub mod word;
pub mod codec;
pub mod dispatch;
