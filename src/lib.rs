//! A Modbus client core over a serial (RTU) or network (TCP) transport,
//! addressed by Modicon-style register numbers.
pub mod address;
pub mod modbus;
pub mod transport;
