//! Logic of the CYW43 WiFi chip driver over its gSPI bus.
pub mod bits;
pub mod bus;
pub mod chip;
pub mod consts;
pub mod control;
pub mod headers;
pub mod init;
pub mod transfer;
