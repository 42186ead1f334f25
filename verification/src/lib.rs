//! Verified logic of a set of embedded drivers: ADC resolutions, a byte ring
//! buffer and the UARTE state machine built on it, a peripheral mutex, an EXTI
//! pin manager, the nRF boot configuration sequence, and the framing, windowing
//! and parsing rules of a CYW43 gSPI bus driver.
pub mod adc;
pub mod crc;
pub mod cyw43;
pub mod exti;
pub mod flash;
pub mod nrf;
pub mod peripheral;
pub mod ring_buf;
pub mod usart;
pub mod uarte;
