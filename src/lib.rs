//! Board support for the main processor of the Crazyflie 2.1: the LEDs, the motors and the
//! framed serial link to the radio processor.
//!
//! The library holds the state and the rules of each part; driving the pins, the timers and
//! the UART itself is left to the integration layer.
pub mod led;
pub mod motor;
pub mod uart_syslink;
