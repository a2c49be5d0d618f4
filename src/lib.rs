pub mod array_vec;
pub mod blinky;
pub mod feature_disable;
pub mod init;
pub mod input_signal;
pub mod plic;
pub mod router;
pub mod stepper_motor;
pub mod timer;
