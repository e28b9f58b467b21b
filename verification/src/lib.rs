pub mod ports;
pub mod split_flap;
pub mod split_flap_display;
pub mod stepper;
pub mod terminate;
