//! Command sequences of the supported displays.
pub mod adafruit_thinkink_290_mfgn;
pub mod adafruit_thinkink_290_t5;
