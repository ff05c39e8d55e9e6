//! Command processing for the Vial extension of the VIA keyboard configuration
//! protocol: report decoding, the combo index projection and response encoding.
pub mod codec;
pub mod combo;
pub mod vial;
