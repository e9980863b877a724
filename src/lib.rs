//! Real-time audio mixing engine: verified control logic for the denoising
//! pipeline and its adaptive controller, the plugin round-trip protocol, the
//! shared sample buffer, the channel strip's routing steps, metering
//! bookkeeping and the plugin catalogue.
pub mod catalog;
pub mod channel;
pub mod denoise;
pub mod fifo;
pub mod meter;
pub mod plugin;
pub mod routing;
pub mod session;
pub mod suppressor;
