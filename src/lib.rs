//! A field of floating city names: the timing, sampling, label and detail-panel
//! logic of the display, with the page and the network left to the host.

pub mod spawn;
pub mod text;
pub mod coord;
pub mod record;
pub mod sampler;
pub mod label;
pub mod detail;
pub mod expiry;
pub mod source;
