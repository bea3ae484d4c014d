//! Real-time audio features: the descriptors of one analysis cycle, the
//! store that holds the latest of them, the integer side of the spectral
//! analysis, the message that carries them over the network, and the
//! decisions of the capture and broadcast services.

pub mod binary32;
pub mod features;
pub mod samples;
pub mod bands;
pub mod analyzer;
pub mod wire;
pub mod receiver;
pub mod server;
pub mod capture;
