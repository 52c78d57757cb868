//! Peer-to-peer voice calls: the parts that decide and compute.
//!
//! Sound travels from a microphone through a resampler into a ring, from the
//! ring through the Opus encoder onto a stream of packets, and back again on
//! the other side. Device access, the network and the two codecs themselves
//! belong to the program around this library.
pub mod audio;
pub mod cli;
pub mod commute;
pub mod defer;
pub mod device;
pub mod frame;
pub mod handle;
pub mod identity;
pub mod lpc;
pub mod opus;
pub mod packet;
pub mod peer;
pub mod phone;
pub mod queue;
pub mod report;
pub mod ring;
pub mod speex;
pub mod terminal;
pub mod voice;
pub mod word;
