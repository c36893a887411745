//! Acquisition and decoding of the MNIST and CIFAR image benchmarks.
//!
//! The decoders for the two binary layouts (IDX and fixed-size records) and the
//! cache decisions live here, verified; reading files and talking to the network
//! is left to the caller, which hands over plain bytes and flags.
pub mod error;
pub mod records;
pub mod idx;
pub mod wire;
pub mod cache;
pub mod mnist;
pub mod cifar10;
pub mod cifar100;
pub mod testtools;
