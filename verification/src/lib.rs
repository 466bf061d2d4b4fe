//! GPU acceleration of finite-field and elliptic-curve arithmetic: what is
//! decided on the host.
//!
//! The crate has two halves. The first synthesizes kernel source: from the
//! descriptions of fields and curves it assembles one document per limb
//! width, with the Montgomery constants of every field, its type
//! definitions and carry chains, and the routines over it
//! ([`builder`], [`synthesis`], [`template`], [`limb`], [`montgomery`]),
//! and it names the compiled artifact by the digest of its content
//! ([`compile`]). The second plans the work of the device: who may hold a
//! session ([`context`]), which transfers and launches an invocation is
//! made of and in which order they run ([`kernel`], [`params`],
//! [`buffer`]), and how multiexponentiation and the FFT over curve points
//! are cut into launches ([`multiexp`], [`ec_fft`]).
//!
//! The crate performs no input or output and drives no device. A caller
//! reads the templates, writes the documents, runs the compiler and
//! performs the recorded device operations.

pub mod buffer;
pub mod builder;
pub mod compile;
pub mod context;
pub mod ec_fft;
pub mod error;
pub mod framework;
pub mod kernel;
pub mod limb;
pub mod math;
pub mod montgomery;
pub mod multiexp;
pub mod name_set;
pub mod pairing_suite;
pub mod params;
pub mod synthesis;
pub mod template;
pub mod text;
pub mod types;
