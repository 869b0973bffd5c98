//! Verified domain layer for ASSIST + REBOUND test-particle propagation.
//!
//! The library holds the parts of the propagation stack that decide rather
//! than compute with floating point:
//!
//! - [`ffi`]: the integer constants and opaque handle types of the C interface.
//! - [`status`]: the error type and the mapping of REBOUND integration status codes.
//! - [`origin`]: parsing of body names and MPC observatory codes.
//! - [`data`]: the kernel catalog, cache paths, offline checks, what is stored
//!   for a download (gzip decoding) and the
//!   cache-refresh decisions of the data manager.
//! - [`digest`]: streaming MD5 with lower-case hex output and sidecar comparison.
//! - [`propagate`]: propagator configuration, force flags, variational layout
//!   and thread dispatch plans.
//! - [`ephemeris`]: partitioning of observers into worker chunks and the
//!   reassembly of per-chunk results in caller order.
//! - [`earth_orientation`]: the integer side of the DAF/PCK binary format.
//! - [`observatory`]: validation of observatory-table entry shapes and observatory placement.
//! - [`state`]: where the state of an origin comes from.
//! - [`text`]: decimal and quoted rendering used by the error messages.

pub mod ffi;
pub mod text;
pub mod status;
pub mod origin;
pub mod digest;
pub mod data;
pub mod propagate;
pub mod ephemeris;
pub mod earth_orientation;
pub mod observatory;
pub mod state;

pub use status::Error;
pub use origin::Origin;
pub use propagate::PropagatorConfig;
pub use data::{AssistDataPaths, DataError, DataManager};
