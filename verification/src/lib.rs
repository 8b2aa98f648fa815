//! Client-side logic for Baichuan (Reolink) cameras.
//!
//! The crate decides; it performs no I/O. Discovery, login digests, ability
//! gating and snapshot transfer are written as functions from plain values to
//! plain values, and as state machines that a driver feeds with what the
//! network answered.

pub mod camera;
pub mod digest;
pub mod discovery_laws;
pub mod error;
pub mod find_camera;
pub mod model;
pub mod net;
pub mod options;
pub mod registration;
pub mod search_laws;
pub mod snapshot;
pub mod snapshot_laws;
pub mod snapshot_turns;

pub use camera::{BcCamera, ReadKind, Startup};
pub use digest::{mangle_digest, md5_string, Md5Trunc};
pub use error::Error;
pub use find_camera::{CameraLocation, Command, Event, FindCamera, Method, Progress};
pub use net::{pick_tcp_sockets, pick_udp_sockets, IpAddr, SocketAddr};
pub use options::{
    BcCameraOpt, ConnectionProtocol, Credentials, DiscoveryFlags, DiscoveryMethods, PrintFormat,
};
pub use registration::Round;
pub use snapshot::{ChunkStep, SnapshotFetch, SnapshotTransfer};
