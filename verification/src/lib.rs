//! Mirroring engine for a remote distributed filesystem that is reached only
//! through its command-line client: typed models of the client's listing and
//! space-usage output, permission decoding, path sanitising, and the decision
//! logic of the pattern-filtered, idempotent copy to local storage.

pub mod conf;
pub mod error;
pub mod hdfs;
pub mod krb5;
pub mod pattern;
pub mod text;
pub mod util;
