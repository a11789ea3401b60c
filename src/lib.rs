//! Camera sidecar supervision and photo ingest core: the decisions, tables
//! and queues behind the camera connection, the health monitor, file
//! stabilization, preset snapshots and the background export queue, with
//! the session bookkeeping around them (export metadata, session names,
//! the session time window, storage health).

pub mod cleanup;
pub mod correlation;
pub mod entries;
pub mod error;
pub mod export;
pub mod export_queue;
pub mod ipc;
pub mod keyset;
pub mod metadata;
pub mod mode;
pub mod monitor;
pub mod paths;
pub mod preset;
pub mod session;
pub mod stabilizer;
pub mod storage_health;
pub mod strings;
pub mod supervisor;
pub mod text;
pub mod timer;
