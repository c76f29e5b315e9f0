//! QEMU virtual machines as effects.
pub mod comm;
pub mod command;
pub mod errors;
pub mod handle;
pub mod img_json;
pub mod instance;
pub mod machine;
pub mod manager;
pub mod options;
pub mod plan;
pub mod storage;
pub mod storage_ops;
pub mod storage_qcow;
pub mod utils;
pub mod worker;
