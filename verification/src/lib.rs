pub mod autostart;
pub mod config;
pub mod copy_engine;
pub mod daemon;
pub mod device_detector;
pub mod device_queue;
pub mod drag_drop;
pub mod error_recovery;
pub mod extensions;
pub mod hardware;
pub mod local_engine;
pub mod optimizer;
pub mod queue_manager;
pub mod text;
pub mod transfer_manager;
