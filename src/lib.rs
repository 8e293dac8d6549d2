//! Decision logic of a live-reload document server: which filesystem changes
//! become browser notifications, how inbound websocket frames are classified,
//! the single-slot hand-off between the watcher callback and the notifier, and
//! the per-connection supervisor that pairs a notifier with a listener.
pub mod change;
pub mod listener;
pub mod bridge;
pub mod notifier;
pub mod supervisor;
pub mod document;
