//! Bridges between synchronous, callback-driven native subsystem loops
//! (an audio server, a device registry, power and radio daemons) and an
//! asynchronous consumer of semantic change events.
//!
//! The core pieces are the object identity table ([`identity`]), the pure
//! event normalizers ([`pipewire`], [`pulse`]), the listener lifecycle
//! manager ([`listener`]), the main-loop session state machine
//! ([`mainloop`]), the cross-thread command bridge ([`command`]) and the
//! bounded outbound channel adapter ([`outbound`]).

pub mod identity;
pub mod props;
pub mod text;
pub mod pipewire;
pub mod mainloop;
pub mod command;
pub mod listener;
pub mod outbound;
pub mod pulse;
pub mod airplane_mode;
pub mod upower;
pub mod settings_daemon;
pub mod bluetooth;
pub mod network_manager;
