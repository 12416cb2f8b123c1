//! Session launch engine of a minimal graphical login manager: the decisions
//! behind credential lookup, account selection, session choice, the launch
//! environment and the display-server/session lifecycle, each with a contract.
//! The operating-system work (database calls, processes, signals, files) is
//! performed by the caller, which hands the results back as plain values.

pub mod account;
pub mod config;
pub mod credential;
pub mod desktop;
pub mod display;
pub mod environment;
pub mod error;
pub mod lifecycle;
pub mod session;
pub mod text;

pub use account::User;
pub use config::{Config, LaunchType};
pub use desktop::{Desktop, LastSession};
pub use display::XDisplay;
pub use environment::{Env, EnvVar};
pub use error::LoginError;
pub use lifecycle::{Action, Event, Lifecycle, Phase};
pub use session::SessionCommand;
