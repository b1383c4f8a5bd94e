//! Settings of a chat client and the session that overlays them: how a
//! setting is resolved while a session is active and while none is, how a
//! session is started, changed, written down and ended, and what of all this
//! other parts of the client are told.

pub mod config;
pub mod decimal;
pub mod error;
pub mod flags;
pub mod info;
pub mod laws;
pub mod model;
pub mod number;
pub mod prompt;
pub mod session;
pub mod sessions;
pub mod startup;
pub mod text;
pub mod values;
pub mod views;

pub use config::{Config, ExitStep, Transcript};
pub use error::ConfigError;
pub use flags::{AssertState, StateFlags};
pub use info::Paths;
pub use model::Model;
pub use number::Real;
pub use session::{Session, SessionData, Turn};
pub use values::{complete_bool, complete_option_bool, parse_value, set_bool};
