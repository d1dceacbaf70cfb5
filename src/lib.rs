pub mod error;
pub mod handler;
pub mod pump;
pub mod reactor;
pub mod session;
pub mod shell;
pub mod terminal;
pub mod winsize;

pub use error::{Error, Result};
pub use handler::{Ignore, PtyCallback, PtyCallbackBuilder, PtyCallbackData, PtyHandler};
pub use shell::PtyShell;
pub use winsize::Winsize;
