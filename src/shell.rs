use vstd::prelude::*;
use crate::error::Result;
use crate::handler::PtyHandler;

verus! {

/// A child process on a pseudo-terminal: the child branch runs a shell, the
/// parent branch proxies the terminal to a handler.
pub trait PtyShell {
    /// In the child branch, replaces the process with `shell`; in the parent, does nothing.
    fn exec(&self, shell: &str) -> Result<()>;

    /// In the parent branch, puts the terminal in raw mode and starts the
    /// session with `handler`; in the child, does nothing.
    fn proxy<H: PtyHandler + Send + 'static>(&self, handler: H) -> Result<()>;
}

/// Which side of the fork a process is on.
#[derive(Clone, Copy, Debug, PartialEq, Eq, Structural)]
pub enum Role {
    Child,
    Parent,
}

/// The side of the fork that a process id returned by the fork names: zero
/// in the child.
pub fn role_of(pid: i32) -> (r: Role)
    ensures
        r == (if pid == 0 {
            Role::Child
        } else {
            Role::Parent
        }),
{
    if pid == 0 {
        Role::Child
    } else {
        Role::Parent
    }
}

} // verus!
