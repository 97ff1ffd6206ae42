//! The default backend builder: a shell path and the function that starts
//! the shell on a pseudo-terminal.

use crate::settings::BackendBuilder;
use vstd::prelude::*;

verus! {

/// The toolkit's two-dimensional size; with no argument, of single-precision
/// width and height. The library only hands it on.
#[verifier::external_type_specification]
#[verifier::external_body]
#[verifier::reject_recursive_types(T)]
pub struct ExSize<T>(iced_core::Size<T>);

/// The error of an input or output operation. The library only hands it on.
#[verifier::external_type_specification]
#[verifier::external_body]
pub struct ExIoError(std::io::Error);

/// A backend builder that starts one shell per session.
///
/// `spawn` is the function that opens a pseudo-terminal of the given size
/// and starts the program at the given path on it, for the given session.
/// The builder holds it and calls it only from `build`.
#[derive(Debug, Clone)]
pub struct ShellBuilder<S> {
    pub shell: String,
    pub spawn: S,
}

/// Makes the builder that starts `shell` through `spawn`. Nothing is started
/// here: `spawn` is stored, and first called when `build` is.
pub fn default_builder<S, T>(shell: String, spawn: S) -> (builder: ShellBuilder<S>) where
    S: Fn(String, u64, iced_core::Size) -> Result<T, std::io::Error>,
    T: alacritty_terminal::tty::EventedPty + alacritty_terminal::event::OnResize + Send + 'static,

    ensures
        builder.shell == shell,
        builder.spawn == spawn,
{
    ShellBuilder { shell, spawn }
}

impl<S, T> BackendBuilder for ShellBuilder<S> where
    S: Fn(String, u64, iced_core::Size) -> Result<T, std::io::Error>,
    T: Send + 'static,
 {
    type Backend = T;

    /// `spawn` can be called with the builder's shell, the session and the
    /// size.
    open spec fn can_build(&self, id: u64, size: iced_core::Size) -> bool {
        call_requires(self.spawn, (self.shell, id, size))
    }

    /// `outcome` is what `spawn` may return for the builder's shell, the
    /// session and the size.
    open spec fn builds(
        &self,
        id: u64,
        size: iced_core::Size,
        outcome: Result<T, std::io::Error>,
    ) -> bool {
        call_ensures(self.spawn, (self.shell, id, size), outcome)
    }

    /// Calls `spawn` once, with a copy of the shell path, and returns what it
    /// returned: the backend, or the error with which the start failed.
    fn build(&self, id: u64, size: iced_core::Size) -> (outcome: Result<T, std::io::Error>) {
        (self.spawn)(self.shell.clone(), id, size)
    }
}

/// A shell builder may be asked to build exactly where `spawn` may be called
/// with its shell, the session and the size, and builds exactly what that
/// call may return.
pub proof fn lemma_builds_as_spawned<S, T>(
    builder: ShellBuilder<S>,
    id: u64,
    size: iced_core::Size,
    outcome: Result<T, std::io::Error>,
) where S: Fn(String, u64, iced_core::Size) -> Result<T, std::io::Error>, T: Send + 'static
    ensures
        builder.can_build(id, size) <==> call_requires(builder.spawn, (builder.shell, id, size)),
        builder.builds(id, size, outcome) <==> call_ensures(
            builder.spawn,
            (builder.shell, id, size),
            outcome,
        ),
{
}

/// Where the start of the shell can only fail, `build` can only fail, and
/// with an error of that start: no backend comes out of a failed start.
pub proof fn lemma_failed_start_is_error<S, T>(
    builder: ShellBuilder<S>,
    id: u64,
    size: iced_core::Size,
    outcome: Result<T, std::io::Error>,
) where S: Fn(String, u64, iced_core::Size) -> Result<T, std::io::Error>, T: Send + 'static
    requires
        forall|started: Result<T, std::io::Error>|
            call_ensures(builder.spawn, (builder.shell, id, size), started) ==> started is Err,
        builder.builds(id, size, outcome),
    ensures
        outcome is Err,
        call_ensures(builder.spawn, (builder.shell, id, size), outcome),
{
}

} // verus!
