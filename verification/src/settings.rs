//! The settings of a terminal widget and the capability by which it obtains
//! its backend.

use crate::backend::{default_builder, ShellBuilder};
use crate::font::{monospace, monospace_font, Scalar};
use vstd::prelude::*;

verus! {

/// The family of operating systems that the host belongs to.
#[derive(Clone, Copy, Debug, PartialEq, Eq, Structural)]
pub enum HostFamily {
    Windows,
    Other,
}

/// The path of the shell that a host of the given family starts by default.
pub open spec fn default_shell_path(host: HostFamily) -> Seq<char> {
    match host {
        HostFamily::Windows => "wsl.exe"@,
        HostFamily::Other => "/bin/bash"@,
    }
}

/// The default shell of a host, by its family alone.
pub fn default_shell(host: HostFamily) -> (shell: String)
    ensures
        shell@ == default_shell_path(host),
{
    match host {
        HostFamily::Windows => "wsl.exe".to_owned(),
        HostFamily::Other => "/bin/bash".to_owned(),
    }
}

/// The two default paths, character by character: `wsl.exe` on a host of the
/// Windows family, `/bin/bash` on every other. They differ, so the family
/// decides the path.
pub proof fn lemma_default_shell_paths()
    ensures
        default_shell_path(HostFamily::Windows) == seq!['w', 's', 'l', '.', 'e', 'x', 'e'],
        default_shell_path(HostFamily::Other) == seq!['/', 'b', 'i', 'n', '/', 'b', 'a', 's', 'h'],
        default_shell_path(HostFamily::Windows) != default_shell_path(HostFamily::Other),
{
    reveal_strlit("wsl.exe");
    reveal_strlit("/bin/bash");
    assert("wsl.exe"@ =~= seq!['w', 's', 'l', '.', 'e', 'x', 'e']);
    assert("/bin/bash"@ =~= seq!['/', 'b', 'i', 'n', '/', 'b', 'a', 's', 'h']);
    assert("wsl.exe"@.len() != "/bin/bash"@.len());
}

/// What a terminal widget is created with.
#[derive(Clone)]
pub struct Settings<P, B: BackendBuilder> {
    pub font: FontSettings,
    pub theme: ThemeSettings<P>,
    pub backend: BackendSettings<B>,
}

impl<P, S, T> Settings<P, ShellBuilder<S>> where
    P: Default,
    S: Fn(String, u64, iced_core::Size) -> Result<T, std::io::Error>,
    T: alacritty_terminal::tty::EventedPty + alacritty_terminal::event::OnResize + Send + 'static,
 {
    /// The default settings on a host of the given family: the default font,
    /// the default palette, and the builder that starts the host's default
    /// shell through `spawn`. `spawn` is not called.
    pub fn default(host: HostFamily, spawn: S) -> (settings: Self)
        ensures
            settings.font == FontSettings::default_value(),
            settings.font.well_formed(),
            call_ensures(P::default, (), *settings.theme.color_palette),
            settings.backend.backend_builder.shell@ == default_shell_path(host),
            settings.backend.backend_builder.spawn == spawn,
    {
        Settings {
            font: FontSettings::default(),
            theme: ThemeSettings::default(),
            backend: BackendSettings { backend_builder: default_builder(default_shell(host), spawn) },
        }
    }
}

/// The capability to make the backend of a terminal session.
pub trait BackendBuilder {
    /// What `build` makes: a value that can move to another thread and holds
    /// no borrowed data. A terminal widget also needs it to report the
    /// events of its pseudo-terminal and to follow resizes; the default
    /// builder and the default settings ask for both.
    type Backend: Send + 'static;

    /// The sessions and sizes for which `build` may be called.
    spec fn can_build(&self, id: u64, size: iced_core::Size) -> bool;

    /// The outcomes that `build` may have for a session and a size.
    spec fn builds(
        &self,
        id: u64,
        size: iced_core::Size,
        outcome: Result<Self::Backend, std::io::Error>,
    ) -> bool;

    /// Makes the backend of session `id` with a viewport of `size`, or
    /// fails with the error of the operation that could not be done.
    fn build(&self, id: u64, size: iced_core::Size) -> (outcome: Result<
        Self::Backend,
        std::io::Error,
    >)
        requires
            self.can_build(id, size),
        ensures
            self.builds(id, size, outcome),
    ;
}

/// Every function from a session and a size to a backend or an error is a
/// backend builder: to build is to call it.
impl<B, T> BackendBuilder for B where
    B: Fn(u64, iced_core::Size) -> Result<T, std::io::Error>,
    T: Send + 'static,
 {
    type Backend = T;

    open spec fn can_build(&self, id: u64, size: iced_core::Size) -> bool {
        call_requires(*self, (id, size))
    }

    open spec fn builds(
        &self,
        id: u64,
        size: iced_core::Size,
        outcome: Result<T, std::io::Error>,
    ) -> bool {
        call_ensures(*self, (id, size), outcome)
    }

    fn build(&self, id: u64, size: iced_core::Size) -> (outcome: Result<T, std::io::Error>) {
        self(id, size)
    }
}

/// A function used as a builder may be asked to build exactly where it may
/// be called, and builds exactly what the call may return.
pub proof fn lemma_function_builds_as_called<B, T>(
    function: B,
    id: u64,
    size: iced_core::Size,
    outcome: Result<T, std::io::Error>,
) where B: Fn(u64, iced_core::Size) -> Result<T, std::io::Error>, T: Send + 'static
    ensures
        function.can_build(id, size) <==> call_requires(function, (id, size)),
        function.builds(id, size, outcome) <==> call_ensures(function, (id, size), outcome),
{
}

/// The backend part of the settings: the builder of the backend.
#[derive(Debug, Clone)]
pub struct BackendSettings<B> {
    pub backend_builder: B,
}

/// The font part of the settings.
#[derive(Debug)]
pub struct FontSettings {
    pub size: Scalar,
    pub scale_factor: Scalar,
    pub font_type: iced::Font,
}

impl FontSettings {
    /// The size and the scale factor are greater than zero.
    pub open spec fn well_formed(&self) -> bool {
        self.size.is_positive() && self.scale_factor.is_positive()
    }

    /// Size 14, scale factor 1.3 (the nearest single-precision number),
    /// monospaced.
    pub open spec fn default_value() -> FontSettings {
        FontSettings {
            size: Scalar { bits: 0x4160_0000u32 },
            scale_factor: Scalar { bits: 0x3FA6_6666u32 },
            font_type: monospace_font(),
        }
    }
}

impl Clone for FontSettings {
    fn clone(&self) -> (copy: Self)
        ensures
            copy == *self,
    {
        FontSettings {
            size: self.size,
            scale_factor: self.scale_factor,
            font_type: self.font_type,
        }
    }
}

impl Default for FontSettings {
    /// Size 14, scale factor 1.3, monospaced.
    fn default() -> (font: Self)
        ensures
            font == FontSettings::default_value(),
            font.well_formed(),
    {
        FontSettings {
            size: Scalar { bits: 0x4160_0000u32 },
            scale_factor: Scalar { bits: 0x3FA6_6666u32 },
            font_type: monospace(),
        }
    }
}

/// The theme part of the settings: the colour palette, of a type that the
/// embedding application chooses.
#[derive(Debug, Clone)]
pub struct ThemeSettings<P> {
    pub color_palette: Box<P>,
}

impl<P> ThemeSettings<P> {
    /// The theme with the given palette.
    pub fn new(color_palette: Box<P>) -> (theme: Self)
        ensures
            theme.color_palette == color_palette,
    {
        Self { color_palette }
    }
}

impl<P: Default> Default for ThemeSettings<P> {
    /// The theme with the default palette: a value that `P::default`
    /// returns.
    fn default() -> (theme: Self)
        ensures
            call_ensures(P::default, (), *theme.color_palette),
    {
        Self { color_palette: Box::new(P::default()) }
    }
}

} // verus!
