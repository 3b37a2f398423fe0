//! The persisted window-state record and its constructors.

use vstd::prelude::*;

verus! {

/// A display scale factor, held as the IEEE-754 bit pattern of an `f64`.
///
/// The reconciliation logic only ever copies and compares scale factors, so the
/// bit pattern is all it needs; conversion to and from the floating-point value
/// happens at the edge of the application.
#[derive(Clone, Copy, Debug, PartialEq, Eq, Structural)]
pub struct ScaleFactor {
    pub bits: u64,
}

impl ScaleFactor {
    /// Wraps the bit pattern of an `f64` scale factor.
    pub fn from_bits(bits: u64) -> (r: ScaleFactor)
        ensures
            r.bits == bits,
    {
        ScaleFactor { bits }
    }

    /// The bit pattern of the `f64` scale factor.
    pub fn to_bits(&self) -> (r: u64)
        ensures
            r == self.bits,
    {
        self.bits
    }
}

/// Which display a fullscreen-family mode targets.
#[derive(Clone, Copy, Debug, PartialEq, Eq, Structural)]
pub enum MonitorSelection {
    /// The display the window currently is on.
    Current,
    /// The platform's primary display.
    Primary,
    /// The display at this position of the platform's enumeration.
    Index(usize),
    /// The display entity with these identity bits.
    Entity(u64),
}

/// Presentation mode of a window.
#[derive(Clone, Copy, Debug, PartialEq, Eq, Structural)]
pub enum WindowMode {
    Windowed,
    BorderlessFullscreen(MonitorSelection),
    Fullscreen(MonitorSelection),
    SizedFullscreen(MonitorSelection),
}

/// The persisted placement record of one window.
#[derive(Clone, Debug)]
pub struct WindowState {
    /// Mode of the window.
    pub mode: WindowMode,
    /// Name of the display the window is on (`None` means pick the best display).
    pub monitor: Option<String>,
    /// Resolution of the window in physical pixels (`None` means pick the best resolution).
    pub resolution: Option<(u32, u32)>,
    /// Position of the window in physical pixels (`None` means centered).
    pub position: Option<(i32, i32)>,
    /// Scale of the window (`None` means pick the display's native scale).
    pub scale: Option<ScaleFactor>,
    /// Whether the scale still waits for its first observation on a live surface.
    pub auto_scaled: bool,
}

/// The name of an optional display, as text.
pub open spec fn name_view(m: Option<String>) -> Option<Seq<char>> {
    match m {
        Some(s) => Some(s@),
        None => None,
    }
}

/// Compares two optional display names by their text.
pub fn same_name(a: &Option<String>, b: &Option<String>) -> (r: bool)
    ensures
        r == (name_view(*a) == name_view(*b)),
{
    match (a, b) {
        (Some(x), Some(y)) => x.eq(y),
        (None, None) => true,
        _ => false,
    }
}

/// Copies an optional display name.
pub fn clone_name(a: &Option<String>) -> (r: Option<String>)
    ensures
        r == *a,
{
    match a {
        Some(x) => Some(x.clone()),
        None => None,
    }
}

impl WindowState {
    /// Two records hold the same placement (display names compared by text).
    pub open spec fn same_record(self, other: WindowState) -> bool {
        &&& self.mode == other.mode
        &&& name_view(self.monitor) == name_view(other.monitor)
        &&& self.resolution == other.resolution
        &&& self.position == other.position
        &&& self.scale == other.scale
        &&& self.auto_scaled == other.auto_scaled
    }

    /// A fresh record in the given mode, waiting for its first scale observation.
    pub open spec fn fresh(mode: WindowMode, resolution: Option<(u32, u32)>) -> WindowState {
        WindowState {
            mode,
            monitor: None,
            resolution,
            position: None,
            scale: None,
            auto_scaled: true,
        }
    }

    /// Creates a borderless fullscreen state on the primary display.
    pub fn borderless_fullscreen() -> (r: WindowState)
        ensures
            r == WindowState::fresh(WindowMode::BorderlessFullscreen(MonitorSelection::Primary), None),
    {
        WindowState {
            mode: WindowMode::BorderlessFullscreen(MonitorSelection::Primary),
            monitor: None,
            resolution: None,
            position: None,
            scale: None,
            auto_scaled: true,
        }
    }

    /// Creates a fullscreen state on the primary display.
    pub fn fullscreen() -> (r: WindowState)
        ensures
            r == WindowState::fresh(WindowMode::Fullscreen(MonitorSelection::Primary), None),
    {
        WindowState {
            mode: WindowMode::Fullscreen(MonitorSelection::Primary),
            monitor: None,
            resolution: None,
            position: None,
            scale: None,
            auto_scaled: true,
        }
    }

    /// Creates a sized fullscreen state on the primary display.
    pub fn sized_fullscreen() -> (r: WindowState)
        ensures
            r == WindowState::fresh(WindowMode::SizedFullscreen(MonitorSelection::Primary), None),
    {
        WindowState {
            mode: WindowMode::SizedFullscreen(MonitorSelection::Primary),
            monitor: None,
            resolution: None,
            position: None,
            scale: None,
            auto_scaled: true,
        }
    }

    /// Creates a windowed state with the given resolution.
    pub fn windowed(width: u32, height: u32) -> (r: WindowState)
        ensures
            r == WindowState::fresh(WindowMode::Windowed, Some((width, height))),
    {
        WindowState {
            mode: WindowMode::Windowed,
            monitor: None,
            resolution: Some((width, height)),
            position: None,
            scale: None,
            auto_scaled: true,
        }
    }

    /// Adds position information to the state; only a windowed state takes it.
    pub fn at(self, x: i32, y: i32) -> (r: WindowState)
        ensures
            r == (if self.mode == WindowMode::Windowed {
                WindowState { position: Some((x, y)), ..self }
            } else {
                self
            }),
    {
        let mut s = self;
        if s.mode == WindowMode::Windowed {
            s.position = Some((x, y));
        }
        s
    }

    /// Adds scale information to the state.
    pub fn scaled(self, scale: ScaleFactor) -> (r: WindowState)
        ensures
            r == (WindowState { scale: Some(scale), ..self }),
    {
        let mut s = self;
        s.scale = Some(scale);
        s
    }

    /// Whether the scale still waits for its first observation on a live surface.
    pub fn auto_scaled(&self) -> (r: bool)
        ensures
            r == self.auto_scaled,
    {
        self.auto_scaled
    }

    /// Compares the placement held by two records.
    pub fn same_record_as(&self, other: &WindowState) -> (r: bool)
        ensures
            r == self.same_record(*other),
    {
        self.mode == other.mode && same_name(&self.monitor, &other.monitor)
            && self.resolution == other.resolution && self.position == other.position
            && self.scale == other.scale && self.auto_scaled == other.auto_scaled
    }
}

impl Default for WindowState {
    /// A borderless fullscreen state on the primary display, not auto-scaled.
    fn default() -> (r: WindowState)
        ensures
            r == (WindowState {
                auto_scaled: false,
                ..WindowState::fresh(WindowMode::BorderlessFullscreen(MonitorSelection::Primary), None)
            }),
    {
        WindowState {
            mode: WindowMode::BorderlessFullscreen(MonitorSelection::Primary),
            monitor: None,
            resolution: None,
            position: None,
            scale: None,
            auto_scaled: false,
        }
    }
}

impl PartialEq for WindowState {
    fn eq(&self, other: &WindowState) -> (r: bool) {
        self.same_record_as(other)
    }
}

impl vstd::std_specs::cmp::PartialEqSpecImpl for WindowState {
    open spec fn obeys_eq_spec() -> bool {
        true
    }

    open spec fn eq_spec(&self, other: &WindowState) -> bool {
        self.same_record(*other)
    }
}

} // verus!
