use vstd::prelude::*;

verus! {

/// The theme colors the views pick from; the theme gives each its value.
#[derive(Clone, Copy, Debug, PartialEq, Eq, Structural)]
pub enum ColorRole {
    Text,
    TextMuted,
    Accent,
    Success,
    Warning,
    Danger,
    Border,
    SurfaceBg,
    SurfaceBgElevated,
    WindowBg,
    ActiveSection,
    Hover,
    Active,
    /// Text set off from the text around it, such as the selected branch.
    EmphasisText,
}

/// A theme color, either as the theme gives it or with its opacity set to
/// a percentage.
#[derive(Clone, Copy, Debug, PartialEq, Eq, Structural)]
pub struct ColorSpec {
    pub role: ColorRole,
    pub alpha_percent: Option<u8>,
}

pub open spec fn plain(role: ColorRole) -> ColorSpec {
    ColorSpec { role, alpha_percent: None }
}

pub open spec fn tinted(role: ColorRole, alpha_percent: u8) -> ColorSpec {
    ColorSpec { role, alpha_percent: Some(alpha_percent) }
}

} // verus!
