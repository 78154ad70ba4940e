use vstd::prelude::*;

verus! {

/// The two appearance modes.
#[derive(Debug, Clone, Copy, PartialEq, Eq, Structural)]
pub enum Theme {
    Light,
    Dark,
}

/// The theme that a stored flag stands for: zero is dark, anything else is light.
pub open spec fn theme_of(v: u32) -> Theme {
    if v == 0 {
        Theme::Dark
    } else {
        Theme::Light
    }
}

/// The canonical flag of the theme that `v` stands for.
pub open spec fn canonical_value(v: u32) -> u32 {
    if v == 0 {
        0
    } else {
        1
    }
}

impl Theme {
    pub open spec fn spec_opposite(self) -> Theme {
        match self {
            Theme::Light => Theme::Dark,
            Theme::Dark => Theme::Light,
        }
    }

    pub open spec fn spec_value(self) -> u32 {
        match self {
            Theme::Light => 1,
            Theme::Dark => 0,
        }
    }

    /// The other theme.
    pub fn opposite(self) -> (r: Theme)
        ensures
            r == self.spec_opposite(),
            r != self,
    {
        match self {
            Theme::Light => Theme::Dark,
            Theme::Dark => Theme::Light,
        }
    }

    /// The flag that is stored for this theme: 1 for light, 0 for dark.
    pub fn registry_value(self) -> (r: u32)
        ensures
            r == self.spec_value(),
            theme_of(r) == self,
    {
        match self {
            Theme::Light => 1,
            Theme::Dark => 0,
        }
    }
}

/// Decodes a stored `AppsUseLightTheme` flag. Any nonzero value is light.
pub fn theme_from_value(v: u32) -> (r: Theme)
    ensures
        r == theme_of(v),
        v == 0 <==> r == Theme::Dark,
        v != 0 <==> r == Theme::Light,
{
    if v == 0 {
        Theme::Dark
    } else {
        Theme::Light
    }
}

} // verus!
