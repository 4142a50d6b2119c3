//! The colour themes that can be chosen; their palettes are drawn by the
//! terminal front-end.
use vstd::prelude::*;

verus! {

#[derive(Debug, Clone, Copy, PartialEq, Eq, Structural)]
pub enum Theme {
    Default,
    Nord,
    Dracula,
    Dark,
    White,
}

pub open spec fn theme_name(t: Theme) -> Seq<char> {
    match t {
        Theme::Default => "Default"@,
        Theme::Nord => "Nord"@,
        Theme::Dracula => "Dracula"@,
        Theme::Dark => "Dark"@,
        Theme::White => "White (Light)"@,
    }
}

impl Theme {
    /// The name shown for the theme.
    pub fn name(&self) -> (r: &'static str)
        ensures
            r@ == theme_name(*self),
    {
        match self {
            Theme::Default => "Default",
            Theme::Nord => "Nord",
            Theme::Dracula => "Dracula",
            Theme::Dark => "Dark",
            Theme::White => "White (Light)",
        }
    }

    /// Every theme, in the order they are offered.
    pub fn all() -> (r: Vec<Theme>)
        ensures
            r@ == seq![Theme::Default, Theme::Nord, Theme::Dracula, Theme::Dark, Theme::White],
    {
        let r = vec![Theme::Default, Theme::Nord, Theme::Dracula, Theme::Dark, Theme::White];
        proof {
            assert(r@ =~= seq![
                Theme::Default,
                Theme::Nord,
                Theme::Dracula,
                Theme::Dark,
                Theme::White,
            ]);
        }
        r
    }
}

impl Default for Theme {
    fn default() -> (r: Self)
        ensures
            r == Theme::Default,
    {
        Theme::Default
    }
}

} // verus!
