//! Colour themes of the terminal interface.
use vstd::prelude::*;

verus! {

/// A terminal colour: the named red, or an RGB value.
#[derive(Debug, Clone, Copy, PartialEq, Eq, Structural)]
pub enum Color {
    Red,
    Rgb(u8, u8, u8),
}

/// The colours of a theme.
#[derive(Debug, Clone, Copy)]
pub struct Theme {
    pub name: &'static str,
    pub logo_color: Color,
    pub border_color: Color,
    pub title_color: Color,
    pub text_color: Color,
    pub selected_color: Color,
    pub background_color: Color,
    pub error_color: Color,
    pub warning_color: Color,
    pub success_color: Color,
    pub info_color: Color,
    pub muted_color: Color,
}

/// The available themes.
#[derive(Debug, Clone, Copy, PartialEq, Eq, Structural)]
pub enum ThemePalette {
    Default,
    Dark,
    Pastel,
    Blue,
    Green,
    Purple,
    Orange,
    Red,
    Monochrome,
    Cyberpunk,
    Forest,
    Ocean,
    Sunset,
}

/// Every palette, in menu order.
pub open spec fn all_palettes() -> Seq<ThemePalette> {
    Seq::empty()
        .push(ThemePalette::Default)
        .push(ThemePalette::Dark)
        .push(ThemePalette::Pastel)
        .push(ThemePalette::Blue)
        .push(ThemePalette::Green)
        .push(ThemePalette::Purple)
        .push(ThemePalette::Orange)
        .push(ThemePalette::Red)
        .push(ThemePalette::Monochrome)
        .push(ThemePalette::Cyberpunk)
        .push(ThemePalette::Forest)
        .push(ThemePalette::Ocean)
        .push(ThemePalette::Sunset)
}

/// The name of a palette.
pub open spec fn palette_name(p: ThemePalette) -> Seq<char> {
    match p {
        ThemePalette::Default => "Default"@,
        ThemePalette::Dark => "Dark"@,
        ThemePalette::Pastel => "Pastel"@,
        ThemePalette::Blue => "Blue"@,
        ThemePalette::Green => "Green"@,
        ThemePalette::Purple => "Purple"@,
        ThemePalette::Orange => "Orange"@,
        ThemePalette::Red => "Red"@,
        ThemePalette::Monochrome => "Monochrome"@,
        ThemePalette::Cyberpunk => "Cyberpunk"@,
        ThemePalette::Forest => "Forest"@,
        ThemePalette::Ocean => "Ocean"@,
        ThemePalette::Sunset => "Sunset"@,
    }
}

/// The colours of a palette.
pub open spec fn palette_colors(p: ThemePalette) -> Seq<Color> {
    match p {
        ThemePalette::Default => Seq::empty().push(Color::Rgb(30, 30, 150)).push(Color::Red).push(Color::Rgb(30, 30, 150)).push(Color::Rgb(20, 20, 20)).push(Color::Red).push(Color::Rgb(255, 255, 255)).push(Color::Rgb(200, 50, 50)).push(Color::Rgb(200, 150, 50)).push(Color::Rgb(50, 150, 50)).push(Color::Rgb(50, 100, 200)).push(Color::Rgb(120, 120, 120)),
        ThemePalette::Dark => Seq::empty().push(Color::Rgb(200, 200, 200)).push(Color::Rgb(100, 100, 100)).push(Color::Rgb(255, 255, 255)).push(Color::Rgb(220, 220, 220)).push(Color::Rgb(100, 150, 255)).push(Color::Rgb(18, 18, 18)).push(Color::Rgb(255, 85, 85)).push(Color::Rgb(255, 184, 108)).push(Color::Rgb(85, 255, 85)).push(Color::Rgb(100, 150, 255)).push(Color::Rgb(100, 100, 100)),
        ThemePalette::Pastel => Seq::empty().push(Color::Rgb(135, 206, 235)).push(Color::Rgb(200, 180, 220)).push(Color::Rgb(150, 150, 200)).push(Color::Rgb(60, 60, 80)).push(Color::Rgb(150, 200, 255)).push(Color::Rgb(250, 248, 255)).push(Color::Rgb(255, 150, 150)).push(Color::Rgb(255, 220, 150)).push(Color::Rgb(150, 255, 200)).push(Color::Rgb(150, 200, 255)).push(Color::Rgb(180, 180, 200)),
        ThemePalette::Blue => Seq::empty().push(Color::Rgb(100, 150, 255)).push(Color::Rgb(100, 150, 255)).push(Color::Rgb(150, 200, 255)).push(Color::Rgb(200, 220, 255)).push(Color::Rgb(150, 200, 255)).push(Color::Rgb(20, 30, 50)).push(Color::Rgb(255, 100, 100)).push(Color::Rgb(255, 220, 100)).push(Color::Rgb(100, 255, 150)).push(Color::Rgb(100, 180, 255)).push(Color::Rgb(80, 100, 130)),
        ThemePalette::Green => Seq::empty().push(Color::Rgb(100, 255, 150)).push(Color::Rgb(100, 255, 150)).push(Color::Rgb(150, 255, 200)).push(Color::Rgb(200, 255, 220)).push(Color::Rgb(150, 255, 200)).push(Color::Rgb(20, 40, 25)).push(Color::Rgb(255, 100, 100)).push(Color::Rgb(255, 220, 100)).push(Color::Rgb(100, 255, 150)).push(Color::Rgb(100, 200, 255)).push(Color::Rgb(60, 100, 70)),
        ThemePalette::Purple => Seq::empty().push(Color::Rgb(200, 100, 255)).push(Color::Rgb(200, 100, 255)).push(Color::Rgb(220, 150, 255)).push(Color::Rgb(240, 200, 255)).push(Color::Rgb(220, 150, 255)).push(Color::Rgb(30, 20, 40)).push(Color::Rgb(255, 100, 100)).push(Color::Rgb(255, 220, 100)).push(Color::Rgb(150, 255, 100)).push(Color::Rgb(150, 150, 255)).push(Color::Rgb(100, 70, 120)),
        ThemePalette::Orange => Seq::empty().push(Color::Rgb(255, 165, 0)).push(Color::Rgb(255, 140, 0)).push(Color::Rgb(255, 200, 100)).push(Color::Rgb(255, 240, 220)).push(Color::Rgb(255, 200, 100)).push(Color::Rgb(40, 25, 15)).push(Color::Rgb(255, 100, 100)).push(Color::Rgb(255, 200, 50)).push(Color::Rgb(100, 255, 150)).push(Color::Rgb(100, 180, 255)).push(Color::Rgb(120, 80, 50)),
        ThemePalette::Red => Seq::empty().push(Color::Rgb(255, 80, 80)).push(Color::Rgb(200, 50, 50)).push(Color::Rgb(255, 150, 150)).push(Color::Rgb(255, 220, 220)).push(Color::Rgb(255, 150, 150)).push(Color::Rgb(25, 10, 10)).push(Color::Rgb(255, 100, 100)).push(Color::Rgb(255, 200, 100)).push(Color::Rgb(100, 255, 150)).push(Color::Rgb(150, 150, 255)).push(Color::Rgb(100, 50, 50)),
        ThemePalette::Monochrome => Seq::empty().push(Color::Rgb(200, 200, 200)).push(Color::Rgb(150, 150, 150)).push(Color::Rgb(255, 255, 255)).push(Color::Rgb(220, 220, 220)).push(Color::Rgb(255, 255, 255)).push(Color::Rgb(0, 0, 0)).push(Color::Rgb(200, 200, 200)).push(Color::Rgb(180, 180, 180)).push(Color::Rgb(220, 220, 220)).push(Color::Rgb(200, 200, 200)).push(Color::Rgb(100, 100, 100)),
        ThemePalette::Cyberpunk => Seq::empty().push(Color::Rgb(0, 255, 255)).push(Color::Rgb(255, 0, 255)).push(Color::Rgb(0, 255, 255)).push(Color::Rgb(255, 255, 255)).push(Color::Rgb(255, 0, 255)).push(Color::Rgb(10, 5, 20)).push(Color::Rgb(255, 0, 100)).push(Color::Rgb(255, 200, 0)).push(Color::Rgb(0, 255, 150)).push(Color::Rgb(0, 200, 255)).push(Color::Rgb(80, 40, 100)),
        ThemePalette::Forest => Seq::empty().push(Color::Rgb(100, 200, 100)).push(Color::Rgb(80, 150, 80)).push(Color::Rgb(150, 255, 150)).push(Color::Rgb(200, 255, 200)).push(Color::Rgb(150, 255, 150)).push(Color::Rgb(15, 25, 15)).push(Color::Rgb(255, 100, 100)).push(Color::Rgb(255, 220, 100)).push(Color::Rgb(100, 255, 100)).push(Color::Rgb(100, 200, 255)).push(Color::Rgb(60, 100, 60)),
        ThemePalette::Ocean => Seq::empty().push(Color::Rgb(64, 224, 208)).push(Color::Rgb(0, 191, 255)).push(Color::Rgb(135, 206, 250)).push(Color::Rgb(200, 230, 255)).push(Color::Rgb(135, 206, 250)).push(Color::Rgb(5, 15, 30)).push(Color::Rgb(255, 100, 100)).push(Color::Rgb(255, 220, 100)).push(Color::Rgb(100, 255, 200)).push(Color::Rgb(100, 200, 255)).push(Color::Rgb(50, 100, 130)),
        ThemePalette::Sunset => Seq::empty().push(Color::Rgb(255, 140, 0)).push(Color::Rgb(255, 165, 0)).push(Color::Rgb(255, 200, 100)).push(Color::Rgb(255, 240, 200)).push(Color::Rgb(255, 200, 100)).push(Color::Rgb(30, 15, 25)).push(Color::Rgb(255, 100, 100)).push(Color::Rgb(255, 180, 80)).push(Color::Rgb(150, 255, 100)).push(Color::Rgb(255, 150, 150)).push(Color::Rgb(120, 70, 80)),
    }
}

/// The colours of a theme, in field order (logo, border, title, text,
/// selected, background, error, warning, success, info, muted).
pub open spec fn theme_colors(t: Theme) -> Seq<Color> {
    Seq::empty().push(t.logo_color).push(t.border_color).push(t.title_color).push(t.text_color).push(t.selected_color).push(t.background_color).push(t.error_color).push(t.warning_color).push(t.success_color).push(t.info_color).push(t.muted_color)
}

impl ThemePalette {
    /// Every palette, in menu order.
    pub fn all() -> (r: Vec<ThemePalette>)
        ensures
            r@ == all_palettes(),
    {
        let mut v: Vec<ThemePalette> = Vec::new();
        v.push(ThemePalette::Default);
        v.push(ThemePalette::Dark);
        v.push(ThemePalette::Pastel);
        v.push(ThemePalette::Blue);
        v.push(ThemePalette::Green);
        v.push(ThemePalette::Purple);
        v.push(ThemePalette::Orange);
        v.push(ThemePalette::Red);
        v.push(ThemePalette::Monochrome);
        v.push(ThemePalette::Cyberpunk);
        v.push(ThemePalette::Forest);
        v.push(ThemePalette::Ocean);
        v.push(ThemePalette::Sunset);
        assert(v@ =~= all_palettes());
        v
    }

    /// The palette's name.
    pub fn as_str(&self) -> (r: &'static str)
        ensures
            r@ == palette_name(*self),
    {
        match self {
            ThemePalette::Default => "Default",
            ThemePalette::Dark => "Dark",
            ThemePalette::Pastel => "Pastel",
            ThemePalette::Blue => "Blue",
            ThemePalette::Green => "Green",
            ThemePalette::Purple => "Purple",
            ThemePalette::Orange => "Orange",
            ThemePalette::Red => "Red",
            ThemePalette::Monochrome => "Monochrome",
            ThemePalette::Cyberpunk => "Cyberpunk",
            ThemePalette::Forest => "Forest",
            ThemePalette::Ocean => "Ocean",
            ThemePalette::Sunset => "Sunset",
        }
    }

    /// The palette's theme: named as the palette, with its colours.
    pub fn to_theme(&self) -> (r: Theme)
        ensures
            r.name@ == palette_name(*self),
            theme_colors(r) == palette_colors(*self),
    {
        let t = match self {
            ThemePalette::Default => Theme {
                name: "Default",
                logo_color: Color::Rgb(30, 30, 150),
                border_color: Color::Red,
                title_color: Color::Rgb(30, 30, 150),
                text_color: Color::Rgb(20, 20, 20),
                selected_color: Color::Red,
                background_color: Color::Rgb(255, 255, 255),
                error_color: Color::Rgb(200, 50, 50),
                warning_color: Color::Rgb(200, 150, 50),
                success_color: Color::Rgb(50, 150, 50),
                info_color: Color::Rgb(50, 100, 200),
                muted_color: Color::Rgb(120, 120, 120),
            },
            ThemePalette::Dark => Theme {
                name: "Dark",
                logo_color: Color::Rgb(200, 200, 200),
                border_color: Color::Rgb(100, 100, 100),
                title_color: Color::Rgb(255, 255, 255),
                text_color: Color::Rgb(220, 220, 220),
                selected_color: Color::Rgb(100, 150, 255),
                background_color: Color::Rgb(18, 18, 18),
                error_color: Color::Rgb(255, 85, 85),
                warning_color: Color::Rgb(255, 184, 108),
                success_color: Color::Rgb(85, 255, 85),
                info_color: Color::Rgb(100, 150, 255),
                muted_color: Color::Rgb(100, 100, 100),
            },
            ThemePalette::Pastel => Theme {
                name: "Pastel",
                logo_color: Color::Rgb(135, 206, 235),
                border_color: Color::Rgb(200, 180, 220),
                title_color: Color::Rgb(150, 150, 200),
                text_color: Color::Rgb(60, 60, 80),
                selected_color: Color::Rgb(150, 200, 255),
                background_color: Color::Rgb(250, 248, 255),
                error_color: Color::Rgb(255, 150, 150),
                warning_color: Color::Rgb(255, 220, 150),
                success_color: Color::Rgb(150, 255, 200),
                info_color: Color::Rgb(150, 200, 255),
                muted_color: Color::Rgb(180, 180, 200),
            },
            ThemePalette::Blue => Theme {
                name: "Blue",
                logo_color: Color::Rgb(100, 150, 255),
                border_color: Color::Rgb(100, 150, 255),
                title_color: Color::Rgb(150, 200, 255),
                text_color: Color::Rgb(200, 220, 255),
                selected_color: Color::Rgb(150, 200, 255),
                background_color: Color::Rgb(20, 30, 50),
                error_color: Color::Rgb(255, 100, 100),
                warning_color: Color::Rgb(255, 220, 100),
                success_color: Color::Rgb(100, 255, 150),
                info_color: Color::Rgb(100, 180, 255),
                muted_color: Color::Rgb(80, 100, 130),
            },
            ThemePalette::Green => Theme {
                name: "Green",
                logo_color: Color::Rgb(100, 255, 150),
                border_color: Color::Rgb(100, 255, 150),
                title_color: Color::Rgb(150, 255, 200),
                text_color: Color::Rgb(200, 255, 220),
                selected_color: Color::Rgb(150, 255, 200),
                background_color: Color::Rgb(20, 40, 25),
                error_color: Color::Rgb(255, 100, 100),
                warning_color: Color::Rgb(255, 220, 100),
                success_color: Color::Rgb(100, 255, 150),
                info_color: Color::Rgb(100, 200, 255),
                muted_color: Color::Rgb(60, 100, 70),
            },
            ThemePalette::Purple => Theme {
                name: "Purple",
                logo_color: Color::Rgb(200, 100, 255),
                border_color: Color::Rgb(200, 100, 255),
                title_color: Color::Rgb(220, 150, 255),
                text_color: Color::Rgb(240, 200, 255),
                selected_color: Color::Rgb(220, 150, 255),
                background_color: Color::Rgb(30, 20, 40),
                error_color: Color::Rgb(255, 100, 100),
                warning_color: Color::Rgb(255, 220, 100),
                success_color: Color::Rgb(150, 255, 100),
                info_color: Color::Rgb(150, 150, 255),
                muted_color: Color::Rgb(100, 70, 120),
            },
            ThemePalette::Orange => Theme {
                name: "Orange",
                logo_color: Color::Rgb(255, 165, 0),
                border_color: Color::Rgb(255, 140, 0),
                title_color: Color::Rgb(255, 200, 100),
                text_color: Color::Rgb(255, 240, 220),
                selected_color: Color::Rgb(255, 200, 100),
                background_color: Color::Rgb(40, 25, 15),
                error_color: Color::Rgb(255, 100, 100),
                warning_color: Color::Rgb(255, 200, 50),
                success_color: Color::Rgb(100, 255, 150),
                info_color: Color::Rgb(100, 180, 255),
                muted_color: Color::Rgb(120, 80, 50),
            },
            ThemePalette::Red => Theme {
                name: "Red",
                logo_color: Color::Rgb(255, 80, 80),
                border_color: Color::Rgb(200, 50, 50),
                title_color: Color::Rgb(255, 150, 150),
                text_color: Color::Rgb(255, 220, 220),
                selected_color: Color::Rgb(255, 150, 150),
                background_color: Color::Rgb(25, 10, 10),
                error_color: Color::Rgb(255, 100, 100),
                warning_color: Color::Rgb(255, 200, 100),
                success_color: Color::Rgb(100, 255, 150),
                info_color: Color::Rgb(150, 150, 255),
                muted_color: Color::Rgb(100, 50, 50),
            },
            ThemePalette::Monochrome => Theme {
                name: "Monochrome",
                logo_color: Color::Rgb(200, 200, 200),
                border_color: Color::Rgb(150, 150, 150),
                title_color: Color::Rgb(255, 255, 255),
                text_color: Color::Rgb(220, 220, 220),
                selected_color: Color::Rgb(255, 255, 255),
                background_color: Color::Rgb(0, 0, 0),
                error_color: Color::Rgb(200, 200, 200),
                warning_color: Color::Rgb(180, 180, 180),
                success_color: Color::Rgb(220, 220, 220),
                info_color: Color::Rgb(200, 200, 200),
                muted_color: Color::Rgb(100, 100, 100),
            },
            ThemePalette::Cyberpunk => Theme {
                name: "Cyberpunk",
                logo_color: Color::Rgb(0, 255, 255),
                border_color: Color::Rgb(255, 0, 255),
                title_color: Color::Rgb(0, 255, 255),
                text_color: Color::Rgb(255, 255, 255),
                selected_color: Color::Rgb(255, 0, 255),
                background_color: Color::Rgb(10, 5, 20),
                error_color: Color::Rgb(255, 0, 100),
                warning_color: Color::Rgb(255, 200, 0),
                success_color: Color::Rgb(0, 255, 150),
                info_color: Color::Rgb(0, 200, 255),
                muted_color: Color::Rgb(80, 40, 100),
            },
            ThemePalette::Forest => Theme {
                name: "Forest",
                logo_color: Color::Rgb(100, 200, 100),
                border_color: Color::Rgb(80, 150, 80),
                title_color: Color::Rgb(150, 255, 150),
                text_color: Color::Rgb(200, 255, 200),
                selected_color: Color::Rgb(150, 255, 150),
                background_color: Color::Rgb(15, 25, 15),
                error_color: Color::Rgb(255, 100, 100),
                warning_color: Color::Rgb(255, 220, 100),
                success_color: Color::Rgb(100, 255, 100),
                info_color: Color::Rgb(100, 200, 255),
                muted_color: Color::Rgb(60, 100, 60),
            },
            ThemePalette::Ocean => Theme {
                name: "Ocean",
                logo_color: Color::Rgb(64, 224, 208),
                border_color: Color::Rgb(0, 191, 255),
                title_color: Color::Rgb(135, 206, 250),
                text_color: Color::Rgb(200, 230, 255),
                selected_color: Color::Rgb(135, 206, 250),
                background_color: Color::Rgb(5, 15, 30),
                error_color: Color::Rgb(255, 100, 100),
                warning_color: Color::Rgb(255, 220, 100),
                success_color: Color::Rgb(100, 255, 200),
                info_color: Color::Rgb(100, 200, 255),
                muted_color: Color::Rgb(50, 100, 130),
            },
            ThemePalette::Sunset => Theme {
                name: "Sunset",
                logo_color: Color::Rgb(255, 140, 0),
                border_color: Color::Rgb(255, 165, 0),
                title_color: Color::Rgb(255, 200, 100),
                text_color: Color::Rgb(255, 240, 200),
                selected_color: Color::Rgb(255, 200, 100),
                background_color: Color::Rgb(30, 15, 25),
                error_color: Color::Rgb(255, 100, 100),
                warning_color: Color::Rgb(255, 180, 80),
                success_color: Color::Rgb(150, 255, 100),
                info_color: Color::Rgb(255, 150, 150),
                muted_color: Color::Rgb(120, 70, 80),
            },
        };
        assert(theme_colors(t) =~= palette_colors(*self));
        t
    }
}

/// Each palette appears once in the menu, and a palette's theme is named
/// as the palette is.
pub proof fn lemma_palettes_listed_once()
    ensures
        forall|i: int, j: int| 0 <= i < j < all_palettes().len() ==> all_palettes()[i] != all_palettes()[j],
        forall|p: ThemePalette| all_palettes().contains(p),
{
    let s = all_palettes();
    assert forall|p: ThemePalette| s.contains(p) by {
        match p {
            ThemePalette::Default => assert(s[0] == p),
            ThemePalette::Dark => assert(s[1] == p),
            ThemePalette::Pastel => assert(s[2] == p),
            ThemePalette::Blue => assert(s[3] == p),
            ThemePalette::Green => assert(s[4] == p),
            ThemePalette::Purple => assert(s[5] == p),
            ThemePalette::Orange => assert(s[6] == p),
            ThemePalette::Red => assert(s[7] == p),
            ThemePalette::Monochrome => assert(s[8] == p),
            ThemePalette::Cyberpunk => assert(s[9] == p),
            ThemePalette::Forest => assert(s[10] == p),
            ThemePalette::Ocean => assert(s[11] == p),
            ThemePalette::Sunset => assert(s[12] == p),
        }
    }
}

} // verus!
