//! Color themes for the surrounding interface: named color values and font
//! settings, with a CSS-variable rendering.

use vstd::prelude::*;
use vstd::string::StringExecFns;

verus! {

/// A color scheme for the editor's surrounding interface.
#[derive(Clone, Debug)]
pub struct Theme {
    /// Name of the theme.
    pub name: String,
    /// Background color.
    pub background: String,
    /// Foreground (text) color.
    pub foreground: String,
    /// Accent color for selections and highlights.
    pub accent: String,
    /// Secondary background (toolbar, panels).
    pub secondary_background: String,
    /// Border color.
    pub border: String,
    /// Hover state color.
    pub hover: String,
    /// Active/selected state color.
    pub active: String,
    /// Muted/disabled color.
    pub muted: String,
    /// Success color.
    pub success: String,
    /// Error color.
    pub error: String,
    /// Warning color.
    pub warning: String,
    /// Grid line color.
    pub grid: String,
    /// Selection highlight color.
    pub selection: String,
    /// Cursor color.
    pub cursor: String,
    /// Font family.
    pub font_family: String,
    /// Font size (CSS string).
    pub font_size: String,
}

/// One CSS variable assignment line.
pub open spec fn css_line(name: Seq<char>, value: Seq<char>) -> Seq<char> {
    "\n    --"@ + name + ": "@ + value + ";"@
}

/// The CSS-variable rendering of a theme: a root block assigning one
/// variable per color and font setting.
pub open spec fn spec_css_of(t: Theme) -> Seq<char> {
    ":root {"@ + css_line("bg"@, t.background@) + css_line("fg"@, t.foreground@) + css_line(
        "accent"@,
        t.accent@,
    ) + css_line("bg-secondary"@, t.secondary_background@) + css_line("border"@, t.border@)
        + css_line("hover"@, t.hover@) + css_line("active"@, t.active@) + css_line(
        "muted"@,
        t.muted@,
    ) + css_line("success"@, t.success@) + css_line("error"@, t.error@) + css_line(
        "warning"@,
        t.warning@,
    ) + css_line("grid"@, t.grid@) + css_line("selection"@, t.selection@) + css_line(
        "cursor"@,
        t.cursor@,
    ) + css_line("font-family"@, t.font_family@) + css_line("font-size"@, t.font_size@) + "\n}"@
}

impl Theme {
    /// The default dark theme.
    pub fn figma_dark() -> (r: Self)
        ensures
            r.name@ == "Figma Dark"@,
            r.background@ == "#1e1e1e"@,
            r.foreground@ == "#d4d4d4"@,
            r.accent@ == "#0d99ff"@,
            r.secondary_background@ == "#2c2c2c"@,
            r.border@ == "#3c3c3c"@,
            r.hover@ == "#3c3c3c"@,
            r.active@ == "#0d99ff33"@,
            r.muted@ == "#6b6b6b"@,
            r.success@ == "#14ae5c"@,
            r.error@ == "#f24822"@,
            r.warning@ == "#ffcd29"@,
            r.grid@ == "#333333"@,
            r.selection@ == "#264f78"@,
            r.cursor@ == "#ffffff"@,
            r.font_family@ == "'JetBrains Mono', 'Fira Code', 'Consolas', monospace"@,
            r.font_size@ == "14px"@,
    {
        Theme {
            name: String::from_str("Figma Dark"),
            background: String::from_str("#1e1e1e"),
            foreground: String::from_str("#d4d4d4"),
            accent: String::from_str("#0d99ff"),
            secondary_background: String::from_str("#2c2c2c"),
            border: String::from_str("#3c3c3c"),
            hover: String::from_str("#3c3c3c"),
            active: String::from_str("#0d99ff33"),
            muted: String::from_str("#6b6b6b"),
            success: String::from_str("#14ae5c"),
            error: String::from_str("#f24822"),
            warning: String::from_str("#ffcd29"),
            grid: String::from_str("#333333"),
            selection: String::from_str("#264f78"),
            cursor: String::from_str("#ffffff"),
            font_family: String::from_str("'JetBrains Mono', 'Fira Code', 'Consolas', monospace"),
            font_size: String::from_str("14px"),
        }
    }

    /// The light theme.
    pub fn light() -> (r: Self)
        ensures
            r.name@ == "Light"@,
            r.background@ == "#ffffff"@,
            r.foreground@ == "#1e1e1e"@,
            r.accent@ == "#0d99ff"@,
            r.secondary_background@ == "#f5f5f5"@,
            r.border@ == "#e0e0e0"@,
            r.hover@ == "#e8e8e8"@,
            r.active@ == "#0d99ff22"@,
            r.muted@ == "#999999"@,
            r.success@ == "#14ae5c"@,
            r.error@ == "#f24822"@,
            r.warning@ == "#ffcd29"@,
            r.grid@ == "#e0e0e0"@,
            r.selection@ == "#b4d7ff"@,
            r.cursor@ == "#000000"@,
            r.font_family@ == "'JetBrains Mono', 'Fira Code', 'Consolas', monospace"@,
            r.font_size@ == "14px"@,
    {
        Theme {
            name: String::from_str("Light"),
            background: String::from_str("#ffffff"),
            foreground: String::from_str("#1e1e1e"),
            accent: String::from_str("#0d99ff"),
            secondary_background: String::from_str("#f5f5f5"),
            border: String::from_str("#e0e0e0"),
            hover: String::from_str("#e8e8e8"),
            active: String::from_str("#0d99ff22"),
            muted: String::from_str("#999999"),
            success: String::from_str("#14ae5c"),
            error: String::from_str("#f24822"),
            warning: String::from_str("#ffcd29"),
            grid: String::from_str("#e0e0e0"),
            selection: String::from_str("#b4d7ff"),
            cursor: String::from_str("#000000"),
            font_family: String::from_str("'JetBrains Mono', 'Fira Code', 'Consolas', monospace"),
            font_size: String::from_str("14px"),
        }
    }

    /// The high-contrast theme.
    pub fn high_contrast() -> (r: Self)
        ensures
            r.name@ == "High Contrast"@,
            r.background@ == "#000000"@,
            r.foreground@ == "#ffffff"@,
            r.accent@ == "#00ffff"@,
            r.secondary_background@ == "#1a1a1a"@,
            r.border@ == "#ffffff"@,
            r.hover@ == "#333333"@,
            r.active@ == "#00ffff44"@,
            r.muted@ == "#888888"@,
            r.success@ == "#00ff00"@,
            r.error@ == "#ff0000"@,
            r.warning@ == "#ffff00"@,
            r.grid@ == "#333333"@,
            r.selection@ == "#00ffff44"@,
            r.cursor@ == "#ffffff"@,
            r.font_family@ == "'JetBrains Mono', 'Fira Code', 'Consolas', monospace"@,
            r.font_size@ == "14px"@,
    {
        Theme {
            name: String::from_str("High Contrast"),
            background: String::from_str("#000000"),
            foreground: String::from_str("#ffffff"),
            accent: String::from_str("#00ffff"),
            secondary_background: String::from_str("#1a1a1a"),
            border: String::from_str("#ffffff"),
            hover: String::from_str("#333333"),
            active: String::from_str("#00ffff44"),
            muted: String::from_str("#888888"),
            success: String::from_str("#00ff00"),
            error: String::from_str("#ff0000"),
            warning: String::from_str("#ffff00"),
            grid: String::from_str("#333333"),
            selection: String::from_str("#00ffff44"),
            cursor: String::from_str("#ffffff"),
            font_family: String::from_str("'JetBrains Mono', 'Fira Code', 'Consolas', monospace"),
            font_size: String::from_str("14px"),
        }
    }

    /// Render the theme as a block of CSS variable assignments.
    pub fn to_css_variables(&self) -> (r: String)
        ensures
            r@ == spec_css_of(*self),
    {
        let out = String::new();
        let out = out.concat(":root {");
        let out = push_css_line(out, "bg", self.background.as_str());
        let out = push_css_line(out, "fg", self.foreground.as_str());
        let out = push_css_line(out, "accent", self.accent.as_str());
        let out = push_css_line(out, "bg-secondary", self.secondary_background.as_str());
        let out = push_css_line(out, "border", self.border.as_str());
        let out = push_css_line(out, "hover", self.hover.as_str());
        let out = push_css_line(out, "active", self.active.as_str());
        let out = push_css_line(out, "muted", self.muted.as_str());
        let out = push_css_line(out, "success", self.success.as_str());
        let out = push_css_line(out, "error", self.error.as_str());
        let out = push_css_line(out, "warning", self.warning.as_str());
        let out = push_css_line(out, "grid", self.grid.as_str());
        let out = push_css_line(out, "selection", self.selection.as_str());
        let out = push_css_line(out, "cursor", self.cursor.as_str());
        let out = push_css_line(out, "font-family", self.font_family.as_str());
        let out = push_css_line(out, "font-size", self.font_size.as_str());
        let out = out.concat("\n}");
        proof {
            assert(out@ =~= spec_css_of(*self));
        }
        out
    }

    /// All built-in themes.
    pub fn all() -> (r: Vec<Theme>)
        ensures
            r@.len() == 3,
            r@[0].name@ == "Figma Dark"@,
            r@[1].name@ == "Light"@,
            r@[2].name@ == "High Contrast"@,
    {
        let mut themes: Vec<Theme> = Vec::new();
        themes.push(Theme::figma_dark());
        themes.push(Theme::light());
        themes.push(Theme::high_contrast());
        themes
    }

    /// Find a built-in theme by name, without regard to ASCII case; an
    /// unknown name finds nothing.
    pub fn find(name: &str) -> (r: Option<Theme>)
        ensures
            match r {
                Some(t) => crate::editor::lower_seq(t.name@) == crate::editor::lower_seq(name@),
                None => {
                    &&& crate::editor::lower_seq(name@) != "figma dark"@
                    &&& crate::editor::lower_seq(name@) != "light"@
                    &&& crate::editor::lower_seq(name@) != "high contrast"@
                },
            },
    {
        let lowered = lower_string(name);
        if crate::strutil::str_eq(lowered.as_str(), "figma dark") {
            let t = Theme::figma_dark();
            proof {
                reveal_strlit("Figma Dark");
                reveal_strlit("figma dark");
                assert(crate::editor::lower_seq(t.name@) =~= "figma dark"@);
            }
            Some(t)
        } else if crate::strutil::str_eq(lowered.as_str(), "light") {
            let t = Theme::light();
            proof {
                reveal_strlit("Light");
                reveal_strlit("light");
                assert(crate::editor::lower_seq(t.name@) =~= "light"@);
            }
            Some(t)
        } else if crate::strutil::str_eq(lowered.as_str(), "high contrast") {
            let t = Theme::high_contrast();
            proof {
                reveal_strlit("High Contrast");
                reveal_strlit("high contrast");
                assert(crate::editor::lower_seq(t.name@) =~= "high contrast"@);
            }
            Some(t)
        } else {
            None
        }
    }
}

/// Lowercase the ASCII letters of a string.
fn lower_string(s: &str) -> (r: String)
    ensures
        r@ == crate::editor::lower_seq(s@),
{
    let n = s.unicode_len();
    let mut out = String::new();
    let mut i: usize = 0;
    while i < n
        invariant
            i <= n,
            n == s@.len(),
            out@ == crate::editor::lower_seq(s@).take(i as int),
        decreases n - i,
    {
        let c = s.get_char(i);
        let low = if c >= 'A' && c <= 'Z' {
            ((c as u8) + 0x20) as char
        } else {
            c
        };
        crate::strutil::push_char(&mut out, low);
        proof {
            assert(out@ =~= crate::editor::lower_seq(s@).take(i + 1));
        }
        i = i + 1;
    }
    proof {
        assert(crate::editor::lower_seq(s@).take(n as int) =~= crate::editor::lower_seq(s@));
    }
    out
}

/// Append one CSS variable line.
fn push_css_line(out: String, name: &str, value: &str) -> (r: String)
    ensures
        r@ == out@ + css_line(name@, value@),
{
    let r = out.concat("\n    --");
    let r = r.concat(name);
    let r = r.concat(": ");
    let r = r.concat(value);
    let r = r.concat(";");
    proof {
        assert(r@ =~= out@ + css_line(name@, value@));
    }
    r
}

impl Default for Theme {
    /// The default theme is the dark theme.
    fn default() -> (r: Self)
        ensures
            r.name@ == "Figma Dark"@,
    {
        Theme::figma_dark()
    }
}

} // verus!
