//! The line printed on success: a true-color terminal swatch followed by
//! the formatted color, and the resolution of the output format from the
//! invocation.

use vstd::prelude::*;
use crate::color::{ColorFormat, render, render_text};
use crate::digits::{append_dec, dec_rep};

verus! {

/// Characters of the terminal swatch: four blank cells on a true-color
/// background of the sampled color, then a reset of the colors.
pub open spec fn swatch_text(r: u8, g: u8, b: u8) -> Seq<char> {
    seq!['\u{1b}', '[', '4', '8', ';', '2', ';'] + dec_rep(r as int) + seq![';'] + dec_rep(
        g as int,
    ) + seq![';'] + dec_rep(b as int) + seq!['m', ' ', ' ', ' ', ' ', '\u{1b}', '[', '0', 'm']
}

/// Characters of the whole stdout line: the swatch, two spaces, then the
/// color rendered in the selected format.
pub open spec fn output_line_text(r: u8, g: u8, b: u8, format: ColorFormat) -> Seq<char> {
    swatch_text(r, g, b) + seq![' ', ' '] + render_text(r, g, b, format)
}

/// Builds the terminal swatch for the sampled color.
pub fn swatch(r: u8, g: u8, b: u8) -> (out: String)
    ensures
        out@ == swatch_text(r, g, b),
{
    let mut s = String::new();
    proof {
        reveal_strlit("\u{1b}[48;2;");
        reveal_strlit(";");
        reveal_strlit("m    \u{1b}[0m");
    }
    s.append("\u{1b}[48;2;");
    append_dec(&mut s, r as u16);
    s.append(";");
    append_dec(&mut s, g as u16);
    s.append(";");
    append_dec(&mut s, b as u16);
    s.append("m    \u{1b}[0m");
    proof {
        assert(s@ =~= swatch_text(r, g, b));
    }
    s
}

/// Builds the single line printed on success.
pub fn output_line(r: u8, g: u8, b: u8, format: ColorFormat) -> (out: String)
    ensures
        out@ == output_line_text(r, g, b, format),
{
    let mut s = swatch(r, g, b);
    proof {
        reveal_strlit("  ");
    }
    s.append("  ");
    let rendered = render(r, g, b, format);
    s.append(rendered.as_str());
    proof {
        assert(s@ =~= output_line_text(r, g, b, format));
    }
    s
}

/// The format the invocation selected. A `-rgba` or `-hsl` suffix on the
/// binary's name overrides the flags; among the flags, `--rgba` wins over
/// `--hsl`, which wins over `--rgb`; with none of them the output is hex.
pub open spec fn selected_format(
    exe_rgba: bool,
    exe_hsl: bool,
    flag_rgba: bool,
    flag_hsl: bool,
    flag_rgb: bool,
) -> ColorFormat {
    if exe_rgba {
        ColorFormat::Rgba
    } else if exe_hsl {
        ColorFormat::Hsl
    } else if flag_rgba {
        ColorFormat::Rgba
    } else if flag_hsl {
        ColorFormat::Hsl
    } else if flag_rgb {
        ColorFormat::Rgb
    } else {
        ColorFormat::Hex
    }
}

/// Resolves the output format from the binary-name suffixes and flags of
/// the invocation.
pub fn select_format(
    exe_rgba: bool,
    exe_hsl: bool,
    flag_rgba: bool,
    flag_hsl: bool,
    flag_rgb: bool,
) -> (f: ColorFormat)
    ensures
        f == selected_format(exe_rgba, exe_hsl, flag_rgba, flag_hsl, flag_rgb),
{
    if exe_rgba {
        ColorFormat::Rgba
    } else if exe_hsl {
        ColorFormat::Hsl
    } else if flag_rgba {
        ColorFormat::Rgba
    } else if flag_hsl {
        ColorFormat::Hsl
    } else if flag_rgb {
        ColorFormat::Rgb
    } else {
        ColorFormat::Hex
    }
}

} // verus!
