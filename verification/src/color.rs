//! Conversion of an 8-bit RGB triple into its four textual renderings:
//! hex, rgb, rgba and hsl. All arithmetic is exact integer arithmetic;
//! the hsl percentages and the hue in degrees are rounded to the nearest
//! integer (halves round up).

use vstd::prelude::*;
use vstd::arithmetic::div_mod::{lemma_multiply_divide_lt, lemma_div_pos_is_pos};
use crate::digits::{dec_rep, hex_pair, hex_digit, append_dec, append_hex_pair};

verus! {

/// The output representation a caller asked for.
#[derive(Clone, Copy, Debug, PartialEq, Eq, Structural)]
pub enum ColorFormat {
    Hex,
    Rgb,
    Rgba,
    Hsl,
}

/// Largest of three channel values.
pub open spec fn max3(a: int, b: int, c: int) -> int {
    if a >= b && a >= c {
        a
    } else if b >= c {
        b
    } else {
        c
    }
}

/// Smallest of three channel values.
pub open spec fn min3(a: int, b: int, c: int) -> int {
    if a <= b && a <= c {
        a
    } else if b <= c {
        b
    } else {
        c
    }
}

/// `n / d` rounded to the nearest integer, halves rounding up
/// (for `n >= 0`, `d >= 1`).
pub open spec fn round_div(n: int, d: int) -> int {
    (2 * n + d) / (2 * d)
}

/// Lightness of (r, g, b) as a display percentage: the exact value is
/// `(max + min) / 510` of the unnormalized channels, i.e. the mean of the
/// largest and smallest channel scaled to [0, 1], shown as a rounded
/// percentage.
pub open spec fn lightness_pct(r: u8, g: u8, b: u8) -> int {
    let mx = max3(r as int, g as int, b as int);
    let mn = min3(r as int, g as int, b as int);
    round_div(10 * (mx + mn), 51)
}

/// Saturation of (r, g, b) as a display percentage. Zero for achromatic
/// triples; otherwise `d / (max + min)` when lightness is at most one
/// half, `d / (2 - max - min)` above it (over channels normalized to
/// [0, 1]), shown as a rounded percentage.
pub open spec fn saturation_pct(r: u8, g: u8, b: u8) -> int {
    let mx = max3(r as int, g as int, b as int);
    let mn = min3(r as int, g as int, b as int);
    let d = mx - mn;
    if d == 0 {
        0
    } else if mx + mn > 255 {
        round_div(100 * d, 510 - (mx + mn))
    } else {
        round_div(100 * d, mx + mn)
    }
}

/// Hue of (r, g, b) in degrees, rounded to the nearest integer. Zero for
/// achromatic triples. Otherwise the standard three-way branch on which
/// channel is largest, each branch yielding a value in [0, 6) that is
/// scaled by 60 degrees; the red branch wraps by a full turn when
/// green < blue.
pub open spec fn hue_deg(r: u8, g: u8, b: u8) -> int {
    let mx = max3(r as int, g as int, b as int);
    let mn = min3(r as int, g as int, b as int);
    let d = mx - mn;
    if d == 0 {
        0
    } else if mx == r as int {
        if (g as int) < b as int {
            round_div(60 * (g as int - b as int) + 360 * d, d)
        } else {
            round_div(60 * (g as int - b as int), d)
        }
    } else if mx == g as int {
        round_div(60 * (b as int - r as int) + 120 * d, d)
    } else {
        round_div(60 * (r as int - g as int) + 240 * d, d)
    }
}

/// Rounded division stays at or below `k` when `n` is at most `k * d`.
proof fn lemma_round_div_le(n: int, d: int, k: int)
    requires
        0 <= n,
        1 <= d,
        0 <= k,
        n <= k * d,
    ensures
        0 <= round_div(n, d) <= k,
{
    assert(2 * n + d < (2 * d) * (k + 1)) by (nonlinear_arith)
        requires
            0 <= n,
            1 <= d,
            0 <= k,
            n <= k * d,
    ;
    lemma_multiply_divide_lt(2 * n + d, 2 * d, k + 1);
    lemma_div_pos_is_pos(2 * n + d, 2 * d);
}

/// The rounded hue, saturation percentage and lightness percentage of an
/// RGB triple; the components are bounded by 360, 100 and 100.
pub fn hsl_components(r: u8, g: u8, b: u8) -> (out: (u16, u16, u16))
    ensures
        out.0 == hue_deg(r, g, b),
        out.1 == saturation_pct(r, g, b),
        out.2 == lightness_pct(r, g, b),
        out.0 <= 360,
        out.1 <= 100,
        out.2 <= 100,
{
    let ru: u32 = r as u32;
    let gu: u32 = g as u32;
    let bu: u32 = b as u32;
    let mx: u32 = if ru >= gu && ru >= bu {
        ru
    } else if gu >= bu {
        gu
    } else {
        bu
    };
    let mn: u32 = if ru <= gu && ru <= bu {
        ru
    } else if gu <= bu {
        gu
    } else {
        bu
    };
    assert(mx == max3(r as int, g as int, b as int));
    assert(mn == min3(r as int, g as int, b as int));
    let d: u32 = mx - mn;
    let sum: u32 = mx + mn;

    let l: u32 = (20 * sum + 51) / 102;
    proof {
        lemma_round_div_le(10 * sum, 51, 100);
        assert(l == round_div(10 * (sum as int), 51));
    }

    if d == 0 {
        assert(hue_deg(r, g, b) == 0);
        assert(saturation_pct(r, g, b) == 0);
        (0, 0, l as u16)
    } else {
        let sden: u32 = if sum > 255 {
            510 - sum
        } else {
            sum
        };
        assert(d <= sden);
        let s: u32 = (2 * (100 * d) + sden) / (2 * sden);
        proof {
            lemma_round_div_le(100 * (d as int), sden as int, 100);
            assert(100 * (d as int) <= 100 * (sden as int)) by (nonlinear_arith)
                requires
                    d as int <= sden as int,
            ;
            assert(s == saturation_pct(r, g, b));
        }

        let hnum: u32 = if mx == ru {
            if gu < bu {
                360 * d - 60 * (bu - gu)
            } else {
                60 * (gu - bu)
            }
        } else if mx == gu {
            if bu >= ru {
                120 * d + 60 * (bu - ru)
            } else {
                120 * d - 60 * (ru - bu)
            }
        } else {
            if ru >= gu {
                240 * d + 60 * (ru - gu)
            } else {
                240 * d - 60 * (gu - ru)
            }
        };
        assert(hnum <= 360 * d);
        let h: u32 = (2 * hnum + d) / (2 * d);
        proof {
            lemma_round_div_le(hnum as int, d as int, 360);
            assert(h == round_div(hnum as int, d as int));
            assert(h == hue_deg(r, g, b));
        }
        (h as u16, s as u16, l as u16)
    }
}

/// Characters of the hex rendering: `#` followed by two uppercase
/// hexadecimal digits per channel.
pub open spec fn hex_text(r: u8, g: u8, b: u8) -> Seq<char> {
    seq!['#'] + hex_pair(r as int) + hex_pair(g as int) + hex_pair(b as int)
}

/// Characters of the rgb rendering: `rgb(r, g, b)` with decimal channels.
pub open spec fn rgb_text(r: u8, g: u8, b: u8) -> Seq<char> {
    seq!['r', 'g', 'b', '('] + dec_rep(r as int) + seq![',', ' '] + dec_rep(g as int)
        + seq![',', ' '] + dec_rep(b as int) + seq![')']
}

/// Characters of the rgba rendering: `rgba(r, g, b, 1.0)`; the alpha is
/// always the literal full-opacity value.
pub open spec fn rgba_text(r: u8, g: u8, b: u8) -> Seq<char> {
    seq!['r', 'g', 'b', 'a', '('] + dec_rep(r as int) + seq![',', ' '] + dec_rep(g as int)
        + seq![',', ' '] + dec_rep(b as int) + seq![',', ' ', '1', '.', '0', ')']
}

/// Characters of the hsl rendering: `hsl(H, S%, L%)` with the rounded
/// degree and percentage components.
pub open spec fn hsl_text(r: u8, g: u8, b: u8) -> Seq<char> {
    seq!['h', 's', 'l', '('] + dec_rep(hue_deg(r, g, b)) + seq![',', ' ']
        + dec_rep(saturation_pct(r, g, b)) + seq!['%', ',', ' '] + dec_rep(lightness_pct(r, g, b))
        + seq!['%', ')']
}

/// Renders `#RRGGBB` with uppercase hexadecimal digits.
pub fn rgb_to_hex(r: u8, g: u8, b: u8) -> (out: String)
    ensures
        out@ == hex_text(r, g, b),
{
    let mut s = String::new();
    proof {
        reveal_strlit("#");
    }
    s.append("#");
    append_hex_pair(&mut s, r);
    append_hex_pair(&mut s, g);
    append_hex_pair(&mut s, b);
    proof {
        assert(s@ =~= hex_text(r, g, b));
    }
    s
}

/// Renders `rgb(r, g, b)` with decimal channel values.
pub fn rgb_to_rgb(r: u8, g: u8, b: u8) -> (out: String)
    ensures
        out@ == rgb_text(r, g, b),
{
    let mut s = String::new();
    proof {
        reveal_strlit("rgb(");
        reveal_strlit(", ");
        reveal_strlit(")");
    }
    s.append("rgb(");
    append_dec(&mut s, r as u16);
    s.append(", ");
    append_dec(&mut s, g as u16);
    s.append(", ");
    append_dec(&mut s, b as u16);
    s.append(")");
    proof {
        assert(s@ =~= rgb_text(r, g, b));
    }
    s
}

/// Renders `rgba(r, g, b, 1.0)`; the alpha never varies.
pub fn rgb_to_rgba(r: u8, g: u8, b: u8) -> (out: String)
    ensures
        out@ == rgba_text(r, g, b),
{
    let mut s = String::new();
    proof {
        reveal_strlit("rgba(");
        reveal_strlit(", ");
        reveal_strlit(", 1.0)");
    }
    s.append("rgba(");
    append_dec(&mut s, r as u16);
    s.append(", ");
    append_dec(&mut s, g as u16);
    s.append(", ");
    append_dec(&mut s, b as u16);
    s.append(", 1.0)");
    proof {
        assert(s@ =~= rgba_text(r, g, b));
    }
    s
}

/// Renders `hsl(H, S%, L%)` with rounded integer components.
pub fn rgb_to_hsl(r: u8, g: u8, b: u8) -> (out: String)
    ensures
        out@ == hsl_text(r, g, b),
{
    let (h, sat, l) = hsl_components(r, g, b);
    let mut s = String::new();
    proof {
        reveal_strlit("hsl(");
        reveal_strlit(", ");
        reveal_strlit("%, ");
        reveal_strlit("%)");
    }
    s.append("hsl(");
    append_dec(&mut s, h);
    s.append(", ");
    append_dec(&mut s, sat);
    s.append("%, ");
    append_dec(&mut s, l);
    s.append("%)");
    proof {
        assert(s@ =~= hsl_text(r, g, b));
    }
    s
}

/// Characters of the rendering of (r, g, b) in the given format.
pub open spec fn render_text(r: u8, g: u8, b: u8, format: ColorFormat) -> Seq<char> {
    match format {
        ColorFormat::Hex => hex_text(r, g, b),
        ColorFormat::Rgb => rgb_text(r, g, b),
        ColorFormat::Rgba => rgba_text(r, g, b),
        ColorFormat::Hsl => hsl_text(r, g, b),
    }
}

/// Renders the sampled color in the selected format.
pub fn render(r: u8, g: u8, b: u8, format: ColorFormat) -> (out: String)
    ensures
        out@ == render_text(r, g, b, format),
{
    match format {
        ColorFormat::Hex => rgb_to_hex(r, g, b),
        ColorFormat::Rgb => rgb_to_rgb(r, g, b),
        ColorFormat::Rgba => rgb_to_rgba(r, g, b),
        ColorFormat::Hsl => rgb_to_hsl(r, g, b),
    }
}

/// An achromatic triple (all channels equal) always has hue 0 and
/// saturation 0, whatever its lightness.
pub proof fn lemma_achromatic_zero_hue_saturation(r: u8, g: u8, b: u8)
    requires
        r == g && g == b,
    ensures
        hue_deg(r, g, b) == 0,
        saturation_pct(r, g, b) == 0,
{
}

/// The rgba rendering always ends with the six characters `, 1.0)`.
pub proof fn lemma_rgba_full_opacity_suffix(r: u8, g: u8, b: u8)
    ensures
        rgba_text(r, g, b).len() >= 6,
        rgba_text(r, g, b).subrange(
            rgba_text(r, g, b).len() - 6,
            rgba_text(r, g, b).len() as int,
        ) == seq![',', ' ', '1', '.', '0', ')'],
{
    let t = rgba_text(r, g, b);
    assert(t.subrange(t.len() - 6, t.len() as int) =~= seq![',', ' ', '1', '.', '0', ')']);
}

/// Value of an uppercase hexadecimal digit character; characters outside
/// the digit set map to -1.
pub open spec fn hex_char_val(c: char) -> int {
    if c == '0' {
        0
    } else if c == '1' {
        1
    } else if c == '2' {
        2
    } else if c == '3' {
        3
    } else if c == '4' {
        4
    } else if c == '5' {
        5
    } else if c == '6' {
        6
    } else if c == '7' {
        7
    } else if c == '8' {
        8
    } else if c == '9' {
        9
    } else if c == 'A' {
        10
    } else if c == 'B' {
        11
    } else if c == 'C' {
        12
    } else if c == 'D' {
        13
    } else if c == 'E' {
        14
    } else if c == 'F' {
        15
    } else {
        -1
    }
}

/// The hex rendering is the bit pattern of the triple: it is exactly
/// seven characters, starts with `#`, and reading each channel's two
/// digits back as base-16 values recovers that channel.
pub proof fn lemma_hex_encodes_channels(r: u8, g: u8, b: u8)
    ensures
        hex_text(r, g, b).len() == 7,
        hex_text(r, g, b)[0] == '#',
        hex_char_val(hex_text(r, g, b)[1]) * 16 + hex_char_val(hex_text(r, g, b)[2]) == r as int,
        hex_char_val(hex_text(r, g, b)[3]) * 16 + hex_char_val(hex_text(r, g, b)[4]) == g as int,
        hex_char_val(hex_text(r, g, b)[5]) * 16 + hex_char_val(hex_text(r, g, b)[6]) == b as int,
{
    lemma_hex_pair_value(r);
    lemma_hex_pair_value(g);
    lemma_hex_pair_value(b);
}

/// Reading a byte's two hexadecimal digits back recovers the byte.
proof fn lemma_hex_pair_value(v: u8)
    ensures
        hex_char_val(hex_pair(v as int)[0]) * 16 + hex_char_val(hex_pair(v as int)[1]) == v as int,
{
    assert(hex_char_val(hex_digit(v as int / 16)) == v as int / 16);
    assert(hex_char_val(hex_digit(v as int % 16)) == v as int % 16);
}

} // verus!
