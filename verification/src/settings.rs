//! The global settings shared by the whole board: language and colour theme.
use vstd::prelude::*;
use crate::lang::{Lang, lang_code, lang_of};
use crate::rgb::{RGB, spec_luminance};
use crate::text::{split_fields, spec_parse_u8, split_bytes, parse_u8, decimal_u8, spec_decimal, ascii_chars, ascii_string, is_ascii_bytes};

verus! {

/// A colour theme of the interface.
#[derive(Clone, Copy, Debug, PartialEq, Eq, Structural)]
pub enum Theme {
    Dark,
    Light,
    Custom(RGB),
}

pub open spec fn spec_bg(t: Theme) -> RGB {
    match t {
        Theme::Dark => RGB { r: 0, g: 10, b: 0 },
        Theme::Light => RGB { r: 255, g: 240, b: 255 },
        Theme::Custom(c) => c,
    }
}

pub open spec fn spec_bg_secondary(t: Theme) -> RGB {
    match t {
        Theme::Dark => RGB { r: 20, g: 20, b: 20 },
        Theme::Light => RGB { r: 230, g: 230, b: 230 },
        Theme::Custom(c) => if spec_luminance(c) > 100 {
            RGB { r: 30, g: 30, b: 30 }
        } else {
            RGB { r: 172, g: 172, b: 172 }
        },
    }
}

pub open spec fn spec_fg(t: Theme) -> RGB {
    match t {
        Theme::Dark => RGB { r: 255, g: 255, b: 255 },
        Theme::Light => RGB { r: 0, g: 0, b: 0 },
        Theme::Custom(c) => if spec_luminance(c) > 100 {
            RGB { r: 0, g: 0, b: 0 }
        } else {
            RGB { r: 255, g: 255, b: 255 }
        },
    }
}

pub open spec fn spec_highlight(t: Theme) -> RGB {
    RGB { r: 255, g: 0, b: 0 }
}

impl Theme {
    /// The background colour.
    pub fn bg(&self) -> (c: RGB)
        ensures
            c == spec_bg(*self),
    {
        match self {
            Theme::Dark => RGB { r: 0, g: 10, b: 0 },
            Theme::Light => RGB { r: 255, g: 240, b: 255 },
            Theme::Custom(r) => *r,
        }
    }

    /// The colour of raised surfaces: on a custom theme dark on bright colours, light on dark.
    pub fn bg_secondary(&self) -> (c: RGB)
        ensures
            c == spec_bg_secondary(*self),
    {
        match self {
            Theme::Dark => RGB { r: 20, g: 20, b: 20 },
            Theme::Light => RGB { r: 230, g: 230, b: 230 },
            Theme::Custom(r) => {
                if r.luminance() > 100 {
                    RGB { r: 30, g: 30, b: 30 }
                } else {
                    RGB { r: 172, g: 172, b: 172 }
                }
            },
        }
    }

    /// The text colour: on a custom theme black on bright colours, white on dark ones.
    pub fn fg(&self) -> (c: RGB)
        ensures
            c == spec_fg(*self),
    {
        match self {
            Theme::Dark => RGB { r: 255, g: 255, b: 255 },
            Theme::Light => RGB { r: 0, g: 0, b: 0 },
            Theme::Custom(r) => if r.luminance() > 100 {
                RGB { r: 0, g: 0, b: 0 }
            } else {
                RGB { r: 255, g: 255, b: 255 }
            },
        }
    }

    /// The colour of highlighted elements.
    pub fn highlight(&self) -> (c: RGB)
        ensures
            c == spec_highlight(*self),
    {
        RGB { r: 255, g: 0, b: 0 }
    }
}

/// A colour role that the current theme decides.
#[derive(Clone, Copy, Debug, PartialEq, Eq, Structural)]
pub enum ThemedColor {
    Bg,
    SecondaryBg,
    Fg,
    Highlight,
}

impl ThemedColor {
    /// The colour that `theme` gives this role.
    pub fn get(&self, theme: &Theme) -> (c: RGB)
        ensures
            c == match self {
                ThemedColor::Bg => spec_bg(*theme),
                ThemedColor::Fg => spec_fg(*theme),
                ThemedColor::SecondaryBg => spec_bg_secondary(*theme),
                ThemedColor::Highlight => spec_highlight(*theme),
            },
    {
        match self {
            ThemedColor::Bg => theme.bg(),
            ThemedColor::Fg => theme.fg(),
            ThemedColor::SecondaryBg => theme.bg_secondary(),
            ThemedColor::Highlight => theme.highlight(),
        }
    }
}

/// The settings that the entire board uses.
#[derive(Clone, Copy, Debug, PartialEq, Eq, Structural)]
pub struct PbGlobalSettings {
    pub lang: Lang,
    pub theme: Theme,
}

/// A settings text `key=value&key=value...` carries a tenth field whose value after its
/// two-byte key is a byte.
pub open spec fn settings_bytes_ok(b: Seq<u8>) -> bool {
    let f = split_fields(b, 38);
    f.len() >= 10 && f[9].len() >= 2 && spec_parse_u8(f[9].skip(2)) is Some
}

/// The language that a well-formed settings text sets.
pub open spec fn settings_bytes_lang(b: Seq<u8>) -> Lang {
    lang_of(spec_parse_u8(split_fields(b, 38)[9].skip(2))->0)
}

/// A settings string carries a tenth field whose value after its two-byte key is a byte.
pub open spec fn settings_string_ok(s: Seq<char>) -> bool {
    settings_bytes_ok(vstd::utf8::encode_utf8(s))
}

/// The language that a well-formed settings string sets.
pub open spec fn settings_string_lang(s: Seq<char>) -> Lang {
    settings_bytes_lang(vstd::utf8::encode_utf8(s))
}

/// The bytes of the settings string that [`PbGlobalSettings::to_string`] gives.
pub open spec fn settings_bytes(st: PbGlobalSettings) -> Seq<u8> {
    seq![48u8, 44, 35, 48, 48, 48, 48, 48, 48, 44, 48, 44, 48, 44, 48, 44, 48, 44, 35, 48, 48,
        48, 48, 48, 48, 44, 35, 48, 48, 48, 48, 48, 48, 44, 48, 44] + spec_decimal(lang_code(st.lang) as nat)
}

impl PbGlobalSettings {
    /// The settings the board starts with: English, dark theme.
    pub fn new() -> (s: PbGlobalSettings)
        ensures
            s.lang == Lang::En,
            s.theme == Theme::Dark,
    {
        PbGlobalSettings { lang: Lang::En, theme: Theme::Dark }
    }

    /// Sets the settings from a string `key=value&key=value...`: the tenth field sets the
    /// language (its value is the language's number). The string must hold that field.
    pub fn set_from_string(&mut self, s: String)
        requires
            settings_string_ok(s@),
        ensures
            final(self).lang == settings_string_lang(s@),
            final(self).theme == old(self).theme,
    {
        self.set_from_bytes(s.as_str().as_bytes());
    }

    /// Sets the settings from the bytes of a settings text, as [`Self::set_from_string`].
    pub fn set_from_bytes(&mut self, b: &[u8])
        requires
            settings_bytes_ok(b@),
        ensures
            final(self).lang == settings_bytes_lang(b@),
            final(self).theme == old(self).theme,
    {
        let fields = split_bytes(b, 38);
        let f9: &Vec<u8> = &fields[9];
        let mut rest: Vec<u8> = Vec::new();
        let n = f9.len();
        let mut i: usize = 2;
        while i < n
            invariant
                n == f9@.len(),
                2 <= i <= n,
                rest@ == f9@.subrange(2, i as int),
            decreases n - i,
        {
            rest.push(f9[i]);
            assert(f9@.subrange(2, i + 1) =~= f9@.subrange(2, i as int).push(f9@[i as int]));
            i = i + 1;
        }
        assert(rest@ =~= f9@.skip(2));
        match parse_u8(rest.as_slice()) {
            Some(v) => {
                self.lang = Lang::from_code(v);
            },
            None => {},
        }
    }

    /// The settings as a string of comma-separated values, the language's number last.
    pub fn to_string(&self) -> (s: String)
        ensures
            s@ == ascii_chars(settings_bytes(*self)),
    {
        let prefix: [u8; 36] = [48, 44, 35, 48, 48, 48, 48, 48, 48, 44, 48, 44, 48, 44, 48, 44, 48, 44,
            35, 48, 48, 48, 48, 48, 48, 44, 35, 48, 48, 48, 48, 48, 48, 44, 48, 44];
        let mut out: Vec<u8> = Vec::new();
        let mut i: usize = 0;
        while i < 36
            invariant
                i <= 36,
                out@ == prefix@.take(i as int),
            decreases 36 - i,
        {
            out.push(prefix[i]);
            assert(prefix@.take(i + 1) =~= prefix@.take(i as int).push(prefix@[i as int]));
            i = i + 1;
        }
        let code = self.lang.code();
        let digits = decimal_u8(code);
        assert(digits@ =~= seq![(48 + code) as u8]);
        out.push(digits[0]);
        assert(out@ =~= settings_bytes(*self));
        assert(is_ascii_bytes(out@));
        ascii_string(out)
    }
}

} // verus!
