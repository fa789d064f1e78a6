//! The resolved configuration and the partial one read from a settings file.
use vstd::prelude::*;

use crate::profile::Profile;

verus! {

/// Default target line width.
pub const DEFAULT_LINE_LENGTH: usize = 120;

/// Default number of spaces per indentation level.
pub const DEFAULT_INDENT_WIDTH: usize = 4;

/// The fully resolved formatter configuration: every field has a value.
#[derive(PartialEq, Eq, Debug, Clone)]
pub struct DjangoFmtOptions {
    pub line_length: usize,
    pub indent_width: usize,
    pub custom_blocks: Vec<String>,
    pub profile: Profile,
}

/// The mathematical value of a configuration.
pub ghost struct Settings {
    pub line_length: usize,
    pub indent_width: usize,
    pub custom_blocks: Seq<Seq<char>>,
    pub profile: Profile,
}

/// The views of a sequence of strings.
pub open spec fn texts(v: Seq<String>) -> Seq<Seq<char>> {
    v.map_values(|s: String| s@)
}

impl View for DjangoFmtOptions {
    type V = Settings;

    open spec fn view(&self) -> Settings {
        Settings {
            line_length: self.line_length,
            indent_width: self.indent_width,
            custom_blocks: texts(self.custom_blocks@),
            profile: self.profile,
        }
    }
}

/// The built-in defaults: width 120, indent 4, no custom blocks, `Django`.
pub open spec fn default_settings() -> Settings {
    Settings {
        line_length: DEFAULT_LINE_LENGTH,
        indent_width: DEFAULT_INDENT_WIDTH,
        custom_blocks: Seq::empty(),
        profile: Profile::Django,
    }
}

/// The fields that a settings file wrote; an absent field is `None`.
pub struct RawSettings {
    pub line_length: Option<usize>,
    pub indent_width: Option<usize>,
    pub custom_blocks: Option<Vec<String>>,
    pub profile: Option<Profile>,
}

/// The mathematical value of a partial configuration.
pub ghost struct RawView {
    pub line_length: Option<usize>,
    pub indent_width: Option<usize>,
    pub custom_blocks: Option<Seq<Seq<char>>>,
    pub profile: Option<Profile>,
}

impl View for RawSettings {
    type V = RawView;

    open spec fn view(&self) -> RawView {
        RawView {
            line_length: self.line_length,
            indent_width: self.indent_width,
            custom_blocks: match self.custom_blocks {
                Some(v) => Some(texts(v@)),
                None => None,
            },
            profile: self.profile,
        }
    }
}

/// A present value, or else the fallback.
pub open spec fn or_else<T>(o: Option<T>, fallback: T) -> T {
    match o {
        Some(x) => x,
        None => fallback,
    }
}

/// Each field that was written overrides its default; the others keep it.
pub open spec fn merged(raw: RawView) -> Settings {
    let d = default_settings();
    Settings {
        line_length: or_else(raw.line_length, d.line_length),
        indent_width: or_else(raw.indent_width, d.indent_width),
        custom_blocks: or_else(raw.custom_blocks, d.custom_blocks),
        profile: or_else(raw.profile, d.profile),
    }
}

/// A partial configuration in which nothing was written.
pub open spec fn nothing_written() -> RawView {
    RawView { line_length: None, indent_width: None, custom_blocks: None, profile: None }
}

impl Default for DjangoFmtOptions {
    fn default() -> (r: DjangoFmtOptions)
        ensures
            r@ == default_settings(),
    {
        let r = DjangoFmtOptions {
            line_length: DEFAULT_LINE_LENGTH,
            indent_width: DEFAULT_INDENT_WIDTH,
            custom_blocks: Vec::new(),
            profile: Profile::Django,
        };
        assert(r@.custom_blocks =~= Seq::<Seq<char>>::empty());
        r
    }
}

impl DjangoFmtOptions {
    /// Builds a configuration in which each given field overrides its default.
    #[must_use]
    pub fn new(
        line_length: Option<usize>,
        indent_width: Option<usize>,
        custom_blocks: Option<Vec<String>>,
        profile: Option<Profile>,
    ) -> (r: DjangoFmtOptions)
        ensures
            r@ == merged(
                RawSettings { line_length, indent_width, custom_blocks, profile }@,
            ),
    {
        let default = Self::default();
        let blocks = match custom_blocks {
            Some(v) => v,
            None => default.custom_blocks,
        };
        DjangoFmtOptions {
            line_length: match line_length {
                Some(n) => n,
                None => default.line_length,
            },
            indent_width: match indent_width {
                Some(n) => n,
                None => default.indent_width,
            },
            custom_blocks: blocks,
            profile: match profile {
                Some(p) => p,
                None => default.profile,
            },
        }
    }

    /// Merges the fields read from a settings file over the defaults.
    pub fn from_raw(raw: RawSettings) -> (r: DjangoFmtOptions)
        ensures
            r@ == merged(raw@),
    {
        Self::new(raw.line_length, raw.indent_width, raw.custom_blocks, raw.profile)
    }
}

} // verus!
