//! What the terminal can show: colour, Unicode and width.
use vstd::prelude::*;
use crate::text::str_eq;
use crate::tokens::{parse_usize, parsed_usize, split_words, words};

verus! {

/// Whether output is coloured.
#[derive(Debug, Clone, Copy, PartialEq, Eq, Structural)]
pub enum ColorPreference {
    Auto,
    Always,
    Never,
}

/// The colour preference a command-line value names, if any.
pub open spec fn color_preference_named(s: Seq<char>) -> Option<ColorPreference> {
    if s == "auto"@ {
        Some(ColorPreference::Auto)
    } else if s == "always"@ {
        Some(ColorPreference::Always)
    } else if s == "never"@ {
        Some(ColorPreference::Never)
    } else {
        None
    }
}

impl ColorPreference {
    /// Reads `auto`, `always` or `never`; any other text names no preference.
    pub fn parse(s: &str) -> (r: Option<ColorPreference>)
        ensures
            r == color_preference_named(s@),
    {
        if str_eq(s, "auto") {
            Some(ColorPreference::Auto)
        } else if str_eq(s, "always") {
            Some(ColorPreference::Always)
        } else if str_eq(s, "never") {
            Some(ColorPreference::Never)
        } else {
            None
        }
    }
}

/// What the terminal that receives the output can show.
#[derive(Debug, Clone)]
pub struct TerminalCapabilities {
    pub color: bool,
    pub unicode: bool,
    pub width: usize,
}

/// `TERM` names the dumb terminal.
pub open spec fn is_dumb(term: Option<Seq<char>>) -> bool {
    term == Some("dumb"@)
}

/// Whether output is coloured: as the preference says, and under `auto` only
/// on a terminal, without `NO_COLOR` and unless `TERM` is `dumb`.
pub open spec fn color_enabled(pref: ColorPreference, no_color: bool, term: Option<Seq<char>>, on_terminal: bool) -> bool {
    match pref {
        ColorPreference::Always => true,
        ColorPreference::Never => false,
        ColorPreference::Auto => !no_color && !is_dumb(term) && on_terminal,
    }
}

/// The width that `COLUMNS` gives, else the second word of what `stty size`
/// printed (its column count).
pub open spec fn width_from(columns: Option<Seq<char>>, stty: Option<Seq<char>>) -> Option<usize> {
    let from_columns = match columns {
        Some(c) => parsed_usize(c),
        None => None,
    };
    if from_columns is Some {
        from_columns
    } else {
        match stty {
            Some(o) => if words(o).len() > 1 { parsed_usize(words(o)[1]) } else { None },
            None => None,
        }
    }
}

/// The column count in the output of `stty size`.
pub fn stty_width(output: &str) -> (r: Option<usize>)
    ensures
        r == (if words(output@).len() > 1 { parsed_usize(words(output@)[1]) } else { None }),
{
    let ws = split_words(output);
    if ws.len() > 1 {
        parse_usize(ws[1].as_str())
    } else {
        None
    }
}

/// The terminal width from `COLUMNS`, else from the output of `stty size`.
pub fn terminal_width(columns: Option<&str>, stty_output: Option<&str>) -> (r: Option<usize>)
    ensures
        r == width_from(
            match columns { Some(c) => Some(c@), None => None },
            match stty_output { Some(o) => Some(o@), None => None },
        ),
{
    let from_columns = match columns {
        Some(c) => parse_usize(c),
        None => None,
    };
    if from_columns.is_some() {
        return from_columns;
    }
    match stty_output {
        Some(o) => stty_width(o),
        None => None,
    }
}

impl TerminalCapabilities {
    /// The capabilities for a colour preference, given what the environment
    /// says: whether `NO_COLOR` is set, the value of `TERM`, whether standard
    /// output is a terminal, and the width found (80 columns when none was).
    pub fn detect(
        color_pref: ColorPreference,
        no_color: bool,
        term: Option<&str>,
        on_terminal: bool,
        width: Option<usize>,
    ) -> (r: TerminalCapabilities)
        ensures
            r.color == color_enabled(color_pref, no_color, match term { Some(t) => Some(t@), None => None }, on_terminal),
            r.unicode == (on_terminal && !is_dumb(match term { Some(t) => Some(t@), None => None })),
            r.width == (match width { Some(w) => w, None => 80 }),
    {
        let dumb = match term {
            Some(t) => str_eq(t, "dumb"),
            None => false,
        };
        let color = match color_pref {
            ColorPreference::Always => true,
            ColorPreference::Never => false,
            ColorPreference::Auto => !no_color && !dumb && on_terminal,
        };
        let width = match width {
            Some(w) => w,
            None => 80,
        };
        TerminalCapabilities { color, unicode: on_terminal && !dumb, width }
    }
}

/// Colour follows the preference: `always` colours and `never` does not,
/// whatever the environment; under `auto`, output that is not a terminal
/// (piped or redirected) is never coloured, neither is output with `NO_COLOR`
/// set or with `TERM=dumb`, and a terminal without either is coloured.
pub proof fn lemma_color_follows_preference(no_color: bool, term: Option<Seq<char>>, on_terminal: bool)
    ensures
        color_enabled(ColorPreference::Always, no_color, term, on_terminal),
        !color_enabled(ColorPreference::Never, no_color, term, on_terminal),
        !on_terminal ==> !color_enabled(ColorPreference::Auto, no_color, term, on_terminal),
        no_color ==> !color_enabled(ColorPreference::Auto, no_color, term, on_terminal),
        term == Some("dumb"@) ==> !color_enabled(ColorPreference::Auto, no_color, term, on_terminal),
        on_terminal && !no_color && term != Some("dumb"@) ==> color_enabled(ColorPreference::Auto, no_color, term, on_terminal),
        is_dumb(term) <==> term == Some("dumb"@),
{
}

} // verus!
