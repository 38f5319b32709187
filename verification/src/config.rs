//! The configuration file: a small fragment of TOML.
//!
//! The accepted text is a sequence of lines. A line is blank, a `#`
//! comment, a `[section]` header, or a `key = "value"` pair. Keys
//! `default_method` and `lang` inside the `[props]` section are read;
//! other pairs are ignored. A line in no accepted form, or a duplicate
//! of a read key, is a syntax error, and a text without
//! `default_method` under `[props]` lacks its one required property.

use vstd::prelude::*;

use crate::error::Error;
use crate::text::str_eq;

verus! {

/// Blank characters inside a line.
pub open spec fn is_space(c: char) -> bool {
    c == ' ' || c == '\t'
}

/// First index at or after `i` holding a non-blank character, else the
/// length.
pub open spec fn skip_spaces(l: Seq<char>, i: int) -> int
    decreases l.len() - i,
{
    if i < 0 || i >= l.len() {
        l.len() as int
    } else if is_space(l[i]) {
        skip_spaces(l, i + 1)
    } else {
        i
    }
}

/// First index at or after `i` holding `c`, else the length.
pub open spec fn find_from(l: Seq<char>, i: int, c: char) -> int
    decreases l.len() - i,
{
    if i < 0 || i >= l.len() {
        l.len() as int
    } else if l[i] == c {
        i
    } else {
        find_from(l, i + 1, c)
    }
}

/// The end of the text once blanks before `j` are dropped.
pub open spec fn rtrim(l: Seq<char>, j: int) -> int
    decreases j,
{
    if j <= 0 {
        0
    } else if is_space(l[j - 1]) {
        rtrim(l, j - 1)
    } else {
        j
    }
}

/// What one line of the configuration is.
pub enum LineClass {
    Blank,
    Comment,
    Header(Seq<char>),
    Pair(Seq<char>, Seq<char>),
    Malformed,
}

/// Read one line: blank, comment, `[name]`, or `key = "value"`.
pub open spec fn classify_line(l: Seq<char>) -> LineClass {
    let i = skip_spaces(l, 0);
    if i == l.len() {
        LineClass::Blank
    } else if l[i] == '#' {
        LineClass::Comment
    } else if l[i] == '[' {
        let j = find_from(l, i + 1, ']');
        if j == l.len() {
            LineClass::Malformed
        } else if skip_spaces(l, j + 1) != l.len() {
            LineClass::Malformed
        } else {
            LineClass::Header(l.subrange(i + 1, j))
        }
    } else {
        let e = find_from(l, i, '=');
        if e == l.len() {
            LineClass::Malformed
        } else {
            let kend = rtrim(l, e);
            if kend <= i {
                LineClass::Malformed
            } else {
                let v0 = skip_spaces(l, e + 1);
                if v0 == l.len() || l[v0] != '"' {
                    LineClass::Malformed
                } else {
                    let v1 = find_from(l, v0 + 1, '"');
                    if v1 == l.len() {
                        LineClass::Malformed
                    } else if skip_spaces(l, v1 + 1) != l.len() {
                        LineClass::Malformed
                    } else {
                        LineClass::Pair(l.subrange(i, kend), l.subrange(v0 + 1, v1))
                    }
                }
            }
        }
    }
}

/// What has been gathered while reading the text.
#[verifier::ext_equal]
pub struct ParseSt {
    pub in_props: bool,
    pub method: Option<Seq<char>>,
    pub lang: Option<Seq<char>>,
}

/// Nothing gathered yet, outside every section.
pub open spec fn init_state() -> ParseSt {
    ParseSt { in_props: false, method: None, lang: None }
}

/// Fold one line into the gathered state; `None` is a syntax error.
pub open spec fn step_line(st: ParseSt, l: Seq<char>) -> Option<ParseSt> {
    match classify_line(l) {
        LineClass::Blank => Some(st),
        LineClass::Comment => Some(st),
        LineClass::Malformed => None,
        LineClass::Header(name) => Some(
            ParseSt { in_props: name == "props"@, method: st.method, lang: st.lang },
        ),
        LineClass::Pair(k, v) => {
            if !st.in_props {
                Some(st)
            } else if k == "default_method"@ {
                if st.method is Some {
                    None
                } else {
                    Some(ParseSt { in_props: st.in_props, method: Some(v), lang: st.lang })
                }
            } else if k == "lang"@ {
                if st.lang is Some {
                    None
                } else {
                    Some(ParseSt { in_props: st.in_props, method: st.method, lang: Some(v) })
                }
            } else {
                Some(st)
            }
        },
    }
}

/// Fold the lines of `s` from `pos` on, the current line having begun
/// at `line_start`.
pub open spec fn scan(s: Seq<char>, pos: int, line_start: int, st: ParseSt) -> Option<ParseSt>
    decreases s.len() - pos,
{
    if pos < 0 || pos >= s.len() {
        step_line(st, s.subrange(line_start, s.len() as int))
    } else if s[pos] == '\n' {
        match step_line(st, s.subrange(line_start, pos)) {
            None => None,
            Some(t) => scan(s, pos + 1, pos + 1, t),
        }
    } else {
        scan(s, pos + 1, line_start, st)
    }
}

/// The two configuration values, as sequences.
#[verifier::ext_equal]
pub struct ConfigV {
    pub default_method: Seq<char>,
    pub lang: Option<Seq<char>>,
}

/// What a configuration text means: the `default_method` and `lang`
/// values under `[props]`, or the error the text deserves.
pub open spec fn spec_parse_config(s: Seq<char>) -> Result<ConfigV, Error> {
    match scan(s, 0, 0, init_state()) {
        None => Err(Error::ConfigSyntax),
        Some(st) => match st.method {
            None => Err(Error::ConfigMissingMethod),
            Some(m) => Ok(ConfigV { default_method: m, lang: st.lang }),
        },
    }
}

/// The configuration record read from the file.
#[derive(Debug, Clone, PartialEq)]
pub struct Config {
    pub default_method: String,
    pub lang: Option<String>,
}

impl View for Config {
    type V = ConfigV;

    open spec fn view(&self) -> ConfigV {
        ConfigV {
            default_method: self.default_method@,
            lang: match self.lang {
                Some(l) => Some(l@),
                None => None,
            },
        }
    }
}

/// First non-blank position at or after `i`.
fn skip_spaces_x(l: &str, i: usize) -> (r: usize)
    requires
        i <= l@.len(),
    ensures
        r == skip_spaces(l@, i as int),
        i <= r <= l@.len(),
{
    let n = l.unicode_len();
    let mut j = i;
    while j < n
        invariant
            n == l@.len(),
            i <= j <= n,
            skip_spaces(l@, i as int) == skip_spaces(l@, j as int),
        decreases n - j,
    {
        let c = l.get_char(j);
        if c == ' ' || c == '\t' {
            j = j + 1;
        } else {
            return j;
        }
    }
    j
}

/// First position at or after `i` holding `c`.
fn find_from_x(l: &str, i: usize, c: char) -> (r: usize)
    requires
        i <= l@.len(),
    ensures
        r == find_from(l@, i as int, c),
        i <= r <= l@.len(),
{
    let n = l.unicode_len();
    let mut j = i;
    while j < n
        invariant
            n == l@.len(),
            i <= j <= n,
            find_from(l@, i as int, c) == find_from(l@, j as int, c),
        decreases n - j,
    {
        if l.get_char(j) == c {
            return j;
        }
        j = j + 1;
    }
    j
}

/// The end of the text once blanks before `j` are dropped.
fn rtrim_x(l: &str, j: usize) -> (r: usize)
    requires
        j <= l@.len(),
    ensures
        r == rtrim(l@, j as int),
        r <= j,
{
    let mut k = j;
    while k > 0
        invariant
            k <= j <= l@.len(),
            rtrim(l@, j as int) == rtrim(l@, k as int),
        decreases k,
    {
        let c = l.get_char(k - 1);
        if c == ' ' || c == '\t' {
            k = k - 1;
        } else {
            return k;
        }
    }
    k
}

/// The gathered state, carrying the read values.
struct PState {
    in_props: bool,
    method: Option<String>,
    lang: Option<String>,
}

impl View for PState {
    type V = ParseSt;

    closed spec fn view(&self) -> ParseSt {
        ParseSt {
            in_props: self.in_props,
            method: match self.method {
                Some(m) => Some(m@),
                None => None,
            },
            lang: match self.lang {
                Some(l) => Some(l@),
                None => None,
            },
        }
    }
}

/// Fold one line into the state; `None` is a syntax error.
fn handle_line(line: &str, st: PState) -> (r: Option<PState>)
    ensures
        match step_line(st@, line@) {
            None => r is None,
            Some(t) => r matches Some(p) && p@ == t,
        },
{
    let n = line.unicode_len();
    let i = skip_spaces_x(line, 0);
    if i == n {
        return Some(st);
    }
    let first = line.get_char(i);
    if first == '#' {
        return Some(st);
    }
    if first == '[' {
        let j = find_from_x(line, i + 1, ']');
        if j == n {
            return None;
        }
        if skip_spaces_x(line, j + 1) != n {
            return None;
        }
        let name = line.substring_char(i + 1, j);
        let in_props = str_eq(name, "props");
        return Some(PState { in_props, method: st.method, lang: st.lang });
    }
    let e = find_from_x(line, i, '=');
    if e == n {
        return None;
    }
    let kend = rtrim_x(line, e);
    if kend <= i {
        return None;
    }
    let v0 = skip_spaces_x(line, e + 1);
    if v0 == n || line.get_char(v0) != '"' {
        return None;
    }
    let v1 = find_from_x(line, v0 + 1, '"');
    if v1 == n {
        return None;
    }
    if skip_spaces_x(line, v1 + 1) != n {
        return None;
    }
    let key = line.substring_char(i, kend);
    if !st.in_props {
        return Some(st);
    }
    if str_eq(key, "default_method") {
        if st.method.is_some() {
            return None;
        }
        let value = line.substring_char(v0 + 1, v1).to_owned();
        return Some(PState { in_props: st.in_props, method: Some(value), lang: st.lang });
    }
    if str_eq(key, "lang") {
        if st.lang.is_some() {
            return None;
        }
        let value = line.substring_char(v0 + 1, v1).to_owned();
        return Some(PState { in_props: st.in_props, method: st.method, lang: Some(value) });
    }
    Some(st)
}

/// Read a configuration text.
///
/// A well-formed text yields exactly the `default_method` and `lang`
/// values its `[props]` section holds; a malformed text is a syntax
/// error; a text without `default_method` lacks its required property.
pub fn parse_config(s: &str) -> (r: Result<Config, Error>)
    ensures
        match spec_parse_config(s@) {
            Ok(v) => r matches Ok(c) && c@ == v,
            Err(e) => r matches Err(e2) && e2 == e,
        },
{
    let n = s.unicode_len();
    let mut pos: usize = 0;
    let mut line_start: usize = 0;
    let mut st = PState { in_props: false, method: None, lang: None };
    proof {
        assert(st@ == init_state());
    }
    while pos < n
        invariant
            n == s@.len(),
            line_start <= pos <= n,
            scan(s@, 0, 0, init_state()) == scan(s@, pos as int, line_start as int, st@),
        decreases n - pos,
    {
        let c = s.get_char(pos);
        if c == '\n' {
            let line = s.substring_char(line_start, pos);
            match handle_line(line, st) {
                None => {
                    return Err(Error::ConfigSyntax);
                },
                Some(next) => {
                    st = next;
                },
            }
            line_start = pos + 1;
        }
        pos = pos + 1;
    }
    let line = s.substring_char(line_start, n);
    proof {
        assert(line@ == s@.subrange(line_start as int, s@.len() as int));
    }
    match handle_line(line, st) {
        None => Err(Error::ConfigSyntax),
        Some(fin) => {
            match fin.method {
                None => Err(Error::ConfigMissingMethod),
                Some(m) => {
                    let out = Config { default_method: m, lang: fin.lang };
                    proof {
                        assert(out@ =~= (match spec_parse_config(s@) {
                            Ok(v) => v,
                            Err(_) => out@,
                        }));
                    }
                    Ok(out)
                },
            }
        },
    }
}

/// The text written when the user asks for a fresh configuration file.
pub fn default_config_text() -> (r: String)
    ensures
        r@ == "[props]\ndefault_method = \"Base64\"\nlang = \"EnUs\"\n"@,
{
    String::from_str("[props]\ndefault_method = \"Base64\"\nlang = \"EnUs\"\n")
}

} // verus!
