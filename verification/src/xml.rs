//! A reader for the tag-based markup subset that repository documents use.
//!
//! The subset understood here is what the metadata and POM shapes need:
//! an optional `<?...?>` prolog, elements written `<name ...>` /
//! `</name>` or self-closing `<name .../>`, attributes (skipped, with
//! double-quoted values), and raw text content. Character and entity
//! references are not decoded, and comments are not supported; a
//! document using either fails to decode.
//!
//! Every executable function returns exactly what its specification
//! twin (`spec_*`) computes on the view of the input, so the decoders
//! built on top of this module have exact contracts.

use vstd::prelude::*;

use crate::text::{is_name_char, is_ws_char, name_char, str_eq, ws_char};

verus! {

/// Position after the run of whitespace starting at `i`.
pub open spec fn spec_skip_ws(s: Seq<char>, i: int) -> int
    decreases s.len() - i,
{
    if 0 <= i < s.len() && is_ws_char(s[i]) {
        spec_skip_ws(s, i + 1)
    } else {
        i
    }
}

pub(crate) fn skip_ws(s: &str, i: usize) -> (j: usize)
    requires
        i <= s@.len(),
    ensures
        j == spec_skip_ws(s@, i as int),
        i <= j <= s@.len(),
    decreases s@.len() - i,
{
    let n = s.unicode_len();
    if i < n && ws_char(s.get_char(i)) {
        skip_ws(s, i + 1)
    } else {
        i
    }
}

/// Position after the first occurrence of the pair `ab` at or after `i`,
/// or `None` if the pair does not occur.
pub open spec fn spec_scan2(s: Seq<char>, i: int, a: char, b: char) -> Option<int>
    decreases s.len() - i,
{
    if 0 <= i && i + 1 < s.len() {
        if s[i] == a && s[i + 1] == b {
            Some(i + 2)
        } else {
            spec_scan2(s, i + 1, a, b)
        }
    } else {
        None
    }
}

/// Spec view of an optional position.
pub open spec fn opt_pos(r: Option<usize>) -> Option<int> {
    match r {
        Some(j) => Some(j as int),
        None => None,
    }
}

pub(crate) fn scan2(s: &str, i: usize, a: char, b: char) -> (r: Option<usize>)
    requires
        i <= s@.len(),
    ensures
        opt_pos(r) == spec_scan2(s@, i as int, a, b),
        r matches Some(j) ==> i < j <= s@.len(),
    decreases s@.len() - i,
{
    let n = s.unicode_len();
    if i < n && i + 1 < n {
        if s.get_char(i) == a && s.get_char(i + 1) == b {
            Some(i + 2)
        } else {
            scan2(s, i + 1, a, b)
        }
    } else {
        None
    }
}

/// Position after the run of name characters starting at `i`.
pub open spec fn spec_name_end(s: Seq<char>, i: int) -> int
    decreases s.len() - i,
{
    if 0 <= i < s.len() && is_name_char(s[i]) {
        spec_name_end(s, i + 1)
    } else {
        i
    }
}

pub(crate) fn name_end(s: &str, i: usize) -> (j: usize)
    requires
        i <= s@.len(),
    ensures
        j == spec_name_end(s@, i as int),
        i <= j <= s@.len(),
    decreases s@.len() - i,
{
    let n = s.unicode_len();
    if i < n && name_char(s.get_char(i)) {
        name_end(s, i + 1)
    } else {
        i
    }
}

/// Position after the closing double quote of an attribute value whose
/// opening quote stands just before `i`.
pub open spec fn spec_scan_quote(s: Seq<char>, i: int) -> Option<int>
    decreases s.len() - i,
{
    if 0 <= i < s.len() {
        if s[i] == '"' {
            Some(i + 1)
        } else {
            spec_scan_quote(s, i + 1)
        }
    } else {
        None
    }
}

pub(crate) fn scan_quote(s: &str, i: usize) -> (r: Option<usize>)
    requires
        i <= s@.len(),
    ensures
        opt_pos(r) == spec_scan_quote(s@, i as int),
        r matches Some(j) ==> i < j <= s@.len(),
    decreases s@.len() - i,
{
    let n = s.unicode_len();
    if i < n {
        if s.get_char(i) == '"' {
            Some(i + 1)
        } else {
            scan_quote(s, i + 1)
        }
    } else {
        None
    }
}

/// Skips the attribute region of an opening tag, starting just after the
/// tag name. Returns the position after the closing `>` together with
/// whether the tag was self-closing, or `None` if the tag never closes.
pub open spec fn spec_skip_attrs(s: Seq<char>, i: int) -> Option<(int, bool)>
    decreases s.len() - i,
{
    if 0 <= i < s.len() {
        if s[i] == '>' {
            Some((i + 1, false))
        } else if s[i] == '/' {
            if i + 1 < s.len() && s[i + 1] == '>' {
                Some((i + 2, true))
            } else {
                None
            }
        } else if s[i] == '"' {
            match spec_scan_quote(s, i + 1) {
                Some(j) => if i < j <= s.len() {
                    spec_skip_attrs(s, j)
                } else {
                    None
                },
                None => None,
            }
        } else {
            spec_skip_attrs(s, i + 1)
        }
    } else {
        None
    }
}

/// Spec view of an optional position-and-flag pair.
pub open spec fn opt_pos_flag(r: Option<(usize, bool)>) -> Option<(int, bool)> {
    match r {
        Some((j, f)) => Some((j as int, f)),
        None => None,
    }
}

pub(crate) fn skip_attrs(s: &str, i: usize) -> (r: Option<(usize, bool)>)
    requires
        i <= s@.len(),
    ensures
        opt_pos_flag(r) == spec_skip_attrs(s@, i as int),
        r matches Some(p) ==> i < p.0 <= s@.len(),
    decreases s@.len() - i,
{
    let n = s.unicode_len();
    if i < n {
        let c = s.get_char(i);
        if c == '>' {
            Some((i + 1, false))
        } else if c == '/' {
            if i + 1 < n && s.get_char(i + 1) == '>' {
                Some((i + 2, true))
            } else {
                None
            }
        } else if c == '"' {
            match scan_quote(s, i + 1) {
                Some(j) => skip_attrs(s, j),
                None => None,
            }
        } else {
            skip_attrs(s, i + 1)
        }
    } else {
        None
    }
}

/// Reads an opening tag at `i`: its name, the position after the `>`,
/// and whether it was self-closing.
pub open spec fn spec_read_open(s: Seq<char>, i: int) -> Option<(Seq<char>, int, bool)> {
    if 0 <= i < s.len() && s[i] == '<' {
        let e = spec_name_end(s, i + 1);
        if e > i + 1 {
            match spec_skip_attrs(s, e) {
                Some((j, sc)) => Some((s.subrange(i + 1, e), j, sc)),
                None => None,
            }
        } else {
            None
        }
    } else {
        None
    }
}

/// Spec view of an optional name, position and flag triple.
pub open spec fn opt_open(r: Option<(String, usize, bool)>) -> Option<(Seq<char>, int, bool)> {
    match r {
        Some((nm, j, f)) => Some((nm@, j as int, f)),
        None => None,
    }
}

pub(crate) fn read_open(s: &str, i: usize) -> (r: Option<(String, usize, bool)>)
    requires
        i <= s@.len(),
    ensures
        opt_open(r) == spec_read_open(s@, i as int),
        r matches Some(p) ==> i < p.1 <= s@.len(),
{
    let n = s.unicode_len();
    if i < n && s.get_char(i) == '<' {
        let e = name_end(s, i + 1);
        if e > i + 1 {
            match skip_attrs(s, e) {
                Some((j, sc)) => {
                    let nm = s.substring_char(i + 1, e).to_owned();
                    Some((nm, j, sc))
                },
                None => None,
            }
        } else {
            None
        }
    } else {
        None
    }
}

/// Reads a closing tag `</name>` at `i`: its name and the position
/// after the `>`.
pub open spec fn spec_read_close(s: Seq<char>, i: int) -> Option<(Seq<char>, int)> {
    if 0 <= i && i + 1 < s.len() && s[i] == '<' && s[i + 1] == '/' {
        let e = spec_name_end(s, i + 2);
        if e > i + 2 {
            let k = spec_skip_ws(s, e);
            if k < s.len() && s[k] == '>' {
                Some((s.subrange(i + 2, e), k + 1))
            } else {
                None
            }
        } else {
            None
        }
    } else {
        None
    }
}

/// Spec view of an optional name and position pair.
pub open spec fn opt_close(r: Option<(String, usize)>) -> Option<(Seq<char>, int)> {
    match r {
        Some((nm, j)) => Some((nm@, j as int)),
        None => None,
    }
}

pub(crate) fn read_close(s: &str, i: usize) -> (r: Option<(String, usize)>)
    requires
        i <= s@.len(),
    ensures
        opt_close(r) == spec_read_close(s@, i as int),
        r matches Some(p) ==> i < p.1 <= s@.len(),
{
    let n = s.unicode_len();
    if i < n && i + 1 < n && s.get_char(i) == '<' && s.get_char(i + 1) == '/' {
        let e = name_end(s, i + 2);
        if e > i + 2 {
            let k = skip_ws(s, e);
            if k < n && s.get_char(k) == '>' {
                let nm = s.substring_char(i + 2, e).to_owned();
                Some((nm, k + 1))
            } else {
                None
            }
        } else {
            None
        }
    } else {
        None
    }
}

/// Position of the next `<` at or after `i` (or the end of the input).
pub open spec fn spec_text_end(s: Seq<char>, i: int) -> int
    decreases s.len() - i,
{
    if 0 <= i < s.len() && s[i] != '<' {
        spec_text_end(s, i + 1)
    } else {
        i
    }
}

pub(crate) fn text_end(s: &str, i: usize) -> (j: usize)
    requires
        i <= s@.len(),
    ensures
        j == spec_text_end(s@, i as int),
        i <= j <= s@.len(),
    decreases s@.len() - i,
{
    let n = s.unicode_len();
    if i < n && s.get_char(i) != '<' {
        text_end(s, i + 1)
    } else {
        i
    }
}

/// After the opening tag of a leaf element named `name` (position `i`),
/// reads the raw text up to the matching closing tag. Returns the text
/// and the position after the closing tag.
pub open spec fn spec_read_leaf_rest(s: Seq<char>, i: int, name: Seq<char>) -> Option<
    (Seq<char>, int),
> {
    let t = spec_text_end(s, i);
    match spec_read_close(s, t) {
        Some((nm, k)) => if nm == name {
            Some((s.subrange(i, t), k))
        } else {
            None
        },
        None => None,
    }
}

pub(crate) fn read_leaf_rest(s: &str, i: usize, name: &str) -> (r: Option<(String, usize)>)
    requires
        i <= s@.len(),
    ensures
        opt_close(r) == spec_read_leaf_rest(s@, i as int, name@),
        r matches Some(p) ==> i < p.1 <= s@.len(),
{
    let t = text_end(s, i);
    match read_close(s, t) {
        Some((nm, k)) => {
            if str_eq(nm.as_str(), name) {
                let txt = s.substring_char(i, t).to_owned();
                Some((txt, k))
            } else {
                None
            }
        },
        None => None,
    }
}

/// Inside some element whose content starts at `i`, consumes the rest of
/// the content up to and including the element's closing tag, checking
/// only that tags are well nested. Returns the position after the
/// closing tag.
pub open spec fn spec_skip_content(s: Seq<char>, i: int) -> Option<int>
    decreases s.len() - i,
{
    if !(0 <= i < s.len()) {
        None
    } else if s[i] != '<' {
        let t = spec_text_end(s, i);
        if i < t <= s.len() {
            spec_skip_content(s, t)
        } else {
            None
        }
    } else if i + 1 < s.len() && s[i + 1] == '/' {
        match spec_read_close(s, i) {
            Some((_nm, j)) => Some(j),
            None => None,
        }
    } else {
        match spec_read_open(s, i) {
            Some((_nm, j, sc)) => if sc {
                if i < j <= s.len() {
                    spec_skip_content(s, j)
                } else {
                    None
                }
            } else {
                if i < j <= s.len() {
                    match spec_skip_content(s, j) {
                        Some(k) => if j < k <= s.len() {
                            spec_skip_content(s, k)
                        } else {
                            None
                        },
                        None => None,
                    }
                } else {
                    None
                }
            },
            None => None,
        }
    }
}

pub(crate) fn skip_content(s: &str, i: usize) -> (r: Option<usize>)
    requires
        i <= s@.len(),
    ensures
        opt_pos(r) == spec_skip_content(s@, i as int),
        r matches Some(k) ==> i < k <= s@.len(),
    decreases s@.len() - i,
{
    let n = s.unicode_len();
    if i >= n {
        None
    } else if s.get_char(i) != '<' {
        let t = text_end(s, i);
        if t > i {
            skip_content(s, t)
        } else {
            None
        }
    } else if i + 1 < n && s.get_char(i + 1) == '/' {
        match read_close(s, i) {
            Some((_nm, j)) => Some(j),
            None => None,
        }
    } else {
        match read_open(s, i) {
            Some((_nm, j, sc)) => {
                if sc {
                    skip_content(s, j)
                } else {
                    match skip_content(s, j) {
                        Some(k) => skip_content(s, k),
                        None => None,
                    }
                }
            },
            None => None,
        }
    }
}

/// Skips leading whitespace and any `<?...?>` prolog instructions before
/// the root element. Returns `None` for an unterminated prolog.
pub open spec fn spec_skip_prolog(s: Seq<char>, i: int) -> Option<int>
    decreases s.len() - i,
{
    let w = spec_skip_ws(s, i);
    if 0 <= i && i <= w && w + 1 < s.len() && s[w] == '<' && s[w + 1] == '?' {
        match spec_scan2(s, w + 2, '?', '>') {
            Some(j) => if i < j <= s.len() {
                spec_skip_prolog(s, j)
            } else {
                None
            },
            None => None,
        }
    } else {
        Some(w)
    }
}

pub(crate) fn skip_prolog(s: &str, i: usize) -> (r: Option<usize>)
    requires
        i <= s@.len(),
    ensures
        opt_pos(r) == spec_skip_prolog(s@, i as int),
        r matches Some(j) ==> i <= j <= s@.len(),
    decreases s@.len() - i,
{
    let n = s.unicode_len();
    let w = skip_ws(s, i);
    if w < n && w + 1 < n && s.get_char(w) == '<' && s.get_char(w + 1) == '?' {
        match scan2(s, w + 2, '?', '>') {
            Some(j) => skip_prolog(s, j),
            None => None,
        }
    } else {
        Some(w)
    }
}

} // verus!
