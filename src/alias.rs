use vstd::prelude::*;
use vstd::string::*;

use crate::text::{
    decimal, decimal_of, lower_of, regex_compiles, regex_replaced, replace_all_matches, to_lower,
    trim_dash, trim_dashes,
};

verus! {

/// Characters that are dropped from a path segment.
pub const STRIP_PATTERN: &'static str = "['\"`=+*&^%$#@!<>?]";

/// Runs of separators that become a single dash.
pub const DASH_PATTERN: &'static str = "[\\[\\]{}() ,;:/|\\-]+";

/// Whether both patterns of a slug compile.
pub open spec fn slug_patterns_compile() -> bool {
    regex_compiles(STRIP_PATTERN@) && regex_compiles(DASH_PATTERN@)
}

/// The path segment made of `s`: unwanted characters removed, separator runs
/// turned into one dash, lower case, and no dash at either end.
pub open spec fn slug_of(s: Seq<char>) -> Seq<char> {
    trim_dash(lower_of(regex_replaced(DASH_PATTERN@, regex_replaced(STRIP_PATTERN@, s, ""@), "-"@)))
}

pub open spec fn opt_text(o: Option<&str>) -> Option<Seq<char>> {
    match o {
        Some(s) => Some(s@),
        None => None,
    }
}

/// The alias `/<prefix>/<id>/<suffix>`, where an absent prefix leaves out its
/// leading segment and an absent suffix leaves the last segment empty.
pub open spec fn alias_of(prefix: Option<Seq<char>>, id: int, suffix: Option<Seq<char>>) -> Seq<char> {
    let head = match prefix {
        Some(p) => "/"@ + slug_of(p),
        None => Seq::<char>::empty(),
    };
    let tail = match suffix {
        Some(s) => slug_of(s),
        None => Seq::<char>::empty(),
    };
    head + "/"@ + decimal_of(id) + "/"@ + tail
}

/// Turns a title or a subject name into a path segment. `None` only where a
/// slug pattern fails to compile.
pub fn slugify(segment: &str) -> (r: Option<String>)
    ensures
        r.is_some() == slug_patterns_compile(),
        r.is_some() ==> r.unwrap()@ == slug_of(segment@),
{
    match replace_all_matches(STRIP_PATTERN, segment, "") {
        None => None,
        Some(stripped) => match replace_all_matches(DASH_PATTERN, stripped.as_str(), "-") {
            None => None,
            Some(dashed) => {
                let lower = to_lower(dashed.as_str());
                Some(trim_dashes(lower.as_str()))
            },
        },
    }
}

/// The alias of a resource from its subject, its id and its title.
pub fn format_alias(prefix: Option<&str>, id: i32, suffix: Option<&str>) -> (r: Option<String>)
    ensures
        r.is_some() == ((prefix.is_none() && suffix.is_none()) || slug_patterns_compile()),
        r.is_some() ==> r.unwrap()@ == alias_of(opt_text(prefix), id as int, opt_text(suffix)),
{
    let head = match prefix {
        Some(p) => match slugify(p) {
            Some(s) => String::from_str("/").concat(s.as_str()),
            None => return None,
        },
        None => String::new(),
    };
    let tail = match suffix {
        Some(s) => match slugify(s) {
            Some(t) => t,
            None => return None,
        },
        None => String::new(),
    };
    let number = decimal(id);
    let r = head.concat("/").concat(number.as_str()).concat("/").concat(tail.as_str());
    Some(r)
}

} // verus!
