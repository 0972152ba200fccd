//! Classifying a response body: HTML where JSON was expected is detected
//! first (it is the platform's most common failure mode and would otherwise
//! surface as a less diagnostic parse error), then a strict JSON parse
//! decides.

use vstd::prelude::*;

use crate::errors::{ParseJsonDataError, ParseJsonDataErrorView};
use crate::json::{parse_json, parsed_json, JsonValue};
use crate::text::spec_starts_with;

verus! {

/// Whitespace that may precede a document marker.
pub open spec fn spec_is_ws(c: char) -> bool {
    c == ' ' || c == '\t' || c == '\n' || c == '\r'
}

/// `s` without its leading whitespace.
pub open spec fn spec_trim_start(s: Seq<char>) -> Seq<char>
    decreases s.len(),
{
    if s.len() > 0 && spec_is_ws(s[0]) {
        spec_trim_start(s.drop_first())
    } else {
        s
    }
}

/// After leading whitespace, the body opens with an HTML document marker.
pub open spec fn spec_is_html(s: Seq<char>) -> bool {
    spec_starts_with(spec_trim_start(s), "<!"@)
}

/// What classification owes for a body: an HTML body is reported with its
/// full text preserved; otherwise the parse alone decides.
pub open spec fn spec_classified(s: Seq<char>) -> Result<JsonValue, ParseJsonDataErrorView> {
    if spec_is_html(s) {
        Err(ParseJsonDataErrorView::Html(s))
    } else {
        match parsed_json(s) {
            Some(doc) => Ok(doc),
            None => Err(ParseJsonDataErrorView::Parse),
        }
    }
}

fn is_ws_char(c: char) -> (r: bool)
    ensures
        r == spec_is_ws(c),
{
    c == ' ' || c == '\t' || c == '\n' || c == '\r'
}

fn body_is_html(s: &str) -> (r: bool)
    ensures
        r == spec_is_html(s@),
{
    let n = s.unicode_len();
    let mut i: usize = 0;
    proof {
        assert(s@.skip(0) =~= s@);
    }
    while i < n && is_ws_char(s.get_char(i))
        invariant
            i <= n,
            n == s@.len(),
            spec_trim_start(s@) == spec_trim_start(s@.skip(i as int)),
        decreases n - i,
    {
        proof {
            assert(s@.skip(i as int)[0] == s@[i as int]);
            assert(s@.skip(i as int).drop_first() =~= s@.skip(i as int + 1));
        }
        i += 1;
    }
    proof {
        if i < n {
            assert(s@.skip(i as int)[0] == s@[i as int]);
        } else {
            assert(s@.skip(i as int).len() == 0);
        }
        assert(spec_trim_start(s@) == s@.skip(i as int));
        reveal_strlit("<!");
    }
    let ghost trimmed = spec_trim_start(s@);
    if n - i < 2 {
        return false;
    }
    let c0 = s.get_char(i);
    let c1 = s.get_char(i + 1);
    let r = c0 == '<' && c1 == '!';
    proof {
        assert(trimmed[0] == s@[i as int]);
        assert(trimmed[1] == s@[i as int + 1]);
        if r {
            assert(trimmed.subrange(0, 2) =~= "<!"@);
        } else {
            assert(trimmed.subrange(0, 2)[0] == trimmed[0]);
            assert(trimmed.subrange(0, 2)[1] == trimmed[1]);
        }
    }
    r
}

/// Decides what a response body is: the parsed JSON document, a preserved
/// HTML body, or a parse failure.
pub fn parse_json_data(text: &str) -> (r: Result<JsonValue, ParseJsonDataError>)
    ensures
        match r {
            Ok(doc) => spec_classified(text@) == Ok::<JsonValue, ParseJsonDataErrorView>(doc),
            Err(e) => spec_classified(text@) == Err::<JsonValue, ParseJsonDataErrorView>(e@),
        },
{
    if body_is_html(text) {
        return Err(ParseJsonDataError::Html(String::from_str(text)));
    }
    match parse_json(text) {
        Some(doc) => Ok(doc),
        None => Err(ParseJsonDataError::Parse),
    }
}

} // verus!
