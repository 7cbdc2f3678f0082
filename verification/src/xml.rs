//! The element tree every decoder walks, and the lookups over it.

use vstd::prelude::*;
use crate::error::{result_matches, ParseError, ParseErrorView};
use crate::text::{bool_word, int_list, parse_bool_word, parse_i32, parse_i64, parsed_i32,
    parsed_i64, list_ints};

verus! {

/// One XML element: its local tag name, its attributes (local name and
/// value, in document order), the text directly under it, and its element
/// children in document order. Namespace prefixes are not kept; every lookup
/// the decoders make goes by local name.
pub struct XmlNode {
    pub tag: String,
    pub attrs: Vec<(String, String)>,
    pub text: Option<String>,
    pub children: Vec<XmlNode>,
}

/// Character-by-character equality of two string slices.
pub(crate) fn str_eq(a: &str, b: &str) -> (r: bool)
    ensures
        r == (a@ == b@),
{
    let n = a.unicode_len();
    let m = b.unicode_len();
    if n != m {
        proof {
            assert(a@.len() != b@.len());
        }
        return false;
    }
    let mut i: usize = 0;
    while i < n
        invariant
            0 <= i <= n,
            n == a@.len(),
            n == b@.len(),
            forall|k: int| 0 <= k < i ==> a@[k] == b@[k],
        decreases n - i,
    {
        if a.get_char(i) != b.get_char(i) {
            proof {
                assert(a@[i as int] != b@[i as int]);
            }
            return false;
        }
        i += 1;
    }
    proof {
        assert(a@ =~= b@);
    }
    true
}

/// The first element of `s` at or after `i` whose tag is `tag`.
pub open spec fn child_from(s: Seq<XmlNode>, tag: Seq<char>, i: int) -> Option<XmlNode>
    decreases s.len() - i,
{
    if i < 0 || i >= s.len() {
        None
    } else if s[i].tag@ == tag {
        Some(s[i])
    } else {
        child_from(s, tag, i + 1)
    }
}

/// The first child of `n` tagged `tag`.
pub open spec fn child_of(n: XmlNode, tag: Seq<char>) -> Option<XmlNode> {
    child_from(n.children@, tag, 0)
}

/// The value of the first attribute at or after `i` named `name`.
pub open spec fn attr_from(s: Seq<(String, String)>, name: Seq<char>, i: int) -> Option<Seq<char>>
    decreases s.len() - i,
{
    if i < 0 || i >= s.len() {
        None
    } else if s[i].0@ == name {
        Some(s[i].1@)
    } else {
        attr_from(s, name, i + 1)
    }
}

/// The value of the first attribute of `n` named `name`.
pub open spec fn attr_of(n: XmlNode, name: Seq<char>) -> Option<Seq<char>> {
    attr_from(n.attrs@, name, 0)
}

/// The text directly under `n`.
pub open spec fn text_of(n: XmlNode) -> Option<Seq<char>> {
    n.text.deep_view()
}

/// The text directly under `n`, or empty where there is none.
pub open spec fn text_or_empty(n: XmlNode) -> Seq<char> {
    match n.text {
        Some(t) => t@,
        None => Seq::empty(),
    }
}

/// The text of the first child of `n` tagged `tag`.
pub open spec fn child_text(n: XmlNode, tag: Seq<char>) -> Option<Seq<char>> {
    match child_of(n, tag) {
        Some(c) => text_of(c),
        None => None,
    }
}

/// The first child of `node` tagged `tag`, by a scan in document order.
pub fn find_child<'a>(node: &'a XmlNode, tag: &str) -> (r: Option<&'a XmlNode>)
    ensures
        match r {
            Some(c) => child_of(*node, tag@) == Some(*c),
            None => child_of(*node, tag@) is None,
        },
{
    let n = node.children.len();
    let mut i: usize = 0;
    while i < n
        invariant
            n == node.children@.len(),
            0 <= i <= n,
            child_from(node.children@, tag@, 0) == child_from(node.children@, tag@, i as int),
        decreases n - i,
    {
        if str_eq(node.children[i].tag.as_str(), tag) {
            return Some(&node.children[i]);
        }
        i += 1;
    }
    None
}

/// The value of the first attribute of `node` named `name`, copied out.
pub fn find_attr(node: &XmlNode, name: &str) -> (r: Option<String>)
    ensures
        r.deep_view() == attr_of(*node, name@),
{
    let n = node.attrs.len();
    let mut i: usize = 0;
    while i < n
        invariant
            n == node.attrs@.len(),
            0 <= i <= n,
            attr_from(node.attrs@, name@, 0) == attr_from(node.attrs@, name@, i as int),
        decreases n - i,
    {
        if str_eq(node.attrs[i].0.as_str(), name) {
            return Some(node.attrs[i].1.clone());
        }
        i += 1;
    }
    None
}

/// The text directly under `node`, copied out.
pub fn text_string(node: &XmlNode) -> (r: Option<String>)
    ensures
        r.deep_view() == text_of(*node),
{
    match &node.text {
        Some(t) => Some(t.clone()),
        None => None,
    }
}

/// The text directly under `node`, or an empty string where there is none.
pub fn text_or_default(node: &XmlNode) -> (r: String)
    ensures
        r@ == text_or_empty(*node),
{
    match &node.text {
        Some(t) => t.clone(),
        None => String::new(),
    }
}

/// The text of the child tagged `tag`, where both exist.
pub fn opt_string(node: &XmlNode, tag: &str) -> (r: Option<String>)
    ensures
        r.deep_view() == child_text(*node, tag@),
{
    match find_child(node, tag) {
        Some(c) => text_string(c),
        None => None,
    }
}

/// The child's text as a flag word, or `None` at any failure.
pub open spec fn opt_bool_of(n: XmlNode, tag: Seq<char>) -> Option<bool> {
    match child_text(n, tag) {
        Some(t) => bool_word(t),
        None => None,
    }
}

/// Reads the child's text as a flag word, `None` at any failure.
pub fn opt_bool(node: &XmlNode, tag: &str) -> (r: Option<bool>)
    ensures
        r == opt_bool_of(*node, tag@),
{
    match opt_string(node, tag) {
        Some(s) => parse_bool_word(s.as_str()),
        None => None,
    }
}

/// The child's text as a 32-bit integer, or `None` at any failure.
pub open spec fn opt_i32_of(n: XmlNode, tag: Seq<char>) -> Option<i32> {
    match child_text(n, tag) {
        Some(t) => match parsed_i32(t) {
            Some(v) => Some(v as i32),
            None => None,
        },
        None => None,
    }
}

/// Reads the child's text as a 32-bit integer, `None` at any failure.
pub fn opt_i32(node: &XmlNode, tag: &str) -> (r: Option<i32>)
    ensures
        r == opt_i32_of(*node, tag@),
{
    match opt_string(node, tag) {
        Some(s) => parse_i32(s.as_str()),
        None => None,
    }
}

/// The child's text as a 64-bit integer, or `None` at any failure.
pub open spec fn opt_i64_of(n: XmlNode, tag: Seq<char>) -> Option<i64> {
    match child_text(n, tag) {
        Some(t) => match parsed_i64(t) {
            Some(v) => Some(v as i64),
            None => None,
        },
        None => None,
    }
}

/// Reads the child's text as a 64-bit integer, `None` at any failure.
pub fn opt_i64(node: &XmlNode, tag: &str) -> (r: Option<i64>)
    ensures
        r == opt_i64_of(*node, tag@),
{
    match opt_string(node, tag) {
        Some(s) => parse_i64(s.as_str()),
        None => None,
    }
}

/// An attribute's value as a 32-bit integer, or `None` at any failure.
pub open spec fn attr_i32_of(n: XmlNode, name: Seq<char>) -> Option<i32> {
    match attr_of(n, name) {
        Some(t) => match parsed_i32(t) {
            Some(v) => Some(v as i32),
            None => None,
        },
        None => None,
    }
}

/// Reads an attribute's value as a 32-bit integer, `None` at any failure.
pub fn attr_i32(node: &XmlNode, name: &str) -> (r: Option<i32>)
    ensures
        r == attr_i32_of(*node, name@),
{
    match find_attr(node, name) {
        Some(s) => parse_i32(s.as_str()),
        None => None,
    }
}

/// The text of a required child: absence is the missing-element error.
pub open spec fn req_text_of(n: XmlNode, tag: Seq<char>) -> Result<Seq<char>, ParseErrorView> {
    match child_text(n, tag) {
        Some(t) => Ok(t),
        None => Err(ParseErrorView::MissingRequiredElement(tag)),
    }
}

/// A required flag word: absence is the missing-element error, text that is
/// no flag word the coercion error.
pub open spec fn req_bool_of(n: XmlNode, tag: Seq<char>) -> Result<bool, ParseErrorView> {
    match child_text(n, tag) {
        Some(t) => match bool_word(t) {
            Some(b) => Ok(b),
            None => Err(ParseErrorView::TypeCoercionFailure(tag, t)),
        },
        None => Err(ParseErrorView::MissingRequiredElement(tag)),
    }
}

/// A required 32-bit integer, with the errors of [`req_bool_of`].
pub open spec fn req_i32_of(n: XmlNode, tag: Seq<char>) -> Result<i32, ParseErrorView> {
    match child_text(n, tag) {
        Some(t) => match parsed_i32(t) {
            Some(v) => Ok(v as i32),
            None => Err(ParseErrorView::TypeCoercionFailure(tag, t)),
        },
        None => Err(ParseErrorView::MissingRequiredElement(tag)),
    }
}

/// A required 64-bit integer, with the errors of [`req_bool_of`].
pub open spec fn req_i64_of(n: XmlNode, tag: Seq<char>) -> Result<i64, ParseErrorView> {
    match child_text(n, tag) {
        Some(t) => match parsed_i64(t) {
            Some(v) => Ok(v as i64),
            None => Err(ParseErrorView::TypeCoercionFailure(tag, t)),
        },
        None => Err(ParseErrorView::MissingRequiredElement(tag)),
    }
}

/// The text of the child tagged `tag`. An absent child, or one without text,
/// is the missing-element error naming the tag.
pub fn get_string(node: &XmlNode, tag: &str) -> (r: Result<String, ParseError>)
    ensures
        match r {
            Ok(s) => child_text(*node, tag@) == Some(s@),
            Err(e) => child_text(*node, tag@) is None && e.deep_view()
                == ParseErrorView::MissingRequiredElement(tag@),
        },
        result_matches(r, req_text_of(*node, tag@)),
{
    match find_child(node, tag) {
        Some(c) => match text_string(c) {
            Some(s) => Ok(s),
            None => Err(ParseError::MissingRequiredElement(tag.to_owned())),
        },
        None => Err(ParseError::MissingRequiredElement(tag.to_owned())),
    }
}

/// The text of the child tagged `tag`, read as a signed 64-bit integer.
/// An absent child is the missing-element error; text that is no such
/// integer is the coercion error carrying the tag and the text.
pub fn get_int64(node: &XmlNode, tag: &str) -> (r: Result<i64, ParseError>)
    ensures
        match r {
            Ok(v) => child_text(*node, tag@) matches Some(t) && parsed_i64(t) == Some(v as int),
            Err(e) => match child_text(*node, tag@) {
                Some(t) => parsed_i64(t) is None && e.deep_view()
                    == ParseErrorView::TypeCoercionFailure(tag@, t),
                None => e.deep_view() == ParseErrorView::MissingRequiredElement(tag@),
            },
        },
        result_matches(r, req_i64_of(*node, tag@)),
{
    let s = get_string(node, tag)?;
    match parse_i64(s.as_str()) {
        Some(v) => Ok(v),
        None => Err(ParseError::TypeCoercionFailure(tag.to_owned(), s)),
    }
}

/// The text of the child tagged `tag`, read as a signed 32-bit integer, with
/// the errors of [`get_int64`].
pub fn get_int32(node: &XmlNode, tag: &str) -> (r: Result<i32, ParseError>)
    ensures
        match r {
            Ok(v) => child_text(*node, tag@) matches Some(t) && parsed_i32(t) == Some(v as int),
            Err(e) => match child_text(*node, tag@) {
                Some(t) => parsed_i32(t) is None && e.deep_view()
                    == ParseErrorView::TypeCoercionFailure(tag@, t),
                None => e.deep_view() == ParseErrorView::MissingRequiredElement(tag@),
            },
        },
        result_matches(r, req_i32_of(*node, tag@)),
{
    let s = get_string(node, tag)?;
    match parse_i32(s.as_str()) {
        Some(v) => Ok(v),
        None => Err(ParseError::TypeCoercionFailure(tag.to_owned(), s)),
    }
}

/// The text of the child tagged `tag`, read as a boolean flag word
/// (`1`/`Y`/`TRUE` and `0`/`N`/`FALSE`, any letter case), with the errors of
/// [`get_int64`].
pub fn get_bool(node: &XmlNode, tag: &str) -> (r: Result<bool, ParseError>)
    ensures
        match r {
            Ok(b) => child_text(*node, tag@) matches Some(t) && bool_word(t) == Some(b),
            Err(e) => match child_text(*node, tag@) {
                Some(t) => bool_word(t) is None && e.deep_view()
                    == ParseErrorView::TypeCoercionFailure(tag@, t),
                None => e.deep_view() == ParseErrorView::MissingRequiredElement(tag@),
            },
        },
        result_matches(r, req_bool_of(*node, tag@)),
{
    let s = get_string(node, tag)?;
    match parse_bool_word(s.as_str()) {
        Some(b) => Ok(b),
        None => Err(ParseError::TypeCoercionFailure(tag.to_owned(), s)),
    }
}

/// The integers all children of `s` tagged `tag` at or after `i` contribute:
/// each matching child with text adds its comma-separated entries in order.
pub open spec fn ints_of_children(s: Seq<XmlNode>, tag: Seq<char>, i: int) -> Seq<i32>
    decreases s.len() - i,
{
    if i < 0 || i >= s.len() {
        Seq::empty()
    } else {
        let rest = ints_of_children(s, tag, i + 1);
        if s[i].tag@ == tag {
            match text_of(s[i]) {
                Some(t) => int_list(t) + rest,
                None => rest,
            }
        } else {
            rest
        }
    }
}

/// Every integer the children tagged `tag` list, in document order: each
/// child's text split at commas, each entry trimmed and read as an `i32`,
/// entries that do not parse dropped.
pub fn get_ints(node: &XmlNode, tag: &str) -> (r: Vec<i32>)
    ensures
        r@ == ints_of_children(node.children@, tag@, 0),
{
    let mut out: Vec<i32> = Vec::new();
    let n = node.children.len();
    let mut i: usize = 0;
    while i < n
        invariant
            0 <= i <= n,
            n == node.children@.len(),
            out@ + ints_of_children(node.children@, tag@, i as int) == ints_of_children(
                node.children@,
                tag@,
                0,
            ),
        decreases n - i,
    {
        let ghost s = node.children@;
        let ghost pre = out@;
        let c = &node.children[i];
        if str_eq(c.tag.as_str(), tag) {
            match &c.text {
                Some(t) => {
                    list_ints(t.as_str(), &mut out);
                    proof {
                        assert(out@ =~= pre + int_list(t@));
                        assert(pre + (int_list(t@) + ints_of_children(s, tag@, i + 1)) =~= (pre
                            + int_list(t@)) + ints_of_children(s, tag@, i + 1));
                    }
                },
                None => {},
            }
        }
        i += 1;
    }
    proof {
        assert(out@ + ints_of_children(node.children@, tag@, n as int) =~= out@);
    }
    out
}

} // verus!
