//! The selector and predicate engine.
//!
//! A selector is a conjunction of `attribute:value` tokens over role, name
//! (or title), value and description, plus at most one positional
//! `index:N` token. Tokens are separated by spaces; the word `AND` between
//! tokens is accepted and ignored — conjunction is the only connective, a
//! deliberate design decision. Attribute names and `AND` are read ignoring
//! ASCII case. A node matches a selector when every predicate's attribute is
//! present and compares right: the role exactly, the textual attributes by
//! substring containment.

use vstd::prelude::*;

use crate::error::{Error, ErrorCode};
use crate::keymap::ascii_lower_eq;

verus! {

/// Which node attribute a predicate reads.
#[derive(Clone, Copy, Debug, PartialEq, Eq, Structural)]
pub enum Attr {
    /// The accessibility role, compared exactly.
    Role,
    /// The name or title, compared by containment.
    Name,
    /// The value, compared by containment.
    Value,
    /// The description, compared by containment.
    Description,
}

/// One attribute condition.
#[derive(Debug)]
pub struct Predicate {
    /// The attribute read from the node.
    pub attr: Attr,
    /// What the attribute must equal or contain.
    pub value: String,
}

/// The mathematical value of a [`Predicate`].
pub struct PredicateV {
    pub attr: Attr,
    pub value: Seq<char>,
}

impl View for Predicate {
    type V = PredicateV;

    open spec fn view(&self) -> PredicateV {
        PredicateV { attr: self.attr, value: self.value@ }
    }
}

impl Clone for Predicate {
    fn clone(&self) -> (p: Self)
        ensures
            p@ == self@,
    {
        Predicate { attr: self.attr, value: self.value.clone() }
    }
}

/// A parsed selector: a conjunction of predicates and at most one
/// positional index. An index selects the Nth node of one traversal's match
/// set and is valid only within the traversal that produced it.
#[derive(Debug)]
pub struct Selector {
    /// The conjunction; a selector with zero predicates matches every node.
    pub predicates: Vec<Predicate>,
    /// The positional index, if one was supplied.
    pub index: Option<usize>,
}

/// The mathematical value of a [`Selector`].
pub struct SelectorV {
    pub predicates: Seq<PredicateV>,
    pub index: Option<usize>,
}

impl View for Selector {
    type V = SelectorV;

    open spec fn view(&self) -> SelectorV {
        SelectorV { predicates: self.predicates@.map_values(|p: Predicate| p@), index: self.index }
    }
}

/// The segments of `s` split at every space, scanning from `i` with the
/// current segment begun at `start`.
pub open spec fn spec_split_from(s: Seq<char>, start: int, i: int) -> Seq<Seq<char>>
    decreases s.len() - i,
{
    if i < 0 || i >= s.len() {
        seq![s.subrange(start, s.len() as int)]
    } else if s[i] == ' ' {
        seq![s.subrange(start, i)] + spec_split_from(s, i + 1, i + 1)
    } else {
        spec_split_from(s, start, i + 1)
    }
}

/// The segments of `s` split at every space.
pub open spec fn spec_split(s: Seq<char>) -> Seq<Seq<char>> {
    spec_split_from(s, 0, 0)
}

/// Splits a string at every space; two adjacent spaces give an empty
/// segment, which the selector grammar ignores.
pub fn split_spaces(s: &str) -> (out: Vec<String>)
    ensures
        out@.map_values(|w: String| w@) == spec_split(s@),
{
    let n = s.unicode_len();
    let mut out: Vec<String> = Vec::new();
    let mut start: usize = 0;
    let mut i: usize = 0;
    while i < n
        invariant
            0 <= start <= i <= n,
            n == s@.len(),
            out@.map_values(|w: String| w@) + spec_split_from(s@, start as int, i as int)
                == spec_split(s@),
        decreases n - i,
    {
        let c = s.get_char(i);
        if c == ' ' {
            let ghost pre = out@.map_values(|w: String| w@);
            let seg = s.substring_char(start, i).to_owned();
            out.push(seg);
            proof {
                assert(out@.map_values(|w: String| w@) =~= pre + seq![
                    s@.subrange(start as int, i as int),
                ]);
            }
            start = i + 1;
        }
        i = i + 1;
    }
    let seg = s.substring_char(start, n).to_owned();
    let ghost pre = out@.map_values(|w: String| w@);
    out.push(seg);
    proof {
        assert(out@.map_values(|w: String| w@) =~= pre + seq![
            s@.subrange(start as int, s@.len() as int),
        ]);
        assert(out@.map_values(|w: String| w@) =~= spec_split(s@));
    }
    out
}

/// Where the first colon of `w` stands, scanning from `i`; negative when
/// there is none.
pub open spec fn spec_first_colon_from(w: Seq<char>, i: int) -> int
    decreases w.len() - i,
{
    if i < 0 || i >= w.len() {
        -1
    } else if w[i] == ':' {
        i
    } else {
        spec_first_colon_from(w, i + 1)
    }
}

/// The value of the decimal digits of `s` read from `i` on with the value
/// `acc` already read; `None` on a non-digit or a value beyond `usize`.
pub open spec fn spec_usize_from(s: Seq<char>, i: int, acc: int) -> Option<usize>
    decreases s.len() - i,
{
    if i < 0 || i >= s.len() {
        if 0 <= acc <= usize::MAX {
            Some(acc as usize)
        } else {
            None
        }
    } else if '0' <= s[i] && s[i] <= '9' {
        let acc2 = acc * 10 + (s[i] as int - '0' as int);
        if acc2 > usize::MAX {
            None
        } else {
            spec_usize_from(s, i + 1, acc2)
        }
    } else {
        None
    }
}

/// The value of `s` as a decimal number, if it is one that fits `usize`.
pub open spec fn spec_parse_usize(s: Seq<char>) -> Option<usize> {
    if s.len() == 0 {
        None
    } else {
        spec_usize_from(s, 0, 0)
    }
}

/// Reads a decimal number.
pub fn parse_usize(s: &str) -> (r: Option<usize>)
    ensures
        r == spec_parse_usize(s@),
{
    let n = s.unicode_len();
    if n == 0 {
        return None;
    }
    let mut acc: usize = 0;
    let mut i: usize = 0;
    while i < n
        invariant
            0 <= i <= n,
            n == s@.len(),
            spec_usize_from(s@, 0, 0) == spec_usize_from(s@, i as int, acc as int),
        decreases n - i,
    {
        let c = s.get_char(i);
        if c < '0' || c > '9' {
            return None;
        }
        let d: usize = ((c as u32) - ('0' as u32)) as usize;
        let wide: u128 = (acc as u128) * 10 + (d as u128);
        if wide > (usize::MAX as u128) {
            return None;
        }
        acc = acc * 10 + d;
        i = i + 1;
    }
    Some(acc)
}

/// One recognized selector token: a predicate, or the positional index.
pub enum Token {
    /// An attribute condition.
    Pred(Predicate),
    /// The positional index.
    Index(usize),
}

/// The mathematical value of a [`Token`].
pub enum TokenV {
    Pred(PredicateV),
    Index(usize),
}

impl View for Token {
    type V = TokenV;

    open spec fn view(&self) -> TokenV {
        match self {
            Token::Pred(p) => TokenV::Pred(p@),
            Token::Index(n) => TokenV::Index(*n),
        }
    }
}

/// What one `attribute:value` token denotes; `None` for a token the grammar
/// refuses.
pub open spec fn spec_parse_token(w: Seq<char>) -> Option<TokenV> {
    let ci = spec_first_colon_from(w, 0);
    if ci < 0 {
        None
    } else {
        let attr = w.subrange(0, ci);
        let value = w.subrange(ci + 1, w.len() as int);
        if ascii_lower_eq(attr, "role"@) {
            Some(TokenV::Pred(PredicateV { attr: Attr::Role, value }))
        } else if ascii_lower_eq(attr, "name"@) || ascii_lower_eq(attr, "title"@) {
            Some(TokenV::Pred(PredicateV { attr: Attr::Name, value }))
        } else if ascii_lower_eq(attr, "value"@) {
            Some(TokenV::Pred(PredicateV { attr: Attr::Value, value }))
        } else if ascii_lower_eq(attr, "description"@) || ascii_lower_eq(attr, "desc"@) {
            Some(TokenV::Pred(PredicateV { attr: Attr::Description, value }))
        } else if ascii_lower_eq(attr, "index"@) {
            match spec_parse_usize(value) {
                Some(k) => Some(TokenV::Index(k)),
                None => None,
            }
        } else {
            None
        }
    }
}

/// Finds the first colon of a token.
fn find_colon(w: &str) -> (r: Option<usize>)
    ensures
        match r {
            Some(i) => spec_first_colon_from(w@, 0) == i as int && i < w@.len() && w@[i as int]
                == ':',
            None => spec_first_colon_from(w@, 0) == -1,
        },
{
    let n = w.unicode_len();
    let mut i: usize = 0;
    while i < n
        invariant
            0 <= i <= n,
            n == w@.len(),
            spec_first_colon_from(w@, 0) == spec_first_colon_from(w@, i as int),
        decreases n - i,
    {
        if w.get_char(i) == ':' {
            return Some(i);
        }
        i = i + 1;
    }
    None
}

/// Reads one `attribute:value` token.
pub fn parse_token(w: &str) -> (r: Option<Token>)
    ensures
        match r {
            Some(t) => spec_parse_token(w@) == Some(t@),
            None => spec_parse_token(w@) is None,
        },
{
    let n = w.unicode_len();
    let i: usize = match find_colon(w) {
        Some(i) => i,
        None => {
            return None;
        },
    };
    let attr = w.substring_char(0, i);
    let value_str = w.substring_char(i + 1, n);
    let value = value_str.to_owned();
    if eq_ic(attr, "role") {
        Some(Token::Pred(Predicate { attr: Attr::Role, value }))
    } else if eq_ic(attr, "name") || eq_ic(attr, "title") {
        Some(Token::Pred(Predicate { attr: Attr::Name, value }))
    } else if eq_ic(attr, "value") {
        Some(Token::Pred(Predicate { attr: Attr::Value, value }))
    } else if eq_ic(attr, "description") || eq_ic(attr, "desc") {
        Some(Token::Pred(Predicate { attr: Attr::Description, value }))
    } else if eq_ic(attr, "index") {
        match parse_usize(value_str) {
            Some(k) => Some(Token::Index(k)),
            None => None,
        }
    } else {
        None
    }
}

/// Compares two strings for equality ignoring ASCII case.
fn eq_ic(a: &str, b: &str) -> (r: bool)
    ensures
        r == ascii_lower_eq(a@, b@),
{
    crate::keymap::eq_ignore_ascii_case(a, b)
}

/// What a list of selector words denotes, with the predicates and index read
/// so far: empty words and the word `AND` are passed over; a second index,
/// or a token the grammar refuses, spoils the whole selector.
pub open spec fn spec_parse_words(
    words: Seq<Seq<char>>,
    preds: Seq<PredicateV>,
    index: Option<usize>,
) -> Option<SelectorV>
    decreases words.len(),
{
    if words.len() == 0 {
        Some(SelectorV { predicates: preds, index })
    } else {
        let w = words[0];
        if w.len() == 0 || ascii_lower_eq(w, "and"@) {
            spec_parse_words(words.drop_first(), preds, index)
        } else {
            match spec_parse_token(w) {
                None => None,
                Some(TokenV::Pred(p)) => spec_parse_words(words.drop_first(), preds.push(p), index),
                Some(TokenV::Index(k)) => match index {
                    Some(first) => None,
                    None => spec_parse_words(words.drop_first(), preds, Some(k)),
                },
            }
        }
    }
}

/// What a whole selector string denotes.
pub open spec fn spec_parse_selector(s: Seq<char>) -> Option<SelectorV> {
    spec_parse_words(spec_split(s), Seq::empty(), None)
}

/// Parses a selector string. Exactly the strings the grammar accepts give a
/// selector; everything else fails with `InvalidSelector`.
pub fn parse_selector(s: &str) -> (r: Result<Selector, Error>)
    ensures
        match r {
            Ok(sel) => spec_parse_selector(s@) == Some(sel@),
            Err(e) => spec_parse_selector(s@) is None && e.code == ErrorCode::InvalidSelector,
        },
{
    let words = split_spaces(s);
    let mut preds: Vec<Predicate> = Vec::new();
    let mut index: Option<usize> = None;
    let n = words.len();
    let mut i: usize = 0;
    proof {
        assert(words@.map_values(|w: String| w@).skip(0) =~= words@.map_values(|w: String| w@));
        assert(preds@.map_values(|p: Predicate| p@) =~= Seq::<PredicateV>::empty());
    }
    while i < n
        invariant
            0 <= i <= n,
            n == words@.len(),
            spec_parse_selector(s@) == spec_parse_words(
                words@.map_values(|w: String| w@).skip(i as int),
                preds@.map_values(|p: Predicate| p@),
                index,
            ),
        decreases n - i,
    {
        let ghost words_v = words@.map_values(|w: String| w@).skip(i as int);
        proof {
            assert(words_v.drop_first() =~= words@.map_values(|w: String| w@).skip(i + 1));
            assert(words_v[0] == words@[i as int]@);
        }
        let w = &words[i];
        if w.as_str().is_empty() || eq_ic(w.as_str(), "and") {
            i = i + 1;
            continue ;
        }
        match parse_token(w.as_str()) {
            None => {
                return Err(
                    Error::new(
                        ErrorCode::InvalidSelector,
                        String::from_str("selector token is not attribute:value"),
                    ),
                );
            },
            Some(Token::Pred(p)) => {
                let ghost pre = preds@.map_values(|q: Predicate| q@);
                proof {
                    assert(pre.push(p@) =~= (preds@.push(p)).map_values(|q: Predicate| q@));
                }
                preds.push(p);
            },
            Some(Token::Index(k)) => {
                if index.is_some() {
                    return Err(
                        Error::new(
                            ErrorCode::InvalidSelector,
                            String::from_str("selector has more than one index token"),
                        ),
                    );
                }
                index = Some(k);
            },
        }
        i = i + 1;
    }
    proof {
        assert(words@.map_values(|w: String| w@).skip(n as int) =~= Seq::<Seq<char>>::empty());
    }
    Ok(Selector { predicates: preds, index })
}

} // verus!
