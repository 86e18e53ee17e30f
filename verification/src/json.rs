//! Parser for the autocomplete endpoint's wire format: a JSON array of
//! objects whose `word` and `url` members are strings. Other members of an
//! object are allowed and ignored when their value is a string or a bare
//! scalar (number, boolean or null); nested values are rejected. Array order
//! is kept: it is the relevance order of the upstream service.

use vstd::prelude::*;
use vstd::string::*;

verus! {

/// The model of one autocomplete suggestion.
#[verifier::ext_equal]
pub struct CandView {
    pub name: Seq<char>,
    pub url: Seq<char>,
}

/// One autocomplete suggestion: a word and the site-relative path of its
/// definition page.
#[derive(Debug)]
pub struct Candidate {
    pub name: String,
    pub url: String,
}

impl View for Candidate {
    type V = CandView;

    open spec fn view(&self) -> CandView {
        CandView { name: self.name@, url: self.url@ }
    }
}

impl DeepView for Candidate {
    type V = CandView;

    open spec fn deep_view(&self) -> CandView {
        self@
    }
}

/// View of an optional owned string.
pub open spec fn opt_text(v: Option<String>) -> Option<Seq<char>> {
    match v {
        Some(t) => Some(t@),
        None => None,
    }
}

/// The whitespace characters JSON allows between tokens.
pub open spec fn is_json_ws(c: char) -> bool {
    c == ' ' || c == '\t' || c == '\n' || c == '\r'
}

/// First index at or after `i` whose character is not JSON whitespace.
pub open spec fn skip_ws(s: Seq<char>, i: int) -> int
    decreases s.len() - i,
{
    if 0 <= i < s.len() && is_json_ws(s[i]) {
        skip_ws(s, i + 1)
    } else {
        i
    }
}

/// The character denoted by a backslash escape, for the escapes accepted
/// here.
pub open spec fn unescaped(c: char) -> Option<char> {
    if c == '"' {
        Some('"')
    } else if c == '\\' {
        Some('\\')
    } else if c == '/' {
        Some('/')
    } else if c == 'n' {
        Some('\n')
    } else if c == 't' {
        Some('\t')
    } else if c == 'r' {
        Some('\r')
    } else if c == 'b' {
        Some('\u{0008}')
    } else if c == 'f' {
        Some('\u{000C}')
    } else {
        None
    }
}

/// Parses the rest of a string literal, `i` standing just after the opening
/// quote and `acc` holding what was read so far. Returns the content and the
/// position after the closing quote.
pub open spec fn parse_string_body(s: Seq<char>, i: int, acc: Seq<char>) -> Option<(Seq<char>, int)>
    decreases s.len() - i,
{
    if !(0 <= i < s.len()) {
        None
    } else if s[i] == '"' {
        Some((acc, i + 1))
    } else if s[i] == '\\' {
        if i + 1 < s.len() {
            match unescaped(s[i + 1]) {
                Some(c) => parse_string_body(s, i + 2, acc.push(c)),
                None => None,
            }
        } else {
            None
        }
    } else {
        parse_string_body(s, i + 1, acc.push(s[i]))
    }
}

/// Parses a string literal whose opening quote stands at `i`.
pub open spec fn parse_string(s: Seq<char>, i: int) -> Option<(Seq<char>, int)> {
    if 0 <= i < s.len() && s[i] == '"' {
        parse_string_body(s, i + 1, Seq::empty())
    } else {
        None
    }
}

/// A character that may appear in a bare scalar: a number, `true`, `false`
/// or `null`.
pub open spec fn is_scalar_char(c: char) -> bool {
    ('0' <= c && c <= '9') || ('a' <= c && c <= 'z') || ('A' <= c && c <= 'Z') || c == '-' || c
        == '+' || c == '.'
}

/// First index at or after `i` whose character cannot belong to a bare
/// scalar.
pub open spec fn skip_scalar(s: Seq<char>, i: int) -> int
    decreases s.len() - i,
{
    if 0 <= i < s.len() && is_scalar_char(s[i]) {
        skip_scalar(s, i + 1)
    } else {
        i
    }
}

/// Parses a member value at `i`: a string gives its content, a bare scalar
/// gives no content; anything else is rejected.
pub open spec fn parse_value(s: Seq<char>, i: int) -> Option<(Option<Seq<char>>, int)> {
    if 0 <= i < s.len() && s[i] == '"' {
        match parse_string(s, i) {
            Some((t, j)) => Some((Some(t), j)),
            None => None,
        }
    } else if 0 <= i < s.len() && is_scalar_char(s[i]) {
        Some((None, skip_scalar(s, i)))
    } else {
        None
    }
}

/// Parses one `"key": value` member whose key starts at `i`.
pub open spec fn parse_member(s: Seq<char>, i: int) -> Option<((Seq<char>, Option<Seq<char>>), int)> {
    match parse_string(s, i) {
        Some((key, j)) => {
            let k = skip_ws(s, j);
            if k < s.len() && s[k] == ':' {
                match parse_value(s, skip_ws(s, k + 1)) {
                    Some((v, m)) => Some(((key, v), m)),
                    None => None,
                }
            } else {
                None
            }
        },
        None => None,
    }
}

/// Parses the members of an object from the first member on, `acc` holding
/// the members read so far, and consumes the closing brace.
pub open spec fn parse_members(
    s: Seq<char>,
    i: int,
    acc: Seq<(Seq<char>, Option<Seq<char>>)>,
) -> Option<(Seq<(Seq<char>, Option<Seq<char>>)>, int)>
    decreases s.len() - i,
{
    match parse_member(s, i) {
        Some((kv, j)) => {
            let k = skip_ws(s, j);
            if k < s.len() && s[k] == ',' {
                let nx = skip_ws(s, k + 1);
                if i < nx <= s.len() {
                    parse_members(s, nx, acc.push(kv))
                } else {
                    None
                }
            } else if k < s.len() && s[k] == '}' {
                Some((acc.push(kv), k + 1))
            } else {
                None
            }
        },
        None => None,
    }
}

/// Parses an object whose opening brace stands at `i`, returning its members
/// in order.
pub open spec fn parse_object(s: Seq<char>, i: int) -> Option<
    (Seq<(Seq<char>, Option<Seq<char>>)>, int),
> {
    if 0 <= i < s.len() && s[i] == '{' {
        let j = skip_ws(s, i + 1);
        if j < s.len() && s[j] == '}' {
            Some((Seq::empty(), j + 1))
        } else {
            parse_members(s, j, Seq::empty())
        }
    } else {
        None
    }
}

/// The value of the first member with the given key, if any.
pub open spec fn field_of(
    ms: Seq<(Seq<char>, Option<Seq<char>>)>,
    key: Seq<char>,
) -> Option<Option<Seq<char>>>
    decreases ms.len(),
{
    if ms.len() == 0 {
        None
    } else if ms[0].0 == key {
        Some(ms[0].1)
    } else {
        field_of(ms.drop_first(), key)
    }
}

/// The candidate an object's members describe: both `word` and `url` must be
/// present with string values.
pub open spec fn cand_of_members(ms: Seq<(Seq<char>, Option<Seq<char>>)>) -> Option<CandView> {
    match field_of(ms, "word"@) {
        Some(Some(name)) => match field_of(ms, "url"@) {
            Some(Some(url)) => Some(CandView { name, url }),
            _ => None,
        },
        _ => None,
    }
}

/// Parses the candidates of a non-empty array from the first object on,
/// `acc` holding the candidates read so far, and consumes the closing
/// bracket.
pub open spec fn parse_items(s: Seq<char>, i: int, acc: Seq<CandView>) -> Option<
    (Seq<CandView>, int),
>
    decreases s.len() - i,
{
    match parse_object(s, i) {
        Some((ms, j)) => match cand_of_members(ms) {
            Some(c) => {
                let k = skip_ws(s, j);
                if k < s.len() && s[k] == ']' {
                    Some((acc.push(c), k + 1))
                } else if k < s.len() && s[k] == ',' {
                    let nx = skip_ws(s, k + 1);
                    if i < nx <= s.len() {
                        parse_items(s, nx, acc.push(c))
                    } else {
                        None
                    }
                } else {
                    None
                }
            },
            None => None,
        },
        None => None,
    }
}

/// The candidate list a whole response body denotes, or `None` when the body
/// is not an array of word records.
pub open spec fn candidates_of(s: Seq<char>) -> Option<Seq<CandView>> {
    let i = skip_ws(s, 0);
    if i < s.len() && s[i] == '[' {
        let j = skip_ws(s, i + 1);
        if j < s.len() && s[j] == ']' {
            if skip_ws(s, j + 1) == s.len() {
                Some(Seq::empty())
            } else {
                None
            }
        } else {
            match parse_items(s, j, Seq::empty()) {
                Some((cs, k)) => if skip_ws(s, k) == s.len() {
                    Some(cs)
                } else {
                    None
                },
                None => None,
            }
        }
    } else {
        None
    }
}

/// View of a member list as read by the executable parser.
pub open spec fn members_view(ms: Seq<(String, Option<String>)>) -> Seq<
    (Seq<char>, Option<Seq<char>>),
> {
    ms.map_values(|kv: (String, Option<String>)| (kv.0@, opt_text(kv.1)))
}

fn skip_ws_exec(s: &str, i: usize, n: usize) -> (r: usize)
    requires
        n == s@.len(),
        i <= n,
    ensures
        r as int == skip_ws(s@, i as int),
        i <= r <= n,
{
    let mut j = i;
    while j < n && is_json_ws_exec(s.get_char(j))
        invariant
            i <= j <= n,
            n == s@.len(),
            skip_ws(s@, i as int) == skip_ws(s@, j as int),
        decreases n - j,
    {
        j = j + 1;
    }
    assert(skip_ws(s@, j as int) == j as int);
    j
}

fn is_json_ws_exec(c: char) -> (r: bool)
    ensures
        r == is_json_ws(c),
{
    c == ' ' || c == '\t' || c == '\n' || c == '\r'
}

fn is_scalar_char_exec(c: char) -> (r: bool)
    ensures
        r == is_scalar_char(c),
{
    ('0' <= c && c <= '9') || ('a' <= c && c <= 'z') || ('A' <= c && c <= 'Z') || c == '-' || c
        == '+' || c == '.'
}

fn skip_scalar_exec(s: &str, i: usize, n: usize) -> (r: usize)
    requires
        n == s@.len(),
        i <= n,
    ensures
        r as int == skip_scalar(s@, i as int),
        i <= r <= n,
{
    let mut j = i;
    while j < n && is_scalar_char_exec(s.get_char(j))
        invariant
            i <= j <= n,
            n == s@.len(),
            skip_scalar(s@, i as int) == skip_scalar(s@, j as int),
        decreases n - j,
    {
        j = j + 1;
    }
    assert(skip_scalar(s@, j as int) == j as int);
    j
}

fn unescape_exec(c: char) -> (r: Option<char>)
    ensures
        r == unescaped(c),
{
    if c == '"' {
        Some('"')
    } else if c == '\\' {
        Some('\\')
    } else if c == '/' {
        Some('/')
    } else if c == 'n' {
        Some('\n')
    } else if c == 't' {
        Some('\t')
    } else if c == 'r' {
        Some('\r')
    } else if c == 'b' {
        Some('\u{0008}')
    } else if c == 'f' {
        Some('\u{000C}')
    } else {
        None
    }
}

fn parse_string_exec(s: &str, i: usize, n: usize) -> (r: Option<(String, usize)>)
    requires
        n == s@.len(),
        i <= n,
    ensures
        match r {
            Some(p) => parse_string(s@, i as int) == Some((p.0@, p.1 as int)) && i < p.1 <= n,
            None => parse_string(s@, i as int) is None,
        },
{
    if !(i < n && s.get_char(i) == '"') {
        return None;
    }
    let mut j = i + 1;
    let mut acc = String::new();
    loop
        invariant
            i + 1 <= j <= n,
            n == s@.len(),
            i < n,
            s@[i as int] == '"',
            parse_string_body(s@, i + 1, Seq::empty()) == parse_string_body(s@, j as int, acc@),
        decreases n - j,
    {
        if j >= n {
            return None;
        }
        let c = s.get_char(j);
        if c == '"' {
            return Some((acc, j + 1));
        }
        if c == '\\' {
            if j + 1 < n {
                match unescape_exec(s.get_char(j + 1)) {
                    Some(u) => {
                        crate::text::push_char(&mut acc, u);
                        j = j + 2;
                    },
                    None => {
                        return None;
                    },
                }
            } else {
                return None;
            }
        } else {
            crate::text::push_char(&mut acc, c);
            j = j + 1;
        }
    }
}

fn parse_value_exec(s: &str, i: usize, n: usize) -> (r: Option<(Option<String>, usize)>)
    requires
        n == s@.len(),
        i <= n,
    ensures
        match r {
            Some(p) => parse_value(s@, i as int) == Some((opt_text(p.0), p.1 as int)) && i < p.1
                <= n,
            None => parse_value(s@, i as int) is None,
        },
{
    if i < n && s.get_char(i) == '"' {
        match parse_string_exec(s, i, n) {
            Some((t, j)) => Some((Some(t), j)),
            None => None,
        }
    } else if i < n && is_scalar_char_exec(s.get_char(i)) {
        let j = skip_scalar_exec(s, i + 1, n);
        assert(skip_scalar(s@, i as int) == j as int);
        Some((None, j))
    } else {
        None
    }
}

fn parse_member_exec(s: &str, i: usize, n: usize) -> (r: Option<((String, Option<String>), usize)>)
    requires
        n == s@.len(),
        i <= n,
    ensures
        match r {
            Some(p) => parse_member(s@, i as int) == Some(
                ((p.0.0@, opt_text(p.0.1)), p.1 as int),
            ) && i < p.1 <= n,
            None => parse_member(s@, i as int) is None,
        },
{
    match parse_string_exec(s, i, n) {
        Some((key, j)) => {
            let k = skip_ws_exec(s, j, n);
            if k < n && s.get_char(k) == ':' {
                let vs = skip_ws_exec(s, k + 1, n);
                match parse_value_exec(s, vs, n) {
                    Some((v, m)) => Some(((key, v), m)),
                    None => None,
                }
            } else {
                None
            }
        },
        None => None,
    }
}

fn parse_object_exec(s: &str, i: usize, n: usize) -> (r: Option<
    (Vec<(String, Option<String>)>, usize),
>)
    requires
        n == s@.len(),
        i <= n,
    ensures
        match r {
            Some(p) => parse_object(s@, i as int) == Some((members_view(p.0@), p.1 as int)) && i
                < p.1 <= n,
            None => parse_object(s@, i as int) is None,
        },
{
    if !(i < n && s.get_char(i) == '{') {
        return None;
    }
    let j = skip_ws_exec(s, i + 1, n);
    if j < n && s.get_char(j) == '}' {
        let ms: Vec<(String, Option<String>)> = Vec::new();
        proof {
            assert(members_view(ms@) =~= Seq::<(Seq<char>, Option<Seq<char>>)>::empty());
        }
        return Some((ms, j + 1));
    }
    let mut ms: Vec<(String, Option<String>)> = Vec::new();
    let mut cur = j;
    proof {
        assert(members_view(ms@) =~= Seq::<(Seq<char>, Option<Seq<char>>)>::empty());
    }
    loop
        invariant
            i + 1 <= j <= cur <= n,
            n == s@.len(),
            i < n,
            s@[i as int] == '{',
            skip_ws(s@, i + 1) == j as int,
            !(j < n && s@[j as int] == '}'),
            parse_members(s@, j as int, Seq::empty()) == parse_members(
                s@,
                cur as int,
                members_view(ms@),
            ),
        decreases n - cur,
    {
        match parse_member_exec(s, cur, n) {
            None => {
                return None;
            },
            Some((kv, m)) => {
                let k = skip_ws_exec(s, m, n);
                let ghost kvv = (kv.0@, opt_text(kv.1));
                let ghost msv = members_view(ms@);
                if k < n && s.get_char(k) == ',' {
                    let nx = skip_ws_exec(s, k + 1, n);
                    ms.push(kv);
                    proof {
                        assert(members_view(ms@) =~= msv.push(kvv));
                        assert(cur < nx <= n);
                    }
                    cur = nx;
                } else if k < n && s.get_char(k) == '}' {
                    ms.push(kv);
                    proof {
                        assert(members_view(ms@) =~= msv.push(kvv));
                    }
                    return Some((ms, k + 1));
                } else {
                    return None;
                }
            },
        }
    }
}

/// The value of the first member named `key`, cloned out of the list.
fn find_field(ms: &Vec<(String, Option<String>)>, key: &str) -> (r: Option<Option<String>>)
    ensures
        match r {
            Some(v) => field_of(members_view(ms@), key@) == Some(opt_text(v)),
            None => field_of(members_view(ms@), key@) is None,
        },
{
    let n = ms.len();
    let mut i: usize = 0;
    proof {
        assert(members_view(ms@).skip(0) =~= members_view(ms@));
    }
    while i < n
        invariant
            0 <= i <= n,
            n == ms@.len(),
            field_of(members_view(ms@), key@) == field_of(
                members_view(ms@).skip(i as int),
                key@,
            ),
        decreases n - i,
    {
        if crate::text::str_eq(ms[i].0.as_str(), key) {
            assert(members_view(ms@).skip(i as int)[0] == members_view(ms@)[i as int]);
            match &ms[i].1 {
                Some(t) => {
                    return Some(Some(t.clone()));
                },
                None => {
                    return Some(None);
                },
            }
        }
        proof {
            assert(members_view(ms@).skip(i as int)[0] == members_view(ms@)[i as int]);
            assert(members_view(ms@).skip(i as int).drop_first() =~= members_view(ms@).skip(
                i + 1,
            ));
        }
        i = i + 1;
    }
    assert(members_view(ms@).skip(n as int) =~= Seq::<(Seq<char>, Option<Seq<char>>)>::empty());
    None
}

/// The candidate an object's member list describes, if both `word` and `url`
/// are present as strings.
fn candidate_of_members(ms: &Vec<(String, Option<String>)>) -> (r: Option<Candidate>)
    ensures
        match r {
            Some(c) => cand_of_members(members_view(ms@)) == Some(c@),
            None => cand_of_members(members_view(ms@)) is None,
        },
{
    match find_field(ms, "word") {
        Some(Some(name)) => match find_field(ms, "url") {
            Some(Some(url)) => Some(Candidate { name, url }),
            _ => None,
        },
        _ => None,
    }
}

/// Parses a response body as the ordered candidate list, or returns `None`
/// when the body is malformed.
pub fn parse_candidates(s: &str) -> (r: Option<Vec<Candidate>>)
    ensures
        match r {
            Some(cs) => candidates_of(s@) == Some(cs.deep_view()),
            None => candidates_of(s@) is None,
        },
{
    let n = s.unicode_len();
    let i = skip_ws_exec(s, 0, n);
    if !(i < n && s.get_char(i) == '[') {
        return None;
    }
    let j = skip_ws_exec(s, i + 1, n);
    if j < n && s.get_char(j) == ']' {
        if skip_ws_exec(s, j + 1, n) == n {
            let out: Vec<Candidate> = Vec::new();
            proof {
                assert(out.deep_view() =~= Seq::<CandView>::empty());
            }
            return Some(out);
        } else {
            return None;
        }
    }
    let mut out: Vec<Candidate> = Vec::new();
    let mut cur = j;
    proof {
        assert(out.deep_view() =~= Seq::<CandView>::empty());
    }
    loop
        invariant
            j <= cur <= n,
            n == s@.len(),
            skip_ws(s@, 0) == i as int,
            i < n,
            s@[i as int] == '[',
            skip_ws(s@, i + 1) == j as int,
            !(j < n && s@[j as int] == ']'),
            parse_items(s@, j as int, Seq::empty()) == parse_items(s@, cur as int, out.deep_view()),
        decreases n - cur,
    {
        match parse_object_exec(s, cur, n) {
            None => {
                return None;
            },
            Some((ms, m)) => {
                match candidate_of_members(&ms) {
                    None => {
                        return None;
                    },
                    Some(c) => {
                        let k = skip_ws_exec(s, m, n);
                        let ghost cv = c@;
                        let ghost od = out.deep_view();
                        if k < n && s.get_char(k) == ']' {
                            out.push(c);
                            proof {
                                assert(out.deep_view() =~= od.push(cv));
                            }
                            if skip_ws_exec(s, k + 1, n) == n {
                                return Some(out);
                            } else {
                                return None;
                            }
                        } else if k < n && s.get_char(k) == ',' {
                            let nx = skip_ws_exec(s, k + 1, n);
                            out.push(c);
                            proof {
                                assert(out.deep_view() =~= od.push(cv));
                                assert(cur < nx <= n);
                            }
                            cur = nx;
                        } else {
                            return None;
                        }
                    },
                }
            },
        }
    }
}

} // verus!
