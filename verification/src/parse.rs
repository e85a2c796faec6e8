//! The quiz file format and its parser.
//!
//! A quiz file is UTF-8 text holding a bracketed, comma-separated list of
//! records. A record is a braced, comma-separated list of the four members
//! `"question"`, `"hint1"`, `"hint2"` and `"answer"`, each exactly once, in
//! any order, each with a quoted text value. Values may use the escapes
//! `\"`, `\\`, `\/`, `\b`, `\f`, `\n`, `\r` and `\t`; any other escape, or
//! an unescaped control character, makes the file malformed. Whitespace may
//! stand between tokens. The grammar is given by the `spec_*` functions
//! below; `parse_quiz` is proved to return exactly what they describe.

use vstd::prelude::*;
use vstd::string::StrSliceExecFns;
use crate::quiz::Question;
use crate::quiz::QuestionView;

verus! {

/// Whitespace accepted between tokens of a quiz file.
pub open spec fn is_ws(c: char) -> bool {
    c == ' ' || c == '\t' || c == '\n' || c == '\r'
}

/// The character an escape code after a backslash stands for, if the code
/// is one the format accepts.
pub open spec fn spec_escape(c: char) -> Option<char> {
    if c == '"' {
        Some('"')
    } else if c == '\\' {
        Some('\\')
    } else if c == '/' {
        Some('/')
    } else if c == 'b' {
        Some('\u{8}')
    } else if c == 'f' {
        Some('\u{c}')
    } else if c == 'n' {
        Some('\n')
    } else if c == 'r' {
        Some('\r')
    } else if c == 't' {
        Some('\t')
    } else {
        None
    }
}

/// Position of the first character at or after `i` that is not whitespace.
pub open spec fn spec_skip_ws(s: Seq<char>, i: int) -> int
    decreases s.len() - i when 0 <= i <= s.len()
{
    if i < s.len() && is_ws(s[i]) {
        spec_skip_ws(s, i + 1)
    } else {
        i
    }
}

/// Reads the body of a quoted text from `i` (just after the opening quote)
/// up to its closing quote: the decoded characters and the position after
/// the closing quote, or `None` if the text is malformed or unterminated.
pub open spec fn spec_string_body(s: Seq<char>, i: int) -> Option<(Seq<char>, int)>
    decreases s.len() - i when 0 <= i <= s.len()
{
    if i >= s.len() {
        None
    } else if s[i] == '"' {
        Some((Seq::empty(), i + 1))
    } else if s[i] == '\\' {
        if i + 1 < s.len() {
            match spec_escape(s[i + 1]) {
                Some(e) => match spec_string_body(s, i + 2) {
                    Some(rest) => Some((seq![e] + rest.0, rest.1)),
                    None => None,
                },
                None => None,
            }
        } else {
            None
        }
    } else if (s[i] as u32) < 32 {
        None
    } else {
        match spec_string_body(s, i + 1) {
            Some(rest) => Some((seq![s[i]] + rest.0, rest.1)),
            None => None,
        }
    }
}

/// Reads a quoted text starting at `i`: its decoded characters and the
/// position after the closing quote.
pub open spec fn spec_parse_string(s: Seq<char>, i: int) -> Option<(Seq<char>, int)> {
    if 0 <= i < s.len() && s[i] == '"' {
        spec_string_body(s, i + 1)
    } else {
        None
    }
}

/// A record while its members are being read: each field is present once
/// its member has appeared.
pub ghost struct PartialRecord {
    pub question: Option<Seq<char>>,
    pub hint1: Option<Seq<char>>,
    pub hint2: Option<Seq<char>>,
    pub answer: Option<Seq<char>>,
}

/// The partial record with no member read yet.
pub open spec fn spec_empty_partial() -> PartialRecord {
    PartialRecord { question: None, hint1: None, hint2: None, answer: None }
}

/// Stores a member's value under its key, or rejects an unknown or
/// repeated key.
pub open spec fn spec_assign(p: PartialRecord, key: Seq<char>, val: Seq<char>) -> Option<
    PartialRecord,
> {
    if key == "question"@ {
        if p.question is None {
            Some(PartialRecord { question: Some(val), hint1: p.hint1, hint2: p.hint2, answer: p.answer })
        } else {
            None
        }
    } else if key == "hint1"@ {
        if p.hint1 is None {
            Some(PartialRecord { question: p.question, hint1: Some(val), hint2: p.hint2, answer: p.answer })
        } else {
            None
        }
    } else if key == "hint2"@ {
        if p.hint2 is None {
            Some(PartialRecord { question: p.question, hint1: p.hint1, hint2: Some(val), answer: p.answer })
        } else {
            None
        }
    } else if key == "answer"@ {
        if p.answer is None {
            Some(PartialRecord { question: p.question, hint1: p.hint1, hint2: p.hint2, answer: Some(val) })
        } else {
            None
        }
    } else {
        None
    }
}

/// The finished record, if every member has appeared.
pub open spec fn spec_complete(p: PartialRecord) -> Option<QuestionView> {
    if p.question is Some && p.hint1 is Some && p.hint2 is Some && p.answer is Some {
        Some(
            QuestionView {
                question: p.question.unwrap(),
                hint1: p.hint1.unwrap(),
                hint2: p.hint2.unwrap(),
                answer: p.answer.unwrap(),
            },
        )
    } else {
        None
    }
}

/// Reads the members of a record from `i` (at the key of the next member)
/// up to and including the closing brace, accumulating into `p`. A read
/// that would not advance is rejected.
pub open spec fn spec_members(s: Seq<char>, i: int, p: PartialRecord) -> Option<
    (PartialRecord, int),
>
    decreases s.len() - i when 0 <= i <= s.len()
{
    match spec_parse_string(s, i) {
        None => None,
        Some(kv) => {
            let j2 = spec_skip_ws(s, kv.1);
            if 0 <= j2 < s.len() && s[j2] == ':' {
                let j3 = spec_skip_ws(s, j2 + 1);
                match spec_parse_string(s, j3) {
                    None => None,
                    Some(vv) => match spec_assign(p, kv.0, vv.0) {
                        None => None,
                        Some(p2) => {
                            let j5 = spec_skip_ws(s, vv.1);
                            if 0 <= j5 < s.len() && s[j5] == ',' {
                                let j6 = spec_skip_ws(s, j5 + 1);
                                if i < j6 <= s.len() {
                                    spec_members(s, j6, p2)
                                } else {
                                    None
                                }
                            } else if 0 <= j5 < s.len() && s[j5] == '}' {
                                Some((p2, j5 + 1))
                            } else {
                                None
                            }
                        },
                    },
                }
            } else {
                None
            }
        },
    }
}

/// Reads one record starting at its opening brace: the record and the
/// position after its closing brace.
pub open spec fn spec_parse_record(s: Seq<char>, i: int) -> Option<(QuestionView, int)> {
    if 0 <= i < s.len() && s[i] == '{' {
        let j = spec_skip_ws(s, i + 1);
        match spec_members(s, j, spec_empty_partial()) {
            None => None,
            Some(pj) => match spec_complete(pj.0) {
                None => None,
                Some(q) => Some((q, pj.1)),
            },
        }
    } else {
        None
    }
}

/// Reads the records of a non-empty list from `i` (at the first record's
/// opening brace) up to and including the closing bracket. A read that
/// would not advance is rejected.
pub open spec fn spec_elements(s: Seq<char>, i: int) -> Option<(Seq<QuestionView>, int)>
    decreases s.len() - i when 0 <= i <= s.len()
{
    match spec_parse_record(s, i) {
        None => None,
        Some(qj) => {
            let j2 = spec_skip_ws(s, qj.1);
            if 0 <= j2 < s.len() && s[j2] == ',' {
                let j3 = spec_skip_ws(s, j2 + 1);
                if i < j3 <= s.len() {
                    match spec_elements(s, j3) {
                        None => None,
                        Some(rj) => Some((seq![qj.0] + rj.0, rj.1)),
                    }
                } else {
                    None
                }
            } else if 0 <= j2 < s.len() && s[j2] == ']' {
                Some((seq![qj.0], j2 + 1))
            } else {
                None
            }
        },
    }
}

/// What a whole quiz file means: the list of its records, or `None` if the
/// text is not a well-formed quiz file.
pub open spec fn spec_parse_quiz(s: Seq<char>) -> Option<Seq<QuestionView>> {
    let i0 = spec_skip_ws(s, 0);
    if 0 <= i0 < s.len() && s[i0] == '[' {
        let i1 = spec_skip_ws(s, i0 + 1);
        if 0 <= i1 < s.len() && s[i1] == ']' {
            let i2 = spec_skip_ws(s, i1 + 1);
            if i2 == s.len() {
                Some(Seq::empty())
            } else {
                None
            }
        } else {
            match spec_elements(s, i1) {
                None => None,
                Some(qj) => {
                    let j2 = spec_skip_ws(s, qj.1);
                    if j2 == s.len() {
                        Some(qj.0)
                    } else {
                        None
                    }
                },
            }
        }
    } else {
        None
    }
}

/// Relies on `String`'s `FromIterator` over `char`: collecting characters
/// yields the string of exactly those characters, in order.
#[verifier::external_body]
fn chars_to_string(v: &Vec<char>) -> (r: String)
    ensures
        r@ == v@,
{
    v.iter().collect()
}

fn ws_char(c: char) -> (r: bool)
    ensures
        r == is_ws(c),
{
    c == ' ' || c == '\t' || c == '\n' || c == '\r'
}

fn escape_char(c: char) -> (r: Option<char>)
    ensures
        r == spec_escape(c),
{
    if c == '"' {
        Some('"')
    } else if c == '\\' {
        Some('\\')
    } else if c == '/' {
        Some('/')
    } else if c == 'b' {
        Some('\u{8}')
    } else if c == 'f' {
        Some('\u{c}')
    } else if c == 'n' {
        Some('\n')
    } else if c == 'r' {
        Some('\r')
    } else if c == 't' {
        Some('\t')
    } else {
        None
    }
}

fn skip_ws(s: &str, n: usize, i: usize) -> (r: usize)
    requires
        n == s@.len(),
        i <= n,
    ensures
        i <= r <= n,
        r as int == spec_skip_ws(s@, i as int),
    decreases n - i,
{
    if i < n && ws_char(s.get_char(i)) {
        skip_ws(s, n, i + 1)
    } else {
        i
    }
}

/// Whether the characters of `a` are exactly those of `b`.
fn str_eq_chars(a: &Vec<char>, b: &str) -> (r: bool)
    ensures
        r == (a@ == b@),
{
    let n = b.unicode_len();
    if a.len() != n {
        return false;
    }
    let mut j: usize = 0;
    while j < n
        invariant
            n == b@.len(),
            a@.len() == n,
            j <= n,
            forall|k: int| 0 <= k < j ==> a@[k] == b@[k],
        decreases n - j,
    {
        if a[j] != b.get_char(j) {
            return false;
        }
        j = j + 1;
    }
    proof {
        assert(a@ =~= b@);
    }
    true
}

fn parse_string(s: &str, n: usize, i: usize) -> (r: Option<(Vec<char>, usize)>)
    requires
        n == s@.len(),
        i <= n,
    ensures
        match r {
            Some(v) => spec_parse_string(s@, i as int) == Some((v.0@, v.1 as int)) && i < v.1 <= n,
            None => spec_parse_string(s@, i as int) is None,
        },
{
    if i >= n || s.get_char(i) != '"' {
        return None;
    }
    let mut acc: Vec<char> = Vec::new();
    let mut j: usize = i + 1;
    loop
        invariant
            n == s@.len(),
            i + 1 <= j <= n,
            i < n && s@[i as int] == '"',
            (match spec_string_body(s@, j as int) {
                Some(rest) => spec_string_body(s@, i + 1) == Some((acc@ + rest.0, rest.1)),
                None => spec_string_body(s@, i + 1) is None,
            }),
        decreases n - j,
    {
        if j >= n {
            return None;
        }
        let c = s.get_char(j);
        if c == '"' {
            proof {
                assert(acc@ + Seq::<char>::empty() =~= acc@);
            }
            return Some((acc, j + 1));
        }
        if c == '\\' {
            if j + 1 >= n {
                return None;
            }
            match escape_char(s.get_char(j + 1)) {
                Some(e) => {
                    proof {
                        let body_next = spec_string_body(s@, j + 2);
                        if body_next is Some {
                            assert(acc@ + (seq![e] + body_next.unwrap().0) =~= acc@.push(e)
                                + body_next.unwrap().0);
                        }
                    }
                    acc.push(e);
                    j = j + 2;
                },
                None => {
                    return None;
                },
            }
        } else if (c as u32) < 32 {
            return None;
        } else {
            proof {
                let body_next = spec_string_body(s@, j + 1);
                if body_next is Some {
                    assert(acc@ + (seq![c] + body_next.unwrap().0) =~= acc@.push(c)
                        + body_next.unwrap().0);
                }
            }
            acc.push(c);
            j = j + 1;
        }
    }
}

/// A record while its members are being read.
struct PartialFields {
    question: Option<Vec<char>>,
    hint1: Option<Vec<char>>,
    hint2: Option<Vec<char>>,
    answer: Option<Vec<char>>,
}

impl View for PartialFields {
    type V = PartialRecord;

    closed spec fn view(&self) -> PartialRecord {
        PartialRecord {
            question: match self.question {
                Some(v) => Some(v@),
                None => None,
            },
            hint1: match self.hint1 {
                Some(v) => Some(v@),
                None => None,
            },
            hint2: match self.hint2 {
                Some(v) => Some(v@),
                None => None,
            },
            answer: match self.answer {
                Some(v) => Some(v@),
                None => None,
            },
        }
    }
}

fn assign_field(p: PartialFields, key: Vec<char>, val: Vec<char>) -> (r: Option<PartialFields>)
    ensures
        match r {
            Some(p2) => spec_assign(p@, key@, val@) == Some(p2@),
            None => spec_assign(p@, key@, val@) is None,
        },
{
    if str_eq_chars(&key, "question") {
        if p.question.is_none() {
            Some(PartialFields { question: Some(val), hint1: p.hint1, hint2: p.hint2, answer: p.answer })
        } else {
            None
        }
    } else if str_eq_chars(&key, "hint1") {
        if p.hint1.is_none() {
            Some(PartialFields { question: p.question, hint1: Some(val), hint2: p.hint2, answer: p.answer })
        } else {
            None
        }
    } else if str_eq_chars(&key, "hint2") {
        if p.hint2.is_none() {
            Some(PartialFields { question: p.question, hint1: p.hint1, hint2: Some(val), answer: p.answer })
        } else {
            None
        }
    } else if str_eq_chars(&key, "answer") {
        if p.answer.is_none() {
            Some(PartialFields { question: p.question, hint1: p.hint1, hint2: p.hint2, answer: Some(val) })
        } else {
            None
        }
    } else {
        None
    }
}

fn complete_record(p: PartialFields) -> (r: Option<Question>)
    ensures
        match r {
            Some(q) => spec_complete(p@) == Some(q@),
            None => spec_complete(p@) is None,
        },
{
    match (p.question, p.hint1, p.hint2, p.answer) {
        (Some(q), Some(h1), Some(h2), Some(a)) => Some(
            Question {
                question: chars_to_string(&q),
                hint1: chars_to_string(&h1),
                hint2: chars_to_string(&h2),
                answer: chars_to_string(&a),
            },
        ),
        _ => None,
    }
}

fn parse_members(s: &str, n: usize, i: usize, p: PartialFields) -> (r: Option<
    (PartialFields, usize),
>)
    requires
        n == s@.len(),
        i <= n,
    ensures
        match r {
            Some(pj) => spec_members(s@, i as int, p@) == Some((pj.0@, pj.1 as int)) && i < pj.1
                <= n,
            None => spec_members(s@, i as int, p@) is None,
        },
    decreases n - i,
{
    match parse_string(s, n, i) {
        None => None,
        Some((key, j1)) => {
            let j2 = skip_ws(s, n, j1);
            if j2 < n && s.get_char(j2) == ':' {
                let j3 = skip_ws(s, n, j2 + 1);
                match parse_string(s, n, j3) {
                    None => None,
                    Some((val, j4)) => match assign_field(p, key, val) {
                        None => None,
                        Some(p2) => {
                            let j5 = skip_ws(s, n, j4);
                            if j5 < n && s.get_char(j5) == ',' {
                                let j6 = skip_ws(s, n, j5 + 1);
                                if i < j6 {
                                    parse_members(s, n, j6, p2)
                                } else {
                                    None
                                }
                            } else if j5 < n && s.get_char(j5) == '}' {
                                Some((p2, j5 + 1))
                            } else {
                                None
                            }
                        },
                    },
                }
            } else {
                None
            }
        },
    }
}

fn parse_record(s: &str, n: usize, i: usize) -> (r: Option<(Question, usize)>)
    requires
        n == s@.len(),
        i <= n,
    ensures
        match r {
            Some(qj) => spec_parse_record(s@, i as int) == Some((qj.0@, qj.1 as int)) && i < qj.1
                <= n,
            None => spec_parse_record(s@, i as int) is None,
        },
{
    if i < n && s.get_char(i) == '{' {
        let j = skip_ws(s, n, i + 1);
        let p0 = PartialFields { question: None, hint1: None, hint2: None, answer: None };
        match parse_members(s, n, j, p0) {
            None => None,
            Some((p, j2)) => match complete_record(p) {
                None => None,
                Some(q) => Some((q, j2)),
            },
        }
    } else {
        None
    }
}

fn parse_elements(s: &str, n: usize, i: usize) -> (r: Option<(Vec<Question>, usize)>)
    requires
        n == s@.len(),
        i <= n,
    ensures
        match r {
            Some(qj) => spec_elements(s@, i as int) == Some((qj.0.deep_view(), qj.1 as int)) && i
                < qj.1 <= n,
            None => spec_elements(s@, i as int) is None,
        },
    decreases n - i,
{
    match parse_record(s, n, i) {
        None => None,
        Some((q, j1)) => {
            let j2 = skip_ws(s, n, j1);
            if j2 < n && s.get_char(j2) == ',' {
                let j3 = skip_ws(s, n, j2 + 1);
                if i < j3 {
                    match parse_elements(s, n, j3) {
                        None => None,
                        Some((mut rest, j4)) => {
                            let ghost rest_dv = rest.deep_view();
                            rest.insert(0, q);
                            proof {
                                assert(rest.deep_view() =~= seq![q@] + rest_dv);
                            }
                            Some((rest, j4))
                        },
                    }
                } else {
                    None
                }
            } else if j2 < n && s.get_char(j2) == ']' {
                let mut v: Vec<Question> = Vec::new();
                v.push(q);
                proof {
                    assert(v.deep_view() =~= seq![q@]);
                }
                Some((v, j2 + 1))
            } else {
                None
            }
        },
    }
}

/// Parses a whole quiz file: returns the list of its records exactly when
/// the text is a well-formed quiz file, and `None` otherwise.
pub fn parse_quiz(s: &str) -> (r: Option<Vec<Question>>)
    ensures
        match r {
            Some(qs) => spec_parse_quiz(s@) == Some(qs.deep_view()),
            None => spec_parse_quiz(s@) is None,
        },
{
    let n = s.unicode_len();
    let i0 = skip_ws(s, n, 0);
    if i0 < n && s.get_char(i0) == '[' {
        let i1 = skip_ws(s, n, i0 + 1);
        if i1 < n && s.get_char(i1) == ']' {
            let i2 = skip_ws(s, n, i1 + 1);
            if i2 == n {
                let v: Vec<Question> = Vec::new();
                proof {
                    assert(v.deep_view() =~= Seq::<QuestionView>::empty());
                }
                Some(v)
            } else {
                None
            }
        } else {
            match parse_elements(s, n, i1) {
                None => None,
                Some((qs, j)) => {
                    let j2 = skip_ws(s, n, j);
                    if j2 == n {
                        Some(qs)
                    } else {
                        None
                    }
                },
            }
        }
    } else {
        None
    }
}

} // verus!
