//! The line protocol of the simulator's text console.
//!
//! A line is trimmed and split into whitespace-separated words; the words
//! select a request: `get`, `set_target <x> <y> <z>`, `pause`, `resume`,
//! `reset`, `help`, an empty line, or anything else (unknown). Whitespace is
//! Unicode's `White_Space` property, the characters for which
//! `char::is_whitespace` holds.

use vstd::prelude::*;
use crate::text::{push_char, text_eq};

verus! {

/// Unicode's `White_Space` property: the ASCII tab, line feed, vertical tab,
/// form feed, carriage return and space, then U+0085, U+00A0, U+1680,
/// U+2000 to U+200A, U+2028, U+2029, U+202F, U+205F and U+3000. These are
/// the characters for which `char::is_whitespace` holds.
pub open spec fn unicode_whitespace(c: char) -> bool {
    let u = c as u32;
    ||| 0x09 <= u <= 0x0d
    ||| u == 0x20
    ||| u == 0x85
    ||| u == 0xa0
    ||| u == 0x1680
    ||| 0x2000 <= u <= 0x200a
    ||| u == 0x2028
    ||| u == 0x2029
    ||| u == 0x202f
    ||| u == 0x205f
    ||| u == 0x3000
}

/// Whether `c` has the Unicode `White_Space` property.
pub fn is_whitespace(c: char) -> (b: bool)
    ensures
        b == unicode_whitespace(c),
{
    let u: u32 = c as u32;
    (0x09 <= u && u <= 0x0d) || u == 0x20 || u == 0x85 || u == 0xa0 || u == 0x1680 || (0x2000
        <= u && u <= 0x200a) || u == 0x2028 || u == 0x2029 || u == 0x202f || u == 0x205f || u
        == 0x3000
}

/// Which characters of `s` are whitespace.
pub open spec fn mask_of(s: Seq<char>) -> Seq<bool> {
    Seq::new(s.len(), |i: int| unicode_whitespace(s[i]))
}

/// Scans `s` left to right (`ws[i]`: character `i` is whitespace) and
/// returns the completed words and the word still being read.
pub open spec fn scan_words(s: Seq<char>, ws: Seq<bool>) -> (Seq<Seq<char>>, Seq<char>)
    decreases s.len(),
{
    if s.len() == 0 {
        (Seq::empty(), Seq::empty())
    } else {
        let (done, cur) = scan_words(s.drop_last(), ws.take(s.len() - 1));
        if ws[s.len() - 1] {
            if cur.len() > 0 {
                (done.push(cur), Seq::empty())
            } else {
                (done, Seq::empty())
            }
        } else {
            (done, cur.push(s.last()))
        }
    }
}

/// The maximal runs of non-whitespace characters of `s`, in order.
pub open spec fn words(s: Seq<char>, ws: Seq<bool>) -> Seq<Seq<char>> {
    let (done, cur) = scan_words(s, ws);
    if cur.len() > 0 {
        done.push(cur)
    } else {
        done
    }
}

/// The number of leading whitespace characters.
pub open spec fn leading_ws(ws: Seq<bool>) -> nat
    decreases ws.len(),
{
    if ws.len() == 0 {
        0
    } else if ws[0] {
        1 + leading_ws(ws.drop_first())
    } else {
        0
    }
}

/// The number of trailing whitespace characters.
pub open spec fn trailing_ws(ws: Seq<bool>) -> nat
    decreases ws.len(),
{
    if ws.len() == 0 {
        0
    } else if ws.last() {
        1 + trailing_ws(ws.drop_last())
    } else {
        0
    }
}

/// `s` without its leading and trailing whitespace.
pub open spec fn trimmed(s: Seq<char>, ws: Seq<bool>) -> Seq<char> {
    if leading_ws(ws) >= s.len() {
        Seq::empty()
    } else {
        s.subrange(leading_ws(ws) as int, s.len() - trailing_ws(ws))
    }
}

/// `ws` marks exactly the whitespace characters of `s`.
pub open spec fn is_whitespace_mask(s: Seq<char>, ws: Seq<bool>) -> bool {
    &&& ws.len() == s.len()
    &&& forall|i: int| 0 <= i < s.len() ==> ws[i] == unicode_whitespace(s[i])
}

/// No character of `w` is whitespace.
pub open spec fn solid(w: Seq<char>) -> bool {
    forall|j: int| 0 <= j < w.len() ==> !unicode_whitespace(w[j])
}

proof fn lemma_scan_solid(s: Seq<char>, ws: Seq<bool>)
    requires
        is_whitespace_mask(s, ws),
    ensures
        ({
            let (done, cur) = scan_words(s, ws);
            &&& forall|k: int| 0 <= k < done.len() ==> done[k].len() > 0 && solid(done[k])
            &&& solid(cur)
        }),
    decreases s.len(),
{
    if s.len() > 0 {
        let p = s.drop_last();
        let pw = ws.take(s.len() - 1);
        assert(is_whitespace_mask(p, pw));
        lemma_scan_solid(p, pw);
        let (done, cur) = scan_words(p, pw);
        if !ws[s.len() - 1] {
            let c2 = cur.push(s.last());
            assert forall|j: int| 0 <= j < c2.len() implies !unicode_whitespace(c2[j]) by {
                if j < cur.len() {
                    assert(c2[j] == cur[j]);
                }
            }
        } else if cur.len() > 0 {
            let d2 = done.push(cur);
            assert forall|k: int| 0 <= k < d2.len() implies d2[k].len() > 0 && solid(d2[k]) by {
                if k < done.len() {
                    assert(d2[k] == done[k]);
                }
            }
        }
    }
}

/// Splitting on whitespace yields non-empty words that contain no
/// whitespace.
pub proof fn lemma_words_are_solid(s: Seq<char>, ws: Seq<bool>)
    requires
        is_whitespace_mask(s, ws),
    ensures
        forall|k: int|
            0 <= k < words(s, ws).len() ==> words(s, ws)[k].len() > 0 && solid(
                #[trigger] words(s, ws)[k],
            ),
{
    lemma_scan_solid(s, ws);
    let (done, cur) = scan_words(s, ws);
    if cur.len() > 0 {
        let d2 = done.push(cur);
        assert forall|k: int| 0 <= k < d2.len() implies d2[k].len() > 0 && solid(d2[k]) by {
            if k < done.len() {
                assert(d2[k] == done[k]);
            }
        }
    }
}

/// Every entry of `ws` marks whitespace.
pub open spec fn all_ws(ws: Seq<bool>) -> bool {
    forall|j: int| 0 <= j < ws.len() ==> ws[j]
}

proof fn lemma_scan_blank(s: Seq<char>, ws: Seq<bool>)
    requires
        ws.len() == s.len(),
        all_ws(ws),
    ensures
        scan_words(s, ws) == (Seq::<Seq<char>>::empty(), Seq::<char>::empty()),
    decreases s.len(),
{
    if s.len() > 0 {
        lemma_scan_blank(s.drop_last(), ws.take(s.len() - 1));
    }
}

proof fn lemma_scan_after_blank(p: Seq<char>, pw: Seq<bool>, s: Seq<char>, sw: Seq<bool>)
    requires
        pw.len() == p.len(),
        sw.len() == s.len(),
        all_ws(pw),
    ensures
        scan_words(p + s, pw + sw) == scan_words(s, sw),
    decreases s.len(),
{
    if s.len() == 0 {
        assert(p + s =~= p);
        assert(pw + sw =~= pw);
        lemma_scan_blank(p, pw);
    } else {
        let n = s.len();
        assert((p + s).drop_last() =~= p + s.drop_last());
        assert((pw + sw).take(p.len() + n - 1) =~= pw + sw.take(n - 1));
        lemma_scan_after_blank(p, pw, s.drop_last(), sw.take(n - 1));
    }
}

proof fn lemma_words_before_blank(s: Seq<char>, sw: Seq<bool>, q: Seq<char>, qw: Seq<bool>)
    requires
        sw.len() == s.len(),
        qw.len() == q.len(),
        all_ws(qw),
    ensures
        words(s + q, sw + qw) == words(s, sw),
        q.len() > 0 ==> (scan_words(s + q, sw + qw)).1.len() == 0,
    decreases q.len(),
{
    if q.len() == 0 {
        assert(s + q =~= s);
        assert(sw + qw =~= sw);
    } else {
        let m = q.len();
        assert((s + q).drop_last() =~= s + q.drop_last());
        assert((sw + qw).take(s.len() + m - 1) =~= sw + qw.take(m - 1));
        lemma_words_before_blank(s, sw, q.drop_last(), qw.take(m - 1));
        assert((sw + qw)[s.len() + m - 1] == qw[m - 1]);
        if m - 1 == 0 {
            assert(s + q.drop_last() =~= s);
            assert(sw + qw.take(m - 1) =~= sw);
        }
    }
}

proof fn lemma_leading_are_ws(ws: Seq<bool>)
    ensures
        leading_ws(ws) <= ws.len(),
        forall|j: int| 0 <= j < leading_ws(ws) ==> ws[j],
        leading_ws(ws) < ws.len() ==> !ws[leading_ws(ws) as int],
    decreases ws.len(),
{
    if ws.len() > 0 && ws[0] {
        let rest = ws.drop_first();
        lemma_leading_are_ws(rest);
        assert forall|j: int| 0 <= j < leading_ws(ws) implies ws[j] by {
            if j > 0 {
                assert(ws[j] == rest[j - 1]);
            }
        }
        if leading_ws(ws) < ws.len() {
            assert(ws[leading_ws(ws) as int] == rest[leading_ws(rest) as int]);
        }
    }
}

proof fn lemma_trailing_are_ws(ws: Seq<bool>)
    ensures
        trailing_ws(ws) <= ws.len(),
        forall|j: int| ws.len() - trailing_ws(ws) <= j < ws.len() ==> ws[j],
        trailing_ws(ws) < ws.len() ==> !ws[ws.len() - trailing_ws(ws) - 1],
    decreases ws.len(),
{
    if ws.len() > 0 && ws.last() {
        let rest = ws.drop_last();
        lemma_trailing_are_ws(rest);
        assert forall|j: int| ws.len() - trailing_ws(ws) <= j < ws.len() implies ws[j] by {
            if j < ws.len() - 1 {
                assert(ws[j] == rest[j]);
            }
        }
    }
}

/// The mask of the trimmed line: the part of `ws` that `trimmed` keeps.
pub open spec fn trimmed_mask(ws: Seq<bool>) -> Seq<bool> {
    if leading_ws(ws) >= ws.len() {
        Seq::empty()
    } else {
        ws.subrange(leading_ws(ws) as int, ws.len() - trailing_ws(ws))
    }
}

/// Surrounding whitespace does not change the words of a line: the trimmed
/// line has the same words.
pub proof fn lemma_trim_keeps_words(s: Seq<char>, ws: Seq<bool>)
    requires
        ws.len() == s.len(),
    ensures
        words(trimmed(s, ws), trimmed_mask(ws)) == words(s, ws),
{
    lemma_leading_are_ws(ws);
    lemma_trailing_are_ws(ws);
    let a = leading_ws(ws) as int;
    let n = s.len() as int;
    if a >= n {
        lemma_scan_blank(s, ws);
        assert(trimmed(s, ws) =~= Seq::<char>::empty());
        assert(trimmed_mask(ws) =~= Seq::<bool>::empty());
        assert(words(Seq::<char>::empty(), Seq::<bool>::empty()) =~= Seq::<Seq<char>>::empty());
    } else {
        let b = n - trailing_ws(ws);
        assert(a < b);
        let p = s.subrange(0, a);
        let pw = ws.subrange(0, a);
        let m = s.subrange(a, b);
        let mw = ws.subrange(a, b);
        let q = s.subrange(b, n);
        let qw = ws.subrange(b, n);
        assert(s =~= p + (m + q));
        assert(ws =~= pw + (mw + qw));
        assert(all_ws(pw));
        assert(all_ws(qw));
        lemma_scan_after_blank(p, pw, m + q, mw + qw);
        lemma_words_before_blank(m, mw, q, qw);
    }
}

/// A console request.
#[derive(Debug)]
pub enum ConsoleRequest {
    /// `get`: a snapshot of the simulation.
    Get,
    /// `set_target <x> <y> <z>`, with the three coordinate words as typed.
    SetTarget(String, String, String),
    /// `pause`.
    Pause,
    /// `resume`.
    Resume,
    /// `reset`.
    Reset,
    /// `help`.
    Help,
    /// A line without words.
    Empty,
    /// Anything else, with the trimmed line.
    Unknown(String),
}

/// The meaning of a console request.
pub enum RequestView {
    Get,
    SetTarget(Seq<char>, Seq<char>, Seq<char>),
    Pause,
    Resume,
    Reset,
    Help,
    Empty,
    Unknown(Seq<char>),
}

impl View for ConsoleRequest {
    type V = RequestView;

    open spec fn view(&self) -> RequestView {
        match self {
            ConsoleRequest::Get => RequestView::Get,
            ConsoleRequest::SetTarget(x, y, z) => RequestView::SetTarget(x@, y@, z@),
            ConsoleRequest::Pause => RequestView::Pause,
            ConsoleRequest::Resume => RequestView::Resume,
            ConsoleRequest::Reset => RequestView::Reset,
            ConsoleRequest::Help => RequestView::Help,
            ConsoleRequest::Empty => RequestView::Empty,
            ConsoleRequest::Unknown(l) => RequestView::Unknown(l@),
        }
    }
}

/// The request that the words `w` of a line (whose trimmed text is
/// `line`) select.
pub open spec fn request_of(line: Seq<char>, w: Seq<Seq<char>>) -> RequestView {
    if w.len() == 0 {
        RequestView::Empty
    } else if w.len() == 1 && w[0] == "get"@ {
        RequestView::Get
    } else if w.len() == 4 && w[0] == "set_target"@ {
        RequestView::SetTarget(w[1], w[2], w[3])
    } else if w.len() == 1 && w[0] == "pause"@ {
        RequestView::Pause
    } else if w.len() == 1 && w[0] == "resume"@ {
        RequestView::Resume
    } else if w.len() == 1 && w[0] == "reset"@ {
        RequestView::Reset
    } else if w.len() == 1 && w[0] == "help"@ {
        RequestView::Help
    } else {
        RequestView::Unknown(line)
    }
}

/// `w` is the single word `word`.
pub open spec fn one_word(w: Seq<Seq<char>>, word: Seq<char>) -> bool {
    w.len() == 1 && w[0] == word
}

/// How words select a request: an empty line is `Empty`; `get`, `pause`,
/// `resume`, `reset` and `help` are selected exactly by a line of that one
/// word and nothing else; `set_target` is selected exactly by a line of four
/// words whose first is `set_target`, and carries the other three in order;
/// every other line is `Unknown`, carrying the trimmed line itself.
pub proof fn lemma_request_words(line: Seq<char>, w: Seq<Seq<char>>)
    ensures
        (request_of(line, w) == RequestView::Empty) == (w.len() == 0),
        (request_of(line, w) == RequestView::Get) == one_word(w, "get"@),
        (request_of(line, w) == RequestView::Pause) == one_word(w, "pause"@),
        (request_of(line, w) == RequestView::Resume) == one_word(w, "resume"@),
        (request_of(line, w) == RequestView::Reset) == one_word(w, "reset"@),
        (request_of(line, w) == RequestView::Help) == one_word(w, "help"@),
        (request_of(line, w) is SetTarget) == (w.len() == 4 && w[0] == "set_target"@),
        request_of(line, w) matches RequestView::SetTarget(x, y, z) ==> x == w[1] && y == w[2]
            && z == w[3],
        (request_of(line, w) is Unknown) == (w.len() > 0 && !one_word(w, "get"@) && !one_word(
            w,
            "pause"@,
        ) && !one_word(w, "resume"@) && !one_word(w, "reset"@) && !one_word(w, "help"@) && !(
        w.len() == 4 && w[0] == "set_target"@)),
        request_of(line, w) matches RequestView::Unknown(l) ==> l == line,
{
    reveal_strlit("get");
    reveal_strlit("set_target");
    reveal_strlit("pause");
    reveal_strlit("resume");
    reveal_strlit("reset");
    reveal_strlit("help");
    assert("get"@.len() == 3 && "help"@.len() == 4 && "pause"@.len() == 5 && "reset"@.len() == 5
        && "resume"@.len() == 6 && "set_target"@.len() == 10);
    assert("pause"@[0] != "reset"@[0]);
}

/// Whether each character of `line` is whitespace.
pub fn whitespace_mask(line: &str) -> (ws: Vec<bool>)
    ensures
        is_whitespace_mask(line@, ws@),
{
    let n = line.unicode_len();
    let mut ws: Vec<bool> = Vec::new();
    let mut i: usize = 0;
    while i < n
        invariant
            n == line@.len(),
            i <= n,
            ws@.len() == i,
            forall|j: int| 0 <= j < i ==> ws@[j] == unicode_whitespace(line@[j]),
        decreases n - i,
    {
        ws.push(is_whitespace(line.get_char(i)));
        i += 1;
    }
    ws
}

/// The text of each word.
pub open spec fn texts(v: Seq<String>) -> Seq<Seq<char>> {
    v.map_values(|t: String| t@)
}

proof fn lemma_scan_step(s: Seq<char>, ws: Seq<bool>, i: int)
    requires
        0 <= i < s.len(),
        ws.len() == s.len(),
    ensures
        scan_words(s.take(i + 1), ws.take(i + 1)) == ({
            let (done, cur) = scan_words(s.take(i), ws.take(i));
            if ws[i] {
                if cur.len() > 0 {
                    (done.push(cur), Seq::<char>::empty())
                } else {
                    (done, Seq::<char>::empty())
                }
            } else {
                (done, cur.push(s[i]))
            }
        }),
{
    assert(s.take(i + 1).drop_last() =~= s.take(i));
    assert(ws.take(i + 1).take(i) =~= ws.take(i));
}

/// Splits `line` into its words, given which of its characters are
/// whitespace.
pub fn split_words(line: &str, ws: &Vec<bool>) -> (w: Vec<String>)
    requires
        ws@.len() == line@.len(),
    ensures
        texts(w@) == words(line@, ws@),
{
    let n = line.unicode_len();
    let mut done: Vec<String> = Vec::new();
    let mut cur = String::new();
    let mut i: usize = 0;
    proof {
        assert(line@.take(0) =~= Seq::<char>::empty());
    }
    while i < n
        invariant
            n == line@.len(),
            ws@.len() == n,
            i <= n,
            (texts(done@), cur@) == scan_words(line@.take(i as int), ws@.take(i as int)),
        decreases n - i,
    {
        proof {
            lemma_scan_step(line@, ws@, i as int);
        }
        let c = line.get_char(i);
        if ws[i] {
            if !cur.as_str().is_empty() {
                let word = cur;
                cur = String::new();
                proof {
                    assert(texts(done@.push(word)) =~= texts(done@).push(word@));
                }
                done.push(word);
            } else {
                cur = String::new();
            }
        } else {
            push_char(&mut cur, c);
        }
        i += 1;
    }
    proof {
        assert(line@.take(n as int) =~= line@);
        assert(ws@.take(n as int) =~= ws@);
    }
    if !cur.as_str().is_empty() {
        proof {
            assert(texts(done@.push(cur)) =~= texts(done@).push(cur@));
        }
        done.push(cur);
    }
    done
}

proof fn lemma_leading(ws: Seq<bool>, i: int)
    requires
        0 <= i <= ws.len(),
        forall|j: int| 0 <= j < i ==> ws[j],
        i == ws.len() || !ws[i],
    ensures
        leading_ws(ws) == i,
    decreases i,
{
    if i > 0 {
        let rest = ws.drop_first();
        assert forall|j: int| 0 <= j < i - 1 implies rest[j] by {
            assert(rest[j] == ws[j + 1]);
        }
        lemma_leading(rest, i - 1);
    }
}

proof fn lemma_trailing(ws: Seq<bool>, k: int)
    requires
        0 <= k <= ws.len(),
        forall|j: int| k <= j < ws.len() ==> ws[j],
        k == 0 || !ws[k - 1],
    ensures
        trailing_ws(ws) == ws.len() - k,
    decreases ws.len() - k,
{
    if k < ws.len() {
        let rest = ws.drop_last();
        lemma_trailing(rest, k);
    }
}

/// `line` without leading and trailing whitespace, given which of its
/// characters are whitespace.
pub fn trim_line(line: &str, ws: &Vec<bool>) -> (t: String)
    requires
        ws@.len() == line@.len(),
    ensures
        t@ == trimmed(line@, ws@),
{
    let n = line.unicode_len();
    let mut a: usize = 0;
    while a < n && ws[a]
        invariant
            n == line@.len(),
            ws@.len() == n,
            a <= n,
            forall|j: int| 0 <= j < a ==> ws@[j],
        decreases n - a,
    {
        a += 1;
    }
    proof {
        lemma_leading(ws@, a as int);
    }
    if a >= n {
        return String::new();
    }
    let mut b: usize = n;
    while b > a && ws[b - 1]
        invariant
            n == line@.len(),
            ws@.len() == n,
            a < n,
            !ws@[a as int],
            a <= b <= n,
            forall|j: int| b <= j < n ==> ws@[j],
        decreases b,
    {
        b -= 1;
    }
    proof {
        lemma_trailing(ws@, b as int);
    }
    String::from_str(line.substring_char(a, b))
}

/// Reads a console line, given which of its characters are whitespace: the
/// request that its words select.
pub fn parse_request_masked(line: &str, ws: &Vec<bool>) -> (r: ConsoleRequest)
    requires
        ws@.len() == line@.len(),
    ensures
        r@ == request_of(trimmed(line@, ws@), words(line@, ws@)),
{
    let w = split_words(line, ws);
    proof {
        reveal_strlit("get");
        reveal_strlit("set_target");
        reveal_strlit("pause");
        reveal_strlit("resume");
        reveal_strlit("reset");
        reveal_strlit("help");
        assert(texts(w@).len() == w@.len());
        assert(forall|i: int| 0 <= i < w@.len() ==> texts(w@)[i] == w@[i]@);
    }
    let n = w.len();
    if n == 0 {
        return ConsoleRequest::Empty;
    }
    let first = w[0].as_str();
    if n == 1 && text_eq(first, "get") {
        ConsoleRequest::Get
    } else if n == 4 && text_eq(first, "set_target") {
        ConsoleRequest::SetTarget(w[1].clone(), w[2].clone(), w[3].clone())
    } else if n == 1 && text_eq(first, "pause") {
        ConsoleRequest::Pause
    } else if n == 1 && text_eq(first, "resume") {
        ConsoleRequest::Resume
    } else if n == 1 && text_eq(first, "reset") {
        ConsoleRequest::Reset
    } else if n == 1 && text_eq(first, "help") {
        ConsoleRequest::Help
    } else {
        ConsoleRequest::Unknown(trim_line(line, ws))
    }
}

/// Reads a console line: the request that its words select.
pub fn parse_request(line: &str) -> (r: ConsoleRequest)
    ensures
        r@ == request_of(trimmed(line@, mask_of(line@)), words(line@, mask_of(line@))),
{
    let ws = whitespace_mask(line);
    assert(ws@ =~= mask_of(line@));
    parse_request_masked(line, &ws)
}

/// The reply to `help`.
pub const HELP_TEXT: &'static str = "commands:\n  get                   — JSON snapshot of all joint/EE values\n  set_target <x> <y> <z> — move IK target\n  pause / resume        — freeze/unfreeze sim\n  reset                 — reset arm to zero";

/// The reply to a request that was carried out.
pub const OK_REPLY: &'static str = "ok";

/// The reply to a `set_target` whose coordinates are not all numbers.
pub const SET_TARGET_USAGE: &'static str = "error: expected set_target <x> <y> <z>";

/// The greeting a new console connection receives.
pub const GREETING: &'static str = "3D Arm Console. Type 'help' for commands.\n> ";

/// The reply to a line of no known request.
pub open spec fn unknown_reply(line: Seq<char>) -> Seq<char> {
    "unknown: '"@ + line + "'  (try 'help')"@
}

/// The reply that a request gets without consulting the simulation:
/// `ok` for pause, resume and reset, the help text, nothing for an empty
/// line, the complaint for an unknown line. `get` and `set_target` are
/// answered by the caller (a snapshot, or `ok` / the usage error once the
/// coordinates are read), so they get `None`.
pub fn fixed_reply(req: &ConsoleRequest) -> (reply: Option<String>)
    ensures
        match req@ {
            RequestView::Pause | RequestView::Resume | RequestView::Reset => reply matches Some(
                t,
            ) && t@ == OK_REPLY@,
            RequestView::Help => reply matches Some(t) && t@ == HELP_TEXT@,
            RequestView::Empty => reply matches Some(t) && t@ == Seq::<char>::empty(),
            RequestView::Unknown(l) => reply matches Some(t) && t@ == unknown_reply(l),
            RequestView::Get | RequestView::SetTarget(..) => reply is None,
        },
{
    match req {
        ConsoleRequest::Pause | ConsoleRequest::Resume | ConsoleRequest::Reset => Some(
            String::from_str(OK_REPLY),
        ),
        ConsoleRequest::Help => Some(String::from_str(HELP_TEXT)),
        ConsoleRequest::Empty => Some(String::new()),
        ConsoleRequest::Unknown(l) => {
            let mut t = String::from_str("unknown: '");
            t.append(l.as_str());
            t.append("'  (try 'help')");
            Some(t)
        },
        ConsoleRequest::Get | ConsoleRequest::SetTarget(..) => None,
    }
}

} // verus!
