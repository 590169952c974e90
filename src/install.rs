//! The install runner's decisions: watching the disposable container, reading its exit
//! code, and spotting sign-in links in its output.
use vstd::prelude::*;
use crate::text::{chars_of, contains, contains_chars, copy_range, is_space, is_space_char, occurs_at, matches_at, string_of};

verus! {

broadcast use vstd::string::group_string_axioms;

/// What the runner saw while following the install container's output.
#[derive(Debug, Clone, Copy, PartialEq, Eq, Structural)]
pub enum WatchEvent {
    /// A chunk of output arrived.
    Output,
    /// The log stream failed.
    StreamFailed,
    /// The log stream ended.
    StreamEnded,
    /// Nothing arrived within the poll interval.
    Timeout,
}

/// What the runner does next.
#[derive(Debug, Clone, Copy, PartialEq, Eq, Structural)]
pub enum WatchAction {
    /// Pass the chunk's non-empty lines to the sink and keep following.
    Forward,
    /// Stop following and read the exit code.
    Finish,
    /// Ask the runtime whether the container still runs.
    Inspect,
}

/// Decides how the runner reacts to what it saw.
pub fn watch_step(ev: WatchEvent) -> (r: WatchAction)
    ensures
        ev == WatchEvent::Output ==> r == WatchAction::Forward,
        (ev == WatchEvent::StreamFailed || ev == WatchEvent::StreamEnded) ==> r == WatchAction::Finish,
        ev == WatchEvent::Timeout ==> r == WatchAction::Inspect,
{
    match ev {
        WatchEvent::Output => WatchAction::Forward,
        WatchEvent::StreamFailed | WatchEvent::StreamEnded => WatchAction::Finish,
        WatchEvent::Timeout => WatchAction::Inspect,
    }
}

/// What a liveness check of the install container found.
#[derive(Debug, Clone, Copy, PartialEq, Eq, Structural)]
pub enum Liveness {
    /// The container could not be inspected: it is assumed finished.
    Gone,
    /// The inspection carried no state.
    NoState,
    /// The inspection's running flag, when it had one.
    Running(Option<bool>),
}

/// Whether the install is over after a liveness check: the container is gone or not
/// known to run.
pub fn install_over(l: Liveness) -> (r: bool)
    ensures
        r == match l {
            Liveness::Gone => true,
            Liveness::NoState => false,
            Liveness::Running(x) => x != Some(true),
        },
{
    match l {
        Liveness::Gone => true,
        Liveness::NoState => false,
        Liveness::Running(x) => match x {
            Some(b) => !b,
            None => true,
        },
    }
}

/// The exit code of a finished install container: the reported one, or -1 when the
/// container could not be inspected or reported none.
pub fn exit_code_of(inspected: Option<Option<i64>>) -> (r: i64)
    ensures
        r == match inspected {
            Some(Some(c)) => c as int,
            _ => -1,
        },
{
    match inspected {
        Some(Some(c)) => c,
        _ => -1,
    }
}

/// The words of `s` from a word that starts at `start`, scanning from `cur`.
pub open spec fn words_from(s: Seq<char>, start: int, cur: int) -> Seq<Seq<char>>
    decreases s.len() - cur,
{
    if cur >= s.len() {
        if start < s.len() && start < cur { seq![s.subrange(start, s.len() as int)] } else { Seq::empty() }
    } else if is_space(s[cur]) {
        let w: Seq<Seq<char>> = if start < cur { seq![s.subrange(start, cur)] } else { Seq::empty() };
        w + words_from(s, cur + 1, cur + 1)
    } else {
        words_from(s, start, cur + 1)
    }
}

/// The words of a line, as `split_whitespace` yields them.
pub open spec fn words(s: Seq<char>) -> Seq<Seq<char>> {
    words_from(s, 0, 0)
}

/// The bounds of each word of `v`.
fn word_bounds(v: &Vec<char>) -> (r: Vec<(usize, usize)>)
    ensures
        r@.map_values(|b: (usize, usize)| v@.subrange(b.0 as int, b.1 as int)) == words(v@),
        forall|i: int| 0 <= i < r@.len() ==> (#[trigger] r@[i]).0 <= r@[i].1 <= v@.len(),
{
    let mut r: Vec<(usize, usize)> = Vec::new();
    let mut start: usize = 0;
    let mut cur: usize = 0;
    while cur < v.len()
        invariant
            start <= cur <= v.len(),
            words(v@) == r@.map_values(|b: (usize, usize)| v@.subrange(b.0 as int, b.1 as int)) + words_from(v@, start as int, cur as int),
            forall|i: int| 0 <= i < r@.len() ==> (#[trigger] r@[i]).0 <= r@[i].1 <= v@.len(),
        decreases v.len() - cur,
    {
        if is_space_char(v[cur]) {
            let ghost before = r@.map_values(|b: (usize, usize)| v@.subrange(b.0 as int, b.1 as int));
            if start < cur {
                r.push((start, cur));
                assert(r@.map_values(|b: (usize, usize)| v@.subrange(b.0 as int, b.1 as int)) =~= before + seq![v@.subrange(start as int, cur as int)]);
            } else {
                assert(r@.map_values(|b: (usize, usize)| v@.subrange(b.0 as int, b.1 as int)) =~= before + Seq::<Seq<char>>::empty());
            }
            start = cur + 1;
        }
        cur = cur + 1;
    }
    let ghost before = r@.map_values(|b: (usize, usize)| v@.subrange(b.0 as int, b.1 as int));
    if start < cur {
        r.push((start, cur));
        assert(r@.map_values(|b: (usize, usize)| v@.subrange(b.0 as int, b.1 as int)) =~= before + words_from(v@, start as int, cur as int));
    } else {
        assert(before =~= before + words_from(v@, start as int, cur as int));
    }
    r
}

/// Characters stripped from both ends of a link.
pub open spec fn is_link_quote(c: char) -> bool {
    c == '"' || c == '\'' || c == '<' || c == '>'
}

/// The text without link quotes at its start.
pub open spec fn unquote_start(s: Seq<char>) -> Seq<char>
    decreases s.len(),
{
    if s.len() > 0 && is_link_quote(s[0]) { unquote_start(s.drop_first()) } else { s }
}

/// The text without link quotes at its end.
pub open spec fn unquote_end(s: Seq<char>) -> Seq<char>
    decreases s.len(),
{
    if s.len() > 0 && is_link_quote(s.last()) { unquote_end(s.drop_last()) } else { s }
}

/// A link without surrounding quotes or angle brackets.
pub open spec fn unquoted(s: Seq<char>) -> Seq<char> {
    unquote_end(unquote_start(s))
}

/// Whether a word is a sign-in link: it starts with `https://` and mentions an
/// authentication keyword.
pub open spec fn is_auth_link(w: Seq<char>) -> bool {
    &&& occurs_at(w, "https://"@, 0)
    &&& (contains(w, "oauth"@) || contains(w, "auth"@) || contains(w, "login"@) || contains(w, "verify"@) || contains(w, "device"@))
}

/// The sign-in links among the first `n` words, unquoted, in order.
pub open spec fn auth_links_upto(ws: Seq<Seq<char>>, n: int) -> Seq<Seq<char>>
    decreases n,
{
    if n <= 0 {
        Seq::empty()
    } else if is_auth_link(ws[n - 1]) {
        auth_links_upto(ws, n - 1).push(unquoted(ws[n - 1]))
    } else {
        auth_links_upto(ws, n - 1)
    }
}

/// The sign-in links of a line of install output.
pub open spec fn auth_links(line: Seq<char>) -> Seq<Seq<char>> {
    auth_links_upto(words(line), words(line).len() as int)
}

fn unquote(w: &Vec<char>) -> (r: Vec<char>)
    ensures
        r@ == unquoted(w@),
{
    let n = w.len();
    let mut a: usize = 0;
    assert(w@.subrange(0, n as int) =~= w@);
    while a < n && (w[a] == '"' || w[a] == '\'' || w[a] == '<' || w[a] == '>')
        invariant
            a <= n == w.len(),
            unquote_start(w@) == unquote_start(w@.subrange(a as int, n as int)),
        decreases n - a,
    {
        assert(w@.subrange(a as int, n as int).drop_first() =~= w@.subrange(a + 1, n as int));
        a = a + 1;
    }
    let mut b: usize = n;
    while b > a && (w[b - 1] == '"' || w[b - 1] == '\'' || w[b - 1] == '<' || w[b - 1] == '>')
        invariant
            a <= b <= n == w.len(),
            unquote_end(w@.subrange(a as int, n as int)) == unquote_end(w@.subrange(a as int, b as int)),
        decreases b - a,
    {
        assert(w@.subrange(a as int, b as int).drop_last() =~= w@.subrange(a as int, b - 1));
        b = b - 1;
    }
    copy_range(w, a, b)
}

fn auth_link_word(w: &Vec<char>) -> (r: bool)
    ensures
        r == is_auth_link(w@),
{
    let https = chars_of("https://");
    if !matches_at(w, &https, 0) {
        return false;
    }
    contains_chars(w, &chars_of("oauth")) || contains_chars(w, &chars_of("auth"))
        || contains_chars(w, &chars_of("login")) || contains_chars(w, &chars_of("verify"))
        || contains_chars(w, &chars_of("device"))
}

/// The sign-in links of a line of install output, in order.
pub fn auth_links_in(line: &str) -> (r: Vec<String>)
    ensures
        r@.map_values(|s: String| s@) == auth_links(line@),
{
    let v = chars_of(line);
    let bounds = word_bounds(&v);
    let ghost ws = words(v@);
    let mut r: Vec<String> = Vec::new();
    let mut i: usize = 0;
    while i < bounds.len()
        invariant
            i <= bounds.len(),
            ws == words(v@),
            ws == bounds@.map_values(|b: (usize, usize)| v@.subrange(b.0 as int, b.1 as int)),
            forall|k: int| 0 <= k < bounds@.len() ==> (#[trigger] bounds@[k]).0 <= bounds@[k].1 <= v@.len(),
            r@.map_values(|s: String| s@) == auth_links_upto(ws, i as int),
        decreases bounds.len() - i,
    {
        let (a, b) = bounds[i];
        let w = copy_range(&v, a, b);
        assert(w@ == ws[i as int]);
        if auth_link_word(&w) {
            let ghost before = r@.map_values(|s: String| s@);
            let u = unquote(&w);
            r.push(string_of(&u));
            assert(r@.map_values(|s: String| s@) =~= before.push(unquoted(ws[i as int])));
        }
        i = i + 1;
    }
    r
}

/// The links among the first `n` of `ls` that must be opened when `seen` were opened
/// before: those not seen and not earlier in `ls`, in order.
pub open spec fn fresh_links(seen: Set<Seq<char>>, ls: Seq<Seq<char>>, n: int) -> Seq<Seq<char>>
    decreases n,
{
    if n <= 0 {
        Seq::empty()
    } else if !seen.contains(ls[n - 1]) && !ls.subrange(0, n - 1).contains(ls[n - 1]) {
        fresh_links(seen, ls, n - 1).push(ls[n - 1])
    } else {
        fresh_links(seen, ls, n - 1)
    }
}

/// Each link that must be opened is new, a link of the line, and opened once; and each new
/// link of the line is among them.
pub proof fn fresh_links_exactly_once(seen: Set<Seq<char>>, ls: Seq<Seq<char>>, n: int)
    requires
        0 <= n <= ls.len(),
    ensures
        forall|u: Seq<char>| fresh_links(seen, ls, n).contains(u) <==> (!seen.contains(u) && ls.subrange(0, n).contains(u)),
        forall|a: int, b: int| 0 <= a < b < fresh_links(seen, ls, n).len() ==> fresh_links(seen, ls, n)[a] != fresh_links(seen, ls, n)[b],
    decreases n,
{
    if n > 0 {
        fresh_links_exactly_once(seen, ls, n - 1);
        let prev = fresh_links(seen, ls, n - 1);
        let cur = fresh_links(seen, ls, n);
        assert(ls.subrange(0, n) =~= ls.subrange(0, n - 1).push(ls[n - 1]));
        assert forall|u: Seq<char>| cur.contains(u) <==> (!seen.contains(u) && ls.subrange(0, n).contains(u)) by {
            assert(prev.contains(u) <==> (!seen.contains(u) && ls.subrange(0, n - 1).contains(u)));
            if ls.subrange(0, n).contains(u) && !ls.subrange(0, n - 1).contains(u) {
                let k = choose|k: int| 0 <= k < n && #[trigger] ls.subrange(0, n)[k] == u;
                assert(k == n - 1);
            }
            if ls.subrange(0, n - 1).contains(u) {
                let k = choose|k: int| 0 <= k < n - 1 && #[trigger] ls.subrange(0, n - 1)[k] == u;
                assert(ls.subrange(0, n)[k] == u);
            }
            if !seen.contains(ls[n - 1]) && !ls.subrange(0, n - 1).contains(ls[n - 1]) {
                assert(cur == prev.push(ls[n - 1]));
                if cur.contains(u) && u != ls[n - 1] {
                    let k = choose|k: int| 0 <= k < cur.len() && #[trigger] cur[k] == u;
                    assert(prev[k] == u);
                }
                if prev.contains(u) {
                    let k = choose|k: int| 0 <= k < prev.len() && #[trigger] prev[k] == u;
                    assert(cur[k] == u);
                }
                if u == ls[n - 1] {
                    assert(cur[cur.len() - 1] == u);
                    assert(ls.subrange(0, n)[n - 1] == u);
                }
            } else {
                assert(cur == prev);
                assert(ls.subrange(0, n)[n - 1] == ls[n - 1]);
            }
        }
        if !seen.contains(ls[n - 1]) && !ls.subrange(0, n - 1).contains(ls[n - 1]) {
            assert forall|a: int, b: int| 0 <= a < b < cur.len() implies cur[a] != cur[b] by {
                if b == cur.len() - 1 {
                    assert(cur[a] == prev[a]);
                    assert(prev.contains(prev[a]));
                } else {
                    assert(cur[a] == prev[a] && cur[b] == prev[b]);
                }
            }
        }
    }
}

/// The links already opened during one install run.
#[derive(Debug)]
pub struct OpenedLinks {
    links: Vec<String>,
}

impl OpenedLinks {
    /// The links opened so far.
    pub closed spec fn seen(&self) -> Set<Seq<char>> {
        self.links@.map_values(|s: String| s@).to_set()
    }

    pub fn new() -> (r: Self)
        ensures
            r.seen() == Set::<Seq<char>>::empty(),
    {
        let r = OpenedLinks { links: Vec::new() };
        assert(r.seen() =~= Set::<Seq<char>>::empty());
        r
    }

    /// Records `link`; true when it had not been opened before in this run, and must be
    /// opened now.
    pub fn first_sighting(&mut self, link: String) -> (r: bool)
        ensures
            r == !old(self).seen().contains(link@),
            final(self).seen() == old(self).seen().insert(link@),
    {
        let ghost vs = self.links@.map_values(|s: String| s@);
        let mut i: usize = 0;
        while i < self.links.len()
            invariant
                i <= self.links.len(),
                vs == self.links@.map_values(|s: String| s@),
                forall|k: int| 0 <= k < i ==> vs[k] != link@,
            decreases self.links.len() - i,
        {
            if self.links[i] == link {
                assert(vs[i as int] == link@);
                assert(self.seen().contains(link@));
                assert(self.seen() =~= self.seen().insert(link@));
                return false;
            }
            i = i + 1;
        }
        assert(!vs.contains(link@));
        let ghost l = link@;
        self.links.push(link);
        assert(self.links@.map_values(|s: String| s@) =~= vs.push(l));
        assert(vs.push(l).to_set() =~= vs.to_set().insert(l)) by {
            vs.lemma_push_to_set_commute(l);
        }
        true
    }

    /// The sign-in links of a line that have not been opened yet in this run: each link of
    /// the line that was not seen before, at its first occurrence, in order. They all count
    /// as opened afterwards.
    pub fn links_to_open(&mut self, line: &str) -> (r: Vec<String>)
        ensures
            final(self).seen() == old(self).seen().union(auth_links(line@).to_set()),
            r@.map_values(|s: String| s@) == fresh_links(old(self).seen(), auth_links(line@), auth_links(line@).len() as int),
    {
        let links = auth_links_in(line);
        let ghost ls = links@.map_values(|s: String| s@);
        let ghost start = self.seen();
        let mut r: Vec<String> = Vec::new();
        let mut i: usize = 0;
        while i < links.len()
            invariant
                i <= links.len(),
                ls == links@.map_values(|s: String| s@),
                ls == auth_links(line@),
                self.seen() == start.union(ls.subrange(0, i as int).to_set()),
                r@.map_values(|s: String| s@) == fresh_links(start, ls, i as int),
            decreases links.len() - i,
        {
            let link = links[i].clone();
            let ghost before = self.seen();
            let fresh = self.first_sighting(link.clone());
            assert(ls.subrange(0, i + 1) =~= ls.subrange(0, i as int).push(ls[i as int]));
            assert(ls.subrange(0, i + 1).to_set() =~= ls.subrange(0, i as int).to_set().insert(ls[i as int])) by {
                ls.subrange(0, i as int).lemma_push_to_set_commute(ls[i as int]);
            }
            assert(self.seen() =~= start.union(ls.subrange(0, i + 1).to_set()));
            assert(fresh == (!start.contains(ls[i as int]) && !ls.subrange(0, i as int).contains(ls[i as int])));
            let ghost rv = r@.map_values(|s: String| s@);
            if fresh {
                r.push(link);
                assert(r@.map_values(|s: String| s@) =~= rv.push(ls[i as int]));
            }
            i = i + 1;
        }
        assert(ls.subrange(0, i as int) =~= ls);
        r
    }
}

} // verus!
