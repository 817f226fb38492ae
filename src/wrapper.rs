//! Removal of wrapper tokens: in-app browsers, test harnesses and engine
//! forks whose token hides the engine that actually renders the page.
//!
//! Each rule is a small pattern over the text, matched ignoring ASCII case:
//! a literal prefix followed by a version tail. Rules are tried in a fixed
//! order; the leftmost match of the first rule that matches anywhere is cut
//! out, and no further rule is tried.

use vstd::prelude::*;
use crate::text::{
    ci_at, ci_match_at, digit_dots_end, digits_end, find_digit_dots_end, find_digits_end, is_digit,
    is_digit_byte, lit, push_range,
};

verus! {

/// The version tail that follows a rule's literal prefix.
#[derive(Clone, Copy, PartialEq, Eq, Structural)]
pub enum Tail {
    /// `[\d.]+`, greedy.
    Run,
    /// `[\d.]+\d+`: the run of digits and dots, up to its last digit, at least two bytes.
    RunToDigit,
    /// `\d+(\.\d+){n-1}`: exactly `n` dotted groups of digits.
    Dotted(u8),
    /// `(\d+\.)+\d+ `: two or more dotted groups, then a space.
    GroupsThenSpace,
    /// `[^\]]+\]`: at least one byte, up to and including the first `]`.
    Bracketed,
}

/// The wrapper rules, in the order in which they are tried.
#[derive(Clone, Copy, PartialEq, Eq, Structural)]
pub enum WrapperRule {
    /// Google search app: ` GSA/<version>`.
    GoogleApp,
    /// Instagram in-app browser: ` Instagram <version>`.
    Instagram,
    /// WebPageTest harness: ` PTST/<version>`.
    PageTest,
    /// Waterfox, a Firefox fork: ` Waterfox/<version>`.
    Waterfox,
    /// Pale Moon's engine token: ` Goanna/<version>`.
    Goanna,
    /// Pale Moon, a Firefox fork: ` PaleMoon/<version>`.
    PaleMoon,
    /// Yandex, built on Chromium: `YaBrowser/<a.b...> `.
    Yandex,
    /// Crosswalk, built on Chromium: ` Crosswalk/<a.b.c.d>`.
    Crosswalk,
    /// Chrome, Opera and Firefox on iOS, which render with the system web view:
    /// `CriOS/<a.b.c.d>`, `OPiOS/<a.b.c.d>` or `FxiOS/<a.b>`.
    IosWebView,
    /// Vivaldi, built on Chromium: ` Vivaldi/<version>`.
    Vivaldi,
    /// Facebook in-app browser: ` [FBAN/...]`, ` [FB_IAB/...]`, ` [FBIOS/...]`, ` [FB4A/...]`.
    Facebook,
    /// Electron desktop shell: ` Electron/<version>`.
    Electron,
    /// Chromium-based Edge: ` Edg/<version>`.
    ChromiumEdge,
}

/// How many wrapper rules there are.
pub const RULE_COUNT: usize = 13;

/// The rule at position `k` of the priority order.
pub open spec fn rule_of(k: int) -> WrapperRule {
    if k == 0 {
        WrapperRule::GoogleApp
    } else if k == 1 {
        WrapperRule::Instagram
    } else if k == 2 {
        WrapperRule::PageTest
    } else if k == 3 {
        WrapperRule::Waterfox
    } else if k == 4 {
        WrapperRule::Goanna
    } else if k == 5 {
        WrapperRule::PaleMoon
    } else if k == 6 {
        WrapperRule::Yandex
    } else if k == 7 {
        WrapperRule::Crosswalk
    } else if k == 8 {
        WrapperRule::IosWebView
    } else if k == 9 {
        WrapperRule::Vivaldi
    } else if k == 10 {
        WrapperRule::Facebook
    } else if k == 11 {
        WrapperRule::Electron
    } else {
        WrapperRule::ChromiumEdge
    }
}

/// The last position `e` in `(lo, end]` with a digit just before it.
pub open spec fn last_digit_end(s: Seq<u8>, lo: int, end: int) -> Option<int>
    decreases end - lo,
{
    if end <= lo || end > s.len() {
        None
    } else if is_digit(s[end - 1]) {
        Some(end)
    } else {
        last_digit_end(s, lo, end - 1)
    }
}

/// End of exactly `k` dotted groups of digits starting at `p`, the last one maximal.
pub open spec fn dotted_end(s: Seq<u8>, p: int, k: nat) -> Option<int>
    decreases k,
{
    let e = digits_end(s, p);
    if e <= p {
        None
    } else if k <= 1 {
        Some(e)
    } else if e < s.len() && s[e] == 46 {
        dotted_end(s, e + 1, (k - 1) as nat)
    } else {
        None
    }
}

/// The number of maximal dotted groups of digits from `p` (counting `g` already
/// read), and where they end.
pub open spec fn groups_from(s: Seq<u8>, p: int, g: nat) -> Option<(nat, int)>
    decreases s.len() - p,
{
    let e = digits_end(s, p);
    if e <= p || p < 0 {
        None
    } else if e + 1 < s.len() && s[e] == 46 && is_digit(s[e + 1]) {
        groups_from(s, e + 1, g + 1)
    } else {
        Some((g + 1, e))
    }
}

/// The first `]` at or after `q`.
pub open spec fn close_bracket(s: Seq<u8>, q: int) -> Option<int>
    decreases s.len() - q,
{
    if q < 0 || q >= s.len() {
        None
    } else if s[q] == 93 {
        Some(q)
    } else {
        close_bracket(s, q + 1)
    }
}

/// Where tail `t`, starting at `p`, ends.
pub open spec fn tail_end(t: Tail, s: Seq<u8>, p: int) -> Option<int> {
    match t {
        Tail::Run => {
            let e = digit_dots_end(s, p);
            if e > p {
                Some(e)
            } else {
                None
            }
        },
        Tail::RunToDigit => last_digit_end(s, p + 1, digit_dots_end(s, p)),
        Tail::Dotted(n) => dotted_end(s, p, n as nat),
        Tail::GroupsThenSpace => match groups_from(s, p, 0) {
            Some((g, e)) => if g >= 2 && e < s.len() && s[e] == 32 {
                Some(e + 1)
            } else {
                None
            },
            None => None,
        },
        Tail::Bracketed => match close_bracket(s, p) {
            Some(q) => if q > p {
                Some(q + 1)
            } else {
                None
            },
            None => None,
        },
    }
}

/// Where the literal `l` followed by tail `t` ends, when it matches at `i`.
pub open spec fn lit_then(s: Seq<u8>, i: int, l: Seq<u8>, t: Tail) -> Option<int> {
    if ci_at(s, i, l) {
        tail_end(t, s, i + l.len())
    } else {
        None
    }
}

/// Where rule `r` ends when it matches at position `i`.
pub open spec fn match_at(r: WrapperRule, s: Seq<u8>, i: int) -> Option<int> {
    match r {
        WrapperRule::GoogleApp => lit_then(s, i, lit(" gsa/"), Tail::Run),
        WrapperRule::Instagram => lit_then(s, i, lit(" instagram "), Tail::Run),
        WrapperRule::PageTest => lit_then(s, i, lit(" ptst/"), Tail::Run),
        WrapperRule::Waterfox => lit_then(s, i, lit(" waterfox/"), Tail::Run),
        WrapperRule::Goanna => lit_then(s, i, lit(" goanna/"), Tail::Run),
        WrapperRule::PaleMoon => lit_then(s, i, lit(" palemoon/"), Tail::Run),
        WrapperRule::Yandex => lit_then(s, i, lit("yabrowser/"), Tail::GroupsThenSpace),
        WrapperRule::Crosswalk => lit_then(s, i, lit(" crosswalk/"), Tail::Dotted(4)),
        WrapperRule::IosWebView => match lit_then(s, i, lit("crios/"), Tail::Dotted(4)) {
            Some(e) => Some(e),
            None => match lit_then(s, i, lit("opios/"), Tail::Dotted(4)) {
                Some(e) => Some(e),
                None => lit_then(s, i, lit("fxios/"), Tail::Dotted(2)),
            },
        },
        WrapperRule::Vivaldi => lit_then(s, i, lit(" vivaldi/"), Tail::RunToDigit),
        WrapperRule::Facebook => match lit_then(s, i, lit(" [fb_iab/"), Tail::Bracketed) {
            Some(e) => Some(e),
            None => match lit_then(s, i, lit(" [fban/"), Tail::Bracketed) {
                Some(e) => Some(e),
                None => match lit_then(s, i, lit(" [fbios/"), Tail::Bracketed) {
                    Some(e) => Some(e),
                    None => lit_then(s, i, lit(" [fb4a/"), Tail::Bracketed),
                },
            },
        },
        WrapperRule::Electron => lit_then(s, i, lit(" electron/"), Tail::RunToDigit),
        WrapperRule::ChromiumEdge => lit_then(s, i, lit(" edg/"), Tail::RunToDigit),
    }
}

/// The leftmost match of rule `r` at or after position `i`, as `(start, end)`.
pub open spec fn first_match(r: WrapperRule, s: Seq<u8>, i: int) -> Option<(int, int)>
    decreases s.len() - i,
{
    if i < 0 || i >= s.len() {
        None
    } else {
        match match_at(r, s, i) {
            Some(e) => Some((i, e)),
            None => first_match(r, s, i + 1),
        }
    }
}

/// `s` with `s[i..e]` cut out.
pub open spec fn cut(s: Seq<u8>, i: int, e: int) -> Seq<u8> {
    s.subrange(0, i) + s.subrange(e, s.len() as int)
}

/// The text left once the first rule at or after position `k` of the order
/// that matches has had its leftmost match cut out.
pub open spec fn strip_from(s: Seq<u8>, k: int) -> Seq<u8>
    decreases RULE_COUNT - k,
{
    if k < 0 || k >= RULE_COUNT {
        s
    } else {
        match first_match(rule_of(k), s, 0) {
            Some((i, e)) => cut(s, i, e),
            None => strip_from(s, k + 1),
        }
    }
}

/// The text left once wrapper tokens are stripped.
pub open spec fn strip_spec(s: Seq<u8>) -> Seq<u8> {
    strip_from(s, 0)
}

pub open spec fn opt_int(o: Option<usize>) -> Option<int> {
    match o {
        Some(e) => Some(e as int),
        None => None,
    }
}

pub open spec fn opt_pair(o: Option<(usize, usize)>) -> Option<(int, int)> {
    match o {
        Some((i, e)) => Some((i as int, e as int)),
        None => None,
    }
}

fn find_last_digit_end(s: &[u8], lo: usize, end: usize) -> (r: Option<usize>)
    requires
        end <= s@.len(),
    ensures
        opt_int(r) == last_digit_end(s@, lo as int, end as int),
        r matches Some(e) ==> lo < e <= end,
{
    let mut e: usize = end;
    while e > lo
        invariant
            e <= end <= s@.len(),
            last_digit_end(s@, lo as int, end as int) == last_digit_end(s@, lo as int, e as int),
        decreases e,
    {
        if is_digit_byte(s[e - 1]) {
            return Some(e);
        }
        e -= 1;
    }
    None
}

fn find_dotted_end(s: &[u8], p: usize, k: u8) -> (r: Option<usize>)
    requires
        p <= s@.len(),
    ensures
        opt_int(r) == dotted_end(s@, p as int, k as nat),
        r matches Some(e) ==> p < e <= s@.len(),
{
    let mut i: usize = p;
    let mut left: u8 = k;
    loop
        invariant
            p <= i <= s@.len(),
            dotted_end(s@, p as int, k as nat) == dotted_end(s@, i as int, left as nat),
        decreases left,
    {
        let e = find_digits_end(s, i);
        if e <= i {
            return None;
        } else if left <= 1 {
            return Some(e);
        } else if e < s.len() && s[e] == 46 {
            i = e + 1;
            left -= 1;
        } else {
            return None;
        }
    }
}

fn find_groups_then_space(s: &[u8], p: usize) -> (r: Option<usize>)
    requires
        p <= s@.len(),
    ensures
        opt_int(r) == tail_end(Tail::GroupsThenSpace, s@, p as int),
        r matches Some(e) ==> p < e <= s@.len(),
{
    let mut i: usize = p;
    let mut g: usize = 0;
    loop
        invariant
            p <= i <= s@.len(),
            g <= i,
            groups_from(s@, p as int, 0) == groups_from(s@, i as int, g as nat),
        decreases s@.len() - i,
    {
        let e = find_digits_end(s, i);
        if e <= i {
            return None;
        } else if e < s.len() && e + 1 < s.len() && s[e] == 46 && is_digit_byte(s[e + 1]) {
            i = e + 1;
            g += 1;
        } else {
            if g + 1 >= 2 && e < s.len() && s[e] == 32 {
                return Some(e + 1);
            }
            return None;
        }
    }
}

fn find_close_bracket(s: &[u8], q: usize) -> (r: Option<usize>)
    requires
        q <= s@.len(),
    ensures
        opt_int(r) == close_bracket(s@, q as int),
        r matches Some(e) ==> q <= e < s@.len(),
{
    let mut i: usize = q;
    while i < s.len()
        invariant
            q <= i <= s@.len(),
            close_bracket(s@, q as int) == close_bracket(s@, i as int),
        decreases s@.len() - i,
    {
        if s[i] == 93 {
            return Some(i);
        }
        i += 1;
    }
    None
}

fn tail_match(t: Tail, s: &[u8], p: usize) -> (r: Option<usize>)
    requires
        p <= s@.len(),
    ensures
        opt_int(r) == tail_end(t, s@, p as int),
        r matches Some(e) ==> p < e <= s@.len(),
{
    match t {
        Tail::Run => {
            let e = find_digit_dots_end(s, p);
            if e > p {
                Some(e)
            } else {
                None
            }
        },
        Tail::RunToDigit => {
            let e = find_digit_dots_end(s, p);
            if e <= p {
                None
            } else {
                find_last_digit_end(s, p + 1, e)
            }
        },
        Tail::Dotted(n) => find_dotted_end(s, p, n),
        Tail::GroupsThenSpace => find_groups_then_space(s, p),
        Tail::Bracketed => match find_close_bracket(s, p) {
            Some(q) => if q > p && q < s.len() {
                Some(q + 1)
            } else {
                None
            },
            None => None,
        },
    }
}

fn lit_then_match(s: &[u8], i: usize, l: &str, t: Tail) -> (r: Option<usize>)
    ensures
        opt_int(r) == lit_then(s@, i as int, lit(l), t),
        r matches Some(e) ==> i < e <= s@.len(),
{
    let n = s.len();
    if ci_match_at(s, i, l.as_bytes()) && i <= n && l.len() <= n - i {
        tail_match(t, s, i + l.len())
    } else {
        None
    }
}

/// Where rule `r` ends when it matches at position `i` of `s`.
pub fn rule_match(r: WrapperRule, s: &[u8], i: usize) -> (res: Option<usize>)
    ensures
        opt_int(res) == match_at(r, s@, i as int),
        res matches Some(e) ==> i < e <= s@.len(),
{
    match r {
        WrapperRule::GoogleApp => lit_then_match(s, i, " gsa/", Tail::Run),
        WrapperRule::Instagram => lit_then_match(s, i, " instagram ", Tail::Run),
        WrapperRule::PageTest => lit_then_match(s, i, " ptst/", Tail::Run),
        WrapperRule::Waterfox => lit_then_match(s, i, " waterfox/", Tail::Run),
        WrapperRule::Goanna => lit_then_match(s, i, " goanna/", Tail::Run),
        WrapperRule::PaleMoon => lit_then_match(s, i, " palemoon/", Tail::Run),
        WrapperRule::Yandex => lit_then_match(s, i, "yabrowser/", Tail::GroupsThenSpace),
        WrapperRule::Crosswalk => lit_then_match(s, i, " crosswalk/", Tail::Dotted(4)),
        WrapperRule::IosWebView => match lit_then_match(s, i, "crios/", Tail::Dotted(4)) {
            Some(e) => Some(e),
            None => match lit_then_match(s, i, "opios/", Tail::Dotted(4)) {
                Some(e) => Some(e),
                None => lit_then_match(s, i, "fxios/", Tail::Dotted(2)),
            },
        },
        WrapperRule::Vivaldi => lit_then_match(s, i, " vivaldi/", Tail::RunToDigit),
        WrapperRule::Facebook => match lit_then_match(s, i, " [fb_iab/", Tail::Bracketed) {
            Some(e) => Some(e),
            None => match lit_then_match(s, i, " [fban/", Tail::Bracketed) {
                Some(e) => Some(e),
                None => match lit_then_match(s, i, " [fbios/", Tail::Bracketed) {
                    Some(e) => Some(e),
                    None => lit_then_match(s, i, " [fb4a/", Tail::Bracketed),
                },
            },
        },
        WrapperRule::Electron => lit_then_match(s, i, " electron/", Tail::RunToDigit),
        WrapperRule::ChromiumEdge => lit_then_match(s, i, " edg/", Tail::RunToDigit),
    }
}

/// The leftmost match of rule `r` in `s`, as `(start, end)`.
pub fn find_rule(r: WrapperRule, s: &[u8]) -> (res: Option<(usize, usize)>)
    ensures
        opt_pair(res) == first_match(r, s@, 0),
        res matches Some((i, e)) ==> i < e <= s@.len(),
{
    let mut i: usize = 0;
    while i < s.len()
        invariant
            i <= s@.len(),
            first_match(r, s@, 0) == first_match(r, s@, i as int),
        decreases s@.len() - i,
    {
        match rule_match(r, s, i) {
            Some(e) => {
                return Some((i, e));
            },
            None => {},
        }
        i += 1;
    }
    None
}

/// The rule at position `k` of the priority order.
pub fn rule_at(k: usize) -> (r: WrapperRule)
    ensures
        r == rule_of(k as int),
{
    if k == 0 {
        WrapperRule::GoogleApp
    } else if k == 1 {
        WrapperRule::Instagram
    } else if k == 2 {
        WrapperRule::PageTest
    } else if k == 3 {
        WrapperRule::Waterfox
    } else if k == 4 {
        WrapperRule::Goanna
    } else if k == 5 {
        WrapperRule::PaleMoon
    } else if k == 6 {
        WrapperRule::Yandex
    } else if k == 7 {
        WrapperRule::Crosswalk
    } else if k == 8 {
        WrapperRule::IosWebView
    } else if k == 9 {
        WrapperRule::Vivaldi
    } else if k == 10 {
        WrapperRule::Facebook
    } else if k == 11 {
        WrapperRule::Electron
    } else {
        WrapperRule::ChromiumEdge
    }
}

/// Removes the leftmost match of the first wrapper rule that matches `ua`;
/// returns `ua` unchanged when none does.
pub fn strip(ua: &[u8]) -> (r: Vec<u8>)
    ensures
        r@ == strip_spec(ua@),
{
    let mut k: usize = 0;
    while k < RULE_COUNT
        invariant
            k <= RULE_COUNT,
            strip_from(ua@, 0) == strip_from(ua@, k as int),
        decreases RULE_COUNT - k,
    {
        match find_rule(rule_at(k), ua) {
            Some((i, e)) => {
                let mut out: Vec<u8> = Vec::new();
                push_range(&mut out, ua, 0, i);
                push_range(&mut out, ua, e, ua.len());
                return out;
            },
            None => {},
        }
        k += 1;
    }
    let mut out: Vec<u8> = Vec::new();
    push_range(&mut out, ua, 0, ua.len());
    assert(ua@.subrange(0, ua@.len() as int) =~= ua@);
    out
}

proof fn lemma_digits_end_bounds(s: Seq<u8>, p: int)
    requires
        0 <= p <= s.len(),
    ensures
        p <= digits_end(s, p) <= s.len(),
    decreases s.len() - p,
{
    if p < s.len() && is_digit(s[p]) {
        lemma_digits_end_bounds(s, p + 1);
    }
}

proof fn lemma_digit_dots_end_bounds(s: Seq<u8>, p: int)
    requires
        0 <= p <= s.len(),
    ensures
        p <= digit_dots_end(s, p) <= s.len(),
    decreases s.len() - p,
{
    if p < s.len() && crate::text::is_digit_or_dot(s[p]) {
        lemma_digit_dots_end_bounds(s, p + 1);
    }
}

proof fn lemma_last_digit_bounds(s: Seq<u8>, lo: int, end: int)
    ensures
        last_digit_end(s, lo, end) matches Some(e) ==> lo < e <= end && e <= s.len(),
    decreases end - lo,
{
    if !(end <= lo || end > s.len()) && !is_digit(s[end - 1]) {
        lemma_last_digit_bounds(s, lo, end - 1);
    }
}

proof fn lemma_dotted_bounds(s: Seq<u8>, p: int, k: nat)
    requires
        0 <= p <= s.len(),
    ensures
        dotted_end(s, p, k) matches Some(e) ==> p < e <= s.len(),
    decreases k,
{
    lemma_digits_end_bounds(s, p);
    let e = digits_end(s, p);
    if e > p && k > 1 && e < s.len() && s[e] == 46 {
        lemma_dotted_bounds(s, e + 1, (k - 1) as nat);
    }
}

proof fn lemma_groups_bounds(s: Seq<u8>, p: int, g: nat)
    requires
        0 <= p <= s.len(),
    ensures
        groups_from(s, p, g) matches Some((_, e)) ==> p < e <= s.len(),
    decreases s.len() - p,
{
    lemma_digits_end_bounds(s, p);
    let e = digits_end(s, p);
    if e > p && e + 1 < s.len() && s[e] == 46 && is_digit(s[e + 1]) {
        lemma_groups_bounds(s, e + 1, g + 1);
    }
}

proof fn lemma_close_bounds(s: Seq<u8>, q: int)
    ensures
        close_bracket(s, q) matches Some(x) ==> q <= x < s.len(),
    decreases s.len() - q,
{
    if 0 <= q < s.len() && s[q] != 93 {
        lemma_close_bounds(s, q + 1);
    }
}

proof fn lemma_tail_bounds(t: Tail, s: Seq<u8>, p: int)
    requires
        0 <= p <= s.len(),
    ensures
        tail_end(t, s, p) matches Some(e) ==> p < e <= s.len(),
{
    lemma_digit_dots_end_bounds(s, p);
    match t {
        Tail::RunToDigit => lemma_last_digit_bounds(s, p + 1, digit_dots_end(s, p)),
        Tail::Dotted(n) => lemma_dotted_bounds(s, p, n as nat),
        Tail::GroupsThenSpace => lemma_groups_bounds(s, p, 0),
        Tail::Bracketed => lemma_close_bounds(s, p),
        Tail::Run => {},
    }
}

proof fn lemma_lit_then_bounds(s: Seq<u8>, i: int, l: Seq<u8>, t: Tail)
    ensures
        lit_then(s, i, l, t) matches Some(e) ==> i < e <= s.len(),
{
    if ci_at(s, i, l) {
        lemma_tail_bounds(t, s, i + l.len());
    }
}

/// A match of a rule is a non-empty stretch of the text.
pub proof fn lemma_match_bounds(r: WrapperRule, s: Seq<u8>, i: int)
    ensures
        match_at(r, s, i) matches Some(e) ==> 0 <= i < e <= s.len(),
{
    match r {
        WrapperRule::GoogleApp => lemma_lit_then_bounds(s, i, lit(" gsa/"), Tail::Run),
        WrapperRule::Instagram => lemma_lit_then_bounds(s, i, lit(" instagram "), Tail::Run),
        WrapperRule::PageTest => lemma_lit_then_bounds(s, i, lit(" ptst/"), Tail::Run),
        WrapperRule::Waterfox => lemma_lit_then_bounds(s, i, lit(" waterfox/"), Tail::Run),
        WrapperRule::Goanna => lemma_lit_then_bounds(s, i, lit(" goanna/"), Tail::Run),
        WrapperRule::PaleMoon => lemma_lit_then_bounds(s, i, lit(" palemoon/"), Tail::Run),
        WrapperRule::Yandex => lemma_lit_then_bounds(s, i, lit("yabrowser/"), Tail::GroupsThenSpace),
        WrapperRule::Crosswalk => lemma_lit_then_bounds(s, i, lit(" crosswalk/"), Tail::Dotted(4)),
        WrapperRule::IosWebView => {
            lemma_lit_then_bounds(s, i, lit("crios/"), Tail::Dotted(4));
            lemma_lit_then_bounds(s, i, lit("opios/"), Tail::Dotted(4));
            lemma_lit_then_bounds(s, i, lit("fxios/"), Tail::Dotted(2));
        },
        WrapperRule::Vivaldi => lemma_lit_then_bounds(s, i, lit(" vivaldi/"), Tail::RunToDigit),
        WrapperRule::Facebook => {
            lemma_lit_then_bounds(s, i, lit(" [fb_iab/"), Tail::Bracketed);
            lemma_lit_then_bounds(s, i, lit(" [fban/"), Tail::Bracketed);
            lemma_lit_then_bounds(s, i, lit(" [fbios/"), Tail::Bracketed);
            lemma_lit_then_bounds(s, i, lit(" [fb4a/"), Tail::Bracketed);
        },
        WrapperRule::Electron => lemma_lit_then_bounds(s, i, lit(" electron/"), Tail::RunToDigit),
        WrapperRule::ChromiumEdge => lemma_lit_then_bounds(s, i, lit(" edg/"), Tail::RunToDigit),
    }
}

proof fn lemma_first_match_bounds(r: WrapperRule, s: Seq<u8>, i: int)
    ensures
        first_match(r, s, i) matches Some((a, e)) ==> i <= a < e <= s.len(),
    decreases s.len() - i,
{
    if 0 <= i < s.len() {
        lemma_match_bounds(r, s, i);
        if match_at(r, s, i) is None {
            lemma_first_match_bounds(r, s, i + 1);
        }
    }
}

proof fn lemma_strip_from_shrinks(s: Seq<u8>, k: int)
    ensures
        strip_from(s, k) == s || strip_from(s, k).len() < s.len(),
    decreases RULE_COUNT - k,
{
    if 0 <= k < RULE_COUNT {
        lemma_first_match_bounds(rule_of(k), s, 0);
        if first_match(rule_of(k), s, 0) is None {
            lemma_strip_from_shrinks(s, k + 1);
        }
    }
}

/// Stripping cannot go on for ever: it either leaves the text as it is, which
/// happens exactly when no rule matches anywhere, or makes it strictly shorter,
/// so stripping again and again reaches a text that no rule matches.
pub proof fn law_strip_terminates(s: Seq<u8>)
    ensures
        strip_spec(s) == s || strip_spec(s).len() < s.len(),
        (forall|k: int| 0 <= k < RULE_COUNT ==> first_match(#[trigger] rule_of(k), s, 0) is None)
            ==> strip_spec(s) == s,
{
    lemma_strip_from_shrinks(s, 0);
    if forall|k: int| 0 <= k < RULE_COUNT ==> first_match(#[trigger] rule_of(k), s, 0) is None {
        lemma_strip_unmatched(s, 0);
    }
}

proof fn lemma_strip_unmatched(s: Seq<u8>, k: int)
    requires
        forall|j: int| 0 <= j < RULE_COUNT ==> first_match(#[trigger] rule_of(j), s, 0) is None,
    ensures
        strip_from(s, k) == s,
    decreases RULE_COUNT - k,
{
    if 0 <= k < RULE_COUNT {
        assert(first_match(rule_of(k), s, 0) is None);
        lemma_strip_unmatched(s, k + 1);
    }
}
} // verus!
