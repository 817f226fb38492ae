//! Laws of the pipeline, stated over the spec functions and proved.

use vstd::prelude::*;
use crate::family::{alias_of, canonical_spec, code, family_of, renamed, Family};
use crate::support::{gate_spec, min_major, sentinel, supported, NormalizedUa};
use crate::pipeline::{resolve_spec, NormalizeError};
use crate::shortcut::direct_spec;
use crate::support::render_spec;
use crate::text::{digits_end, is_digit, is_word, lit, lower, lower_seq, word_end};
use crate::version::{decimal, digits_value, is_numeric, version_value};

verus! {

/// The bytes of each family code, spelled out.
pub open spec fn code_bytes(f: Family) -> Seq<u8> {
    match f {
        Family::Edge => seq![101u8, 100, 103, 101],
        Family::EdgeMob => seq![101u8, 100, 103, 101, 95, 109, 111, 98],
        Family::Ie => seq![105u8, 101],
        Family::IeMob => seq![105u8, 101, 95, 109, 111, 98],
        Family::Chrome => seq![99u8, 104, 114, 111, 109, 101],
        Family::Safari => seq![115u8, 97, 102, 97, 114, 105],
        Family::IosSaf => seq![105u8, 111, 115, 95, 115, 97, 102],
        Family::IosChr => seq![105u8, 111, 115, 95, 99, 104, 114],
        Family::Firefox => seq![102u8, 105, 114, 101, 102, 111, 120],
        Family::FirefoxMob => seq![102u8, 105, 114, 101, 102, 111, 120, 95, 109, 111, 98],
        Family::Android => seq![97u8, 110, 100, 114, 111, 105, 100],
        Family::Opera => seq![111u8, 112, 101, 114, 97],
        Family::OpMob => seq![111u8, 112, 95, 109, 111, 98],
        Family::OpMini => seq![111u8, 112, 95, 109, 105, 110, 105],
        Family::Bb => seq![98u8, 98],
        Family::SamsungMob => seq![115u8, 97, 109, 115, 117, 110, 103, 95, 109, 111, 98],
        Family::Other => seq![111u8, 116, 104, 101, 114],
    }
}

/// Each family code is the byte sequence that [`code_bytes`] spells out.
pub proof fn lemma_code_bytes(f: Family)
    ensures
        code(f) == code_bytes(f),
{
    broadcast use vstd::string::is_ascii_spec_bytes;

    reveal_strlit("edge");
    reveal_strlit("edge_mob");
    reveal_strlit("ie");
    reveal_strlit("ie_mob");
    reveal_strlit("chrome");
    reveal_strlit("safari");
    reveal_strlit("ios_saf");
    reveal_strlit("ios_chr");
    reveal_strlit("firefox");
    reveal_strlit("firefox_mob");
    reveal_strlit("android");
    reveal_strlit("opera");
    reveal_strlit("op_mob");
    reveal_strlit("op_mini");
    reveal_strlit("bb");
    reveal_strlit("samsung_mob");
    reveal_strlit("other");
    match f {
        Family::Edge => {
            assert(vstd::string::is_ascii("edge"));
            assert(code(f) =~= code_bytes(f));
        },
        Family::EdgeMob => {
            assert(vstd::string::is_ascii("edge_mob"));
            assert(code(f) =~= code_bytes(f));
        },
        Family::Ie => {
            assert(vstd::string::is_ascii("ie"));
            assert(code(f) =~= code_bytes(f));
        },
        Family::IeMob => {
            assert(vstd::string::is_ascii("ie_mob"));
            assert(code(f) =~= code_bytes(f));
        },
        Family::Chrome => {
            assert(vstd::string::is_ascii("chrome"));
            assert(code(f) =~= code_bytes(f));
        },
        Family::Safari => {
            assert(vstd::string::is_ascii("safari"));
            assert(code(f) =~= code_bytes(f));
        },
        Family::IosSaf => {
            assert(vstd::string::is_ascii("ios_saf"));
            assert(code(f) =~= code_bytes(f));
        },
        Family::IosChr => {
            assert(vstd::string::is_ascii("ios_chr"));
            assert(code(f) =~= code_bytes(f));
        },
        Family::Firefox => {
            assert(vstd::string::is_ascii("firefox"));
            assert(code(f) =~= code_bytes(f));
        },
        Family::FirefoxMob => {
            assert(vstd::string::is_ascii("firefox_mob"));
            assert(code(f) =~= code_bytes(f));
        },
        Family::Android => {
            assert(vstd::string::is_ascii("android"));
            assert(code(f) =~= code_bytes(f));
        },
        Family::Opera => {
            assert(vstd::string::is_ascii("opera"));
            assert(code(f) =~= code_bytes(f));
        },
        Family::OpMob => {
            assert(vstd::string::is_ascii("op_mob"));
            assert(code(f) =~= code_bytes(f));
        },
        Family::OpMini => {
            assert(vstd::string::is_ascii("op_mini"));
            assert(code(f) =~= code_bytes(f));
        },
        Family::Bb => {
            assert(vstd::string::is_ascii("bb"));
            assert(code(f) =~= code_bytes(f));
        },
        Family::SamsungMob => {
            assert(vstd::string::is_ascii("samsung_mob"));
            assert(code(f) =~= code_bytes(f));
        },
        Family::Other => {
            assert(vstd::string::is_ascii("other"));
            assert(code(f) =~= code_bytes(f));
        },
    }
}

/// Distinct families have distinct codes.
pub proof fn lemma_codes_differ(f: Family, g: Family)
    requires
        f != g,
    ensures
        code(f) != code(g),
{
    lemma_code_bytes(f);
    lemma_code_bytes(g);
    let a = code_bytes(f);
    let b = code_bytes(g);
    assert(a.len() != b.len() || a[0] != b[0] || a[1] != b[1] || a[4] != b[4]);
}

/// Each family's code names that family.
pub proof fn lemma_family_of_code(f: Family)
    requires
        f != Family::Other,
    ensures
        family_of(code(f)) == f,
{
    assert forall|g: Family| g != f implies code(f) != #[trigger] code(g) by {
        lemma_codes_differ(f, g);
    }
}

/// Length and first two bytes of an ASCII literal.
proof fn lemma_lit_head(k: &str, n: nat, b0: u8, b1: u8)
    requires
        vstd::string::is_ascii(k),
        k@.len() == n,
        n >= 2,
        k@[0] as u8 == b0,
        k@[1] as u8 == b1,
    ensures
        lit(k).len() == n,
        lit(k)[0] == b0,
        lit(k)[1] == b1,
{
    broadcast use vstd::string::is_ascii_spec_bytes;
}

/// Length and first two bytes of each key of the alias and remap tables.
proof fn lemma_table_keys()
    ensures
        lit("blackberry").len() == 10 && lit("blackberry")[0] == 98 && lit("blackberry")[1] == 108,
        lit("webkit").len() == 6 && lit("webkit")[0] == 119 && lit("webkit")[1] == 101,
        lit("pale moon").len() == 9 && lit("pale moon")[0] == 112 && lit("pale moon")[1] == 97,
        lit("(firefox variant)").len() == 17 && lit("(firefox variant)")[0] == 40 && lit("(firefox variant)")[1] == 102,
        lit("firefox mobile").len() == 14 && lit("firefox mobile")[0] == 102 && lit("firefox mobile")[1] == 105,
        lit("namoroka").len() == 8 && lit("namoroka")[0] == 110 && lit("namoroka")[1] == 97,
        lit("shiretoko").len() == 9 && lit("shiretoko")[0] == 115 && lit("shiretoko")[1] == 104,
        lit("minefield").len() == 9 && lit("minefield")[0] == 109 && lit("minefield")[1] == 105,
        lit("alpha").len() == 5 && lit("alpha")[0] == 97 && lit("alpha")[1] == 108,
        lit("beta").len() == 4 && lit("beta")[0] == 98 && lit("beta")[1] == 101,
        lit("microb").len() == 6 && lit("microb")[0] == 109 && lit("microb")[1] == 105,
        lit("mozilladeveloperpreview").len() == 23 && lit("mozilladeveloperpreview")[0] == 109 && lit("mozilladeveloperpreview")[1] == 111,
        lit("iceweasel").len() == 9 && lit("iceweasel")[0] == 105 && lit("iceweasel")[1] == 99,
        lit("opera tablet").len() == 12 && lit("opera tablet")[0] == 111 && lit("opera tablet")[1] == 112,
        lit("opera mobile").len() == 12 && lit("opera mobile")[0] == 111 && lit("opera mobile")[1] == 112,
        lit("opera mini").len() == 10 && lit("opera mini")[0] == 111 && lit("opera mini")[1] == 112,
        lit("chrome mobile webview").len() == 21 && lit("chrome mobile webview")[0] == 99 && lit("chrome mobile webview")[1] == 104,
        lit("chrome mobile").len() == 13 && lit("chrome mobile")[0] == 99 && lit("chrome mobile")[1] == 104,
        lit("chrome frame").len() == 12 && lit("chrome frame")[0] == 99 && lit("chrome frame")[1] == 104,
        lit("chromium").len() == 8 && lit("chromium")[0] == 99 && lit("chromium")[1] == 104,
        lit("headlesschrome").len() == 14 && lit("headlesschrome")[0] == 104 && lit("headlesschrome")[1] == 101,
        lit("ie mobile").len() == 9 && lit("ie mobile")[0] == 105 && lit("ie mobile")[1] == 101,
        lit("ie large screen").len() == 15 && lit("ie large screen")[0] == 105 && lit("ie large screen")[1] == 101,
        lit("internet explorer").len() == 17 && lit("internet explorer")[0] == 105 && lit("internet explorer")[1] == 110,
        lit("edge mobile").len() == 11 && lit("edge mobile")[0] == 101 && lit("edge mobile")[1] == 100,
        lit("chrome mobile ios").len() == 17 && lit("chrome mobile ios")[0] == 99 && lit("chrome mobile ios")[1] == 104,
        lit("mobile safari").len() == 13 && lit("mobile safari")[0] == 109 && lit("mobile safari")[1] == 111,
        lit("iphone").len() == 6 && lit("iphone")[0] == 105 && lit("iphone")[1] == 112,
        lit("iphone simulator").len() == 16 && lit("iphone simulator")[0] == 105 && lit("iphone simulator")[1] == 112,
        lit("mobile safari uiwebview").len() == 23 && lit("mobile safari uiwebview")[0] == 109 && lit("mobile safari uiwebview")[1] == 111,
        lit("mobile safari ui/wkwebview").len() == 26 && lit("mobile safari ui/wkwebview")[0] == 109 && lit("mobile safari ui/wkwebview")[1] == 111,
        lit("samsung internet").len() == 16 && lit("samsung internet")[0] == 115 && lit("samsung internet")[1] == 97,
        lit("uc browser").len() == 10 && lit("uc browser")[0] == 117 && lit("uc browser")[1] == 99,
        lit("phantomjs").len() == 9 && lit("phantomjs")[0] == 112 && lit("phantomjs")[1] == 104,
        lit("googlebot").len() == 9 && lit("googlebot")[0] == 103 && lit("googlebot")[1] == 111,
{
    reveal_strlit("blackberry");
    lemma_lit_head("blackberry", 10, 98, 108);
    reveal_strlit("webkit");
    lemma_lit_head("webkit", 6, 119, 101);
    reveal_strlit("pale moon");
    lemma_lit_head("pale moon", 9, 112, 97);
    reveal_strlit("(firefox variant)");
    lemma_lit_head("(firefox variant)", 17, 40, 102);
    reveal_strlit("firefox mobile");
    lemma_lit_head("firefox mobile", 14, 102, 105);
    reveal_strlit("namoroka");
    lemma_lit_head("namoroka", 8, 110, 97);
    reveal_strlit("shiretoko");
    lemma_lit_head("shiretoko", 9, 115, 104);
    reveal_strlit("minefield");
    lemma_lit_head("minefield", 9, 109, 105);
    reveal_strlit("alpha");
    lemma_lit_head("alpha", 5, 97, 108);
    reveal_strlit("beta");
    lemma_lit_head("beta", 4, 98, 101);
    reveal_strlit("microb");
    lemma_lit_head("microb", 6, 109, 105);
    reveal_strlit("mozilladeveloperpreview");
    lemma_lit_head("mozilladeveloperpreview", 23, 109, 111);
    reveal_strlit("iceweasel");
    lemma_lit_head("iceweasel", 9, 105, 99);
    reveal_strlit("opera tablet");
    lemma_lit_head("opera tablet", 12, 111, 112);
    reveal_strlit("opera mobile");
    lemma_lit_head("opera mobile", 12, 111, 112);
    reveal_strlit("opera mini");
    lemma_lit_head("opera mini", 10, 111, 112);
    reveal_strlit("chrome mobile webview");
    lemma_lit_head("chrome mobile webview", 21, 99, 104);
    reveal_strlit("chrome mobile");
    lemma_lit_head("chrome mobile", 13, 99, 104);
    reveal_strlit("chrome frame");
    lemma_lit_head("chrome frame", 12, 99, 104);
    reveal_strlit("chromium");
    lemma_lit_head("chromium", 8, 99, 104);
    reveal_strlit("headlesschrome");
    lemma_lit_head("headlesschrome", 14, 104, 101);
    reveal_strlit("ie mobile");
    lemma_lit_head("ie mobile", 9, 105, 101);
    reveal_strlit("ie large screen");
    lemma_lit_head("ie large screen", 15, 105, 101);
    reveal_strlit("internet explorer");
    lemma_lit_head("internet explorer", 17, 105, 110);
    reveal_strlit("edge mobile");
    lemma_lit_head("edge mobile", 11, 101, 100);
    reveal_strlit("chrome mobile ios");
    lemma_lit_head("chrome mobile ios", 17, 99, 104);
    reveal_strlit("mobile safari");
    lemma_lit_head("mobile safari", 13, 109, 111);
    reveal_strlit("iphone");
    lemma_lit_head("iphone", 6, 105, 112);
    reveal_strlit("iphone simulator");
    lemma_lit_head("iphone simulator", 16, 105, 112);
    reveal_strlit("mobile safari uiwebview");
    lemma_lit_head("mobile safari uiwebview", 23, 109, 111);
    reveal_strlit("mobile safari ui/wkwebview");
    lemma_lit_head("mobile safari ui/wkwebview", 26, 109, 111);
    reveal_strlit("samsung internet");
    lemma_lit_head("samsung internet", 16, 115, 97);
    reveal_strlit("uc browser");
    lemma_lit_head("uc browser", 10, 117, 99);
    reveal_strlit("phantomjs");
    lemma_lit_head("phantomjs", 9, 112, 104);
    reveal_strlit("googlebot");
    lemma_lit_head("googlebot", 9, 103, 111);
}

/// A byte sequence whose length and first two bytes differ from those of
/// every key of the alias and remap tables is none of them.
proof fn lemma_not_a_key(c: Seq<u8>)
    requires
        c.len() >= 2,
        lower(c[0]) == c[0],
        c.len() == 2 || c.len() == 4 || c.len() == 5 || c.len() == 6 || c.len() == 7 || c.len() == 8 || c.len() == 11,
        c.len() == 4 ==> c[0] == 101,
        c.len() == 5 ==> c[0] == 111,
        c.len() == 6 ==> c[0] != 109 && (c[0] != 105 || c[1] != 112),
        c.len() == 8 ==> c[0] == 101,
        c.len() == 11 ==> c[0] != 101 && c[0] != 98,
    ensures
        alias_of(c) is None,
        c != lit("uc browser"),
        c != lit("phantomjs"),
        c != lit("googlebot"),
{
    reveal(alias_of);
    lemma_table_keys();
    if c.len() >= 10 {
        assert(lower_seq(c.subrange(0, 10))[0] == c[0]);
    }
    if c.len() >= 9 {
        assert(lower_seq(c.subrange(0, 9))[0] == c[0]);
    }
}

/// No family code is a key of the alias table or of the remap table.
#[verifier::rlimit(100)]
pub proof fn lemma_code_not_aliased(f: Family)
    ensures
        alias_of(code(f)) is None,
        code(f) != lit("uc browser"),
        code(f) != lit("phantomjs"),
        code(f) != lit("googlebot"),
{
    lemma_code_bytes(f);
    match f {
        Family::Edge => {
            let c = code_bytes(Family::Edge);
            lemma_not_a_key(c);
        },
        Family::EdgeMob => {
            let c = code_bytes(Family::EdgeMob);
            lemma_not_a_key(c);
        },
        Family::Ie => {
            let c = code_bytes(Family::Ie);
            lemma_not_a_key(c);
        },
        Family::IeMob => {
            let c = code_bytes(Family::IeMob);
            lemma_not_a_key(c);
        },
        Family::Chrome => {
            let c = code_bytes(Family::Chrome);
            lemma_not_a_key(c);
        },
        Family::Safari => {
            let c = code_bytes(Family::Safari);
            lemma_not_a_key(c);
        },
        Family::IosSaf => {
            let c = code_bytes(Family::IosSaf);
            lemma_not_a_key(c);
        },
        Family::IosChr => {
            let c = code_bytes(Family::IosChr);
            lemma_not_a_key(c);
        },
        Family::Firefox => {
            let c = code_bytes(Family::Firefox);
            lemma_not_a_key(c);
        },
        Family::FirefoxMob => {
            let c = code_bytes(Family::FirefoxMob);
            lemma_not_a_key(c);
        },
        Family::Android => {
            let c = code_bytes(Family::Android);
            lemma_not_a_key(c);
        },
        Family::Opera => {
            let c = code_bytes(Family::Opera);
            lemma_not_a_key(c);
        },
        Family::OpMob => {
            let c = code_bytes(Family::OpMob);
            lemma_not_a_key(c);
        },
        Family::OpMini => {
            let c = code_bytes(Family::OpMini);
            lemma_not_a_key(c);
        },
        Family::Bb => {
            let c = code_bytes(Family::Bb);
            lemma_not_a_key(c);
        },
        Family::SamsungMob => {
            let c = code_bytes(Family::SamsungMob);
            lemma_not_a_key(c);
        },
        Family::Other => {
            let c = code_bytes(Family::Other);
            lemma_not_a_key(c);
        },
    }
}

/// Family codes are lower-case words.
proof fn lemma_code_word(f: Family)
    ensures
        code(f).len() >= 2,
        forall|i: int| 0 <= i < code(f).len() ==> is_word(#[trigger] code(f)[i]) && lower(code(f)[i]) == code(f)[i],
{
    lemma_code_bytes(f);
    match f {
        Family::Edge => {
            let c = code_bytes(Family::Edge);
            assert forall|i: int| 0 <= i < c.len() implies is_word(#[trigger] c[i]) && lower(c[i]) == c[i] by {}
        },
        Family::EdgeMob => {
            let c = code_bytes(Family::EdgeMob);
            assert forall|i: int| 0 <= i < c.len() implies is_word(#[trigger] c[i]) && lower(c[i]) == c[i] by {}
        },
        Family::Ie => {
            let c = code_bytes(Family::Ie);
            assert forall|i: int| 0 <= i < c.len() implies is_word(#[trigger] c[i]) && lower(c[i]) == c[i] by {}
        },
        Family::IeMob => {
            let c = code_bytes(Family::IeMob);
            assert forall|i: int| 0 <= i < c.len() implies is_word(#[trigger] c[i]) && lower(c[i]) == c[i] by {}
        },
        Family::Chrome => {
            let c = code_bytes(Family::Chrome);
            assert forall|i: int| 0 <= i < c.len() implies is_word(#[trigger] c[i]) && lower(c[i]) == c[i] by {}
        },
        Family::Safari => {
            let c = code_bytes(Family::Safari);
            assert forall|i: int| 0 <= i < c.len() implies is_word(#[trigger] c[i]) && lower(c[i]) == c[i] by {}
        },
        Family::IosSaf => {
            let c = code_bytes(Family::IosSaf);
            assert forall|i: int| 0 <= i < c.len() implies is_word(#[trigger] c[i]) && lower(c[i]) == c[i] by {}
        },
        Family::IosChr => {
            let c = code_bytes(Family::IosChr);
            assert forall|i: int| 0 <= i < c.len() implies is_word(#[trigger] c[i]) && lower(c[i]) == c[i] by {}
        },
        Family::Firefox => {
            let c = code_bytes(Family::Firefox);
            assert forall|i: int| 0 <= i < c.len() implies is_word(#[trigger] c[i]) && lower(c[i]) == c[i] by {}
        },
        Family::FirefoxMob => {
            let c = code_bytes(Family::FirefoxMob);
            assert forall|i: int| 0 <= i < c.len() implies is_word(#[trigger] c[i]) && lower(c[i]) == c[i] by {}
        },
        Family::Android => {
            let c = code_bytes(Family::Android);
            assert forall|i: int| 0 <= i < c.len() implies is_word(#[trigger] c[i]) && lower(c[i]) == c[i] by {}
        },
        Family::Opera => {
            let c = code_bytes(Family::Opera);
            assert forall|i: int| 0 <= i < c.len() implies is_word(#[trigger] c[i]) && lower(c[i]) == c[i] by {}
        },
        Family::OpMob => {
            let c = code_bytes(Family::OpMob);
            assert forall|i: int| 0 <= i < c.len() implies is_word(#[trigger] c[i]) && lower(c[i]) == c[i] by {}
        },
        Family::OpMini => {
            let c = code_bytes(Family::OpMini);
            assert forall|i: int| 0 <= i < c.len() implies is_word(#[trigger] c[i]) && lower(c[i]) == c[i] by {}
        },
        Family::Bb => {
            let c = code_bytes(Family::Bb);
            assert forall|i: int| 0 <= i < c.len() implies is_word(#[trigger] c[i]) && lower(c[i]) == c[i] by {}
        },
        Family::SamsungMob => {
            let c = code_bytes(Family::SamsungMob);
            assert forall|i: int| 0 <= i < c.len() implies is_word(#[trigger] c[i]) && lower(c[i]) == c[i] by {}
        },
        Family::Other => {
            let c = code_bytes(Family::Other);
            assert forall|i: int| 0 <= i < c.len() implies is_word(#[trigger] c[i]) && lower(c[i]) == c[i] by {}
        },
    }
}

/// The support gate: for a family of the support table, a version below its
/// threshold collapses to `other/0.0.0`, and one at or above it passes through
/// unchanged, with patch 0. For the families gated on the major version alone
/// the threshold is [`min_major`].
pub proof fn law_gate_threshold(f: Family, major: u32, minor: u32)
    requires
        f != Family::Other,
    ensures
        supported(f, major, minor) ==> gate_spec(code(f), major, minor) == (NormalizedUa {
            family: f,
            major,
            minor,
            patch: 0,
        }),
        !supported(f, major, minor) ==> gate_spec(code(f), major, minor) == sentinel(),
        min_major(f) matches Some(m) ==> (supported(f, major, minor) <==> major >= m),
{
    lemma_family_of_code(f);
}

/// The Opera remap: an Opera major version from 20 to 47 (family name in any
/// case) becomes Chrome with major version 13 higher and minor 0, which the
/// gate then keeps.
pub proof fn law_opera_remap(raw: Seq<u8>, major: u32, minor: u32)
    requires
        lower_seq(raw) == code(Family::Opera),
        20 <= major <= 47,
    ensures
        canonical_spec(raw, major, minor) == (code(Family::Chrome), (major + 13) as u32, 0u32),
        gate_spec(code(Family::Chrome), (major + 13) as u32, 0) == (NormalizedUa {
            family: Family::Chrome,
            major: (major + 13) as u32,
            minor: 0,
            patch: 0,
        }),
{
    lemma_code_not_aliased(Family::Opera);
    lemma_family_of_code(Family::Chrome);
}

/// The digits of a number read back as that number.
pub proof fn lemma_decimal(n: nat)
    ensures
        is_numeric(decimal(n)),
        digits_value(decimal(n)) == n,
    decreases n,
{
    if n >= 10 {
        lemma_decimal(n / 10);
        let d = decimal(n);
        assert(d.drop_last() =~= decimal(n / 10));
        assert(d.last() == (n % 10 + 48) as u8);
        assert(n == (n / 10) * 10 + n % 10) by (nonlinear_arith);
        assert forall|i: int| 0 <= i < d.len() implies is_digit(#[trigger] d[i]) by {
            if i < d.len() - 1 {
                assert(d[i] == decimal(n / 10)[i]);
            }
        }
    } else {
        assert(decimal(n).drop_last() =~= Seq::<u8>::empty());
        assert(digits_value(Seq::<u8>::empty()) == 0);
    }
}

proof fn lemma_digits_run(s: Seq<u8>, p: int, q: int)
    requires
        0 <= p <= q <= s.len(),
        forall|i: int| p <= i < q ==> is_digit(#[trigger] s[i]),
        q == s.len() || !is_digit(s[q]),
    ensures
        digits_end(s, p) == q,
    decreases q - p,
{
    if p < q {
        lemma_digits_run(s, p + 1, q);
    }
}

proof fn lemma_word_run(s: Seq<u8>, p: int, q: int)
    requires
        0 <= p <= q <= s.len(),
        forall|i: int| p <= i < q ==> is_word(#[trigger] s[i]),
        q == s.len() || !is_word(s[q]),
    ensures
        word_end(s, p) == q,
    decreases q - p,
{
    if p < q {
        lemma_word_run(s, p + 1, q);
    }
}

/// Round trip: the text form of a normalised user agent other than the
/// sentinel, read back by the shortcut parser and normalised again, gives
/// the same tuple. Opera at majors 20 to 47 is left out: the Opera remap
/// moves it to Chrome on the second pass.
pub proof fn law_round_trip(n: NormalizedUa)
    requires
        n.family != Family::Other,
        supported(n.family, n.major, n.minor),
        n.patch == 0,
        !(n.family == Family::Opera && 20 <= n.major <= 47),
    ensures
        direct_spec(render_spec(n)) == Some(
            (code(n.family), Some(decimal(n.major as nat)), Some(decimal(n.minor as nat))),
        ),
        resolve_spec(code(n.family), Some(decimal(n.major as nat)), Some(decimal(n.minor as nat)))
            == Ok::<NormalizedUa, NormalizeError>(n),
{
    let f = n.family;
    let c = code(f);
    let d1 = decimal(n.major as nat);
    let d2 = decimal(n.minor as nat);
    let d3 = decimal(n.patch as nat);
    let s = render_spec(n);
    lemma_code_word(f);
    lemma_decimal(n.major as nat);
    lemma_decimal(n.minor as nat);
    lemma_decimal(n.patch as nat);
    let cl = c.len() as int;
    let l1 = d1.len() as int;
    let l2 = d2.len() as int;
    let l3 = d3.len() as int;
    assert(s =~= c + seq![47u8] + d1 + seq![46u8] + d2 + seq![46u8] + d3);
    assert(s.len() == cl + l1 + l2 + l3 + 3);
    assert forall|i: int| 0 <= i < cl implies is_word(#[trigger] s[i]) by {
        assert(s[i] == c[i]);
    }
    assert(s[cl] == 47);
    lemma_word_run(s, 0, cl);
    assert forall|i: int| cl + 1 <= i < cl + 1 + l1 implies is_digit(#[trigger] s[i]) by {
        assert(s[i] == d1[i - cl - 1]);
    }
    assert(s[cl + 1 + l1] == 46);
    lemma_digits_run(s, cl + 1, cl + 1 + l1);
    assert forall|i: int| cl + 2 + l1 <= i < cl + 2 + l1 + l2 implies is_digit(#[trigger] s[i]) by {
        assert(s[i] == d2[i - cl - 2 - l1]);
    }
    assert(s[cl + 2 + l1 + l2] == 46);
    lemma_digits_run(s, cl + 2 + l1, cl + 2 + l1 + l2);
    assert forall|i: int| cl + 3 + l1 + l2 <= i < s.len() implies is_digit(#[trigger] s[i]) by {
        assert(s[i] == d3[i - cl - 3 - l1 - l2]);
    }
    lemma_digits_run(s, cl + 3 + l1 + l2, s.len() as int);
    assert(lower_seq(s.subrange(0, cl)) =~= c);
    assert(s.subrange(cl + 1, cl + 1 + l1) =~= d1);
    assert(s.subrange(cl + 2 + l1, cl + 2 + l1 + l2) =~= d2);
    assert(lower_seq(c) =~= c);
    lemma_code_not_aliased(f);
    lemma_family_of_code(f);
    assert(version_value(d1) == Some(n.major));
    assert(version_value(d2) == Some(n.minor));
    assert(renamed(c) == c);
    if f != Family::Opera {
        lemma_codes_differ(f, Family::Opera);
    }
    assert(canonical_spec(c, n.major, n.minor) == (c, n.major, n.minor));
    assert(gate_spec(c, n.major, n.minor) == n);
}

} // verus!
