use ua_normalizer::family::Family;
use ua_normalizer::pipeline::{from_parsed, normalize_with, plan, NormalizeError, Plan};
use ua_normalizer::route::{route, Route};
use ua_normalizer::shortcut::{try_direct, RawAgent};
use ua_normalizer::support::NormalizedUa;

fn agent(family: &str, major: Option<&str>, minor: Option<&str>) -> RawAgent {
    RawAgent {
        family: family.as_bytes().to_vec(),
        major: major.map(|m| m.as_bytes().to_vec()),
        minor: minor.map(|m| m.as_bytes().to_vec()),
    }
}

fn ua(family: Family, major: u32, minor: u32) -> NormalizedUa {
    NormalizedUa { family, major, minor, patch: 0 }
}

fn text(n: &NormalizedUa) -> String {
    String::from_utf8(n.render()).unwrap()
}

fn resolved(s: &str) -> Result<NormalizedUa, NormalizeError> {
    match plan(s.as_bytes()) {
        Plan::Resolved(r) => r,
        Plan::NeedsParser(t) => panic!("shortcut did not match: {:?}", String::from_utf8(t)),
    }
}

#[test]
fn empty_input_is_other() {
    let r = resolved("").unwrap();
    assert_eq!(r, NormalizedUa::other());
    assert_eq!(text(&r), "other/0.0.0");
}

#[test]
fn google_app_token_is_stripped_then_parsed_as_ios_safari() {
    let s = "Mozilla/5.0 (iPhone; CPU iPhone OS 11_2 like Mac OS X) AppleWebKit/604.1.34 (KHTML, like Gecko) GSA/10.1.0 Mobile/15C114 Safari/604.1";
    match plan(s.as_bytes()) {
        Plan::NeedsParser(t) => assert_eq!(
            String::from_utf8(t).unwrap(),
            "Mozilla/5.0 (iPhone; CPU iPhone OS 11_2 like Mac OS X) AppleWebKit/604.1.34 (KHTML, like Gecko) Mobile/15C114 Safari/604.1"
        ),
        Plan::Resolved(_) => panic!("expected the generic parser"),
    }
    let r = normalize_with(s.as_bytes(), &agent("Mobile Safari", Some("11"), Some("0"))).unwrap();
    assert_eq!(text(&r), "ios_saf/11.0.0");
    let old = normalize_with(s.as_bytes(), &agent("Mobile Safari", Some("8"), Some("4"))).unwrap();
    assert_eq!(text(&old), "other/0.0.0");
}

#[test]
fn opera_24_becomes_chrome_37() {
    let s = "Opera/9.80 (Windows NT 6.1; WOW64) Presto/2.12.388 Version/24.0";
    let r = normalize_with(s.as_bytes(), &agent("Opera", Some("24"), Some("0"))).unwrap();
    assert_eq!(r, ua(Family::Chrome, 37, 0));
    assert_eq!(text(&r), "chrome/37.0.0");
}

#[test]
fn uc_browser_9_9_becomes_ie_10() {
    let r = from_parsed(&agent("UC Browser", Some("9"), Some("9"))).unwrap();
    assert_eq!(text(&r), "ie/10.0.0");
    let other = from_parsed(&agent("UC Browser", Some("9"), Some("8"))).unwrap();
    assert_eq!(other, NormalizedUa::other());
}

#[test]
fn phantomjs_becomes_safari_5_and_is_unsupported() {
    let s = "Mozilla/5.0 (Unknown; Linux x86_64) AppleWebKit/538.1 (KHTML, like Gecko) PhantomJS/2.1.1 Safari/538.1";
    let r = normalize_with(s.as_bytes(), &agent("PhantomJS", Some("2"), Some("1"))).unwrap();
    assert_eq!(text(&r), "other/0.0.0");
}

#[test]
fn unknown_family_is_other() {
    let r = from_parsed(&agent("Netscape Navigator", Some("9"), Some("0"))).unwrap();
    assert_eq!(r, NormalizedUa::other());
    let r = resolved("Lynx/2.8").unwrap();
    assert_eq!(r, NormalizedUa::other());
}

#[test]
fn support_threshold_boundary() {
    assert_eq!(text(&resolved("chrome/29.0").unwrap()), "chrome/29.0.0");
    assert_eq!(text(&resolved("chrome/28.0").unwrap()), "other/0.0.0");
    assert_eq!(text(&resolved("ie/8").unwrap()), "ie/8.0.0");
    assert_eq!(text(&resolved("ie/7").unwrap()), "other/0.0.0");
    assert_eq!(text(&resolved("firefox/38.0").unwrap()), "firefox/38.0.0");
    assert_eq!(text(&resolved("firefox/37.9").unwrap()), "other/0.0.0");
    assert_eq!(text(&resolved("edge/1.0").unwrap()), "edge/1.0.0");
    assert_eq!(text(&resolved("op_mini/5.1").unwrap()), "op_mini/5.1.0");
    assert_eq!(text(&resolved("samsung_mob/3.9").unwrap()), "other/0.0.0");
}

#[test]
fn android_compares_as_decimal_number() {
    assert_eq!(text(&resolved("android/4.3").unwrap()), "android/4.3.0");
    assert_eq!(text(&resolved("android/4.2").unwrap()), "other/0.0.0");
    assert_eq!(text(&resolved("android/4.10").unwrap()), "other/0.0.0");
    assert_eq!(text(&resolved("android/4.30").unwrap()), "android/4.30.0");
    assert_eq!(text(&resolved("android/4").unwrap()), "other/0.0.0");
    assert_eq!(text(&resolved("android/5.0").unwrap()), "android/5.0.0");
    assert_eq!(text(&resolved("android/3.9").unwrap()), "other/0.0.0");
}

#[test]
fn normalized_text_reads_back_unchanged() {
    let r = resolved("chrome/61.0.0").unwrap();
    assert_eq!(r, ua(Family::Chrome, 61, 0));
    let again = resolved(&text(&r)).unwrap();
    assert_eq!(again, r);
    let s = resolved("ios_saf/11.2").unwrap();
    assert_eq!(resolved(&text(&s)).unwrap(), s);
}

#[test]
fn opera_remap_table() {
    for major in 20u32..=47 {
        let m = major.to_string();
        let r = from_parsed(&agent("Opera", Some(&m), Some("5"))).unwrap();
        assert_eq!(r, ua(Family::Chrome, major + 13, 0));
    }
    assert_eq!(from_parsed(&agent("Opera", Some("48"), Some("0"))).unwrap(), ua(Family::Opera, 48, 0));
    assert_eq!(from_parsed(&agent("Opera", Some("19"), Some("0"))).unwrap(), NormalizedUa::other());
}

#[test]
fn googlebot_2_1_becomes_chrome_41() {
    assert_eq!(text(&from_parsed(&agent("Googlebot", Some("2"), Some("1"))).unwrap()), "chrome/41.0.0");
}

#[test]
fn aliases_map_to_codes() {
    let cases = [
        ("Chrome Mobile iOS", "ios_chr/60.0.0"),
        ("Chrome Mobile", "chrome/60.0.0"),
        ("HeadlessChrome", "chrome/60.0.0"),
        ("Mobile Safari UI/WKWebView", "ios_saf/60.0.0"),
        ("BlackBerry WebKit", "bb/60.0.0"),
        ("blackberry  \twebkit", "bb/60.0.0"),
        ("BlackBerry", "bb/60.0.0"),
        ("Pale Moon (Firefox Variant)", "firefox/60.0.0"),
        ("Pale Moon", "firefox/60.0.0"),
        ("Firefox Mobile", "firefox_mob/60.0.0"),
        ("Iceweasel", "firefox/60.0.0"),
        ("Opera Mini", "op_mini/60.0.0"),
        ("Opera Mobile", "op_mob/60.0.0"),
        ("IE Mobile", "ie_mob/60.0.0"),
        ("Internet Explorer", "ie/60.0.0"),
        ("Edge Mobile", "edge_mob/60.0.0"),
        ("Samsung Internet", "samsung_mob/60.0.0"),
        ("Chrome", "chrome/60.0.0"),
    ];
    for (family, expected) in cases.iter() {
        let r = from_parsed(&agent(family, Some("60"), Some("0"))).unwrap();
        assert_eq!(&text(&r), expected, "family {}", family);
    }
}

#[test]
fn missing_versions_read_as_zero() {
    let r = from_parsed(&agent("Edge", None, None)).unwrap();
    assert_eq!(text(&r), "edge/0.0.0");
    let r = from_parsed(&agent("Other", None, None)).unwrap();
    assert_eq!(r, NormalizedUa::other());
}

#[test]
fn unparsable_version_is_an_error() {
    assert_eq!(
        from_parsed(&agent("Chrome", Some("6x"), Some("0"))),
        Err(NormalizeError::UnparsableVersion)
    );
    assert_eq!(
        from_parsed(&agent("Chrome", Some("60"), Some(""))),
        Err(NormalizeError::UnparsableVersion)
    );
    assert_eq!(resolved("chrome/99999999999"), Err(NormalizeError::UnparsableVersion));
    assert_eq!(resolved("chrome/4294967295").unwrap(), ua(Family::Chrome, 4294967295, 0));
}

#[test]
fn shortcut_shapes() {
    let a = try_direct(b"Firefox/45.1.2").unwrap();
    assert_eq!(a.family, b"firefox".to_vec());
    assert_eq!(a.major, Some(b"45".to_vec()));
    assert_eq!(a.minor, Some(b"1".to_vec()));
    let b = try_direct(b"Chrome/61").unwrap();
    assert_eq!(b.minor, None);
    assert!(try_direct(b"firefox/45.1.2.3").is_none());
    assert!(try_direct(b"firefox/45.").is_none());
    assert!(try_direct(b"/45").is_none());
    assert!(try_direct(b"fire fox/45").is_none());
    assert!(try_direct(b"").is_none());
    assert_eq!(text(&resolved("Firefox/45.1.2").unwrap()), "firefox/45.1.0");
}

#[test]
fn routes() {
    assert_eq!(route(true, b"/v4/polyfill.min.js"), Route::Normalize);
    assert_eq!(route(false, b"/v4/polyfill.min.js"), Route::PassThrough);
    assert_eq!(route(true, b"/v3/polyfill.min.js"), Route::PassThrough);
}
