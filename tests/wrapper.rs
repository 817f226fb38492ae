use ua_normalizer::wrapper::{find_rule, rule_at, strip, WrapperRule, RULE_COUNT};

fn stripped(s: &str) -> String {
    String::from_utf8(strip(s.as_bytes())).unwrap()
}

#[test]
fn each_rule_cuts_its_token() {
    let cases = [
        ("Mozilla/5.0 (iPhone) GSA/10.1.0 Mobile/15C114", "Mozilla/5.0 (iPhone) Mobile/15C114"),
        ("Mozilla/5.0 (iPhone) Instagram 42.0.0.19.95 (iPhone9,3)", "Mozilla/5.0 (iPhone) (iPhone9,3)"),
        ("Mozilla/5.0 (Windows NT 10.0) Chrome/70.0 PTST/1.2", "Mozilla/5.0 (Windows NT 10.0) Chrome/70.0"),
        ("Mozilla/5.0 Gecko/20100101 Firefox/56.0 Waterfox/56.2.9", "Mozilla/5.0 Gecko/20100101 Firefox/56.0"),
        ("Mozilla/5.0 Goanna/4.1 Firefox/68.9", "Mozilla/5.0 Firefox/68.9"),
        ("Mozilla/5.0 Firefox/68.9 PaleMoon/28.10.0", "Mozilla/5.0 Firefox/68.9"),
        ("Mozilla/5.0 Chrome/75.0.3770.142 YaBrowser/19.7.3.172 Yowser/2.5 Safari/537.36", "Mozilla/5.0 Chrome/75.0.3770.142 Yowser/2.5 Safari/537.36"),
        ("Mozilla/5.0 Chrome/53.0.2785.143 Crosswalk/23.53.589.4 Safari/537.36", "Mozilla/5.0 Chrome/53.0.2785.143 Safari/537.36"),
        ("Mozilla/5.0 (iPhone) CriOS/70.0.3538.75 Mobile/15E148", "Mozilla/5.0 (iPhone)  Mobile/15E148"),
        ("Mozilla/5.0 (iPhone) FxiOS/13.2 Mobile/15E148", "Mozilla/5.0 (iPhone)  Mobile/15E148"),
        ("Mozilla/5.0 Chrome/78.0 Safari/537.36 Vivaldi/2.9.1705.41", "Mozilla/5.0 Chrome/78.0 Safari/537.36"),
        ("Mozilla/5.0 Mobile/15E148 [FBAN/FBIOS;FBAV/250.0]", "Mozilla/5.0 Mobile/15E148"),
        ("Mozilla/5.0 Chrome/66.0 Electron/3.0.10 Safari/537.36", "Mozilla/5.0 Chrome/66.0 Safari/537.36"),
        ("Mozilla/5.0 Chrome/79.0 Safari/537.36 Edg/79.0.309.43", "Mozilla/5.0 Chrome/79.0 Safari/537.36"),
    ];
    for (input, expected) in cases.iter() {
        assert_eq!(&stripped(input), expected, "input {}", input);
    }
}

#[test]
fn matching_ignores_case() {
    assert_eq!(stripped("Mozilla/5.0 gsa/9.0 Mobile"), "Mozilla/5.0 Mobile");
    assert_eq!(stripped("Mozilla/5.0 EDG/80.1"), "Mozilla/5.0");
}

#[test]
fn no_match_leaves_text_unchanged() {
    for s in ["", "Mozilla/5.0", "Mozilla/5.0 GSA/", "Mozilla/5.0 Vivaldi/1", "YaBrowser/19.7.3", "YaBrowser/19 x", "CriOS/70.0.3538", " [FBAN/]"].iter() {
        assert_eq!(&stripped(s), s);
    }
}

#[test]
fn first_rule_wins_and_only_one_cut() {
    assert_eq!(stripped("A GSA/1.0 B Edg/2.0 C"), "A B Edg/2.0 C");
    assert_eq!(stripped("A GSA/1.0 B GSA/2.0"), "A B GSA/2.0");
}

#[test]
fn run_to_digit_stops_at_last_digit() {
    assert_eq!(stripped("X Vivaldi/2.9. Y"), "X. Y");
    assert_eq!(stripped("X Electron/3"), "X Electron/3");
}

#[test]
fn stripping_again_does_not_retrigger_the_rule() {
    let samples = [
        "Mozilla/5.0 (iPhone) GSA/10.1.0 Mobile/15C114",
        "Mozilla/5.0 Mobile/15E148 [FB_IAB/FB4A;FBAV/250.0] x",
        "Mozilla/5.0 Chrome/79.0 Safari/537.36 Edg/79.0.309.43",
        "Mozilla/5.0 (iPhone) OPiOS/16.0.14.122053 Mobile/15E148",
    ];
    for s in samples.iter() {
        let once = strip(s.as_bytes());
        let mut matched = None;
        for k in 0..RULE_COUNT {
            let r = rule_at(k);
            if find_rule(r, s.as_bytes()).is_some() {
                matched = Some(r);
                break;
            }
        }
        let r: WrapperRule = matched.unwrap();
        assert!(find_rule(r, &once).is_none(), "input {}", s);
        assert!(once.len() < s.len());
    }
}
