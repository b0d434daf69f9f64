use ifunny_basic::{BasicToken, BasicTokenLength};

#[test]
fn new_makes_112() {
    let basic = BasicToken::new(
        BasicToken::CLIENT_ID,
        BasicToken::CLIENT_SECRET,
        BasicTokenLength::Basic112,
    );

    assert_eq!(basic.to_string().len(), 112);
}

#[test]
fn new_makes_156() {
    let basic = BasicToken::new("client_id", "client_secret", BasicTokenLength::Basic156);

    assert_eq!(basic.to_string().len(), 156);
}

#[test]
fn new_112() {
    let basic = BasicToken::new("client_id", "client_secret", BasicTokenLength::Basic112);

    assert_eq!(basic.to_string().len(), 112);
}

#[test]
fn new_156() {
    let basic = BasicToken::new("client_id", "client_secret", BasicTokenLength::Basic156);

    assert_eq!(basic.to_string().len(), 156);
}

#[test]
fn default_is_unique() {
    let basic = BasicToken::default();
    let basic2 = BasicToken::default();

    assert_ne!(basic, basic2);
}

#[test]
fn default_is_112() {
    let basic = BasicToken::default();
    assert_eq!(basic.to_string().len(), 112);
}

#[test]
fn clones_are_equal() {
    let basic = BasicToken::default();
    let basic2 = basic.clone();

    assert_eq!(basic, basic2)
}

#[test]
fn debug_includes_token() {
    let tokens = vec!["Yinkies", "Foo", "Bar"];

    for token in tokens {
        let basic = BasicToken::from(token);
        let debug = format!("{basic:?}");
        let basic = basic.to_string();
        assert_eq!(debug, format!("BasicToken(\"{basic}\")"))
    }
}

#[test]
fn test_display() {
    let basic = BasicToken::default();
    let basic2 = basic.to_string();

    assert_eq!(basic2, String::from(basic))
}

#[test]
fn lib_test_display() {
    let basic = BasicToken::default();
    let basic2 = format!("{}", basic.to_string());

    assert_eq!(basic2, String::from(basic))
}

#[test]
fn test_from_string() {
    assert_eq!(BasicToken::from("Yinkies".to_string()).to_string(), "Yinkies");
}

#[test]
fn lib_test_from_string() {
    assert_eq!(String::from(BasicToken::from("Yinkies".to_string())), "Yinkies");
}

#[test]
fn test_from_str() {
    assert_eq!(BasicToken::from("Yinkies").to_string(), "Yinkies");
}

#[test]
fn lib_test_from_str() {
    assert_eq!(String::from(BasicToken::from("Yinkies")), "Yinkies");
}

#[test]
fn test_into_string() {
    let basic: String = BasicToken::from("Yinkies").into();
    assert_eq!(basic, "Yinkies");
}

#[test]
fn lib_test_into_string() {
    let basic: String = BasicToken::from("Yinkies".to_string()).into();
    assert_eq!(basic, "Yinkies");
}

#[test]
fn test_unique() {
    let basic = BasicToken::default();
    let basic2 = BasicToken::default();

    assert_ne!(basic.to_string(), basic2.to_string());
}

#[test]
fn test_default() {
    let basic = BasicToken::default();

    assert_eq!(basic.to_string().len(), 112)
}

#[test]
fn test_clone() {
    let basic = BasicToken::default();
    let basic2 = basic.clone();

    assert_eq!(basic, basic2)
}

#[test]
fn test_debug() {
    let basic = BasicToken::from("Yinkies");

    assert_eq!(format!("{basic:?}"), format!("BasicToken(\"Yinkies\")"))
}

#[test]
fn test_eq() {
    assert_ne!(BasicToken::default(), BasicToken::default());
}

#[test]
fn new_is_unique() {
    let first = BasicToken::new("client_id", "client_secret", BasicTokenLength::Basic112);
    let second = BasicToken::new("client_id", "client_secret", BasicTokenLength::Basic112);
    assert_ne!(first, second);

    let first = BasicToken::new("client_id", "client_secret", BasicTokenLength::Basic156);
    let second = BasicToken::new("client_id", "client_secret", BasicTokenLength::Basic156);
    assert_ne!(first, second);
}

#[test]
fn default_constants() {
    assert_eq!(BasicToken::CLIENT_ID, "MsOIJ39Q28");
    assert_eq!(BasicToken::CLIENT_SECRET, "PTDc3H8a)Vi=UYap");
    assert_eq!(BasicToken::DEFAULT_LENGTH, BasicTokenLength::Basic112);
}

#[test]
fn default_lengths_with_the_default_client() {
    for _ in 0..20 {
        let short = BasicToken::new(
            BasicToken::CLIENT_ID,
            BasicToken::CLIENT_SECRET,
            BasicTokenLength::Basic112,
        );
        let long = BasicToken::new(
            BasicToken::CLIENT_ID,
            BasicToken::CLIENT_SECRET,
            BasicTokenLength::Basic156,
        );
        assert_eq!(short.to_string().len(), 112);
        assert_eq!(long.to_string().len(), 156);
    }
}

#[test]
fn equality_is_equality_of_strings() {
    assert_eq!(BasicToken::from("Foo"), BasicToken::from("Foo".to_string()));
    assert_ne!(BasicToken::from("Foo"), BasicToken::from("Bar"));
    assert_ne!(BasicToken::from("Foo"), BasicToken::from("foo"));
    assert_eq!(BasicToken::from(""), BasicToken::from(String::new()));
}

#[test]
fn raw_round_trip_keeps_every_string() {
    for s in ["Yinkies", "", "not base64 at all!", "caf\u{e9} \u{1f600}", "a\0b"] {
        assert_eq!(String::from(BasicToken::from(s)), s);
        assert_eq!(BasicToken::from(s.to_string()).to_string(), s);
        let back: String = BasicToken::from(s).into();
        assert_eq!(back, s);
    }
}

#[test]
fn clone_of_a_raw_token_is_equal() {
    let basic = BasicToken::from("Yinkies");
    let copy = basic.clone();
    assert_eq!(copy, basic);
    assert_eq!(copy.to_string(), "Yinkies");
}

fn decoded(token: &BasicToken) -> String {
    String::from_utf8(easy_base64::decode(token.to_string().as_bytes())).unwrap()
}

fn is_base64_char(c: char) -> bool {
    c.is_ascii_alphanumeric() || c == '+' || c == '/' || c == '='
}

fn is_upper_hex(s: &str) -> bool {
    s.chars().all(|c| c.is_ascii_digit() || ('A'..='F').contains(&c))
}

fn is_lower_hex(s: &str) -> bool {
    s.chars().all(|c| c.is_ascii_digit() || ('a'..='f').contains(&c))
}

#[test]
fn short_token_layout() {
    let basic = BasicToken::new("client_id", "client_secret", BasicTokenLength::Basic112);
    let text = basic.to_string();
    assert_eq!(text.len(), 112);
    assert!(text.chars().all(is_base64_char));

    let plain = decoded(&basic);
    assert_eq!(plain.len(), 83);
    assert!(is_upper_hex(&plain[..32]));
    assert_eq!(&plain[32..43], "_client_id:");
    assert_eq!(plain[43..].len(), 40);
    assert!(is_lower_hex(&plain[43..]));
}

#[test]
fn long_token_layout() {
    let basic = BasicToken::new("client_id", "client_secret", BasicTokenLength::Basic156);
    let text = basic.to_string();
    assert_eq!(text.len(), 156);
    assert!(text.chars().all(is_base64_char));

    let plain = decoded(&basic);
    assert_eq!(plain.len(), 115);
    assert!(is_upper_hex(&plain[..64]));
    assert_eq!(&plain[64..75], "_client_id:");
    assert_eq!(plain[75..].len(), 40);
    assert!(is_lower_hex(&plain[75..]));
}

#[test]
fn fresh_seed_is_a_version_4_uuid() {
    for _ in 0..50 {
        let basic = BasicToken::new("client_id", "client_secret", BasicTokenLength::Basic112);
        let plain = decoded(&basic);
        let seed = &plain[..32];
        assert!(is_upper_hex(seed));
        assert_eq!(&seed[12..13], "4");
        assert!(["8", "9", "A", "B"].contains(&&seed[16..17]));
    }
}

#[test]
fn new_agrees_with_from_seed_on_its_own_seed() {
    for length in [BasicTokenLength::Basic112] {
        let basic = BasicToken::new("client_id", "client_secret", length);
        let plain = decoded(&basic);
        let seed = plain[..32].to_lowercase();
        let again = BasicToken::from_seed(&seed, "client_id", "client_secret", length);
        assert_eq!(again, basic);
    }
}
