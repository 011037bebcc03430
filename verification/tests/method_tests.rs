use httpserver::Method;

#[test]
fn parse_round_trips_all_nine_verbs() {
    let names = [
        "GET", "DELETE", "POST", "PUT", "HEAD", "CONNECT", "OPTIONS", "TRACE", "PATCH",
    ];
    for name in names {
        let m = Method::parse(name).expect("verb name must parse");
        assert_eq!(m.to_text(), name);
    }
}

#[test]
fn parse_yields_each_method() {
    assert_eq!(Method::parse("GET"), Ok(Method::GET));
    assert_eq!(Method::parse("DELETE"), Ok(Method::DELETE));
    assert_eq!(Method::parse("POST"), Ok(Method::POST));
    assert_eq!(Method::parse("PUT"), Ok(Method::PUT));
    assert_eq!(Method::parse("HEAD"), Ok(Method::HEAD));
    assert_eq!(Method::parse("CONNECT"), Ok(Method::CONNECT));
    assert_eq!(Method::parse("OPTIONS"), Ok(Method::OPTIONS));
    assert_eq!(Method::parse("TRACE"), Ok(Method::TRACE));
    assert_eq!(Method::parse("PATCH"), Ok(Method::PATCH));
}

#[test]
fn parse_rejects_everything_else() {
    for text in ["", "get", "Get", "GETT", " GET", "GET ", "BOGUS", "HTTP/1.1", "PATCHY"] {
        assert!(Method::parse(text).is_err(), "{:?} must not parse", text);
    }
}
