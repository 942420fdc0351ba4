use rsvg_internals::iri::{Fragment, IriError, IRI};

#[test]
fn parses_none() {
    assert_eq!(IRI::parse_str_to_parse_error("none"), Ok(IRI::Empty));
}

#[test]
fn parses_url() {
    assert_eq!(
        IRI::parse_str_to_parse_error("url(#bar)"),
        Ok(IRI::Resource(Fragment::new(None, "bar".to_string())))
    );

    assert_eq!(
        IRI::parse_str_to_parse_error("url(foo#bar)"),
        Ok(IRI::Resource(Fragment::new(
            Some("foo".to_string()),
            "bar".to_string()
        )))
    );

    // be permissive if the closing ) is missing
    assert_eq!(
        IRI::parse_str_to_parse_error("url(#bar"),
        Ok(IRI::Resource(Fragment::new(None, "bar".to_string())))
    );
    assert_eq!(
        IRI::parse_str_to_parse_error("url(foo#bar"),
        Ok(IRI::Resource(Fragment::new(
            Some("foo".to_string()),
            "bar".to_string()
        )))
    );

    assert!(IRI::parse_str_to_parse_error("").is_err());
    assert!(IRI::parse_str_to_parse_error("foo").is_err());
    assert!(IRI::parse_str_to_parse_error("url(foo)bar").is_err());
}

#[test]
fn iri_accepts_case_and_white_space() {
    assert_eq!(IRI::parse_str_to_parse_error("  NoNe "), Ok(IRI::Empty));
    assert_eq!(
        IRI::parse_str_to_parse_error(" URL( a/b.svg#c ) "),
        Ok(IRI::Resource(Fragment::new(
            Some("a/b.svg".to_string()),
            "c".to_string()
        )))
    );
}

#[test]
fn iri_without_fragment_is_refused() {
    assert_eq!(
        IRI::parse_str_to_parse_error("url(foo)"),
        Err(IriError::MissingFragment)
    );
    assert_eq!(IRI::parse_str_to_parse_error("url(a b#c)"), Err(IriError::Syntax));
}

#[test]
fn iri_get_returns_fragment() {
    let iri = IRI::parse_str_to_parse_error("url(doc#frag)").unwrap();
    let f = iri.get().unwrap();
    assert_eq!(f.uri(), Some("doc"));
    assert_eq!(f.fragment(), "frag");
    assert!(IRI::Empty.get().is_none());
    assert_eq!(IRI::default(), IRI::Empty);
}

#[test]
fn iri_accepts_quoted_urls() {
    assert_eq!(
        IRI::parse_str_to_parse_error("url(\"#bar\")"),
        Ok(IRI::Resource(Fragment::new(None, "bar".to_string())))
    );
    assert_eq!(
        IRI::parse_str_to_parse_error("url( 'a b#c' )"),
        Ok(IRI::Resource(Fragment::new(Some("a b".to_string()), "c".to_string())))
    );
    assert_eq!(IRI::parse_str_to_parse_error("url(\"a\\b#c\")"), Err(IriError::Syntax));
    assert_eq!(IRI::parse_str_to_parse_error("url(\"#c)"), Err(IriError::Syntax));
}
