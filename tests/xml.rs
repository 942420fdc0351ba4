use rsvg_internals::xml::{CharsAction, EndAction, StartAction, XmlError, XmlState};

#[test]
fn nodes_nest_and_outermost_becomes_root() {
    let mut xml = XmlState::new();
    assert_eq!(xml.start_element("svg", None, 1), StartAction::CreateNode { node: 1, parent: None });
    assert_eq!(xml.start_element("rect", None, 2), StartAction::CreateNode { node: 2, parent: Some(1) });
    assert_eq!(xml.characters("hi"), Ok(CharsAction::AppendText { node: 2 }));
    assert_eq!(xml.characters(""), Ok(CharsAction::Nothing));
    assert!(matches!(xml.end_element("rect"), Ok(EndAction::NodeDone { node: 2 })));
    assert!(xml.steal_tree().is_none());
    assert!(matches!(xml.end_element("svg"), Ok(EndAction::NodeDone { node: 1 })));
    assert_eq!(xml.steal_tree(), Some(1));
    assert_eq!(xml.steal_tree(), None);
}

#[test]
fn style_text_is_collected_for_css() {
    let mut xml = XmlState::new();
    xml.start_element("svg", None, 1);
    assert_eq!(xml.start_element("style", Some("text/css"), 2), StartAction::Nothing);
    assert_eq!(xml.characters("rect { fill: "), Ok(CharsAction::Nothing));
    assert_eq!(xml.characters("red }"), Ok(CharsAction::Nothing));
    match xml.end_element("style") {
        Ok(EndAction::ParseStyleSheet { text }) => assert_eq!(text, "rect { fill: red }"),
        _ => panic!("expected a style sheet"),
    }
    assert_eq!(xml.start_element("style", Some("text/other"), 3), StartAction::Nothing);
    xml.characters("ignored").unwrap();
    assert!(matches!(xml.end_element("style"), Ok(EndAction::Nothing)));
}

#[test]
fn include_starts_an_inclusion() {
    let mut xml = XmlState::new();
    xml.start_element("svg", None, 1);
    assert_eq!(xml.start_element("include", None, 2), StartAction::Include);
    assert!(matches!(xml.end_element("include"), Ok(EndAction::Nothing)));
}

#[test]
fn unbalanced_events_are_refused() {
    let mut xml = XmlState::new();
    assert!(matches!(xml.end_element("svg"), Err(XmlError::NoOpenElement)));
    assert_eq!(xml.characters("x"), Err(XmlError::NoOpenElement));
    xml.start_element("svg", None, 1);
    assert!(matches!(xml.end_element("g"), Err(XmlError::MismatchedEnd)));
    assert!(matches!(xml.end_element("svg"), Ok(EndAction::NodeDone { node: 1 })));
    xml.start_element("svg", None, 5);
    assert!(matches!(xml.end_element("svg"), Err(XmlError::RootAlreadySet)));
    assert_eq!(xml.set_root(7), Err(XmlError::RootAlreadySet));
}
