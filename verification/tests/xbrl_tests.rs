//! The XBRL fact/context/unit resolution engine, end to end through the XML
//! reader and at the tree level.

use edgar_parser::error::ParseError;
use edgar_parser::value::Value;
use edgar_parser::xbrl::{parse_xbrl, xbrl_from_tree, Segment};
use edgar_parser::xml::XmlNode;

fn element(tag: &str, children: Vec<XmlNode>) -> XmlNode {
    XmlNode { tag: tag.to_string(), attrs: vec![], text: None, children }
}

fn leaf(tag: &str, text: &str) -> XmlNode {
    XmlNode { tag: tag.to_string(), attrs: vec![], text: Some(text.to_string()), children: vec![] }
}

fn simple_context(id: &str, entity: &str, instant: &str) -> XmlNode {
    XmlNode {
        tag: "context".to_string(),
        attrs: vec![("id".to_string(), id.to_string())],
        text: None,
        children: vec![
            element("entity", vec![leaf("identifier", entity)]),
            element("period", vec![leaf("instant", instant)]),
        ],
    }
}

#[test]
fn scenario_single_fact() {
    let xml = r#"<xbrl><context id="c1"><entity><identifier>0000012345</identifier></entity><period><instant>2020-01-01</instant></period></context><unit id="USD"><measure>USD</measure></unit><Assets contextRef="c1" unitRef="USD" decimals="-3">1000000</Assets></xbrl>"#;
    let doc = parse_xbrl(xml).unwrap();
    assert_eq!(doc.facts.len(), 1);
    let fact = &doc.facts[0];
    assert_eq!(fact.concept, "Assets");
    assert_eq!(fact.value, Value::Int(1000000));
    assert_eq!(fact.unit, Some("USD".to_string()));
    assert_eq!(fact.decimals, Some("-3".to_string()));
    assert_eq!(fact.context.entity, "0000012345");
    assert_eq!(fact.context.period.instant, Some("2020-01-01".to_string()));
    assert_eq!(fact.context.period.start_date, None);
    assert_eq!(fact.context.period.end_date, None);
    assert!(fact.context.segments.is_empty());
}

#[test]
fn fact_count_is_the_resolving_count_in_order() {
    let xml = r#"<xbrl><context id="c1"><entity><identifier>E</identifier></entity><period/></context><context id="c2"><entity><identifier>E</identifier></entity><period/></context><A contextRef="c1">1</A><B contextRef="missing">2</B><C contextRef="c2">3</C><D>4</D></xbrl>"#;
    let doc = parse_xbrl(xml).unwrap();
    assert_eq!(doc.facts.len(), 2);
    assert_eq!(doc.facts[0].concept, "A");
    assert_eq!(doc.facts[1].concept, "C");
}

#[test]
fn bare_unit_resolves_to_itself() {
    let xml = r#"<xbrl><context id="c"><entity><identifier>E</identifier></entity><period/></context><unit id="u"><measure>USD</measure></unit><A contextRef="c" unitRef="u">1</A></xbrl>"#;
    let doc = parse_xbrl(xml).unwrap();
    assert_eq!(doc.facts[0].unit, Some("USD".to_string()));
}

#[test]
fn divided_unit_resolves_to_ratio() {
    let xml = r#"<xbrl><context id="c"><entity><identifier>E</identifier></entity><period/></context><unit id="u"><divide><unitNumerator><measure>USD</measure></unitNumerator><unitDenominator><measure>shares</measure></unitDenominator></divide></unit><A contextRef="c" unitRef="u">1</A></xbrl>"#;
    let doc = parse_xbrl(xml).unwrap();
    assert_eq!(doc.facts[0].unit, Some("USD/shares".to_string()));
}

#[test]
fn divided_unit_with_missing_parts_degrades_to_empty() {
    let xml = r#"<xbrl><context id="c"><entity><identifier>E</identifier></entity><period/></context><unit id="u"><divide><unitNumerator><measure>USD</measure></unitNumerator></divide></unit><A contextRef="c" unitRef="u">1</A></xbrl>"#;
    let doc = parse_xbrl(xml).unwrap();
    assert_eq!(doc.facts[0].unit, Some("USD/".to_string()));
}

#[test]
fn duplicate_unit_id_last_declaration_wins() {
    let xml = r#"<xbrl><context id="c"><entity><identifier>E</identifier></entity><period/></context><unit id="u"><measure>USD</measure></unit><unit id="u"><measure>EUR</measure></unit><A contextRef="c" unitRef="u">1</A></xbrl>"#;
    let doc = parse_xbrl(xml).unwrap();
    assert_eq!(doc.facts[0].unit, Some("EUR".to_string()));
}

#[test]
fn unresolvable_unit_ref_is_none_not_error() {
    let xml = r#"<xbrl><context id="c"><entity><identifier>E</identifier></entity><period/></context><A contextRef="c" unitRef="nowhere">1</A></xbrl>"#;
    let doc = parse_xbrl(xml).unwrap();
    assert_eq!(doc.facts.len(), 1);
    assert_eq!(doc.facts[0].unit, None);
}

#[test]
fn unresolved_context_ref_drops_the_fact_silently() {
    let xml = r#"<xbrl><A contextRef="nowhere">1</A></xbrl>"#;
    let doc = parse_xbrl(xml).unwrap();
    assert!(doc.facts.is_empty());
}

#[test]
fn segment_prefixes_are_stripped() {
    let xml = r#"<xbrl><context id="c"><entity><identifier>E</identifier><segment><explicitMember dimension="us-gaap:SomeAxis">us-gaap:SomeMember</explicitMember></segment></entity><period/></context><A contextRef="c">1</A></xbrl>"#;
    let doc = parse_xbrl(xml).unwrap();
    assert_eq!(
        doc.facts[0].context.segments,
        vec![Segment { dimension: "SomeAxis".to_string(), member: "SomeMember".to_string() }]
    );
}

#[test]
fn unprefixed_segment_name_becomes_empty() {
    let xml = r#"<xbrl><context id="c"><entity><identifier>E</identifier><segment><explicitMember dimension="SomeAxis">SomeMember</explicitMember></segment></entity><period/></context><A contextRef="c">1</A></xbrl>"#;
    let doc = parse_xbrl(xml).unwrap();
    assert_eq!(
        doc.facts[0].context.segments,
        vec![Segment { dimension: "".to_string(), member: "".to_string() }]
    );
}

#[test]
fn context_without_id_is_fatal() {
    let xml = r#"<xbrl><context><entity><identifier>E</identifier></entity><period/></context></xbrl>"#;
    assert_eq!(
        parse_xbrl(xml).unwrap_err(),
        ParseError::MissingRequiredElement("id".to_string())
    );
}

#[test]
fn context_without_entity_chain_is_fatal() {
    let xml = r#"<xbrl><context id="c"><period/></context></xbrl>"#;
    assert_eq!(
        parse_xbrl(xml).unwrap_err(),
        ParseError::MissingRequiredElement("entity".to_string())
    );
    let xml2 = r#"<xbrl><context id="c"><entity/><period/></context></xbrl>"#;
    assert_eq!(
        parse_xbrl(xml2).unwrap_err(),
        ParseError::MissingRequiredElement("identifier".to_string())
    );
}

#[test]
fn context_without_period_is_legal_and_empty() {
    let xml = r#"<xbrl><context id="c"><entity><identifier>E</identifier></entity></context><A contextRef="c">1</A></xbrl>"#;
    let doc = parse_xbrl(xml).unwrap();
    assert_eq!(doc.facts.len(), 1);
    let period = &doc.facts[0].context.period;
    assert_eq!(period.instant, None);
    assert_eq!(period.start_date, None);
    assert_eq!(period.end_date, None);
}

#[test]
fn segment_without_dimension_or_text_degrades_to_empty_names() {
    let xml = r#"<xbrl><context id="c"><entity><identifier>E</identifier><segment><explicitMember>us-gaap:M</explicitMember><explicitMember dimension="us-gaap:Axis"/></segment></entity><period/></context><A contextRef="c">1</A></xbrl>"#;
    let doc = parse_xbrl(xml).unwrap();
    assert_eq!(
        doc.facts[0].context.segments,
        vec![
            Segment { dimension: "".to_string(), member: "M".to_string() },
            Segment { dimension: "Axis".to_string(), member: "".to_string() },
        ]
    );
}

#[test]
fn malformed_xbrl_text_is_fatal() {
    match parse_xbrl("<xbrl><unclosed>") {
        Err(ParseError::MalformedXml(_)) => {}
        other => panic!("expected a malformed-xml error, got {:?}", other),
    }
}

#[test]
fn malformed_text_parses_to_the_same_error_twice() {
    let first = parse_xbrl("<xbrl><unclosed>").unwrap_err();
    let second = parse_xbrl("<xbrl><unclosed>").unwrap_err();
    assert_eq!(first, second);
}

#[test]
fn parsing_twice_yields_equal_documents() {
    let xml = r#"<xbrl><context id="c1"><entity><identifier>E</identifier><segment><explicitMember dimension="a:B">a:M</explicitMember></segment></entity><period><startDate>2020-01-01</startDate><endDate>2020-12-31</endDate></period></context><unit id="u"><measure>USD</measure></unit><A contextRef="c1" unitRef="u">12.5</A><B contextRef="c1">text</B></xbrl>"#;
    let first = parse_xbrl(xml).unwrap();
    let second = parse_xbrl(xml).unwrap();
    assert_eq!(first, second);
}

#[test]
fn tree_level_decoding_matches_the_reader_path() {
    let tree = element(
        "xbrl",
        vec![
            simple_context("c1", "0000012345", "2020-01-01"),
            XmlNode {
                tag: "Assets".to_string(),
                attrs: vec![("contextRef".to_string(), "c1".to_string())],
                text: Some("7".to_string()),
                children: vec![],
            },
        ],
    );
    let doc = xbrl_from_tree(&tree).unwrap();
    assert_eq!(doc.facts.len(), 1);
    assert_eq!(doc.facts[0].value, Value::Int(7));
    let via_text = parse_xbrl(
        r#"<xbrl><context id="c1"><entity><identifier>0000012345</identifier></entity><period><instant>2020-01-01</instant></period></context><Assets contextRef="c1">7</Assets></xbrl>"#,
    )
    .unwrap();
    assert_eq!(doc, via_text);
}

#[test]
fn fact_value_goes_through_the_coercion_chain() {
    let xml = r#"<xbrl><context id="c"><entity><identifier>E</identifier></entity><period/></context><A contextRef="c">12.75</A><B contextRef="c">true</B><C contextRef="c">hello</C><D contextRef="c"/></xbrl>"#;
    let doc = parse_xbrl(xml).unwrap();
    assert_eq!(doc.facts[0].value, Value::Float("12.75".to_string()));
    assert_eq!(doc.facts[1].value, Value::Bool(true));
    assert_eq!(doc.facts[2].value, Value::Text("hello".to_string()));
    assert_eq!(doc.facts[3].value, Value::Text("".to_string()));
}
