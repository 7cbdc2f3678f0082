//! The Form 13F decoder: the strict primary document and the equally
//! strict information table.

use edgar_parser::error::ParseError;
use edgar_parser::thirteenf::{parse_form13f_document, parse_form13f_table, VotingAuthority};

const FULL_DOCUMENT: &str = r#"<edgarSubmission><schemaVersion>X0202</schemaVersion><headerData><submissionType>13F-HR</submissionType><filerInfo><liveTestFlag>LIVE</liveTestFlag><flags><confirmingCopyFlag>false</confirmingCopyFlag></flags><filer><credentials><cik>0001000000</cik><ccc>SECRET-REDACTED</ccc></credentials><fileNumber>028-00000</fileNumber></filer><contact><name>A Person</name><phoneNumber>555-0100</phoneNumber></contact><periodOfReport>12-31-2023</periodOfReport></filerInfo></headerData><formData><coverPage><reportCalendarOrQuarter>12-31-2023</reportCalendarOrQuarter><isAmendment>false</isAmendment><filingManager><name>Some Fund LP</name><address><street1>1 Main St</street1><city>Boston</city><stateOrCountry>MA</stateOrCountry><zipCode>02110</zipCode></address></filingManager><reportType>13F HOLDINGS REPORT</reportType><form13FFileNumber>028-00000</form13FFileNumber><provideInfoForInstruction5>N</provideInfoForInstruction5></coverPage><signatureBlock><name>A Person</name><title>CEO</title><phone>555-0100</phone><signature>/s/ A Person</signature><city>Boston</city><stateOrCountry>MA</stateOrCountry><signatureDate>02-14-2024</signatureDate></signatureBlock><summaryPage><otherIncludedManagersCount>0</otherIncludedManagersCount><tableEntryTotal>2</tableEntryTotal><tableValueTotal>123456</tableValueTotal><otherManagers2Info><otherManager2><sequenceNumber>1</sequenceNumber><otherManager><cik>0002</cik><name>Other Mgr</name></otherManager></otherManager2></otherManagers2Info></summaryPage><documents><document><conformedName>infotable.xml</conformedName></document></documents></formData></edgarSubmission>"#;

#[test]
fn decodes_a_full_primary_document() {
    let doc = parse_form13f_document(FULL_DOCUMENT).unwrap();
    assert_eq!(doc.schema_version, Some("X0202".to_string()));
    assert_eq!(doc.header_data.submission_type, "13F-HR");
    let info = &doc.header_data.filer_info;
    assert_eq!(info.live_test_flag, "LIVE");
    assert_eq!(info.flags.as_ref().unwrap().confirming_copy_flag, Some(false));
    assert_eq!(info.filer.credentials.cik, "0001000000");
    assert_eq!(info.filer.file_number, Some("028-00000".to_string()));
    assert_eq!(info.contact.as_ref().unwrap().name, Some("A Person".to_string()));
    assert_eq!(info.period_of_report, "12-31-2023");
    let cover = &doc.form_data.cover_page;
    assert_eq!(cover.report_calendar_or_quarter, "12-31-2023");
    assert_eq!(cover.is_amendment, Some(false));
    assert_eq!(cover.filing_manager.name, "Some Fund LP");
    assert_eq!(cover.filing_manager.address.city, "Boston");
    assert_eq!(cover.report_type, "13F HOLDINGS REPORT");
    assert!(!cover.provide_info_for_instruction_5);
    assert_eq!(doc.form_data.signature_block.signature, "/s/ A Person");
    let summary = doc.form_data.summary_page.as_ref().unwrap();
    assert_eq!(summary.other_included_managers_count, 0);
    assert_eq!(summary.table_entry_total, 2);
    assert_eq!(summary.table_value_total, 123456);
    assert_eq!(summary.other_managers.len(), 1);
    assert_eq!(summary.other_managers[0].sequence_number, Some(1));
    assert_eq!(
        summary.other_managers[0].manager.as_ref().unwrap().name,
        Some("Other Mgr".to_string())
    );
    assert_eq!(doc.form_data.documents.len(), 1);
    assert_eq!(
        doc.form_data.documents[0].conformed_name,
        Some("infotable.xml".to_string())
    );
}

#[test]
fn missing_header_is_the_documents_error() {
    let xml = r#"<edgarSubmission><formData/></edgarSubmission>"#;
    assert_eq!(
        parse_form13f_document(xml).unwrap_err(),
        ParseError::MissingRequiredElement("headerData".to_string())
    );
}

#[test]
fn missing_credentials_fields_are_named() {
    let xml = r#"<edgarSubmission><headerData><submissionType>13F-HR</submissionType><filerInfo><liveTestFlag>LIVE</liveTestFlag><filer><credentials><cik>1</cik></credentials></filer><periodOfReport>P</periodOfReport></filerInfo></headerData></edgarSubmission>"#;
    assert_eq!(
        parse_form13f_document(xml).unwrap_err(),
        ParseError::MissingRequiredElement("ccc".to_string())
    );
}

#[test]
fn unreadable_summary_count_is_a_coercion_error() {
    let xml = FULL_DOCUMENT.replace(
        "<tableEntryTotal>2</tableEntryTotal>",
        "<tableEntryTotal>two</tableEntryTotal>",
    );
    assert_eq!(
        parse_form13f_document(&xml).unwrap_err(),
        ParseError::TypeCoercionFailure("tableEntryTotal".to_string(), "two".to_string())
    );
}

#[test]
fn scenario_voting_authority_counts() {
    let xml = r#"<informationTable><infoTable><nameOfIssuer>ACME CORP</nameOfIssuer><titleOfClass>COM</titleOfClass><cusip>000000000</cusip><value>100</value><shrsOrPrnAmt><sshPrnamt>10</sshPrnamt><sshPrnamtType>SH</sshPrnamtType></shrsOrPrnAmt><investmentDiscretion>SOLE</investmentDiscretion><votingAuthority><Sole>100</Sole><Shared>0</Shared><None>0</None></votingAuthority></infoTable></informationTable>"#;
    let table = parse_form13f_table(xml).unwrap();
    assert_eq!(table.entries.len(), 1);
    assert_eq!(
        table.entries[0].voting_authority,
        VotingAuthority { sole: 100, shared: 0, none: 0 }
    );
    assert_eq!(table.entries[0].shares_or_print_amount.amount, 10);
    assert_eq!(table.entries[0].shares_or_print_amount.shares_or_print_type, "SH");
}

#[test]
fn entry_missing_a_required_field_fails_the_table() {
    let xml = r#"<informationTable><infoTable><nameOfIssuer>A</nameOfIssuer><titleOfClass>COM</titleOfClass><value>1</value><shrsOrPrnAmt><sshPrnamt>1</sshPrnamt><sshPrnamtType>SH</sshPrnamtType></shrsOrPrnAmt><investmentDiscretion>SOLE</investmentDiscretion><votingAuthority><Sole>1</Sole><Shared>0</Shared><None>0</None></votingAuthority></infoTable><infoTable><nameOfIssuer>B</nameOfIssuer><titleOfClass>COM</titleOfClass><cusip>111111111</cusip><value>2</value><shrsOrPrnAmt><sshPrnamt>2</sshPrnamt><sshPrnamtType>SH</sshPrnamtType></shrsOrPrnAmt><investmentDiscretion>SOLE</investmentDiscretion><votingAuthority><Sole>2</Sole><Shared>0</Shared><None>0</None></votingAuthority></infoTable></informationTable>"#;
    assert_eq!(
        parse_form13f_table(xml).unwrap_err(),
        ParseError::MissingRequiredElement("cusip".to_string())
    );
}

#[test]
fn entry_with_an_unreadable_count_fails_the_table() {
    let xml = r#"<informationTable><infoTable><nameOfIssuer>A</nameOfIssuer><titleOfClass>COM</titleOfClass><cusip>0</cusip><value>1</value><shrsOrPrnAmt><sshPrnamt>many</sshPrnamt><sshPrnamtType>SH</sshPrnamtType></shrsOrPrnAmt><investmentDiscretion>SOLE</investmentDiscretion><votingAuthority><Sole>1</Sole><Shared>0</Shared><None>0</None></votingAuthority></infoTable></informationTable>"#;
    assert_eq!(
        parse_form13f_table(xml).unwrap_err(),
        ParseError::TypeCoercionFailure("sshPrnamt".to_string(), "many".to_string())
    );
}

#[test]
fn other_manager_lists_parse_entry_by_entry() {
    let xml = r#"<informationTable><infoTable><nameOfIssuer>A</nameOfIssuer><titleOfClass>COM</titleOfClass><cusip>0</cusip><value>1</value><shrsOrPrnAmt><sshPrnamt>1</sshPrnamt><sshPrnamtType>SH</sshPrnamtType></shrsOrPrnAmt><putCall>Put</putCall><investmentDiscretion>SOLE</investmentDiscretion><otherManager>1, 2,x, 3</otherManager><votingAuthority><Sole>1</Sole><Shared>0</Shared><None>0</None></votingAuthority></infoTable></informationTable>"#;
    let table = parse_form13f_table(xml).unwrap();
    assert_eq!(table.entries[0].other_manager, vec![1, 2, 3]);
    assert_eq!(table.entries[0].put_call, Some("Put".to_string()));
    assert_eq!(table.entries[0].figi, None);
}

#[test]
fn parsing_twice_yields_equal_13f_documents() {
    let first = parse_form13f_document(FULL_DOCUMENT).unwrap();
    let second = parse_form13f_document(FULL_DOCUMENT).unwrap();
    assert_eq!(first, second);
}

#[test]
fn malformed_table_xml_is_fatal() {
    match parse_form13f_table("<informationTable") {
        Err(ParseError::MalformedXml(_)) => {}
        other => panic!("expected a malformed-xml error, got {:?}", other),
    }
}
