//! The ownership-report mapper under both failure policies.

use edgar_parser::error::ParseError;
use edgar_parser::ownership::{parse_ownership_form, Policy};
use edgar_parser::value::Value;

const FULL_FORM: &str = r#"<ownershipDocument><schemaVersion>X0306</schemaVersion><documentType>4</documentType><periodOfReport>2023-06-01</periodOfReport><issuer><issuerCik>0000320193</issuerCik><issuerName>Apple Inc.</issuerName><issuerTradingSymbol>AAPL</issuerTradingSymbol></issuer><reportingOwner><reportingOwnerId><rptOwnerCik>0001214156</rptOwnerCik><rptOwnerName>DOE JANE</rptOwnerName></reportingOwnerId><reportingOwnerAddress><rptOwnerStreet1>ONE APPLE PARK WAY</rptOwnerStreet1><rptOwnerCity>CUPERTINO</rptOwnerCity><rptOwnerState>CA</rptOwnerState><rptOwnerZipCode>95014</rptOwnerZipCode></reportingOwnerAddress><reportingOwnerRelationship><isDirector>0</isDirector><isOfficer>1</isOfficer><officerTitle>SVP</officerTitle></reportingOwnerRelationship></reportingOwner><aff10b5One>false</aff10b5One><nonDerivativeTable><nonDerivativeTransaction><securityTitle><value>Common Stock</value></securityTitle><transactionDate><value>2023-06-01</value></transactionDate><transactionCoding><transactionFormType>4</transactionFormType><transactionCode>S</transactionCode><equitySwapInvolved>0</equitySwapInvolved></transactionCoding><transactionAmounts><transactionShares><value>1000</value><footnoteId id="F1"/></transactionShares><transactionPricePerShare><value>185.25</value></transactionPricePerShare><transactionAcquiredDisposedCode><value>D</value></transactionAcquiredDisposedCode></transactionAmounts><postTransactionAmounts><sharesOwnedFollowingTransaction><value>5000</value></sharesOwnedFollowingTransaction></postTransactionAmounts><ownershipNature><directOrIndirectOwnership><value>D</value></directOrIndirectOwnership></ownershipNature></nonDerivativeTransaction><nonDerivativeHolding><securityTitle><value>RSU</value></securityTitle></nonDerivativeHolding></nonDerivativeTable><footnotes><footnote id="F1">Sold under a plan.</footnote></footnotes><remarks>None.</remarks><ownerSignature><signatureName>Jane Doe</signatureName><signatureDate>2023-06-02</signatureDate></ownerSignature></ownershipDocument>"#;

#[test]
fn lenient_decodes_a_full_form() {
    let doc = parse_ownership_form(FULL_FORM, Policy::Lenient).unwrap();
    assert_eq!(doc.schema_version, Some("X0306".to_string()));
    assert_eq!(doc.document_type, Some("4".to_string()));
    assert_eq!(doc.period_of_report, Some("2023-06-01".to_string()));
    let issuer = doc.issuer.as_ref().unwrap();
    assert_eq!(issuer.cik, Some("0000320193".to_string()));
    assert_eq!(issuer.name, Some("Apple Inc.".to_string()));
    assert_eq!(issuer.trading_symbol, Some("AAPL".to_string()));
    let owner = doc.reporting_owner.as_ref().unwrap();
    assert_eq!(owner.id.as_ref().unwrap().cik, Some("0001214156".to_string()));
    assert_eq!(owner.id.as_ref().unwrap().name, Some("DOE JANE".to_string()));
    let rel = owner.relationship.as_ref().unwrap();
    assert_eq!(rel.is_director, Some(false));
    assert_eq!(rel.is_officer, Some(true));
    assert_eq!(rel.officer_title, Some("SVP".to_string()));
    assert_eq!(doc.aff10b5_one, Some(false));
    let table = doc.non_derivative_table.as_ref().unwrap();
    assert_eq!(table.transactions.len(), 1);
    assert_eq!(table.holdings.len(), 1);
    let tx = &table.transactions[0];
    let title = tx.security_title.as_ref().unwrap();
    assert_eq!(title.value, Some(Value::Text("Common Stock".to_string())));
    assert_eq!(title.footnote_id, None);
    let amounts = tx.transaction_amounts.as_ref().unwrap();
    let shares = amounts.shares.as_ref().unwrap();
    assert_eq!(shares.value, Some(Value::Int(1000)));
    assert_eq!(shares.footnote_id, Some("F1".to_string()));
    let price = amounts.price_per_share.as_ref().unwrap();
    assert_eq!(price.value, Some(Value::Float("185.25".to_string())));
    assert_eq!(doc.footnotes.len(), 1);
    assert_eq!(doc.footnotes[0].id, Some("F1".to_string()));
    assert_eq!(doc.footnotes[0].note, Some("Sold under a plan.".to_string()));
    assert_eq!(doc.remarks, Some("None.".to_string()));
    let sig = doc.owner_signature.as_ref().unwrap();
    assert_eq!(sig.name, Some("Jane Doe".to_string()));
    assert_eq!(sig.date, Some("2023-06-02".to_string()));
    assert!(doc.derivative_table.is_none());
}

#[test]
fn strict_accepts_the_same_full_form() {
    let strict = parse_ownership_form(FULL_FORM, Policy::Strict).unwrap();
    let lenient = parse_ownership_form(FULL_FORM, Policy::Lenient).unwrap();
    assert_eq!(strict, lenient);
}

#[test]
fn scenario_missing_issuer_strict_fails_lenient_succeeds() {
    let xml = r#"<ownershipDocument><documentType>4</documentType><periodOfReport>2023-06-01</periodOfReport><reportingOwner><reportingOwnerId><rptOwnerCik>0001</rptOwnerCik></reportingOwnerId></reportingOwner><ownerSignature><signatureName>J</signatureName><signatureDate>2023-06-02</signatureDate></ownerSignature></ownershipDocument>"#;
    assert_eq!(
        parse_ownership_form(xml, Policy::Strict).unwrap_err(),
        ParseError::MissingRequiredElement("issuer".to_string())
    );
    let doc = parse_ownership_form(xml, Policy::Lenient).unwrap();
    assert!(doc.issuer.is_none());
}

#[test]
fn strict_requires_the_issuer_fields() {
    let xml = r#"<ownershipDocument><documentType>4</documentType><periodOfReport>P</periodOfReport><issuer><issuerCik>1</issuerCik><issuerName>N</issuerName></issuer></ownershipDocument>"#;
    assert_eq!(
        parse_ownership_form(xml, Policy::Strict).unwrap_err(),
        ParseError::MissingRequiredElement("issuerTradingSymbol".to_string())
    );
}

#[test]
fn strict_checks_fields_in_document_order() {
    let xml = r#"<ownershipDocument/>"#;
    assert_eq!(
        parse_ownership_form(xml, Policy::Strict).unwrap_err(),
        ParseError::MissingRequiredElement("documentType".to_string())
    );
}

#[test]
fn lenient_decodes_an_empty_document() {
    let doc = parse_ownership_form("<ownershipDocument/>", Policy::Lenient).unwrap();
    assert!(doc.document_type.is_none());
    assert!(doc.issuer.is_none());
    assert!(doc.reporting_owner.is_none());
    assert!(doc.non_derivative_table.is_none());
    assert!(doc.footnotes.is_empty());
}

#[test]
fn derivative_transactions_and_holdings_decode() {
    let xml = r#"<ownershipDocument><derivativeTable><derivativeTransaction><securityTitle><value>Option</value></securityTitle><conversionOrExercisePrice><value>50</value></conversionOrExercisePrice><underlyingSecurity><underlyingSecurityTitle><value>Common</value></underlyingSecurityTitle><underlyingSecurityShares><value>200</value></underlyingSecurityShares></underlyingSecurity></derivativeTransaction><derivativeHolding><securityTitle><value>Warrant</value></securityTitle></derivativeHolding></derivativeTable></ownershipDocument>"#;
    let doc = parse_ownership_form(xml, Policy::Lenient).unwrap();
    let table = doc.derivative_table.as_ref().unwrap();
    assert_eq!(table.transactions.len(), 1);
    assert_eq!(table.holdings.len(), 1);
    let tx = &table.transactions[0];
    assert_eq!(
        tx.conversion_or_exercise_price.as_ref().unwrap().value,
        Some(Value::Int(50))
    );
    let under = tx.underlying_security.as_ref().unwrap();
    assert_eq!(under.shares.as_ref().unwrap().value, Some(Value::Int(200)));
    assert_eq!(
        table.holdings[0].security_title.as_ref().unwrap().value,
        Some(Value::Text("Warrant".to_string()))
    );
}

#[test]
fn parsing_twice_yields_equal_ownership_documents() {
    let first = parse_ownership_form(FULL_FORM, Policy::Lenient).unwrap();
    let second = parse_ownership_form(FULL_FORM, Policy::Lenient).unwrap();
    assert_eq!(first, second);
}

#[test]
fn malformed_xml_fails_under_either_policy() {
    for policy in [Policy::Strict, Policy::Lenient] {
        match parse_ownership_form("<a><b>", policy) {
            Err(ParseError::MalformedXml(_)) => {}
            other => panic!("expected a malformed-xml error, got {:?}", other),
        }
    }
}
