//! The Atom/RSS feed decoders.

use edgar_parser::error::ParseError;
use edgar_parser::feeds::{
    parse_company_feed, parse_current_feed, parse_filing_feed, parse_rss_feed,
};
use edgar_parser::press_feed::parse_press_release_feed;

#[test]
fn rss_feed_decodes_channel_and_items() {
    let xml = r#"<rss version="2.0"><channel><title>Filings</title><link>https://example.test/feed</link><description>Recent filings</description><language>en-us</language><pubDate>Mon, 01 Jan 2024 00:00:00 GMT</pubDate><item><title>10-K</title><link>https://example.test/1</link><category>filing</category></item><item><title>8-K</title></item></channel></rss>"#;
    let feed = parse_rss_feed(xml).unwrap();
    assert_eq!(feed.title, Some("Filings".to_string()));
    assert_eq!(feed.language, Some("en-us".to_string()));
    assert_eq!(feed.items.len(), 2);
    assert_eq!(feed.items[0].category, Some("filing".to_string()));
    assert_eq!(feed.items[1].title, Some("8-K".to_string()));
    assert_eq!(feed.items[1].link, None);
}

#[test]
fn rss_feed_without_channel_is_an_error() {
    assert_eq!(
        parse_rss_feed("<rss/>").unwrap_err(),
        ParseError::MissingRequiredElement("channel".to_string())
    );
}

#[test]
fn current_feed_decodes_entries_links_and_author() {
    let xml = r#"<feed><title>Current</title><id>tag:current</id><updated>now</updated><author><name>EDGAR</name><email>SECRET-REDACTED</email></author><link href="https://example.test/a" rel="self" type="application/atom+xml"/><link href="https://example.test/b"/><entry><id>e1</id><title>Entry One</title><link href="https://example.test/e1" rel="alternate"/><category label="8-K" scheme="forms" term="8-K"/><summary type="html">summary text</summary></entry></feed>"#;
    let feed = parse_current_feed(xml).unwrap();
    assert_eq!(feed.title, Some("Current".to_string()));
    assert_eq!(feed.author.as_ref().unwrap().name, Some("EDGAR".to_string()));
    assert_eq!(feed.links.len(), 2);
    assert_eq!(feed.links[0].rel, Some("self".to_string()));
    assert_eq!(feed.entries.len(), 1);
    let entry = &feed.entries[0];
    assert_eq!(entry.id, Some("e1".to_string()));
    assert_eq!(
        entry.link.as_ref().unwrap().href,
        Some("https://example.test/e1".to_string())
    );
    assert_eq!(entry.category.as_ref().unwrap().term, Some("8-K".to_string()));
    let summary = entry.summary.as_ref().unwrap();
    assert_eq!(summary.summary_type, Some("html".to_string()));
    assert_eq!(summary.summary, Some("summary text".to_string()));
}

#[test]
fn company_feed_decodes_company_info_and_content() {
    let xml = r#"<feed><id>tag:company</id><title>ACME (0000000001)</title><company-info><cik>0000000001</cik><conformed-name>ACME CORP</conformed-name><assigned-sic>3711</assigned-sic><fiscal-year-end>1231</fiscal-year-end><addresses><address><address-type>mailing</address-type><city>Boston</city><zip>02110</zip></address><address><address-type>business</address-type><city>Boston</city></address></addresses></company-info><entry><id>a1</id><content type="text/xml"><accession-number>0000000001-24-000001</accession-number><filing-type>10-K</filing-type><film-number>241</film-number><size>1 MB</size></content></entry></feed>"#;
    let feed = parse_company_feed(xml).unwrap();
    let info = feed.company_info.as_ref().unwrap();
    assert_eq!(info.cik, Some("0000000001".to_string()));
    assert_eq!(info.assigned_sic, Some(3711));
    assert_eq!(info.fiscal_year_end, Some(1231));
    let addresses = &info.addresses.as_ref().unwrap().addresses;
    assert_eq!(addresses.len(), 2);
    assert_eq!(addresses[0].address_type, Some("mailing".to_string()));
    assert_eq!(addresses[1].zip, None);
    assert_eq!(feed.entries.len(), 1);
    let content = feed.entries[0].content.as_ref().unwrap();
    assert_eq!(content.content_type, Some("text/xml".to_string()));
    assert_eq!(content.filing_type, Some("10-K".to_string()));
    assert_eq!(content.film_number, Some(241));
    assert_eq!(content.size, Some("1 MB".to_string()));
}

#[test]
fn filing_feed_decodes_enclosures_and_files() {
    let xml = r#"<rss version="2.0"><channel><title>XBRL filings</title><item><title>ACME 10-K</title><guid>g1</guid><enclosure url="https://example.test/z.zip" length="12345" type="application/zip"/><xbrlFiling><cikNumber>0000000001</cikNumber><companyName>ACME CORP</companyName><formType>10-K</formType><assignedSic>3711</assignedSic><xbrlFiles><xbrlFile sequence="1" file="acme-10k.htm" type="10-K" size="1024" url="https://example.test/acme-10k.htm"/><xbrlFile sequence="2" file="acme.xsd"/></xbrlFiles></xbrlFiling></item></channel></rss>"#;
    let feed = parse_filing_feed(xml).unwrap();
    assert_eq!(feed.items.len(), 1);
    let item = &feed.items[0];
    let enclosure = item.enclosure.as_ref().unwrap();
    assert_eq!(enclosure.length, Some(12345));
    assert_eq!(enclosure.mime_type, Some("application/zip".to_string()));
    let filing = item.filing.as_ref().unwrap();
    assert_eq!(filing.cik, Some("0000000001".to_string()));
    assert_eq!(filing.assigned_sic, Some(3711));
    assert_eq!(filing.files.len(), 2);
    assert_eq!(filing.files[0].sequence, Some(1));
    assert_eq!(filing.files[0].file, Some("acme-10k.htm".to_string()));
    assert_eq!(filing.files[1].size, None);
}

#[test]
fn press_release_feed_decodes_items() {
    let xml = r#"<rss version="2.0"><channel><title>Press</title><description>Releases</description><item><title>Announcement</title><pubDate>Tue, 02 Jan 2024 00:00:00 GMT</pubDate></item></channel></rss>"#;
    let feed = parse_press_release_feed(xml).unwrap();
    assert_eq!(feed.title, Some("Press".to_string()));
    assert_eq!(feed.items.len(), 1);
    assert_eq!(feed.items[0].title, Some("Announcement".to_string()));
}

#[test]
fn press_release_feed_without_channel_is_an_error() {
    assert_eq!(
        parse_press_release_feed("<rss/>").unwrap_err(),
        ParseError::MissingRequiredElement("channel".to_string())
    );
}

#[test]
fn feeds_parse_the_same_twice() {
    let xml = r#"<feed><title>Current</title><entry><id>e1</id></entry></feed>"#;
    assert_eq!(
        parse_current_feed(xml).unwrap(),
        parse_current_feed(xml).unwrap()
    );
}
