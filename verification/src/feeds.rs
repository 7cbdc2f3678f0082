//! The Atom/RSS feed decoders: the filing RSS feed, the current-events Atom
//! feed, the per-company Atom feed, and the XBRL filing feed. Every field is
//! optional; only malformed XML, or an RSS document without its channel
//! element, fails.

use vstd::prelude::*;
use crate::error::{missing_element, ParseError, ParseErrorView};
use crate::reader::{parse_tree, xml_parse};
use crate::xml::{attr_i32, attr_i32_of, attr_of, child_of, child_text, find_attr, find_child,
    opt_i32, opt_i32_of, opt_string, str_eq, text_of, text_string, XmlNode};

verus! {

#[derive(Debug, Clone, PartialEq)]
pub struct Item {
    pub title: Option<String>,
    pub link: Option<String>,
    pub description: Option<String>,
    pub category: Option<String>,
    pub pub_date: Option<String>,
}

/// The plain RSS filing feed.
#[derive(Debug, Clone, PartialEq)]
pub struct RSSFeed {
    pub title: Option<String>,
    pub link: Option<String>,
    pub description: Option<String>,
    pub language: Option<String>,
    pub items: Vec<Item>,
    pub pub_date: Option<String>,
    pub last_build_date: Option<String>,
}

#[derive(Debug, Clone, PartialEq)]
pub struct Author {
    pub email: Option<String>,
    pub name: Option<String>,
}

#[derive(Debug, Clone, PartialEq)]
pub struct Link {
    pub href: Option<String>,
    pub rel: Option<String>,
    pub link_type: Option<String>,
}

#[derive(Debug, Clone, PartialEq)]
pub struct Category {
    pub label: Option<String>,
    pub scheme: Option<String>,
    pub term: Option<String>,
}

#[derive(Debug, Clone, PartialEq)]
pub struct Summary {
    pub summary_type: Option<String>,
    pub summary: Option<String>,
}

#[derive(Debug, Clone, PartialEq)]
pub struct CurrentEntry {
    pub id: Option<String>,
    pub updated: Option<String>,
    pub title: Option<String>,
    pub link: Option<Link>,
    pub category: Option<Category>,
    pub summary: Option<Summary>,
}

/// The current-events Atom feed.
#[derive(Debug, Clone, PartialEq)]
pub struct CurrentFeed {
    pub id: Option<String>,
    pub title: Option<String>,
    pub updated: Option<String>,
    pub author: Option<Author>,
    pub entries: Vec<CurrentEntry>,
    pub links: Vec<Link>,
}

#[derive(Debug, Clone, PartialEq)]
pub struct Address {
    pub address_type: Option<String>,
    pub city: Option<String>,
    pub phone: Option<String>,
    pub state: Option<String>,
    pub street1: Option<String>,
    pub street2: Option<String>,
    pub zip: Option<String>,
}

#[derive(Debug, Clone, PartialEq)]
pub struct Addresses {
    pub addresses: Vec<Address>,
}

#[derive(Debug, Clone, PartialEq)]
pub struct CompanyInfo {
    pub addresses: Option<Addresses>,
    pub assigned_sic: Option<i32>,
    pub assigned_sic_desc: Option<String>,
    pub assigned_sic_href: Option<String>,
    pub cik: Option<String>,
    pub cik_href: Option<String>,
    pub conformed_name: Option<String>,
    pub fiscal_year_end: Option<i32>,
    pub office: Option<String>,
    pub state_location: Option<String>,
    pub state_location_href: Option<String>,
    pub state_of_incorporation: Option<String>,
}

#[derive(Debug, Clone, PartialEq)]
pub struct Content {
    pub content_type: Option<String>,
    pub accession_number: Option<String>,
    pub act: Option<String>,
    pub file_number: Option<String>,
    pub file_number_href: Option<String>,
    pub filing_date: Option<String>,
    pub filing_href: Option<String>,
    pub filing_type: Option<String>,
    pub film_number: Option<i32>,
    pub form_name: Option<String>,
    pub items_desc: Option<String>,
    pub size: Option<String>,
    pub xbrl_href: Option<String>,
}

#[derive(Debug, Clone, PartialEq)]
pub struct CompanyEntry {
    pub category: Option<Category>,
    pub content: Option<Content>,
    pub id: Option<String>,
    pub link: Option<Link>,
    pub summary: Option<Summary>,
    pub title: Option<String>,
    pub updated: Option<String>,
}

/// The per-company Atom feed.
#[derive(Debug, Clone, PartialEq)]
pub struct CompanyFeed {
    pub id: Option<String>,
    pub title: Option<String>,
    pub updated: Option<String>,
    pub author: Option<Author>,
    pub company_info: Option<CompanyInfo>,
    pub entries: Vec<CompanyEntry>,
    pub links: Vec<Link>,
}

#[derive(Debug, Clone, PartialEq)]
pub struct Enclosure {
    pub url: Option<String>,
    pub length: Option<i32>,
    pub mime_type: Option<String>,
}

#[derive(Debug, Clone, PartialEq)]
pub struct File {
    pub sequence: Option<i32>,
    pub file: Option<String>,
    pub file_type: Option<String>,
    pub size: Option<i32>,
    pub description: Option<String>,
    pub url: Option<String>,
}

#[derive(Debug, Clone, PartialEq)]
pub struct Filing {
    pub cik: Option<String>,
    pub company_name: Option<String>,
    pub filing_date: Option<String>,
    pub acceptance_datetime: Option<String>,
    pub period: Option<String>,
    pub accession_number: Option<String>,
    pub file_number: Option<String>,
    pub form_type: Option<String>,
    pub assistant_director: Option<String>,
    pub assigned_sic: Option<i32>,
    pub fiscal_year_end: Option<String>,
    pub files: Vec<File>,
}

#[derive(Debug, Clone, PartialEq)]
pub struct FilingItem {
    pub title: Option<String>,
    pub link: Option<String>,
    pub guid: Option<String>,
    pub enclosure: Option<Enclosure>,
    pub description: Option<String>,
    pub pub_date: Option<String>,
    pub filing: Option<Filing>,
}

/// The XBRL filing RSS feed.
#[derive(Debug, Clone, PartialEq)]
pub struct FilingFeed {
    pub title: Option<String>,
    pub link: Option<String>,
    pub description: Option<String>,
    pub language: Option<String>,
    pub items: Vec<FilingItem>,
    pub pub_date: Option<String>,
    pub last_build_date: Option<String>,
}

pub struct ItemView {
    pub title: Option<Seq<char>>,
    pub link: Option<Seq<char>>,
    pub description: Option<Seq<char>>,
    pub category: Option<Seq<char>>,
    pub pub_date: Option<Seq<char>>,
}

pub struct RSSFeedView {
    pub title: Option<Seq<char>>,
    pub link: Option<Seq<char>>,
    pub description: Option<Seq<char>>,
    pub language: Option<Seq<char>>,
    pub items: Seq<ItemView>,
    pub pub_date: Option<Seq<char>>,
    pub last_build_date: Option<Seq<char>>,
}

pub struct AuthorView {
    pub email: Option<Seq<char>>,
    pub name: Option<Seq<char>>,
}

pub struct LinkView {
    pub href: Option<Seq<char>>,
    pub rel: Option<Seq<char>>,
    pub link_type: Option<Seq<char>>,
}

pub struct CategoryView {
    pub label: Option<Seq<char>>,
    pub scheme: Option<Seq<char>>,
    pub term: Option<Seq<char>>,
}

pub struct SummaryView {
    pub summary_type: Option<Seq<char>>,
    pub summary: Option<Seq<char>>,
}

pub struct CurrentEntryView {
    pub id: Option<Seq<char>>,
    pub updated: Option<Seq<char>>,
    pub title: Option<Seq<char>>,
    pub link: Option<LinkView>,
    pub category: Option<CategoryView>,
    pub summary: Option<SummaryView>,
}

pub struct CurrentFeedView {
    pub id: Option<Seq<char>>,
    pub title: Option<Seq<char>>,
    pub updated: Option<Seq<char>>,
    pub author: Option<AuthorView>,
    pub entries: Seq<CurrentEntryView>,
    pub links: Seq<LinkView>,
}

pub struct AddressView {
    pub address_type: Option<Seq<char>>,
    pub city: Option<Seq<char>>,
    pub phone: Option<Seq<char>>,
    pub state: Option<Seq<char>>,
    pub street1: Option<Seq<char>>,
    pub street2: Option<Seq<char>>,
    pub zip: Option<Seq<char>>,
}

pub struct AddressesView {
    pub addresses: Seq<AddressView>,
}

pub struct CompanyInfoView {
    pub addresses: Option<AddressesView>,
    pub assigned_sic: Option<i32>,
    pub assigned_sic_desc: Option<Seq<char>>,
    pub assigned_sic_href: Option<Seq<char>>,
    pub cik: Option<Seq<char>>,
    pub cik_href: Option<Seq<char>>,
    pub conformed_name: Option<Seq<char>>,
    pub fiscal_year_end: Option<i32>,
    pub office: Option<Seq<char>>,
    pub state_location: Option<Seq<char>>,
    pub state_location_href: Option<Seq<char>>,
    pub state_of_incorporation: Option<Seq<char>>,
}

pub struct ContentView {
    pub content_type: Option<Seq<char>>,
    pub accession_number: Option<Seq<char>>,
    pub act: Option<Seq<char>>,
    pub file_number: Option<Seq<char>>,
    pub file_number_href: Option<Seq<char>>,
    pub filing_date: Option<Seq<char>>,
    pub filing_href: Option<Seq<char>>,
    pub filing_type: Option<Seq<char>>,
    pub film_number: Option<i32>,
    pub form_name: Option<Seq<char>>,
    pub items_desc: Option<Seq<char>>,
    pub size: Option<Seq<char>>,
    pub xbrl_href: Option<Seq<char>>,
}

pub struct CompanyEntryView {
    pub category: Option<CategoryView>,
    pub content: Option<ContentView>,
    pub id: Option<Seq<char>>,
    pub link: Option<LinkView>,
    pub summary: Option<SummaryView>,
    pub title: Option<Seq<char>>,
    pub updated: Option<Seq<char>>,
}

pub struct CompanyFeedView {
    pub id: Option<Seq<char>>,
    pub title: Option<Seq<char>>,
    pub updated: Option<Seq<char>>,
    pub author: Option<AuthorView>,
    pub company_info: Option<CompanyInfoView>,
    pub entries: Seq<CompanyEntryView>,
    pub links: Seq<LinkView>,
}

pub struct EnclosureView {
    pub url: Option<Seq<char>>,
    pub length: Option<i32>,
    pub mime_type: Option<Seq<char>>,
}

pub struct FileView {
    pub sequence: Option<i32>,
    pub file: Option<Seq<char>>,
    pub file_type: Option<Seq<char>>,
    pub size: Option<i32>,
    pub description: Option<Seq<char>>,
    pub url: Option<Seq<char>>,
}

pub struct FilingView {
    pub cik: Option<Seq<char>>,
    pub company_name: Option<Seq<char>>,
    pub filing_date: Option<Seq<char>>,
    pub acceptance_datetime: Option<Seq<char>>,
    pub period: Option<Seq<char>>,
    pub accession_number: Option<Seq<char>>,
    pub file_number: Option<Seq<char>>,
    pub form_type: Option<Seq<char>>,
    pub assistant_director: Option<Seq<char>>,
    pub assigned_sic: Option<i32>,
    pub fiscal_year_end: Option<Seq<char>>,
    pub files: Seq<FileView>,
}

pub struct FilingItemView {
    pub title: Option<Seq<char>>,
    pub link: Option<Seq<char>>,
    pub guid: Option<Seq<char>>,
    pub enclosure: Option<EnclosureView>,
    pub description: Option<Seq<char>>,
    pub pub_date: Option<Seq<char>>,
    pub filing: Option<FilingView>,
}

pub struct FilingFeedView {
    pub title: Option<Seq<char>>,
    pub link: Option<Seq<char>>,
    pub description: Option<Seq<char>>,
    pub language: Option<Seq<char>>,
    pub items: Seq<FilingItemView>,
    pub pub_date: Option<Seq<char>>,
    pub last_build_date: Option<Seq<char>>,
}

impl DeepView for Item {
    type V = ItemView;

    open spec fn deep_view(&self) -> ItemView {
        ItemView {
            title: self.title.deep_view(),
            link: self.link.deep_view(),
            description: self.description.deep_view(),
            category: self.category.deep_view(),
            pub_date: self.pub_date.deep_view(),
        }
    }
}

impl DeepView for RSSFeed {
    type V = RSSFeedView;

    open spec fn deep_view(&self) -> RSSFeedView {
        RSSFeedView {
            title: self.title.deep_view(),
            link: self.link.deep_view(),
            description: self.description.deep_view(),
            language: self.language.deep_view(),
            items: self.items.deep_view(),
            pub_date: self.pub_date.deep_view(),
            last_build_date: self.last_build_date.deep_view(),
        }
    }
}

impl DeepView for Author {
    type V = AuthorView;

    open spec fn deep_view(&self) -> AuthorView {
        AuthorView { email: self.email.deep_view(), name: self.name.deep_view() }
    }
}

impl DeepView for Link {
    type V = LinkView;

    open spec fn deep_view(&self) -> LinkView {
        LinkView {
            href: self.href.deep_view(),
            rel: self.rel.deep_view(),
            link_type: self.link_type.deep_view(),
        }
    }
}

impl DeepView for Category {
    type V = CategoryView;

    open spec fn deep_view(&self) -> CategoryView {
        CategoryView {
            label: self.label.deep_view(),
            scheme: self.scheme.deep_view(),
            term: self.term.deep_view(),
        }
    }
}

impl DeepView for Summary {
    type V = SummaryView;

    open spec fn deep_view(&self) -> SummaryView {
        SummaryView {
            summary_type: self.summary_type.deep_view(),
            summary: self.summary.deep_view(),
        }
    }
}

impl DeepView for CurrentEntry {
    type V = CurrentEntryView;

    open spec fn deep_view(&self) -> CurrentEntryView {
        CurrentEntryView {
            id: self.id.deep_view(),
            updated: self.updated.deep_view(),
            title: self.title.deep_view(),
            link: self.link.deep_view(),
            category: self.category.deep_view(),
            summary: self.summary.deep_view(),
        }
    }
}

impl DeepView for CurrentFeed {
    type V = CurrentFeedView;

    open spec fn deep_view(&self) -> CurrentFeedView {
        CurrentFeedView {
            id: self.id.deep_view(),
            title: self.title.deep_view(),
            updated: self.updated.deep_view(),
            author: self.author.deep_view(),
            entries: self.entries.deep_view(),
            links: self.links.deep_view(),
        }
    }
}

impl DeepView for Address {
    type V = AddressView;

    open spec fn deep_view(&self) -> AddressView {
        AddressView {
            address_type: self.address_type.deep_view(),
            city: self.city.deep_view(),
            phone: self.phone.deep_view(),
            state: self.state.deep_view(),
            street1: self.street1.deep_view(),
            street2: self.street2.deep_view(),
            zip: self.zip.deep_view(),
        }
    }
}

impl DeepView for Addresses {
    type V = AddressesView;

    open spec fn deep_view(&self) -> AddressesView {
        AddressesView { addresses: self.addresses.deep_view() }
    }
}

impl DeepView for CompanyInfo {
    type V = CompanyInfoView;

    open spec fn deep_view(&self) -> CompanyInfoView {
        CompanyInfoView {
            addresses: self.addresses.deep_view(),
            assigned_sic: self.assigned_sic.deep_view(),
            assigned_sic_desc: self.assigned_sic_desc.deep_view(),
            assigned_sic_href: self.assigned_sic_href.deep_view(),
            cik: self.cik.deep_view(),
            cik_href: self.cik_href.deep_view(),
            conformed_name: self.conformed_name.deep_view(),
            fiscal_year_end: self.fiscal_year_end.deep_view(),
            office: self.office.deep_view(),
            state_location: self.state_location.deep_view(),
            state_location_href: self.state_location_href.deep_view(),
            state_of_incorporation: self.state_of_incorporation.deep_view(),
        }
    }
}

impl DeepView for Content {
    type V = ContentView;

    open spec fn deep_view(&self) -> ContentView {
        ContentView {
            content_type: self.content_type.deep_view(),
            accession_number: self.accession_number.deep_view(),
            act: self.act.deep_view(),
            file_number: self.file_number.deep_view(),
            file_number_href: self.file_number_href.deep_view(),
            filing_date: self.filing_date.deep_view(),
            filing_href: self.filing_href.deep_view(),
            filing_type: self.filing_type.deep_view(),
            film_number: self.film_number.deep_view(),
            form_name: self.form_name.deep_view(),
            items_desc: self.items_desc.deep_view(),
            size: self.size.deep_view(),
            xbrl_href: self.xbrl_href.deep_view(),
        }
    }
}

impl DeepView for CompanyEntry {
    type V = CompanyEntryView;

    open spec fn deep_view(&self) -> CompanyEntryView {
        CompanyEntryView {
            category: self.category.deep_view(),
            content: self.content.deep_view(),
            id: self.id.deep_view(),
            link: self.link.deep_view(),
            summary: self.summary.deep_view(),
            title: self.title.deep_view(),
            updated: self.updated.deep_view(),
        }
    }
}

impl DeepView for CompanyFeed {
    type V = CompanyFeedView;

    open spec fn deep_view(&self) -> CompanyFeedView {
        CompanyFeedView {
            id: self.id.deep_view(),
            title: self.title.deep_view(),
            updated: self.updated.deep_view(),
            author: self.author.deep_view(),
            company_info: self.company_info.deep_view(),
            entries: self.entries.deep_view(),
            links: self.links.deep_view(),
        }
    }
}

impl DeepView for Enclosure {
    type V = EnclosureView;

    open spec fn deep_view(&self) -> EnclosureView {
        EnclosureView {
            url: self.url.deep_view(),
            length: self.length.deep_view(),
            mime_type: self.mime_type.deep_view(),
        }
    }
}

impl DeepView for File {
    type V = FileView;

    open spec fn deep_view(&self) -> FileView {
        FileView {
            sequence: self.sequence.deep_view(),
            file: self.file.deep_view(),
            file_type: self.file_type.deep_view(),
            size: self.size.deep_view(),
            description: self.description.deep_view(),
            url: self.url.deep_view(),
        }
    }
}

impl DeepView for Filing {
    type V = FilingView;

    open spec fn deep_view(&self) -> FilingView {
        FilingView {
            cik: self.cik.deep_view(),
            company_name: self.company_name.deep_view(),
            filing_date: self.filing_date.deep_view(),
            acceptance_datetime: self.acceptance_datetime.deep_view(),
            period: self.period.deep_view(),
            accession_number: self.accession_number.deep_view(),
            file_number: self.file_number.deep_view(),
            form_type: self.form_type.deep_view(),
            assistant_director: self.assistant_director.deep_view(),
            assigned_sic: self.assigned_sic.deep_view(),
            fiscal_year_end: self.fiscal_year_end.deep_view(),
            files: self.files.deep_view(),
        }
    }
}

impl DeepView for FilingItem {
    type V = FilingItemView;

    open spec fn deep_view(&self) -> FilingItemView {
        FilingItemView {
            title: self.title.deep_view(),
            link: self.link.deep_view(),
            guid: self.guid.deep_view(),
            enclosure: self.enclosure.deep_view(),
            description: self.description.deep_view(),
            pub_date: self.pub_date.deep_view(),
            filing: self.filing.deep_view(),
        }
    }
}

impl DeepView for FilingFeed {
    type V = FilingFeedView;

    open spec fn deep_view(&self) -> FilingFeedView {
        FilingFeedView {
            title: self.title.deep_view(),
            link: self.link.deep_view(),
            description: self.description.deep_view(),
            language: self.language.deep_view(),
            items: self.items.deep_view(),
            pub_date: self.pub_date.deep_view(),
            last_build_date: self.last_build_date.deep_view(),
        }
    }
}

pub open spec fn spec_link_node(c: XmlNode) -> LinkView {
    LinkView {
        href: attr_of(c, "href"@),
        rel: attr_of(c, "rel"@),
        link_type: attr_of(c, "type"@),
    }
}

pub open spec fn spec_link(n: XmlNode) -> Option<LinkView> {
    match child_of(n, "link"@) {
        Some(c) => Some(spec_link_node(c)),
        None => None,
    }
}

fn parse_link(node: &XmlNode) -> (r: Option<Link>)
    ensures
        r.deep_view() == spec_link(*node),
{
    match find_child(node, "link") {
        Some(c) => Some(
            Link {
                href: find_attr(c, "href"),
                rel: find_attr(c, "rel"),
                link_type: find_attr(c, "type"),
            },
        ),
        None => None,
    }
}

/// Every `link` child of `s` at or after `i`, in document order.
pub open spec fn spec_links(s: Seq<XmlNode>, i: int) -> Seq<LinkView>
    decreases s.len() - i,
{
    if i < 0 || i >= s.len() {
        Seq::empty()
    } else {
        let rest = spec_links(s, i + 1);
        if s[i].tag@ == "link"@ {
            seq![spec_link_node(s[i])] + rest
        } else {
            rest
        }
    }
}

fn parse_links(node: &XmlNode) -> (r: Vec<Link>)
    ensures
        r.deep_view() == spec_links(node.children@, 0),
{
    let mut out: Vec<Link> = Vec::new();
    let n = node.children.len();
    let mut i: usize = 0;
    while i < n
        invariant
            0 <= i <= n,
            n == node.children@.len(),
            spec_links(node.children@, 0) == out.deep_view() + spec_links(
                node.children@,
                i as int,
            ),
        decreases n - i,
    {
        let ghost s = node.children@;
        let c = &node.children[i];
        if str_eq(c.tag.as_str(), "link") {
            let ghost pre = out.deep_view();
            let item = Link {
                href: find_attr(c, "href"),
                rel: find_attr(c, "rel"),
                link_type: find_attr(c, "type"),
            };
            out.push(item);
            proof {
                assert(out.deep_view() =~~= pre.push(out@.last().deep_view()));
                assert(pre + (seq![out@.last().deep_view()] + spec_links(s, i + 1 as int))
                    =~~= out.deep_view() + spec_links(s, i + 1 as int));
            }
        }
        i += 1;
    }
    proof {
        assert(out.deep_view() + spec_links(node.children@, n as int) =~~= out.deep_view());
    }
    out
}

pub open spec fn spec_category(n: XmlNode) -> Option<CategoryView> {
    match child_of(n, "category"@) {
        Some(c) => Some(
            CategoryView {
                label: attr_of(c, "label"@),
                scheme: attr_of(c, "scheme"@),
                term: attr_of(c, "term"@),
            },
        ),
        None => None,
    }
}

fn parse_category(node: &XmlNode) -> (r: Option<Category>)
    ensures
        r.deep_view() == spec_category(*node),
{
    match find_child(node, "category") {
        Some(c) => Some(
            Category {
                label: find_attr(c, "label"),
                scheme: find_attr(c, "scheme"),
                term: find_attr(c, "term"),
            },
        ),
        None => None,
    }
}

pub open spec fn spec_summary(n: XmlNode) -> Option<SummaryView> {
    match child_of(n, "summary"@) {
        Some(c) => Some(SummaryView { summary_type: attr_of(c, "type"@), summary: text_of(c) }),
        None => None,
    }
}

fn parse_summary(node: &XmlNode) -> (r: Option<Summary>)
    ensures
        r.deep_view() == spec_summary(*node),
{
    match find_child(node, "summary") {
        Some(c) => Some(Summary { summary_type: find_attr(c, "type"), summary: text_string(c) }),
        None => None,
    }
}

pub open spec fn spec_author(n: XmlNode) -> Option<AuthorView> {
    match child_of(n, "author"@) {
        Some(c) => Some(AuthorView { email: child_text(c, "email"@), name: child_text(c, "name"@) }),
        None => None,
    }
}

fn parse_author(node: &XmlNode) -> (r: Option<Author>)
    ensures
        r.deep_view() == spec_author(*node),
{
    match find_child(node, "author") {
        Some(c) => Some(Author { email: opt_string(c, "email"), name: opt_string(c, "name") }),
        None => None,
    }
}

pub open spec fn spec_rss_item(c: XmlNode) -> ItemView {
    ItemView {
        title: child_text(c, "title"@),
        link: child_text(c, "link"@),
        description: child_text(c, "description"@),
        category: child_text(c, "category"@),
        pub_date: child_text(c, "pubDate"@),
    }
}

/// Every `item` child of `s` at or after `i`, in document order.
pub open spec fn spec_rss_items(s: Seq<XmlNode>, i: int) -> Seq<ItemView>
    decreases s.len() - i,
{
    if i < 0 || i >= s.len() {
        Seq::empty()
    } else {
        let rest = spec_rss_items(s, i + 1);
        if s[i].tag@ == "item"@ {
            seq![spec_rss_item(s[i])] + rest
        } else {
            rest
        }
    }
}

fn parse_rss_items(channel: &XmlNode) -> (r: Vec<Item>)
    ensures
        r.deep_view() == spec_rss_items(channel.children@, 0),
{
    let mut out: Vec<Item> = Vec::new();
    let n = channel.children.len();
    let mut i: usize = 0;
    while i < n
        invariant
            0 <= i <= n,
            n == channel.children@.len(),
            spec_rss_items(channel.children@, 0) == out.deep_view() + spec_rss_items(
                channel.children@,
                i as int,
            ),
        decreases n - i,
    {
        let ghost s = channel.children@;
        let c = &channel.children[i];
        if str_eq(c.tag.as_str(), "item") {
            let ghost pre = out.deep_view();
            let item = Item {
                title: opt_string(c, "title"),
                link: opt_string(c, "link"),
                description: opt_string(c, "description"),
                category: opt_string(c, "category"),
                pub_date: opt_string(c, "pubDate"),
            };
            out.push(item);
            proof {
                assert(out.deep_view() =~~= pre.push(out@.last().deep_view()));
                assert(pre + (seq![out@.last().deep_view()] + spec_rss_items(s, i + 1 as int))
                    =~~= out.deep_view() + spec_rss_items(s, i + 1 as int));
            }
        }
        i += 1;
    }
    proof {
        assert(out.deep_view() + spec_rss_items(channel.children@, n as int) =~~= out.deep_view());
    }
    out
}

/// What the channel element of the plain RSS feed decodes to.
pub open spec fn spec_rss_feed(channel: XmlNode) -> RSSFeedView {
    RSSFeedView {
        title: child_text(channel, "title"@),
        link: child_text(channel, "link"@),
        description: child_text(channel, "description"@),
        language: child_text(channel, "language"@),
        items: spec_rss_items(channel.children@, 0),
        pub_date: child_text(channel, "pubDate"@),
        last_build_date: child_text(channel, "lastBuildDate"@),
    }
}

/// Decodes the plain RSS feed from its root element: the channel is the
/// root's first element child, and its absence is the document's error.
pub fn rss_from_tree(root: &XmlNode) -> (r: Result<RSSFeed, ParseError>)
    ensures
        match r {
            Ok(f) => root.children@.len() > 0 && f.deep_view() == spec_rss_feed(
                root.children@[0],
            ),
            Err(e) => root.children@.len() == 0 && e.deep_view()
                == ParseErrorView::MissingRequiredElement("channel"@),
        },
{
    if root.children.len() == 0 {
        return Err(missing_element("channel"));
    }
    let channel = &root.children[0];
    Ok(
        RSSFeed {
            title: opt_string(channel, "title"),
            link: opt_string(channel, "link"),
            description: opt_string(channel, "description"),
            language: opt_string(channel, "language"),
            items: parse_rss_items(channel),
            pub_date: opt_string(channel, "pubDate"),
            last_build_date: opt_string(channel, "lastBuildDate"),
        },
    )
}

/// Parses the plain RSS filing feed.
pub fn parse_rss_feed(xml: &str) -> (r: Result<RSSFeed, ParseError>)
    ensures
        match xml_parse(xml@) {
            Ok(root) => match r {
                Ok(f) => root.children@.len() > 0 && f.deep_view() == spec_rss_feed(
                    root.children@[0],
                ),
                Err(e) => root.children@.len() == 0 && e.deep_view()
                    == ParseErrorView::MissingRequiredElement("channel"@),
            },
            Err(d) => r matches Err(ParseError::MalformedXml(m)) && m@ == d,
        },
{
    match parse_tree(xml) {
        Ok(root) => rss_from_tree(&root),
        Err(msg) => Err(ParseError::MalformedXml(msg)),
    }
}

pub open spec fn spec_current_entry(c: XmlNode) -> CurrentEntryView {
    CurrentEntryView {
        id: child_text(c, "id"@),
        updated: child_text(c, "updated"@),
        title: child_text(c, "title"@),
        link: spec_link(c),
        category: spec_category(c),
        summary: spec_summary(c),
    }
}

/// Every `entry` child of `s` at or after `i`, in document order.
pub open spec fn spec_current_entries(s: Seq<XmlNode>, i: int) -> Seq<CurrentEntryView>
    decreases s.len() - i,
{
    if i < 0 || i >= s.len() {
        Seq::empty()
    } else {
        let rest = spec_current_entries(s, i + 1);
        if s[i].tag@ == "entry"@ {
            seq![spec_current_entry(s[i])] + rest
        } else {
            rest
        }
    }
}

fn parse_current_entries(root: &XmlNode) -> (r: Vec<CurrentEntry>)
    ensures
        r.deep_view() == spec_current_entries(root.children@, 0),
{
    let mut out: Vec<CurrentEntry> = Vec::new();
    let n = root.children.len();
    let mut i: usize = 0;
    while i < n
        invariant
            0 <= i <= n,
            n == root.children@.len(),
            spec_current_entries(root.children@, 0) == out.deep_view() + spec_current_entries(
                root.children@,
                i as int,
            ),
        decreases n - i,
    {
        let ghost s = root.children@;
        let c = &root.children[i];
        if str_eq(c.tag.as_str(), "entry") {
            let ghost pre = out.deep_view();
            let item = CurrentEntry {
                id: opt_string(c, "id"),
                updated: opt_string(c, "updated"),
                title: opt_string(c, "title"),
                link: parse_link(c),
                category: parse_category(c),
                summary: parse_summary(c),
            };
            out.push(item);
            proof {
                assert(out.deep_view() =~~= pre.push(out@.last().deep_view()));
                assert(pre + (seq![out@.last().deep_view()] + spec_current_entries(s, i + 1 as int))
                    =~~= out.deep_view() + spec_current_entries(s, i + 1 as int));
            }
        }
        i += 1;
    }
    proof {
        assert(out.deep_view() + spec_current_entries(root.children@, n as int)
            =~~= out.deep_view());
    }
    out
}

/// What the current-events Atom feed decodes to; nothing in it can fail.
pub open spec fn spec_current_feed(root: XmlNode) -> CurrentFeedView {
    CurrentFeedView {
        id: child_text(root, "id"@),
        title: child_text(root, "title"@),
        updated: child_text(root, "updated"@),
        author: spec_author(root),
        entries: spec_current_entries(root.children@, 0),
        links: spec_links(root.children@, 0),
    }
}

/// Decodes the current-events Atom feed from its root element.
pub fn current_from_tree(root: &XmlNode) -> (r: CurrentFeed)
    ensures
        r.deep_view() == spec_current_feed(*root),
{
    CurrentFeed {
        id: opt_string(root, "id"),
        title: opt_string(root, "title"),
        updated: opt_string(root, "updated"),
        author: parse_author(root),
        entries: parse_current_entries(root),
        links: parse_links(root),
    }
}

/// Parses the current-events Atom feed.
pub fn parse_current_feed(xml: &str) -> (r: Result<CurrentFeed, ParseError>)
    ensures
        match xml_parse(xml@) {
            Ok(root) => r matches Ok(f) && f.deep_view() == spec_current_feed(root),
            Err(d) => r matches Err(ParseError::MalformedXml(m)) && m@ == d,
        },
{
    match parse_tree(xml) {
        Ok(root) => Ok(current_from_tree(&root)),
        Err(msg) => Err(ParseError::MalformedXml(msg)),
    }
}

pub open spec fn spec_address(c: XmlNode) -> AddressView {
    AddressView {
        address_type: child_text(c, "address-type"@),
        city: child_text(c, "city"@),
        phone: child_text(c, "phone"@),
        state: child_text(c, "state"@),
        street1: child_text(c, "street1"@),
        street2: child_text(c, "street2"@),
        zip: child_text(c, "zip"@),
    }
}

/// Every `address` child of `s` at or after `i`, in document order.
pub open spec fn spec_address_items(s: Seq<XmlNode>, i: int) -> Seq<AddressView>
    decreases s.len() - i,
{
    if i < 0 || i >= s.len() {
        Seq::empty()
    } else {
        let rest = spec_address_items(s, i + 1);
        if s[i].tag@ == "address"@ {
            seq![spec_address(s[i])] + rest
        } else {
            rest
        }
    }
}

fn parse_address_items(container: &XmlNode) -> (r: Vec<Address>)
    ensures
        r.deep_view() == spec_address_items(container.children@, 0),
{
    let mut out: Vec<Address> = Vec::new();
    let n = container.children.len();
    let mut i: usize = 0;
    while i < n
        invariant
            0 <= i <= n,
            n == container.children@.len(),
            spec_address_items(container.children@, 0) == out.deep_view() + spec_address_items(
                container.children@,
                i as int,
            ),
        decreases n - i,
    {
        let ghost s = container.children@;
        let c = &container.children[i];
        if str_eq(c.tag.as_str(), "address") {
            let ghost pre = out.deep_view();
            let item = Address {
                address_type: opt_string(c, "address-type"),
                city: opt_string(c, "city"),
                phone: opt_string(c, "phone"),
                state: opt_string(c, "state"),
                street1: opt_string(c, "street1"),
                street2: opt_string(c, "street2"),
                zip: opt_string(c, "zip"),
            };
            out.push(item);
            proof {
                assert(out.deep_view() =~~= pre.push(out@.last().deep_view()));
                assert(pre + (seq![out@.last().deep_view()] + spec_address_items(s, i + 1 as int))
                    =~~= out.deep_view() + spec_address_items(s, i + 1 as int));
            }
        }
        i += 1;
    }
    proof {
        assert(out.deep_view() + spec_address_items(container.children@, n as int)
            =~~= out.deep_view());
    }
    out
}

pub open spec fn spec_company_info(n: XmlNode) -> Option<CompanyInfoView> {
    match child_of(n, "company-info"@) {
        Some(c) => Some(
            CompanyInfoView {
                addresses: match child_of(c, "addresses"@) {
                    Some(a) => Some(
                        AddressesView { addresses: spec_address_items(a.children@, 0) },
                    ),
                    None => None,
                },
                assigned_sic: opt_i32_of(c, "assigned-sic"@),
                assigned_sic_desc: child_text(c, "assigned-sic-desc"@),
                assigned_sic_href: child_text(c, "assigned-sic-href"@),
                cik: child_text(c, "cik"@),
                cik_href: child_text(c, "cik-href"@),
                conformed_name: child_text(c, "conformed-name"@),
                fiscal_year_end: opt_i32_of(c, "fiscal-year-end"@),
                office: child_text(c, "office"@),
                state_location: child_text(c, "state-location"@),
                state_location_href: child_text(c, "state-location-href"@),
                state_of_incorporation: child_text(c, "state-of-incorporation"@),
            },
        ),
        None => None,
    }
}

fn parse_company_info(node: &XmlNode) -> (r: Option<CompanyInfo>)
    ensures
        r.deep_view() == spec_company_info(*node),
{
    match find_child(node, "company-info") {
        Some(c) => {
            let addresses = match find_child(c, "addresses") {
                Some(a) => Some(Addresses { addresses: parse_address_items(a) }),
                None => None,
            };
            Some(
                CompanyInfo {
                    addresses,
                    assigned_sic: opt_i32(c, "assigned-sic"),
                    assigned_sic_desc: opt_string(c, "assigned-sic-desc"),
                    assigned_sic_href: opt_string(c, "assigned-sic-href"),
                    cik: opt_string(c, "cik"),
                    cik_href: opt_string(c, "cik-href"),
                    conformed_name: opt_string(c, "conformed-name"),
                    fiscal_year_end: opt_i32(c, "fiscal-year-end"),
                    office: opt_string(c, "office"),
                    state_location: opt_string(c, "state-location"),
                    state_location_href: opt_string(c, "state-location-href"),
                    state_of_incorporation: opt_string(c, "state-of-incorporation"),
                },
            )
        },
        None => None,
    }
}

pub open spec fn spec_content(n: XmlNode) -> Option<ContentView> {
    match child_of(n, "content"@) {
        Some(c) => Some(
            ContentView {
                content_type: attr_of(c, "type"@),
                accession_number: child_text(c, "accession-number"@),
                act: child_text(c, "act"@),
                file_number: child_text(c, "file-number"@),
                file_number_href: child_text(c, "file-number-href"@),
                filing_date: child_text(c, "filing-date"@),
                filing_href: child_text(c, "filing-href"@),
                filing_type: child_text(c, "filing-type"@),
                film_number: opt_i32_of(c, "film-number"@),
                form_name: child_text(c, "form-name"@),
                items_desc: child_text(c, "items-desc"@),
                size: child_text(c, "size"@),
                xbrl_href: child_text(c, "xbrl_href"@),
            },
        ),
        None => None,
    }
}

fn parse_content(node: &XmlNode) -> (r: Option<Content>)
    ensures
        r.deep_view() == spec_content(*node),
{
    match find_child(node, "content") {
        Some(c) => Some(
            Content {
                content_type: find_attr(c, "type"),
                accession_number: opt_string(c, "accession-number"),
                act: opt_string(c, "act"),
                file_number: opt_string(c, "file-number"),
                file_number_href: opt_string(c, "file-number-href"),
                filing_date: opt_string(c, "filing-date"),
                filing_href: opt_string(c, "filing-href"),
                filing_type: opt_string(c, "filing-type"),
                film_number: opt_i32(c, "film-number"),
                form_name: opt_string(c, "form-name"),
                items_desc: opt_string(c, "items-desc"),
                size: opt_string(c, "size"),
                xbrl_href: opt_string(c, "xbrl_href"),
            },
        ),
        None => None,
    }
}

pub open spec fn spec_company_entry(c: XmlNode) -> CompanyEntryView {
    CompanyEntryView {
        category: spec_category(c),
        content: spec_content(c),
        id: child_text(c, "id"@),
        link: spec_link(c),
        summary: spec_summary(c),
        title: child_text(c, "title"@),
        updated: child_text(c, "updated"@),
    }
}

/// Every `entry` child of `s` at or after `i`, in document order.
pub open spec fn spec_company_entries(s: Seq<XmlNode>, i: int) -> Seq<CompanyEntryView>
    decreases s.len() - i,
{
    if i < 0 || i >= s.len() {
        Seq::empty()
    } else {
        let rest = spec_company_entries(s, i + 1);
        if s[i].tag@ == "entry"@ {
            seq![spec_company_entry(s[i])] + rest
        } else {
            rest
        }
    }
}

fn parse_company_entries(root: &XmlNode) -> (r: Vec<CompanyEntry>)
    ensures
        r.deep_view() == spec_company_entries(root.children@, 0),
{
    let mut out: Vec<CompanyEntry> = Vec::new();
    let n = root.children.len();
    let mut i: usize = 0;
    while i < n
        invariant
            0 <= i <= n,
            n == root.children@.len(),
            spec_company_entries(root.children@, 0) == out.deep_view() + spec_company_entries(
                root.children@,
                i as int,
            ),
        decreases n - i,
    {
        let ghost s = root.children@;
        let c = &root.children[i];
        if str_eq(c.tag.as_str(), "entry") {
            let ghost pre = out.deep_view();
            let item = CompanyEntry {
                category: parse_category(c),
                content: parse_content(c),
                id: opt_string(c, "id"),
                link: parse_link(c),
                summary: parse_summary(c),
                title: opt_string(c, "title"),
                updated: opt_string(c, "updated"),
            };
            out.push(item);
            proof {
                assert(out.deep_view() =~~= pre.push(out@.last().deep_view()));
                assert(pre + (seq![out@.last().deep_view()] + spec_company_entries(s, i + 1 as int))
                    =~~= out.deep_view() + spec_company_entries(s, i + 1 as int));
            }
        }
        i += 1;
    }
    proof {
        assert(out.deep_view() + spec_company_entries(root.children@, n as int)
            =~~= out.deep_view());
    }
    out
}

/// What the per-company Atom feed decodes to; nothing in it can fail.
pub open spec fn spec_company_feed(root: XmlNode) -> CompanyFeedView {
    CompanyFeedView {
        id: child_text(root, "id"@),
        title: child_text(root, "title"@),
        updated: child_text(root, "updated"@),
        author: spec_author(root),
        company_info: spec_company_info(root),
        entries: spec_company_entries(root.children@, 0),
        links: spec_links(root.children@, 0),
    }
}

/// Decodes the per-company Atom feed from its root element.
pub fn company_from_tree(root: &XmlNode) -> (r: CompanyFeed)
    ensures
        r.deep_view() == spec_company_feed(*root),
{
    CompanyFeed {
        id: opt_string(root, "id"),
        title: opt_string(root, "title"),
        updated: opt_string(root, "updated"),
        author: parse_author(root),
        company_info: parse_company_info(root),
        entries: parse_company_entries(root),
        links: parse_links(root),
    }
}

/// Parses the per-company Atom feed.
pub fn parse_company_feed(xml: &str) -> (r: Result<CompanyFeed, ParseError>)
    ensures
        match xml_parse(xml@) {
            Ok(root) => r matches Ok(f) && f.deep_view() == spec_company_feed(root),
            Err(d) => r matches Err(ParseError::MalformedXml(m)) && m@ == d,
        },
{
    match parse_tree(xml) {
        Ok(root) => Ok(company_from_tree(&root)),
        Err(msg) => Err(ParseError::MalformedXml(msg)),
    }
}

pub open spec fn spec_enclosure(n: XmlNode) -> Option<EnclosureView> {
    match child_of(n, "enclosure"@) {
        Some(c) => Some(
            EnclosureView {
                url: attr_of(c, "url"@),
                length: attr_i32_of(c, "length"@),
                mime_type: attr_of(c, "type"@),
            },
        ),
        None => None,
    }
}

fn parse_enclosure(node: &XmlNode) -> (r: Option<Enclosure>)
    ensures
        r.deep_view() == spec_enclosure(*node),
{
    match find_child(node, "enclosure") {
        Some(c) => Some(
            Enclosure {
                url: find_attr(c, "url"),
                length: attr_i32(c, "length"),
                mime_type: find_attr(c, "type"),
            },
        ),
        None => None,
    }
}

pub open spec fn spec_file(c: XmlNode) -> FileView {
    FileView {
        sequence: attr_i32_of(c, "sequence"@),
        file: attr_of(c, "file"@),
        file_type: attr_of(c, "type"@),
        size: attr_i32_of(c, "size"@),
        description: attr_of(c, "description"@),
        url: attr_of(c, "url"@),
    }
}

/// The files one `xbrlFiles` container lists at or after `i`.
pub open spec fn spec_file_items(s: Seq<XmlNode>, i: int) -> Seq<FileView>
    decreases s.len() - i,
{
    if i < 0 || i >= s.len() {
        Seq::empty()
    } else {
        let rest = spec_file_items(s, i + 1);
        if s[i].tag@ == "xbrlFile"@ {
            seq![spec_file(s[i])] + rest
        } else {
            rest
        }
    }
}

/// The files all `xbrlFiles` containers at or after `i` list, flattened.
pub open spec fn spec_files(s: Seq<XmlNode>, i: int) -> Seq<FileView>
    decreases s.len() - i,
{
    if i < 0 || i >= s.len() {
        Seq::empty()
    } else {
        let rest = spec_files(s, i + 1);
        if s[i].tag@ == "xbrlFiles"@ {
            spec_file_items(s[i].children@, 0) + rest
        } else {
            rest
        }
    }
}

fn parse_file_items(container: &XmlNode) -> (r: Vec<File>)
    ensures
        r.deep_view() == spec_file_items(container.children@, 0),
{
    let mut out: Vec<File> = Vec::new();
    let n = container.children.len();
    let mut i: usize = 0;
    while i < n
        invariant
            0 <= i <= n,
            n == container.children@.len(),
            spec_file_items(container.children@, 0) == out.deep_view() + spec_file_items(
                container.children@,
                i as int,
            ),
        decreases n - i,
    {
        let ghost s = container.children@;
        let c = &container.children[i];
        if str_eq(c.tag.as_str(), "xbrlFile") {
            let ghost pre = out.deep_view();
            let item = File {
                sequence: attr_i32(c, "sequence"),
                file: find_attr(c, "file"),
                file_type: find_attr(c, "type"),
                size: attr_i32(c, "size"),
                description: find_attr(c, "description"),
                url: find_attr(c, "url"),
            };
            out.push(item);
            proof {
                assert(out.deep_view() =~~= pre.push(out@.last().deep_view()));
                assert(pre + (seq![out@.last().deep_view()] + spec_file_items(s, i + 1 as int))
                    =~~= out.deep_view() + spec_file_items(s, i + 1 as int));
            }
        }
        i += 1;
    }
    proof {
        assert(out.deep_view() + spec_file_items(container.children@, n as int)
            =~~= out.deep_view());
    }
    out
}

fn parse_files(node: &XmlNode) -> (r: Vec<File>)
    ensures
        r.deep_view() == spec_files(node.children@, 0),
{
    let mut out: Vec<File> = Vec::new();
    let n = node.children.len();
    let mut i: usize = 0;
    while i < n
        invariant
            0 <= i <= n,
            n == node.children@.len(),
            spec_files(node.children@, 0) == out.deep_view() + spec_files(
                node.children@,
                i as int,
            ),
        decreases n - i,
    {
        let ghost s = node.children@;
        let c = &node.children[i];
        if str_eq(c.tag.as_str(), "xbrlFiles") {
            let ghost pre = out.deep_view();
            let mut items = parse_file_items(c);
            let ghost mids = items.deep_view();
            out.append(&mut items);
            proof {
                assert(out.deep_view() =~~= pre + mids);
                assert(pre + (mids + spec_files(s, i + 1 as int)) =~~= (pre + mids) + spec_files(
                    s,
                    i + 1 as int,
                ));
            }
        }
        i += 1;
    }
    proof {
        assert(out.deep_view() + spec_files(node.children@, n as int) =~~= out.deep_view());
    }
    out
}

pub open spec fn spec_filing(n: XmlNode) -> Option<FilingView> {
    match child_of(n, "xbrlFiling"@) {
        Some(c) => Some(
            FilingView {
                cik: child_text(c, "cikNumber"@),
                company_name: child_text(c, "companyName"@),
                filing_date: child_text(c, "filingDate"@),
                acceptance_datetime: child_text(c, "acceptanceDatetime"@),
                period: child_text(c, "period"@),
                accession_number: child_text(c, "accessionNumber"@),
                file_number: child_text(c, "fileNumber"@),
                form_type: child_text(c, "formType"@),
                assistant_director: child_text(c, "assistantDirector"@),
                assigned_sic: opt_i32_of(c, "assignedSic"@),
                fiscal_year_end: child_text(c, "fiscalYearEnd"@),
                files: spec_files(c.children@, 0),
            },
        ),
        None => None,
    }
}

fn parse_filing(node: &XmlNode) -> (r: Option<Filing>)
    ensures
        r.deep_view() == spec_filing(*node),
{
    match find_child(node, "xbrlFiling") {
        Some(c) => Some(
            Filing {
                cik: opt_string(c, "cikNumber"),
                company_name: opt_string(c, "companyName"),
                filing_date: opt_string(c, "filingDate"),
                acceptance_datetime: opt_string(c, "acceptanceDatetime"),
                period: opt_string(c, "period"),
                accession_number: opt_string(c, "accessionNumber"),
                file_number: opt_string(c, "fileNumber"),
                form_type: opt_string(c, "formType"),
                assistant_director: opt_string(c, "assistantDirector"),
                assigned_sic: opt_i32(c, "assignedSic"),
                fiscal_year_end: opt_string(c, "fiscalYearEnd"),
                files: parse_files(c),
            },
        ),
        None => None,
    }
}

pub open spec fn spec_filing_item(c: XmlNode) -> FilingItemView {
    FilingItemView {
        title: child_text(c, "title"@),
        link: child_text(c, "link"@),
        guid: child_text(c, "guid"@),
        enclosure: spec_enclosure(c),
        description: child_text(c, "description"@),
        pub_date: child_text(c, "pubDate"@),
        filing: spec_filing(c),
    }
}

/// Every `item` child of `s` at or after `i`, in document order.
pub open spec fn spec_filing_items(s: Seq<XmlNode>, i: int) -> Seq<FilingItemView>
    decreases s.len() - i,
{
    if i < 0 || i >= s.len() {
        Seq::empty()
    } else {
        let rest = spec_filing_items(s, i + 1);
        if s[i].tag@ == "item"@ {
            seq![spec_filing_item(s[i])] + rest
        } else {
            rest
        }
    }
}

fn parse_filing_items(channel: &XmlNode) -> (r: Vec<FilingItem>)
    ensures
        r.deep_view() == spec_filing_items(channel.children@, 0),
{
    let mut out: Vec<FilingItem> = Vec::new();
    let n = channel.children.len();
    let mut i: usize = 0;
    while i < n
        invariant
            0 <= i <= n,
            n == channel.children@.len(),
            spec_filing_items(channel.children@, 0) == out.deep_view() + spec_filing_items(
                channel.children@,
                i as int,
            ),
        decreases n - i,
    {
        let ghost s = channel.children@;
        let c = &channel.children[i];
        if str_eq(c.tag.as_str(), "item") {
            let ghost pre = out.deep_view();
            let item = FilingItem {
                title: opt_string(c, "title"),
                link: opt_string(c, "link"),
                guid: opt_string(c, "guid"),
                enclosure: parse_enclosure(c),
                description: opt_string(c, "description"),
                pub_date: opt_string(c, "pubDate"),
                filing: parse_filing(c),
            };
            out.push(item);
            proof {
                assert(out.deep_view() =~~= pre.push(out@.last().deep_view()));
                assert(pre + (seq![out@.last().deep_view()] + spec_filing_items(s, i + 1 as int))
                    =~~= out.deep_view() + spec_filing_items(s, i + 1 as int));
            }
        }
        i += 1;
    }
    proof {
        assert(out.deep_view() + spec_filing_items(channel.children@, n as int)
            =~~= out.deep_view());
    }
    out
}

/// What the channel element of the XBRL filing feed decodes to.
pub open spec fn spec_filing_feed(channel: XmlNode) -> FilingFeedView {
    FilingFeedView {
        title: child_text(channel, "title"@),
        link: child_text(channel, "link"@),
        description: child_text(channel, "description"@),
        language: child_text(channel, "language"@),
        items: spec_filing_items(channel.children@, 0),
        pub_date: child_text(channel, "pubDate"@),
        last_build_date: child_text(channel, "lastBuildDate"@),
    }
}

/// Decodes the XBRL filing feed from its root element: the channel is the
/// root's first element child, and its absence is the document's error.
pub fn filing_from_tree(root: &XmlNode) -> (r: Result<FilingFeed, ParseError>)
    ensures
        match r {
            Ok(f) => root.children@.len() > 0 && f.deep_view() == spec_filing_feed(
                root.children@[0],
            ),
            Err(e) => root.children@.len() == 0 && e.deep_view()
                == ParseErrorView::MissingRequiredElement("channel"@),
        },
{
    if root.children.len() == 0 {
        return Err(missing_element("channel"));
    }
    let channel = &root.children[0];
    Ok(
        FilingFeed {
            title: opt_string(channel, "title"),
            link: opt_string(channel, "link"),
            description: opt_string(channel, "description"),
            language: opt_string(channel, "language"),
            items: parse_filing_items(channel),
            pub_date: opt_string(channel, "pubDate"),
            last_build_date: opt_string(channel, "lastBuildDate"),
        },
    )
}

/// Parses the XBRL filing RSS feed.
pub fn parse_filing_feed(xml: &str) -> (r: Result<FilingFeed, ParseError>)
    ensures
        match xml_parse(xml@) {
            Ok(root) => match r {
                Ok(f) => root.children@.len() > 0 && f.deep_view() == spec_filing_feed(
                    root.children@[0],
                ),
                Err(e) => root.children@.len() == 0 && e.deep_view()
                    == ParseErrorView::MissingRequiredElement("channel"@),
            },
            Err(d) => r matches Err(ParseError::MalformedXml(m)) && m@ == d,
        },
{
    match parse_tree(xml) {
        Ok(root) => filing_from_tree(&root),
        Err(msg) => Err(ParseError::MalformedXml(msg)),
    }
}

} // verus!
