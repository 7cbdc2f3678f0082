//! The press-release RSS feed decoder: a channel of items, every field
//! optional.

use vstd::prelude::*;
use crate::error::{missing_element, ParseError, ParseErrorView};
use crate::reader::{parse_tree, xml_parse};
use crate::xml::{child_text, opt_string, str_eq, XmlNode};

verus! {

#[derive(Debug, Clone, PartialEq)]
pub struct Item {
    pub title: Option<String>,
    pub link: Option<String>,
    pub description: Option<String>,
    pub pub_date: Option<String>,
}

/// A press-release feed: the channel's description fields and its items.
#[derive(Debug, Clone, PartialEq)]
pub struct Feed {
    pub title: Option<String>,
    pub link: Option<String>,
    pub description: Option<String>,
    pub language: Option<String>,
    pub items: Vec<Item>,
}

pub struct ItemView {
    pub title: Option<Seq<char>>,
    pub link: Option<Seq<char>>,
    pub description: Option<Seq<char>>,
    pub pub_date: Option<Seq<char>>,
}

pub struct FeedView {
    pub title: Option<Seq<char>>,
    pub link: Option<Seq<char>>,
    pub description: Option<Seq<char>>,
    pub language: Option<Seq<char>>,
    pub items: Seq<ItemView>,
}

impl DeepView for Item {
    type V = ItemView;

    open spec fn deep_view(&self) -> ItemView {
        ItemView {
            title: self.title.deep_view(),
            link: self.link.deep_view(),
            description: self.description.deep_view(),
            pub_date: self.pub_date.deep_view(),
        }
    }
}

impl DeepView for Feed {
    type V = FeedView;

    open spec fn deep_view(&self) -> FeedView {
        FeedView {
            title: self.title.deep_view(),
            link: self.link.deep_view(),
            description: self.description.deep_view(),
            language: self.language.deep_view(),
            items: self.items.deep_view(),
        }
    }
}

pub open spec fn spec_item(c: XmlNode) -> ItemView {
    ItemView {
        title: child_text(c, "title"@),
        link: child_text(c, "link"@),
        description: child_text(c, "description"@),
        pub_date: child_text(c, "pubDate"@),
    }
}

/// Every `item` child of `s` at or after `i`, in document order.
pub open spec fn spec_items(s: Seq<XmlNode>, i: int) -> Seq<ItemView>
    decreases s.len() - i,
{
    if i < 0 || i >= s.len() {
        Seq::empty()
    } else {
        let rest = spec_items(s, i + 1);
        if s[i].tag@ == "item"@ {
            seq![spec_item(s[i])] + rest
        } else {
            rest
        }
    }
}

fn parse_items(channel: &XmlNode) -> (r: Vec<Item>)
    ensures
        r.deep_view() == spec_items(channel.children@, 0),
{
    let mut out: Vec<Item> = Vec::new();
    let n = channel.children.len();
    let mut i: usize = 0;
    while i < n
        invariant
            0 <= i <= n,
            n == channel.children@.len(),
            spec_items(channel.children@, 0) == out.deep_view() + spec_items(
                channel.children@,
                i as int,
            ),
        decreases n - i,
    {
        let ghost s = channel.children@;
        let c = &channel.children[i];
        if str_eq(c.tag.as_str(), "item") {
            let ghost pre = out.deep_view();
            let item = Item {
                title: opt_string(c, "title"),
                link: opt_string(c, "link"),
                description: opt_string(c, "description"),
                pub_date: opt_string(c, "pubDate"),
            };
            out.push(item);
            proof {
                assert(out.deep_view() =~~= pre.push(out@.last().deep_view()));
                assert(pre + (seq![out@.last().deep_view()] + spec_items(s, i + 1 as int))
                    =~~= out.deep_view() + spec_items(s, i + 1 as int));
            }
        }
        i += 1;
    }
    proof {
        assert(out.deep_view() + spec_items(channel.children@, n as int) =~~= out.deep_view());
    }
    out
}

/// What the channel element of a press-release feed decodes to.
pub open spec fn spec_press_feed(channel: XmlNode) -> FeedView {
    FeedView {
        title: child_text(channel, "title"@),
        link: child_text(channel, "link"@),
        description: child_text(channel, "description"@),
        language: child_text(channel, "language"@),
        items: spec_items(channel.children@, 0),
    }
}

/// Decodes a press-release feed from its root element: the channel is the
/// root's first element child, and its absence is the document's error.
pub fn press_from_tree(root: &XmlNode) -> (r: Result<Feed, ParseError>)
    ensures
        match r {
            Ok(f) => root.children@.len() > 0 && f.deep_view() == spec_press_feed(
                root.children@[0],
            ),
            Err(e) => root.children@.len() == 0 && e.deep_view()
                == ParseErrorView::MissingRequiredElement("channel"@),
        },
{
    if root.children.len() == 0 {
        return Err(missing_element("channel"));
    }
    let channel = &root.children[0];
    Ok(
        Feed {
            title: opt_string(channel, "title"),
            link: opt_string(channel, "link"),
            description: opt_string(channel, "description"),
            language: opt_string(channel, "language"),
            items: parse_items(channel),
        },
    )
}

/// Parses a press-release RSS feed.
pub fn parse_press_release_feed(xml: &str) -> (r: Result<Feed, ParseError>)
    ensures
        match xml_parse(xml@) {
            Ok(root) => match r {
                Ok(f) => root.children@.len() > 0 && f.deep_view() == spec_press_feed(
                    root.children@[0],
                ),
                Err(e) => root.children@.len() == 0 && e.deep_view()
                    == ParseErrorView::MissingRequiredElement("channel"@),
            },
            Err(d) => r matches Err(ParseError::MalformedXml(m)) && m@ == d,
        },
{
    match parse_tree(xml) {
        Ok(root) => press_from_tree(&root),
        Err(msg) => Err(ParseError::MalformedXml(msg)),
    }
}

} // verus!
