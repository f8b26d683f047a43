//! Feed documents: reading a channel out of a fetched body, with the body
//! itself kept as a fallback, and a short summary in words.

use vstd::prelude::*;
use vstd::string::*;
use crate::nesting::{nests_within, nests_within_limit};
use crate::text::{decimal, decimal_string, join, joined, optional_text, views};

verus! {

/// One entry of a feed.
#[derive(Debug)]
pub struct FeedItem {
    pub title: String,
    pub description: String,
    pub link: String,
    pub pub_date: Option<String>,
    pub author: Option<String>,
    pub categories: Vec<String>,
}

/// A feed: what was read out of a document, and the document itself.
#[derive(Debug)]
pub struct FeedResponse {
    pub title: String,
    pub description: String,
    pub items: Vec<FeedItem>,
    pub raw_content: Option<String>,
}

/// An entry of a feed, as a mathematical value.
pub struct FeedItemModel {
    pub title: Seq<char>,
    pub description: Seq<char>,
    pub link: Seq<char>,
    pub pub_date: Option<Seq<char>>,
    pub author: Option<Seq<char>>,
    pub categories: Seq<Seq<char>>,
}

/// A feed, as a mathematical value.
pub struct FeedModel {
    pub title: Seq<char>,
    pub description: Seq<char>,
    pub items: Seq<FeedItemModel>,
    pub raw_content: Option<Seq<char>>,
}

impl View for FeedItem {
    type V = FeedItemModel;

    open spec fn view(&self) -> FeedItemModel {
        FeedItemModel {
            title: self.title@,
            description: self.description@,
            link: self.link@,
            pub_date: optional_text(self.pub_date),
            author: optional_text(self.author),
            categories: views(self.categories@),
        }
    }
}

/// The views of a list of entries.
pub open spec fn item_models(items: Seq<FeedItem>) -> Seq<FeedItemModel> {
    Seq::new(items.len(), |i: int| items[i]@)
}

impl View for FeedResponse {
    type V = FeedModel;

    open spec fn view(&self) -> FeedModel {
        FeedModel {
            title: self.title@,
            description: self.description@,
            items: item_models(self.items@),
            raw_content: optional_text(self.raw_content),
        }
    }
}

/// An entry as the channel parser found it: every text may be missing.
#[derive(Debug)]
pub struct ParsedItem {
    pub title: Option<String>,
    pub description: Option<String>,
    pub link: Option<String>,
    pub pub_date: Option<String>,
    pub author: Option<String>,
    pub categories: Vec<String>,
}

/// A channel as the channel parser found it.
#[derive(Debug)]
pub struct ParsedChannel {
    pub title: String,
    pub description: String,
    pub items: Vec<ParsedItem>,
}

/// A parsed entry, as a mathematical value.
pub struct ParsedItemModel {
    pub title: Option<Seq<char>>,
    pub description: Option<Seq<char>>,
    pub link: Option<Seq<char>>,
    pub pub_date: Option<Seq<char>>,
    pub author: Option<Seq<char>>,
    pub categories: Seq<Seq<char>>,
}

/// A parsed channel, as a mathematical value.
pub struct ParsedChannelModel {
    pub title: Seq<char>,
    pub description: Seq<char>,
    pub items: Seq<ParsedItemModel>,
}

impl View for ParsedItem {
    type V = ParsedItemModel;

    open spec fn view(&self) -> ParsedItemModel {
        ParsedItemModel {
            title: optional_text(self.title),
            description: optional_text(self.description),
            link: optional_text(self.link),
            pub_date: optional_text(self.pub_date),
            author: optional_text(self.author),
            categories: views(self.categories@),
        }
    }
}

impl View for ParsedChannel {
    type V = ParsedChannelModel;

    open spec fn view(&self) -> ParsedChannelModel {
        ParsedChannelModel {
            title: self.title@,
            description: self.description@,
            items: Seq::new(self.items@.len(), |i: int| self.items@[i]@),
        }
    }
}

/// The view of an optional channel.
pub open spec fn channel_view(channel: Option<ParsedChannel>) -> Option<ParsedChannelModel> {
    match channel {
        Some(c) => Some(c@),
        None => None,
    }
}

/// The channel that `rss::Channel::read_from` reads out of a document:
/// its title, its description and its items, each item with its title,
/// description, link, date of publication, author and the names of its
/// categories. Nothing where the reader refuses the document.
pub uninterp spec fn channel_in(content: Seq<char>) -> Option<ParsedChannelModel>;

/// How many elements of a document may be open at once for the document
/// to be handed to the channel reader.
pub const MAX_OPEN_ELEMENTS: usize = 64;

/// The channel that this crate reads out of a document: that of the
/// channel reader where the document nests within the limit, and none
/// where it nests deeper or holds markup that the scan does not read.
pub open spec fn readable_channel(content: Seq<char>) -> Option<ParsedChannelModel> {
    if nests_within(content, MAX_OPEN_ELEMENTS) {
        channel_in(content)
    } else {
        None
    }
}

/// Calls `rss::Channel::read_from` on the bytes of `content` and copies out
/// of the channel what its accessors `title`, `description` and `items`
/// give, and of each item what `title`, `description`, `link`, `pub_date`,
/// `author` and `categories` (each by its `name`) give. An error of the
/// reader becomes `None`. The result is only named: the grammar that the
/// reader accepts is not restated here.
///
/// The reader calls itself for every element that is opened inside an
/// element of an extension, so a document must not nest deeper than the
/// limit: with at most that many elements open, the reader's calls stay
/// within a small, fixed part of the stack.
#[verifier::external_body]
fn read_channel(content: &str) -> (r: Option<ParsedChannel>)
    requires
        nests_within(content@, MAX_OPEN_ELEMENTS),
    ensures
        channel_view(r) == channel_in(content@),
{
    let channel = rss::Channel::read_from(content.as_bytes()).ok()?;
    let own = |s: Option<&str>| s.map(str::to_string);
    let items = channel.items().iter().map(|it| ParsedItem {
        title: own(it.title()),
        description: own(it.description()),
        link: own(it.link()),
        pub_date: own(it.pub_date()),
        author: own(it.author()),
        categories: it.categories().iter().map(|c| c.name().to_string()).collect(),
    }).collect();
    let title = channel.title().to_string();
    Some(ParsedChannel { title, description: channel.description().to_string(), items })
}

/// The text, or the empty text where it is missing.
pub open spec fn text_or_empty(s: Option<Seq<char>>) -> Seq<char> {
    match s {
        Some(t) => t,
        None => Seq::empty(),
    }
}

/// The feed entry for a parsed item: a missing title, description or link
/// becomes the empty text.
pub open spec fn item_of(item: ParsedItemModel) -> FeedItemModel {
    FeedItemModel {
        title: text_or_empty(item.title),
        description: text_or_empty(item.description),
        link: text_or_empty(item.link),
        pub_date: item.pub_date,
        author: item.author,
        categories: item.categories,
    }
}

/// The feed for a document and what the channel parser made of it. Where
/// the parser found a channel, the feed has its title, description and
/// items. Where it found none, the feed has a fixed title and description
/// and no items. Either way it carries the document itself.
pub open spec fn feed_of(channel: Option<ParsedChannelModel>, content: Seq<char>) -> FeedModel {
    match channel {
        Some(c) => FeedModel {
            title: c.title,
            description: c.description,
            items: Seq::new(c.items.len(), |i: int| item_of(c.items[i])),
            raw_content: Some(content),
        },
        None => FeedModel {
            title: "RSS Feed"@,
            description: "RSS feed content"@,
            items: Seq::empty(),
            raw_content: Some(content),
        },
    }
}

fn owned_or_empty(s: Option<String>) -> (r: String)
    ensures
        r@ == text_or_empty(optional_text(s)),
{
    match s {
        Some(t) => t,
        None => String::new(),
    }
}

/// Builds the feed for a document from what the channel parser made of it.
pub fn feed_from_channel(channel: Option<ParsedChannel>, content: &str) -> (r: FeedResponse)
    ensures
        r@ == feed_of(channel_view(channel), content@),
{
    match channel {
        Some(c) => {
            let ghost parsed = c@;
            let ghost all = c.items@;
            let mut items: Vec<FeedItem> = Vec::new();
            for item in it: c.items
                invariant
                    it.seq() == all,
                    items.len() == it.index(),
                    forall|j: int|
                        0 <= j < items.len() ==> (#[trigger] items@[j])@ == item_of(all[j]@),
            {
                items.push(
                    FeedItem {
                        title: owned_or_empty(item.title),
                        description: owned_or_empty(item.description),
                        link: owned_or_empty(item.link),
                        pub_date: item.pub_date,
                        author: item.author,
                        categories: item.categories,
                    },
                );
            }
            let r = FeedResponse {
                title: c.title,
                description: c.description,
                items,
                raw_content: Some(String::from_str(content)),
            };
            assert(r@.items =~= feed_of(Some(parsed), content@).items);
            r
        },
        None => {
            let r = FeedResponse {
                title: String::from_str("RSS Feed"),
                description: String::from_str("RSS feed content"),
                items: Vec::new(),
                raw_content: Some(String::from_str(content)),
            };
            assert(r@.items =~= Seq::empty());
            r
        },
    }
}

/// Reads a fetched document as a feed. A document that is no feed is not
/// an error: the result then has no items and carries the document as it
/// came, as it does for a feed too. A document that nests deeper than
/// `MAX_OPEN_ELEMENTS`, or holds markup that the scan of `crate::nesting`
/// does not read, is not handed to the channel reader and counts as no
/// feed.
pub fn parse_rss_content(content: &str) -> (r: FeedResponse)
    ensures
        r@ == feed_of(readable_channel(content@), content@),
        r@.raw_content == Some(content@),
        readable_channel(content@).is_none() ==> r@.title == "RSS Feed"@ && r@.items.len() == 0,
{
    let channel = if nests_within_limit(content, MAX_OPEN_ELEMENTS) {
        read_channel(content)
    } else {
        None
    };
    feed_from_channel(channel, content)
}

/// How many items a summary shows at most.
pub const SUMMARY_ITEMS: usize = 3;

/// The line of a summary for the item at position `i`.
pub open spec fn item_line(i: int, item: FeedItemModel) -> Seq<char> {
    "- "@ + decimal((i + 1) as nat) + " "@ + item.title
}

/// The lines of the summary of a feed: its title; its description, unless
/// empty; its first items, numbered from 1; and a note where the document
/// itself is at hand.
pub open spec fn summary_lines(feed: FeedModel) -> Seq<Seq<char>> {
    let shown = if feed.items.len() < SUMMARY_ITEMS {
        feed.items.len()
    } else {
        SUMMARY_ITEMS as nat
    };
    seq!["RSS Feed: "@ + feed.title] + (if feed.description.len() == 0 {
        Seq::<Seq<char>>::empty()
    } else {
        seq!["Description: "@ + feed.description]
    }) + Seq::new(shown, |i: int| item_line(i, feed.items[i])) + (if feed.raw_content.is_some() {
        seq!["(raw content available)"@]
    } else {
        Seq::<Seq<char>>::empty()
    })
}

/// The summary of a feed in words, one line below the other.
pub open spec fn summary_text(feed: FeedModel) -> Seq<char> {
    joined(summary_lines(feed), "\n"@)
}

/// Summarises a feed in words.
pub fn summarize(feed: &FeedResponse) -> (r: String)
    ensures
        r@ == summary_text(feed@),
{
    let mut lines: Vec<String> = Vec::new();
    let mut head = String::from_str("RSS Feed: ");
    head.append(feed.title.as_str());
    lines.push(head);
    if !feed.description.as_str().is_empty() {
        let mut line = String::from_str("Description: ");
        line.append(feed.description.as_str());
        lines.push(line);
    }
    let ghost start = views(lines@);
    let mut i: usize = 0;
    while i < feed.items.len() && i < SUMMARY_ITEMS
        invariant
            i <= feed.items.len(),
            i <= SUMMARY_ITEMS,
            views(lines@) == start + Seq::new(i as nat, |j: int| item_line(j, feed@.items[j])),
        decreases feed.items.len() - i,
    {
        let ghost earlier = views(lines@);
        let mut line = String::from_str("- ");
        line.append(decimal_string((i + 1) as u64).as_str());
        line.append(" ");
        line.append(feed.items[i].title.as_str());
        lines.push(line);
        proof {
            assert(feed@.items[i as int] == feed.items@[i as int]@);
            assert(views(lines@) =~= earlier.push(item_line(i as int, feed@.items[i as int])));
            assert(views(lines@) =~= start + Seq::new(
                (i + 1) as nat,
                |j: int| item_line(j, feed@.items[j]),
            ));
        }
        i += 1;
    }
    let ghost body = views(lines@);
    if feed.raw_content.is_some() {
        lines.push(String::from_str("(raw content available)"));
        assert(views(lines@) =~= body + seq!["(raw content available)"@]);
    } else {
        assert(views(lines@) =~= body + Seq::<Seq<char>>::empty());
    }
    assert(views(lines@) =~= summary_lines(feed@));
    join(&lines, "\n")
}

} // verus!
