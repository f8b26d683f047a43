use rsshub_mcp::client::{RsshubApiClient, RsshubClientConfig};
use rsshub_mcp::feed::{
    feed_from_channel, parse_rss_content, summarize, FeedItem, FeedResponse, ParsedChannel,
    ParsedItem, MAX_OPEN_ELEMENTS,
};
use rsshub_mcp::nesting::nests_within_limit;

const SAMPLE: &str = r#"<?xml version="1.0" encoding="UTF-8"?>
<rss version="2.0">
  <channel>
    <title>Example Channel</title>
    <link>https://example.com/</link>
    <description>News of the example</description>
    <item>
      <title>First post</title>
      <link>https://example.com/1</link>
      <description>The first</description>
      <pubDate>Mon, 01 Jan 2024 00:00:00 GMT</pubDate>
      <author>ann@example.com</author>
      <category>tech</category>
      <category>rust</category>
    </item>
    <item>
      <link>https://example.com/2</link>
    </item>
  </channel>
</rss>"#;

#[test]
fn test_parser_fallback_for_non_rss() {
    let client = RsshubApiClient::new(RsshubClientConfig::default());
    // Provide HTML instead of RSS to trigger fallback
    let html = "<html><head><title>Not RSS</title></head><body>Hello</body></html>";
    let parsed = client.parse_rss_content(html).unwrap();
    assert!(parsed.raw_content.is_some());
    assert!(parsed.items.is_empty());
    assert_eq!(parsed.title, "RSS Feed");
}

#[test]
fn html_is_kept_as_raw_content() {
    let html = "<html><head><title>Not RSS</title></head><body>Hello</body></html>";
    let parsed = parse_rss_content(html);
    assert_eq!(parsed.raw_content.as_deref(), Some(html));
    assert!(parsed.items.is_empty());
    assert_eq!(parsed.title, "RSS Feed");
    assert_eq!(parsed.description, "RSS feed content");
}

#[test]
fn empty_document_falls_back() {
    let parsed = parse_rss_content("");
    assert_eq!(parsed.title, "RSS Feed");
    assert!(parsed.items.is_empty());
    assert_eq!(parsed.raw_content.as_deref(), Some(""));
}

#[test]
fn channel_is_read_with_its_items() {
    let parsed = parse_rss_content(SAMPLE);
    assert_eq!(parsed.title, "Example Channel");
    assert_eq!(parsed.description, "News of the example");
    assert_eq!(parsed.raw_content.as_deref(), Some(SAMPLE));
    assert_eq!(parsed.items.len(), 2);
    let first = &parsed.items[0];
    assert_eq!(first.title, "First post");
    assert_eq!(first.description, "The first");
    assert_eq!(first.link, "https://example.com/1");
    assert_eq!(first.pub_date.as_deref(), Some("Mon, 01 Jan 2024 00:00:00 GMT"));
    assert_eq!(first.author.as_deref(), Some("ann@example.com"));
    assert_eq!(first.categories, vec!["tech".to_string(), "rust".to_string()]);
    let second = &parsed.items[1];
    assert_eq!(second.title, "");
    assert_eq!(second.description, "");
    assert_eq!(second.link, "https://example.com/2");
    assert_eq!(second.pub_date, None);
    assert_eq!(second.author, None);
    assert!(second.categories.is_empty());
}

fn parsed_item(title: Option<&str>) -> ParsedItem {
    ParsedItem {
        title: title.map(str::to_string),
        description: None,
        link: None,
        pub_date: None,
        author: None,
        categories: vec![],
    }
}

#[test]
fn items_keep_their_order() {
    let channel = ParsedChannel {
        title: "T".to_string(),
        description: "D".to_string(),
        items: vec![
            parsed_item(Some("a")),
            parsed_item(None),
            parsed_item(Some("c")),
            parsed_item(Some("d")),
        ],
    };
    let feed = feed_from_channel(Some(channel), "body");
    let titles: Vec<&str> = feed.items.iter().map(|i| i.title.as_str()).collect();
    assert_eq!(titles, vec!["a", "", "c", "d"]);
    assert_eq!(feed.title, "T");
    assert_eq!(feed.description, "D");
    assert_eq!(feed.raw_content.as_deref(), Some("body"));
}

#[test]
fn no_channel_gives_the_fallback() {
    let feed = feed_from_channel(None, "anything");
    assert_eq!(feed.title, "RSS Feed");
    assert_eq!(feed.description, "RSS feed content");
    assert!(feed.items.is_empty());
    assert_eq!(feed.raw_content.as_deref(), Some("anything"));
}

fn item(title: &str) -> FeedItem {
    FeedItem {
        title: title.to_string(),
        description: String::new(),
        link: String::new(),
        pub_date: None,
        author: None,
        categories: vec![],
    }
}

#[test]
fn summary_shows_three_items_at_most() {
    let feed = FeedResponse {
        title: "News".to_string(),
        description: "All of it".to_string(),
        items: vec![item("one"), item("two"), item("three"), item("four")],
        raw_content: Some("<rss/>".to_string()),
    };
    assert_eq!(
        summarize(&feed),
        "RSS Feed: News\nDescription: All of it\n- 1 one\n- 2 two\n- 3 three\n(raw content available)"
    );
}

#[test]
fn summary_leaves_out_what_is_missing() {
    let feed = FeedResponse {
        title: "News".to_string(),
        description: String::new(),
        items: vec![item("only")],
        raw_content: None,
    };
    assert_eq!(summarize(&feed), "RSS Feed: News\n- 1 only");
    let bare = FeedResponse {
        title: String::new(),
        description: String::new(),
        items: vec![],
        raw_content: None,
    };
    assert_eq!(summarize(&bare), "RSS Feed: ");
}

#[test]
fn summary_of_a_fallback_feed() {
    let parsed = parse_rss_content("<html></html>");
    assert_eq!(
        summarize(&parsed),
        "RSS Feed: RSS Feed\nDescription: RSS feed content\n(raw content available)"
    );
}

/// A feed whose channel holds an element of an extension with `inner`
/// elements nested in it, one inside the other.
fn nested_feed(inner: usize) -> String {
    let mut doc = String::from(
        r#"<?xml version="1.0"?><rss version="2.0" xmlns:x="urn:x"><channel><title>deep</title><x:a>"#,
    );
    for _ in 0..inner {
        doc.push_str("<b>");
    }
    for _ in 0..inner {
        doc.push_str("</b>");
    }
    doc.push_str("</x:a><description>d</description></channel></rss>");
    doc
}

#[test]
fn nesting_up_to_the_limit_is_read() {
    // rss, channel and x:a are open around the inner elements.
    let doc = nested_feed(MAX_OPEN_ELEMENTS - 3);
    assert!(nests_within_limit(&doc, MAX_OPEN_ELEMENTS));
    let parsed = parse_rss_content(&doc);
    assert_eq!(parsed.title, "deep");
    assert_eq!(parsed.description, "d");
}

#[test]
fn nesting_beyond_the_limit_falls_back() {
    let doc = nested_feed(MAX_OPEN_ELEMENTS - 2);
    assert!(!nests_within_limit(&doc, MAX_OPEN_ELEMENTS));
    let parsed = parse_rss_content(&doc);
    assert_eq!(parsed.title, "RSS Feed");
    assert!(parsed.items.is_empty());
    assert_eq!(parsed.raw_content.as_deref(), Some(doc.as_str()));
}

#[test]
fn very_deep_nesting_falls_back() {
    let doc = nested_feed(200_000);
    let parsed = parse_rss_content(&doc);
    assert_eq!(parsed.title, "RSS Feed");
    assert!(parsed.items.is_empty());
    assert_eq!(parsed.raw_content.as_deref(), Some(doc.as_str()));
    // Never closed, and hidden behind what looks like closing tags.
    let mut open = String::from(r#"<rss xmlns:x="urn:x"><channel><x:a>"#);
    for _ in 0..100_000 {
        open.push_str("<!--</b>--><b t='</b>'><![CDATA[</b>]]><?p </b>?>");
    }
    assert!(!nests_within_limit(&open, MAX_OPEN_ELEMENTS));
    assert_eq!(parse_rss_content(&open).title, "RSS Feed");
}

#[test]
fn wide_feeds_are_read() {
    let mut doc = String::from(
        r#"<rss version="2.0" xmlns:media="urn:m"><channel><title>wide</title><description/>"#,
    );
    for i in 0..500 {
        doc.push_str(&format!(
            "<item><title>t{}</title><media:thumbnail url='a>b'/><!-- <note> -->\
             <description><![CDATA[<p>one<br>two <b>three]]></description><guid a=\"/>\"/></item>",
            i
        ));
    }
    doc.push_str("</channel></rss>");
    assert!(nests_within_limit(&doc, 4));
    assert!(!nests_within_limit(&doc, 3));
    let parsed = parse_rss_content(&doc);
    assert_eq!(parsed.title, "wide");
    assert_eq!(parsed.items.len(), 500);
    assert_eq!(parsed.items[499].title, "t499");
    assert_eq!(parsed.items[0].description, "<p>one<br>two <b>three");
}

#[test]
fn scan_counts_open_elements() {
    assert!(nests_within_limit("", 0));
    assert!(nests_within_limit("no markup at all & more", 0));
    assert!(!nests_within_limit("<a>", 0));
    assert!(nests_within_limit("<a>", 1));
    assert!(!nests_within_limit("<a/>", 0));
    assert!(nests_within_limit("<a/><b/><c/>", 1));
    assert!(nests_within_limit("<a></a><b></b>", 1));
    assert!(!nests_within_limit("<a><b></b></a>", 1));
    assert!(nests_within_limit("<a><b></b></a>", 2));
    // An end tag without a start tag opens nothing.
    assert!(nests_within_limit("</a></a><b>", 1));
    // A `>` in an attribute value does not end the tag.
    assert!(nests_within_limit("<a b='>' c=\"/>\"></a><d>", 1));
    assert!(nests_within_limit("<a b='</a>'>", 1));
    assert!(!nests_within_limit("<a b='</a>'><c>", 1));
    // Nothing opens inside comments, character data and instructions.
    assert!(nests_within_limit("<!-- <a><b> -->", 0));
    assert!(nests_within_limit("<![CDATA[<a><b>]]>", 0));
    assert!(nests_within_limit("<?xml <a> ?>", 0));
    assert!(!nests_within_limit("<!-- - -> --><a>", 0));
    assert!(!nests_within_limit("<![CDATA[ ]] > ]]><a>", 0));
    assert!(!nests_within_limit("<?p > ?><a>", 0));
    // Unfinished markup opens nothing.
    assert!(nests_within_limit("<a", 0));
    assert!(nests_within_limit("<", 0));
    assert!(nests_within_limit("<!-- <a>", 0));
}

#[test]
fn scan_refuses_markup_it_does_not_read() {
    assert!(!nests_within_limit("<!DOCTYPE rss><rss/>", 64));
    assert!(!nests_within_limit("<!doctype rss>", 64));
    assert!(!nests_within_limit("<!ELEMENT a>", 64));
    assert!(!nests_within_limit("<?>", 64));
    assert!(!nests_within_limit("<!-->", 64));
    assert!(!nests_within_limit("<!--->", 64));
    assert!(!nests_within_limit("<!---->", 64));
    assert!(nests_within_limit("<!--x-->", 64));
    assert!(nests_within_limit("<![]]>", 64));
    let doctype = "<!DOCTYPE rss><rss version=\"2.0\"><channel><title>t</title></channel></rss>";
    assert_eq!(parse_rss_content(doctype).title, "RSS Feed");
}
