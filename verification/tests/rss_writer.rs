use vbt::rss::write::{escape_xml, Channel, Item};
use vbt::utils::time::Timestamp;

#[test]
fn test_basic_rss() {
    let channel = Channel::new("Test Channel", "https://example.com", "A test channel").item(
        Item::new("Test Item", "https://example.com/item", "Test description", "unique-id-123"),
    );

    let rss = channel.build().unwrap();
    assert!(rss.contains("<title>Test Channel</title>"));
    assert!(rss.contains("<title>Test Item</title>"));
}

#[test]
fn test_xml_escaping() {
    let result = escape_xml("Test & <test> \"quoted\"");
    assert_eq!(result, "Test &amp; &lt;test&gt; &quot;quoted&quot;");
}

#[test]
fn escaping_covers_all_five_characters() {
    assert_eq!(escape_xml("&<>\"'"), "&amp;&lt;&gt;&quot;&apos;");
    assert_eq!(escape_xml("it's"), "it&apos;s");
}

#[test]
fn escaping_leaves_other_text_alone() {
    assert_eq!(escape_xml(""), "");
    assert_eq!(escape_xml("Hành Trình Của Elaina"), "Hành Trình Của Elaina");
    assert_eq!(escape_xml("a;b#c"), "a;b#c");
}

#[test]
fn escaping_does_not_read_entities() {
    assert_eq!(escape_xml("&amp;"), "&amp;amp;");
}

#[test]
fn new_channel_is_published_and_built_at_the_same_instant() {
    let channel = Channel::new("T", "L", "D");
    assert_eq!(channel.published(), channel.last_built());
    assert_eq!(channel.items_ref().len(), 0);
}

#[test]
fn builders_set_what_they_name() {
    let date = Timestamp::from_unix(1_700_000_000).unwrap();
    let item = Item::new("a title", "a link", "a text", "an id")
        .enclosure("http://x/a.jpg", 7, "image/jpeg")
        .pub_date(date);
    assert_eq!(item.title(), "a title");
    assert_eq!(item.description(), "a text");
    assert_eq!(item.guid(), "an id");
    assert_eq!(item.date(), date);
    assert_eq!(item.enclosure_type(), Some("image/jpeg"));
    let plain = Item::new("t", "l", "d", "g");
    assert_eq!(plain.enclosure_type(), None);
}

#[test]
fn items_keep_their_order() {
    let channel = Channel::new("T", "L", "D")
        .item(Item::new("one", "l", "d", "g1"))
        .items(vec![Item::new("two", "l", "d", "g2"), Item::new("three", "l", "d", "g3")]);
    let guids: Vec<String> = channel.items_ref().iter().map(|i| i.guid().to_string()).collect();
    assert_eq!(guids, vec!["g1", "g2", "g3"]);
}

#[test]
fn item_lines_are_exact() {
    let date = Timestamp::from_unix(1_431_648_000).unwrap();
    let item = Item::new("A & B", "http://l", "<d>", "http://g?q=1")
        .enclosure("http://x/a.png", 0, "image/png")
        .pub_date(date);
    let expected = "     <item>\n         <title>A &amp; B</title>\n         <link>http://l</link>\n         <description>&lt;d&gt;</description>\n     <enclosure url=\"http://x/a.png\" length=\"0\" type=\"image/png\"></enclosure>\n     <guid>http://g?q=1</guid>\n     <pubDate>2015-05-15 00:00:00 UTC</pubDate>\n     </item>\n";
    assert_eq!(item.build(), expected);
}

#[test]
fn enclosure_length_is_written_in_decimal() {
    let date = Timestamp::from_unix(0).unwrap();
    let item = Item::new("t", "l", "d", "g").enclosure("u", 18_446_744_073_709_551_615, "m").pub_date(date);
    assert!(item.build().contains("length=\"18446744073709551615\""));
}

#[test]
fn document_is_exact() {
    let published = Timestamp::from_unix(1_431_648_000).unwrap();
    let built = Timestamp::from_unix(1_431_648_000 + 3_661).unwrap();
    let channel = Channel::new("Alpha", "http://home", "About \"Alpha\"")
        .image("http://x/a.png", "Alpha", "http://home")
        .pub_date(published)
        .last_build_date(built)
        .item(Item::new("One", "http://home", "first", "id-1").pub_date(published));
    let expected = concat_lines(&[
        "<?xml version=\"1.0\" encoding=\"UTF-8\"?>",
        "<rss version=\"2.0\">",
        "<channel>",
        "     <title>Alpha</title>",
        "     <link>http://home</link>",
        "     <description>About &quot;Alpha&quot;</description>",
        "     <image>",
        "         <url>http://x/a.png</url>",
        "         <title>Alpha</title>",
        "         <link>http://home</link>",
        "     </image>",
        "     <pubDate>Fri, 15 May 2015 00:00:00 +0000</pubDate>",
        "     <lastBuildDate>Fri, 15 May 2015 01:01:01 +0000</lastBuildDate>",
        "     <item>",
        "         <title>One</title>",
        "         <link>http://home</link>",
        "         <description>first</description>",
        "     <guid>id-1</guid>",
        "     <pubDate>2015-05-15 00:00:00 UTC</pubDate>",
        "     </item>",
        "</channel>",
        "</rss>",
    ]);
    assert_eq!(channel.build().unwrap(), expected);
}

#[test]
fn document_without_image_or_items_is_exact() {
    let date = Timestamp::from_unix(0).unwrap();
    let channel = Channel::new("T", "L", "D").pub_date(date).last_build_date(date);
    let expected = concat_lines(&[
        "<?xml version=\"1.0\" encoding=\"UTF-8\"?>",
        "<rss version=\"2.0\">",
        "<channel>",
        "     <title>T</title>",
        "     <link>L</link>",
        "     <description>D</description>",
        "     <pubDate>Thu, 1 Jan 1970 00:00:00 +0000</pubDate>",
        "     <lastBuildDate>Thu, 1 Jan 1970 00:00:00 +0000</lastBuildDate>",
        "</channel>",
        "</rss>",
    ]);
    assert_eq!(channel.build().unwrap(), expected);
}

#[test]
fn item_date_is_a_complete_element() {
    let date = Timestamp::from_unix(1_431_648_000).unwrap();
    let channel = Channel::new("T", "L", "D")
        .item(Item::new("one", "l", "d", "g1").pub_date(date))
        .item(Item::new("two", "l", "d", "g2").pub_date(date));
    let text = channel.build().unwrap();
    assert_eq!(text.matches("     <pubDate>2015-05-15 00:00:00 UTC</pubDate>\n").count(), 2);
    assert_eq!(text.matches("<pubDate>").count(), text.matches("</pubDate>").count());
    assert_eq!(text.matches("</pubDate").count(), text.matches("</pubDate>").count());
}

fn concat_lines(lines: &[&str]) -> String {
    let mut out = String::new();
    for line in lines {
        out.push_str(line);
        out.push('\n');
    }
    out
}
