//! A writer for RSS 2.0 channels.

use vstd::prelude::*;
use crate::text::{decimal_spec, push_decimal};
use crate::utils::time::{rfc2822_text, utc_display_text, Timestamp};

verus! {

/// The error type of `core::fmt`, which `Channel::build` names in its result and never returns.
#[verifier::external_type_specification]
#[verifier::external_body]
pub struct ExFmtError(core::fmt::Error);

/// The picture shown with a channel.
pub struct Image {
    pub url: String,
    pub title: String,
    pub link: String,
}

/// A file attached to an item.
pub struct Enclosure {
    pub url: String,
    pub length: u64,
    pub mime_type: String,
}

/// One entry of a channel.
pub struct Item {
    title: String,
    link: String,
    description: String,
    enclosure: Option<Enclosure>,
    guid: String,
    pub_date: Timestamp,
}

/// A channel and its items.
pub struct Channel {
    title: String,
    link: String,
    description: String,
    image: Option<Image>,
    pub_date: Timestamp,
    last_build_date: Timestamp,
    items: Vec<Item>,
}

pub ghost struct ImageView {
    pub url: Seq<char>,
    pub title: Seq<char>,
    pub link: Seq<char>,
}

pub ghost struct EnclosureView {
    pub url: Seq<char>,
    pub length: nat,
    pub mime_type: Seq<char>,
}

pub ghost struct ItemView {
    pub title: Seq<char>,
    pub link: Seq<char>,
    pub description: Seq<char>,
    pub enclosure: Option<EnclosureView>,
    pub guid: Seq<char>,
    pub pub_date: int,
}

pub ghost struct ChannelView {
    pub title: Seq<char>,
    pub link: Seq<char>,
    pub description: Seq<char>,
    pub image: Option<ImageView>,
    pub pub_date: int,
    pub last_build_date: int,
    pub items: Seq<ItemView>,
}

impl View for Image {
    type V = ImageView;

    open spec fn view(&self) -> ImageView {
        ImageView { url: self.url@, title: self.title@, link: self.link@ }
    }
}

impl View for Enclosure {
    type V = EnclosureView;

    open spec fn view(&self) -> EnclosureView {
        EnclosureView { url: self.url@, length: self.length as nat, mime_type: self.mime_type@ }
    }
}

impl View for Item {
    type V = ItemView;

    closed spec fn view(&self) -> ItemView {
        ItemView {
            title: self.title@,
            link: self.link@,
            description: self.description@,
            enclosure: match self.enclosure {
                Some(enclosure) => Some(enclosure@),
                None => None,
            },
            guid: self.guid@,
            pub_date: self.pub_date@,
        }
    }
}

/// The views of the items of `items`, in order.
pub open spec fn item_views(items: Seq<Item>) -> Seq<ItemView> {
    Seq::new(items.len(), |i: int| items[i]@)
}

impl View for Channel {
    type V = ChannelView;

    closed spec fn view(&self) -> ChannelView {
        ChannelView {
            title: self.title@,
            link: self.link@,
            description: self.description@,
            image: match self.image {
                Some(image) => Some(image@),
                None => None,
            },
            pub_date: self.pub_date@,
            last_build_date: self.last_build_date@,
            items: item_views(self.items@),
        }
    }
}

/// What stands for the character `c` in XML text.
pub open spec fn escape_char(c: char) -> Seq<char> {
    if c == '&' {
        "&amp;"@
    } else if c == '<' {
        "&lt;"@
    } else if c == '>' {
        "&gt;"@
    } else if c == '"' {
        "&quot;"@
    } else if c == '\'' {
        "&apos;"@
    } else {
        seq![c]
    }
}

/// `s` with each of the five characters `&`, `<`, `>`, `"` and `'` replaced by its entity.
pub open spec fn escape_xml_spec(s: Seq<char>) -> Seq<char>
    decreases s.len(),
{
    if s.len() == 0 {
        Seq::empty()
    } else {
        escape_xml_spec(s.drop_last()) + escape_char(s.last())
    }
}

/// `open`, then `body`, then `close`.
pub open spec fn line(open: Seq<char>, body: Seq<char>, close: Seq<char>) -> Seq<char> {
    open + body + close
}

/// The line that describes an enclosure.
pub open spec fn enclosure_text(e: EnclosureView) -> Seq<char> {
    "     <enclosure url=\""@ + escape_xml_spec(e.url) + "\" length=\""@ + decimal_spec(e.length)
        + "\" type=\""@ + escape_xml_spec(e.mime_type) + "\"></enclosure>\n"@
}

/// The lines that describe an image.
pub open spec fn image_text(image: ImageView) -> Seq<char> {
    "     <image>\n"@ + line("         <url>"@, escape_xml_spec(image.url), "</url>\n"@) + line(
        "         <title>"@,
        escape_xml_spec(image.title),
        "</title>\n"@,
    ) + line("         <link>"@, escape_xml_spec(image.link), "</link>\n"@) + "     </image>\n"@
}

/// An item's lines up to its description.
pub open spec fn item_head_text(item: ItemView) -> Seq<char> {
    "     <item>\n"@ + line("         <title>"@, escape_xml_spec(item.title), "</title>\n"@)
        + line("         <link>"@, escape_xml_spec(item.link), "</link>\n"@) + line(
        "         <description>"@,
        escape_xml_spec(item.description),
        "</description>\n"@,
    )
}

/// The lines that describe an item. The date stands in the form `YYYY-MM-DD HH:MM:SS UTC`.
pub open spec fn item_text(item: ItemView) -> Seq<char> {
    (match item.enclosure {
        Some(enclosure) => item_head_text(item) + enclosure_text(enclosure),
        None => item_head_text(item),
    }) + line("     <guid>"@, escape_xml_spec(item.guid), "</guid>\n"@) + line(
        "     <pubDate>"@,
        escape_xml_spec(utc_display_text(item.pub_date)),
        "</pubDate>\n"@,
    ) + "     </item>\n"@
}

/// The lines of all of `items`, in order.
pub open spec fn items_text(items: Seq<ItemView>) -> Seq<char>
    decreases items.len(),
{
    if items.len() == 0 {
        Seq::empty()
    } else {
        items_text(items.drop_last()) + item_text(items.last())
    }
}

/// A channel's lines up to its description.
pub open spec fn channel_head_text(channel: ChannelView) -> Seq<char> {
    "<?xml version=\"1.0\" encoding=\"UTF-8\"?>\n"@ + "<rss version=\"2.0\">\n"@ + "<channel>\n"@
        + line("     <title>"@, escape_xml_spec(channel.title), "</title>\n"@) + line(
        "     <link>"@,
        escape_xml_spec(channel.link),
        "</link>\n"@,
    ) + line("     <description>"@, escape_xml_spec(channel.description), "</description>\n"@)
}

/// The lines of a channel that precede its items. Both dates stand in RFC 2822 form.
pub open spec fn channel_text(channel: ChannelView) -> Seq<char> {
    (match channel.image {
        Some(image) => channel_head_text(channel) + image_text(image),
        None => channel_head_text(channel),
    }) + line("     <pubDate>"@, rfc2822_text(channel.pub_date, 0), "</pubDate>\n"@) + line(
        "     <lastBuildDate>"@,
        rfc2822_text(channel.last_build_date, 0),
        "</lastBuildDate>\n"@,
    )
}

/// The whole document of a channel.
pub open spec fn feed_text(channel: ChannelView) -> Seq<char> {
    channel_text(channel) + items_text(channel.items) + "</channel>\n"@ + "</rss>\n"@
}

/// Escaping goes character by character: the escape of two texts joined is the two escapes
/// joined.
pub proof fn law_escape_is_char_by_char(a: Seq<char>, b: Seq<char>)
    ensures
        escape_xml_spec(a + b) == escape_xml_spec(a) + escape_xml_spec(b),
    decreases b.len(),
{
    if b.len() == 0 {
        assert(a + b == a);
        assert(escape_xml_spec(a) + Seq::<char>::empty() == escape_xml_spec(a));
    } else {
        law_escape_is_char_by_char(a, b.drop_last());
        assert((a + b).drop_last() == a + b.drop_last());
        assert((a + b).last() == b.last());
        assert(escape_xml_spec(a + b) == escape_xml_spec(a) + escape_xml_spec(b.drop_last())
            + escape_char(b.last()));
        assert(escape_xml_spec(a) + escape_xml_spec(b.drop_last()) + escape_char(b.last())
            == escape_xml_spec(a) + (escape_xml_spec(b.drop_last()) + escape_char(b.last())));
    }
}

/// `s` with each of the five characters `&`, `<`, `>`, `"` and `'` replaced by its entity.
pub fn escape_xml(s: &str) -> (out: String)
    ensures
        out@ == escape_xml_spec(s@),
{
    let mut out = String::new();
    for c in it: s.chars()
        invariant
            it.seq() == s@,
            out@ == escape_xml_spec(s@.subrange(0, it.index() as int)),
    {
        let ghost i = it.index() as int;
        if c == '&' {
            out.append("&amp;");
        } else if c == '<' {
            out.append("&lt;");
        } else if c == '>' {
            out.append("&gt;");
        } else if c == '"' {
            out.append("&quot;");
        } else if c == '\'' {
            out.append("&apos;");
        } else {
            out.push(c);
        }
        proof {
            let grown = s@.subrange(0, i + 1);
            assert(grown.drop_last() == s@.subrange(0, i));
            assert(grown.last() == c);
            assert(out@ == escape_xml_spec(s@.subrange(0, i)) + escape_char(c));
        }
    }
    assert(s@.subrange(0, s@.len() as int) == s@);
    out
}

/// Appends `open`, `body` and `close` to `out`.
fn push_line(out: &mut String, open: &str, body: &str, close: &str)
    ensures
        final(out)@ == old(out)@ + line(open@, body@, close@),
{
    out.append(open);
    out.append(body);
    out.append(close);
    assert(old(out)@ + open@ + body@ + close@ == old(out)@ + (open@ + body@ + close@));
}

fn enclosure_string(enclosure: &Enclosure) -> (out: String)
    ensures
        out@ == enclosure_text(enclosure@),
{
    let mut out = String::from_str("     <enclosure url=\"");
    out.append(escape_xml(enclosure.url.as_str()).as_str());
    out.append("\" length=\"");
    push_decimal(&mut out, enclosure.length);
    out.append("\" type=\"");
    out.append(escape_xml(enclosure.mime_type.as_str()).as_str());
    out.append("\"></enclosure>\n");
    out
}

fn image_string(image: &Image) -> (out: String)
    ensures
        out@ == image_text(image@),
{
    let mut out = String::from_str("     <image>\n");
    push_line(&mut out, "         <url>", escape_xml(image.url.as_str()).as_str(), "</url>\n");
    push_line(
        &mut out,
        "         <title>",
        escape_xml(image.title.as_str()).as_str(),
        "</title>\n",
    );
    push_line(&mut out, "         <link>", escape_xml(image.link.as_str()).as_str(), "</link>\n");
    out.append("     </image>\n");
    out
}

impl Item {
    /// An item without enclosure, dated at the present instant.
    pub fn new(title: &str, link: &str, description: &str, guid: &str) -> (out: Item)
        ensures
            out@.title == title@,
            out@.link == link@,
            out@.description == description@,
            out@.guid == guid@,
            out@.enclosure.is_none(),
    {
        Item {
            title: title.to_owned(),
            link: link.to_owned(),
            description: description.to_owned(),
            enclosure: None,
            guid: guid.to_owned(),
            pub_date: Timestamp::now(),
        }
    }

    /// The item with the enclosure given, in place of any it had.
    pub fn enclosure(self, url: &str, length: u64, mime_type: &str) -> (out: Item)
        ensures
            out@ == (ItemView {
                enclosure: Some(
                    EnclosureView { url: url@, length: length as nat, mime_type: mime_type@ },
                ),
                ..self@
            }),
    {
        let mut out = self;
        out.enclosure = Some(
            Enclosure { url: url.to_owned(), length, mime_type: mime_type.to_owned() },
        );
        out
    }

    /// The item with the date given.
    pub fn pub_date(self, date: Timestamp) -> (out: Item)
        ensures
            out@ == (ItemView { pub_date: date@, ..self@ }),
    {
        let mut out = self;
        out.pub_date = date;
        out
    }

    /// The item's date.
    pub fn date(&self) -> (date: Timestamp)
        ensures
            date@ == self@.pub_date,
    {
        self.pub_date
    }

    /// The item's identifier.
    pub fn guid(&self) -> (guid: &str)
        ensures
            guid@ == self@.guid,
    {
        self.guid.as_str()
    }

    /// The item's title.
    pub fn title(&self) -> (title: &str)
        ensures
            title@ == self@.title,
    {
        self.title.as_str()
    }

    /// The item's description.
    pub fn description(&self) -> (description: &str)
        ensures
            description@ == self@.description,
    {
        self.description.as_str()
    }

    /// The MIME type of the item's enclosure, if it has one.
    pub fn enclosure_type(&self) -> (mime: Option<&str>)
        ensures
            match mime {
                Some(m) => self@.enclosure matches Some(e) && e.mime_type == m@,
                None => self@.enclosure.is_none(),
            },
    {
        match &self.enclosure {
            Some(enclosure) => Some(enclosure.mime_type.as_str()),
            None => None,
        }
    }

    /// The lines that describe the item.
    pub fn build(&self) -> (out: String)
        ensures
            out@ == item_text(self@),
    {
        let mut out = String::from_str("     <item>\n");
        push_line(
            &mut out,
            "         <title>",
            escape_xml(self.title.as_str()).as_str(),
            "</title>\n",
        );
        push_line(&mut out, "         <link>", escape_xml(self.link.as_str()).as_str(), "</link>\n");
        push_line(
            &mut out,
            "         <description>",
            escape_xml(self.description.as_str()).as_str(),
            "</description>\n",
        );
        if let Some(enclosure) = &self.enclosure {
            out.append(enclosure_string(enclosure).as_str());
        }
        push_line(&mut out, "     <guid>", escape_xml(self.guid.as_str()).as_str(), "</guid>\n");
        push_line(
            &mut out,
            "     <pubDate>",
            escape_xml(self.pub_date.to_utc_display().as_str()).as_str(),
            "</pubDate>\n",
        );
        out.append("     </item>\n");
        out
    }
}

impl Channel {
    /// A channel without image or items, published and built at the present instant.
    pub fn new(title: &str, link: &str, description: &str) -> (out: Channel)
        ensures
            out@.title == title@,
            out@.link == link@,
            out@.description == description@,
            out@.image.is_none(),
            out@.items == Seq::<ItemView>::empty(),
            out@.pub_date == out@.last_build_date,
    {
        let now = Timestamp::now();
        let out = Channel {
            title: title.to_owned(),
            link: link.to_owned(),
            description: description.to_owned(),
            image: None,
            pub_date: now,
            last_build_date: now,
            items: Vec::new(),
        };
        assert(out@.items == Seq::<ItemView>::empty());
        out
    }

    /// The channel with the image given, in place of any it had.
    pub fn image(self, url: &str, title: &str, link: &str) -> (out: Channel)
        ensures
            out@ == (ChannelView {
                image: Some(ImageView { url: url@, title: title@, link: link@ }),
                ..self@
            }),
    {
        let mut out = self;
        out.image = Some(
            Image { url: url.to_owned(), title: title.to_owned(), link: link.to_owned() },
        );
        out
    }

    /// The channel with the publication date given.
    pub fn pub_date(self, date: Timestamp) -> (out: Channel)
        ensures
            out@ == (ChannelView { pub_date: date@, ..self@ }),
    {
        let mut out = self;
        out.pub_date = date;
        out
    }

    /// The channel with the date of its last build given.
    pub fn last_build_date(self, date: Timestamp) -> (out: Channel)
        ensures
            out@ == (ChannelView { last_build_date: date@, ..self@ }),
    {
        let mut out = self;
        out.last_build_date = date;
        out
    }

    /// The channel with `item` behind its items.
    pub fn item(self, item: Item) -> (out: Channel)
        ensures
            out@ == (ChannelView { items: self@.items.push(item@), ..self@ }),
    {
        let mut out = self;
        out.items.push(item);
        assert(item_views(out.items@) == item_views(self.items@).push(item@));
        out
    }

    /// The channel with all of `items` behind its items, in their order.
    pub fn items(self, items: Vec<Item>) -> (out: Channel)
        ensures
            out@ == (ChannelView { items: self@.items + item_views(items@), ..self@ }),
    {
        let mut out = self;
        let mut items = items;
        let ghost added = items@;
        out.items.append(&mut items);
        assert(item_views(out.items@) == item_views(self.items@) + item_views(added));
        out
    }

    /// The channel's items.
    pub fn items_ref(&self) -> (items: &Vec<Item>)
        ensures
            item_views(items@) == self@.items,
    {
        &self.items
    }

    /// The date at which the channel was published.
    pub fn published(&self) -> (date: Timestamp)
        ensures
            date@ == self@.pub_date,
    {
        self.pub_date
    }

    /// The date at which the channel last gained an item.
    pub fn last_built(&self) -> (date: Timestamp)
        ensures
            date@ == self@.last_build_date,
    {
        self.last_build_date
    }

    /// The lines of the channel that precede its items.
    fn build_head(&self) -> (out: String)
        ensures
            out@ == channel_text(self@),
    {
        let mut out = String::from_str("<?xml version=\"1.0\" encoding=\"UTF-8\"?>\n");
        out.append("<rss version=\"2.0\">\n");
        out.append("<channel>\n");
        push_line(&mut out, "     <title>", escape_xml(self.title.as_str()).as_str(), "</title>\n");
        push_line(&mut out, "     <link>", escape_xml(self.link.as_str()).as_str(), "</link>\n");
        push_line(
            &mut out,
            "     <description>",
            escape_xml(self.description.as_str()).as_str(),
            "</description>\n",
        );
        if let Some(image) = &self.image {
            out.append(image_string(image).as_str());
        }
        push_line(&mut out, "     <pubDate>", self.pub_date.to_rfc2822().as_str(), "</pubDate>\n");
        push_line(
            &mut out,
            "     <lastBuildDate>",
            self.last_build_date.to_rfc2822().as_str(),
            "</lastBuildDate>\n",
        );
        out
    }

    /// The channel as an RSS 2.0 document. It always succeeds.
    pub fn build(self) -> (out: Result<String, core::fmt::Error>)
        ensures
            out matches Ok(text) && text@ == feed_text(self@),
    {
        let mut text = self.build_head();
        let ghost head = text@;
        let ghost views = item_views(self.items@);
        let mut i: usize = 0;
        while i < self.items.len()
            invariant
                i <= self.items.len(),
                views == item_views(self.items@),
                text@ == head + items_text(views.subrange(0, i as int)),
            decreases self.items.len() - i,
        {
            let ghost before = views.subrange(0, i as int);
            let ghost after = views.subrange(0, i + 1);
            text.append(self.items[i].build().as_str());
            proof {
                assert(after.drop_last() == before);
                assert(after.last() == self.items@[i as int]@);
                assert(head + items_text(before) + item_text(after.last()) == head + (items_text(
                    before,
                ) + item_text(after.last())));
            }
            i = i + 1;
        }
        assert(views.subrange(0, self.items.len() as int) == views);
        text.append("</channel>\n");
        text.append("</rss>\n");
        Ok(text)
    }
}

} // verus!
