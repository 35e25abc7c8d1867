//! The message that a webhook is sent.

use vstd::prelude::*;

verus! {

/// The colour of every embed.
pub const EMBED_COLOR: u32 = 0x00ff00;

/// A card shown under a message.
#[derive(Debug)]
pub struct DiscordEmbed {
    pub title: String,
    pub description: String,
    pub fields: Option<Vec<EmbedField>>,
    pub footer: Option<EmbedFooter>,
    pub image: Option<EmbedImage>,
    pub thumbnail: Option<EmbedThumbnail>,
}

/// A named value on a card.
#[derive(Debug)]
pub struct EmbedField {
    pub name: String,
    pub value: String,
    pub inline: bool,
}

/// The small print of a card.
#[derive(Debug)]
pub struct EmbedFooter {
    pub text: String,
    pub icon_url: Option<String>,
}

/// The large picture of a card.
#[derive(Debug)]
pub struct EmbedImage {
    pub url: String,
}

/// The small picture of a card.
#[derive(Debug)]
pub struct EmbedThumbnail {
    pub url: String,
}

/// A card as it is sent: the card's own parts, and the colour that all cards share.
#[derive(Debug)]
pub struct PayloadEmbed {
    pub title: String,
    pub description: String,
    pub color: u32,
    pub fields: Option<Vec<EmbedField>>,
    pub footer: Option<EmbedFooter>,
    pub image: Option<EmbedImage>,
    pub thumbnail: Option<EmbedThumbnail>,
}

/// A message as it is sent: its text, and its card if it has one.
#[derive(Debug)]
pub struct WebhookPayload {
    pub content: String,
    pub embed: Option<PayloadEmbed>,
}

impl Default for EmbedField {
    fn default() -> (out: Self)
        ensures
            out.name@.len() == 0,
            out.value@.len() == 0,
            !out.inline,
    {
        EmbedField { name: String::new(), value: String::new(), inline: false }
    }
}

impl Default for EmbedFooter {
    fn default() -> (out: Self)
        ensures
            out.text@.len() == 0,
            out.icon_url.is_none(),
    {
        EmbedFooter { text: String::new(), icon_url: None }
    }
}

impl Default for EmbedImage {
    fn default() -> (out: Self)
        ensures
            out.url@.len() == 0,
    {
        EmbedImage { url: String::new() }
    }
}

impl Default for EmbedThumbnail {
    fn default() -> (out: Self)
        ensures
            out.url@.len() == 0,
    {
        EmbedThumbnail { url: String::new() }
    }
}

impl Default for DiscordEmbed {
    fn default() -> (out: Self)
        ensures
            out.title@.len() == 0,
            out.description@.len() == 0,
            out.fields.is_none(),
            out.footer.is_none(),
            out.image.is_none(),
            out.thumbnail.is_none(),
    {
        DiscordEmbed {
            title: String::new(),
            description: String::new(),
            fields: None,
            footer: None,
            image: None,
            thumbnail: None,
        }
    }
}

/// The card as it is sent: every part as it is, and the shared colour.
pub open spec fn payload_embed(embed: DiscordEmbed) -> PayloadEmbed {
    PayloadEmbed {
        title: embed.title,
        description: embed.description,
        color: EMBED_COLOR,
        fields: embed.fields,
        footer: embed.footer,
        image: embed.image,
        thumbnail: embed.thumbnail,
    }
}

/// The message to send for the text `content` and the card `embed`.
pub fn build_payload(content: String, embed: Option<DiscordEmbed>) -> (out: WebhookPayload)
    ensures
        out.content == content,
        out.embed == match embed {
            Some(embed) => Some(payload_embed(embed)),
            None => None,
        },
{
    let embed = match embed {
        Some(embed) => Some(
            PayloadEmbed {
                title: embed.title,
                description: embed.description,
                color: EMBED_COLOR,
                fields: embed.fields,
                footer: embed.footer,
                image: embed.image,
                thumbnail: embed.thumbnail,
            },
        ),
        None => None,
    };
    WebhookPayload { content, embed }
}

} // verus!
