use vstd::prelude::*;

verus! {

/// The author block of an embed.
#[derive(Debug, Default, Clone)]
pub struct EmbedAutor {
    pub name: String,
    pub url: String,
    pub icon_url: String,
}

/// One name/value entry of an embed.
#[derive(Debug, Default, Clone)]
pub struct EmbedField {
    pub name: String,
    pub value: String,
    pub inline: bool,
}

/// The footer block of an embed.
#[derive(Debug, Default, Clone)]
pub struct EmbedFooter {
    pub text: String,
    pub icon_url: String,
}

/// The large image of an embed.
#[derive(Debug, Default, Clone)]
pub struct EmbedImage {
    pub url: String,
}

/// The small image of an embed.
#[derive(Debug, Default, Clone)]
pub struct EmbedThumbnail {
    pub url: String,
}

/// A rich content block; every part of it may be left out.
#[derive(Debug, Default, Clone)]
pub struct Embed {
    pub title: Option<String>,
    pub description: Option<String>,
    pub url: Option<String>,
    pub color: Option<u32>,
    pub fields: Option<Vec<EmbedField>>,
    pub autor: Option<EmbedAutor>,
    pub footer: Option<EmbedFooter>,
    pub timestamp: Option<String>,
    pub image: Option<EmbedImage>,
    pub thumbnail: Option<EmbedThumbnail>,
}

/// The message document: what is sent to the webhook.
#[derive(Debug, Clone)]
pub struct DiscordWebHookPayload {
    pub content: Option<String>,
    pub username: Option<String>,
    pub avatar_url: Option<String>,
    pub tts: bool,
    pub embeds: Option<Vec<Embed>>,
}

impl Default for DiscordWebHookPayload {
    /// A message with no content, no name, no avatar, no embeds and `tts` off.
    fn default() -> (r: DiscordWebHookPayload)
        ensures
            r.content is None,
            r.username is None,
            r.avatar_url is None,
            !r.tts,
            r.embeds is None,
    {
        DiscordWebHookPayload { content: None, username: None, avatar_url: None, tts: false, embeds: None }
    }
}

/// The limits that the receiving service puts on a message. Only the content,
/// username and embed-count limits are applied by the builder; the others are
/// carried for callers that want to check an embed before adding it.
#[derive(Debug, Clone, Copy)]
pub struct DefaultLength {
    pub content: usize,
    pub embeds: usize,
    pub username: usize,
    pub title: usize,
    pub description: usize,
    pub fields_name: usize,
    pub fields_value: usize,
    pub author_name: usize,
    pub footer_text: usize,
    pub images: usize,
}

impl DefaultLength {
    /// The limit set of the service: 2000 characters of content, ten embeds,
    /// 256 characters of username.
    pub open spec fn spec_standard() -> DefaultLength {
        DefaultLength {
            content: 2000,
            embeds: 10,
            username: 256,
            title: 256,
            description: 2048,
            fields_name: 256,
            fields_value: 1024,
            author_name: 256,
            footer_text: 256,
            images: 4,
        }
    }

    pub fn standard() -> (r: DefaultLength)
        ensures
            r == Self::spec_standard(),
    {
        DefaultLength {
            content: 2000,
            embeds: 10,
            username: 256,
            title: 256,
            description: 2048,
            fields_name: 256,
            fields_value: 1024,
            author_name: 256,
            footer_text: 256,
            images: 4,
        }
    }
}

} // verus!
