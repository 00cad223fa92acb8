//! Builds webhook messages for a chat service: plain content, a display name,
//! an avatar and up to ten rich embeds, with the service's length limits applied
//! as the message is assembled, and renders the message as a JSON document.

mod json;
mod model;
mod webhook;

pub use json::{
    append_decimal, autor_json, bool_json, decimal_of, digit_char, embed_json, embed_members,
    embed_to_json, embeds_json, field_json, fields_json, footer_json, join, json_string_of,
    leading_member, payload_json, push_if, url_json, views,
};
pub use model::{
    DefaultLength, DiscordWebHookPayload, Embed, EmbedAutor, EmbedField, EmbedFooter, EmbedImage,
    EmbedThumbnail,
};
pub use webhook::{
    lemma_bare_payload_json, lemma_single_embed_json, opt_view, too_many_embeds_message,
    truncated, DiscordWebHook,
};
