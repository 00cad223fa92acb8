use vstd::prelude::*;

use crate::json::{append_decimal, decimal_of, embed_json, join, payload_json};
use crate::model::{DefaultLength, DiscordWebHookPayload, Embed};

verus! {

/// `s` cut to its first `n` characters when it is longer.
pub open spec fn truncated(s: Seq<char>, n: nat) -> Seq<char> {
    if s.len() <= n { s } else { s.subrange(0, n as int) }
}

pub open spec fn opt_view(o: Option<String>) -> Option<Seq<char>> {
    match o {
        Some(s) => Some(s@),
        None => None,
    }
}

/// The error that `add_embed` gives once the message holds `limit` embeds.
pub open spec fn too_many_embeds_message(limit: nat) -> Seq<char> {
    "Too many embedded elements, maximum is "@ + decimal_of(limit)
}

/// The first `n` characters of `s`, or all of it when it is shorter.
fn truncate_chars(s: &str, n: usize) -> (r: String)
    ensures
        r@ == truncated(s@, n as nat),
{
    if s.unicode_len() <= n {
        s.to_string()
    } else {
        s.substring_char(0, n).to_string()
    }
}

/// A message under construction for one webhook address.
#[derive(Debug)]
pub struct DiscordWebHook {
    webhook_url: String,
    limits: DefaultLength,
    payload: DiscordWebHookPayload,
}

impl DiscordWebHook {
    pub closed spec fn url_view(&self) -> Seq<char> {
        self.webhook_url@
    }

    pub closed spec fn limits_view(&self) -> DefaultLength {
        self.limits
    }

    pub closed spec fn payload_view(&self) -> DiscordWebHookPayload {
        self.payload
    }

    /// The embeds added so far, in the order they were added.
    pub open spec fn embed_list(&self) -> Seq<Embed> {
        match self.payload_view().embeds {
            Some(v) => v@,
            None => Seq::empty(),
        }
    }

    /// The limits hold: content and username are no longer than allowed, and
    /// there are no more embeds than allowed.
    pub open spec fn wf(&self) -> bool {
        &&& self.embed_list().len() <= self.limits_view().embeds
        &&& self.payload_view().content matches Some(c) ==> c@.len() <= self.limits_view().content
        &&& self.payload_view().username matches Some(u) ==> u@.len()
            <= self.limits_view().username
    }

    /// A message for `webhook_url` whose content is `content` cut to the
    /// content limit.
    pub fn new(webhook_url: &str, content: &str) -> (r: DiscordWebHook)
        ensures
            r.wf(),
            r.url_view() == webhook_url@,
            r.limits_view() == DefaultLength::spec_standard(),
            opt_view(r.payload_view().content) == Some(truncated(content@, 2000)),
            content@.len() > 2000 ==> r.payload_view().content->0@.len() == 2000
                && r.payload_view().content->0@.is_prefix_of(content@),
            r.payload_view().username is None,
            r.payload_view().avatar_url is None,
            !r.payload_view().tts,
            r.payload_view().embeds is None,
            r.embed_list().len() == 0,
    {
        let limits = DefaultLength::standard();
        let mut payload = DiscordWebHookPayload::default();
        payload.content = Some(truncate_chars(content, limits.content));
        DiscordWebHook { webhook_url: webhook_url.to_string(), limits, payload }
    }

    /// The message as a JSON document.
    pub fn get_json(&self) -> (r: String)
        ensures
            r@ == payload_json(self.payload_view()),
    {
        self.payload.to_json()
    }

    pub fn get_url(&self) -> (r: &str)
        ensures
            r@ == self.url_view(),
    {
        self.webhook_url.as_str()
    }

    /// Sets the avatar address as given; it is not checked.
    pub fn set_avatar_url(&mut self, avatar_url: &str)
        requires
            old(self).wf(),
        ensures
            final(self).wf(),
            opt_view(final(self).payload_view().avatar_url) == Some(avatar_url@),
            final(self).payload_view().content == old(self).payload_view().content,
            final(self).payload_view().username == old(self).payload_view().username,
            final(self).payload_view().tts == old(self).payload_view().tts,
            final(self).payload_view().embeds == old(self).payload_view().embeds,
            final(self).url_view() == old(self).url_view(),
            final(self).limits_view() == old(self).limits_view(),
    {
        self.payload.avatar_url = Some(avatar_url.to_string());
    }

    /// Sets the display name, cut to the username limit.
    pub fn set_username(&mut self, username: &str)
        requires
            old(self).wf(),
        ensures
            final(self).wf(),
            opt_view(final(self).payload_view().username) == Some(
                truncated(username@, old(self).limits_view().username as nat),
            ),
            old(self).limits_view() == DefaultLength::spec_standard() && username@.len() > 256
                ==> final(self).payload_view().username->0@.len() == 256
                && final(self).payload_view().username->0@.is_prefix_of(username@),
            final(self).payload_view().content == old(self).payload_view().content,
            final(self).payload_view().avatar_url == old(self).payload_view().avatar_url,
            final(self).payload_view().tts == old(self).payload_view().tts,
            final(self).payload_view().embeds == old(self).payload_view().embeds,
            final(self).url_view() == old(self).url_view(),
            final(self).limits_view() == old(self).limits_view(),
    {
        self.payload.username = Some(truncate_chars(username, self.limits.username));
    }

    /// Appends `embed` when the message holds fewer embeds than the limit;
    /// otherwise leaves the message as it was and reports the limit.
    pub fn add_embed(&mut self, embed: Embed) -> (r: Result<(), String>)
        requires
            old(self).wf(),
        ensures
            final(self).wf(),
            old(self).embed_list().len() >= old(self).limits_view().embeds ==> {
                &&& r is Err
                &&& r->Err_0@ == too_many_embeds_message(old(self).limits_view().embeds as nat)
                &&& *final(self) == *old(self)
            },
            old(self).embed_list().len() < old(self).limits_view().embeds ==> {
                &&& r is Ok
                &&& final(self).payload_view().embeds is Some
                &&& final(self).embed_list() == old(self).embed_list().push(embed)
                &&& final(self).payload_view().content == old(self).payload_view().content
                &&& final(self).payload_view().username == old(self).payload_view().username
                &&& final(self).payload_view().avatar_url == old(self).payload_view().avatar_url
                &&& final(self).payload_view().tts == old(self).payload_view().tts
                &&& final(self).url_view() == old(self).url_view()
                &&& final(self).limits_view() == old(self).limits_view()
            },
    {
        if self.count_ebmeds() >= self.limits.embeds {
            let mut message = "Too many embedded elements, maximum is ".to_string();
            append_decimal(&mut message, self.limits.embeds as u64);
            return Err(message);
        }
        match &mut self.payload.embeds {
            Some(list) => list.push(embed),
            None => self.payload.embeds = Some(vec![embed]),
        }
        Ok(())
    }

    /// A message for `webhook_url` with no content and `embed` as its one embed.
    pub fn new_with_embed(webhook_url: &str, embed: Embed) -> (r: DiscordWebHook)
        ensures
            r.wf(),
            r.url_view() == webhook_url@,
            r.limits_view() == DefaultLength::spec_standard(),
            r.payload_view().content is None,
            r.payload_view().username is None,
            r.payload_view().avatar_url is None,
            !r.payload_view().tts,
            r.payload_view().embeds is Some,
            r.embed_list() == seq![embed],
    {
        let mut hook = DiscordWebHook {
            webhook_url: webhook_url.to_string(),
            limits: DefaultLength::standard(),
            payload: DiscordWebHookPayload::default(),
        };
        let _ = hook.add_embed(embed);
        hook
    }

    /// The number of embeds added so far.
    pub fn count_ebmeds(&self) -> (r: usize)
        ensures
            r == self.embed_list().len(),
    {
        match &self.payload.embeds {
            Some(list) => list.len(),
            None => 0,
        }
    }
}


/// A message with no content, username, avatar or embeds, and `tts` off, is
/// written as the object that holds `tts` alone.
pub proof fn lemma_bare_payload_json(p: DiscordWebHookPayload)
    requires
        p.content is None,
        p.username is None,
        p.avatar_url is None,
        !p.tts,
        p.embeds is None,
    ensures
        payload_json(p) == "{\"tts\":false}"@,
{
    reveal_strlit("{");
    reveal_strlit("\"tts\":");
    reveal_strlit("false");
    reveal_strlit("}");
    reveal_strlit("{\"tts\":false}");
    assert(payload_json(p) =~= "{\"tts\":false}"@);
}

/// A message made by `new_with_embed(url, e)` is written with `tts` and an
/// `embeds` array whose one element is the object of `e`, and nothing else.
pub proof fn lemma_single_embed_json(h: DiscordWebHook, e: Embed)
    requires
        h.payload_view().content is None,
        h.payload_view().username is None,
        h.payload_view().avatar_url is None,
        !h.payload_view().tts,
        h.payload_view().embeds is Some,
        h.embed_list() == seq![e],
    ensures
        payload_json(h.payload_view()) == "{\"tts\":false,\"embeds\":["@ + embed_json(e) + "]}"@,
{
    reveal_strlit("{");
    reveal_strlit("\"tts\":");
    reveal_strlit("false");
    reveal_strlit("}");
    reveal_strlit(",\"embeds\":");
    reveal_strlit("[");
    reveal_strlit("]");
    reveal_strlit("{\"tts\":false,\"embeds\":[");
    reveal_strlit("]}");
    let items = h.embed_list().map_values(|x: Embed| embed_json(x));
    assert(items =~= seq![embed_json(e)]);
    assert(join(items) == embed_json(e));
    assert(payload_json(h.payload_view()) =~= "{\"tts\":false,\"embeds\":["@ + embed_json(e)
        + "]}"@);
}

} // verus!
