use vstd::prelude::*;

use crate::model::{
    DiscordWebHookPayload, Embed, EmbedAutor, EmbedField, EmbedFooter, EmbedImage, EmbedThumbnail,
};

verus! {

/// The JSON string literal (quotes and escapes included) that stands for `s`.
pub uninterp spec fn json_string_of(s: Seq<char>) -> Seq<char>;

/// Relies on serde_json::to_string for a `str`: it renders the text as one JSON
/// string literal. Rendering into memory cannot fail for a `str`, so the error
/// arm is never taken.
#[verifier::external_body]
fn json_string(s: &str) -> (r: String)
    ensures
        r@ == json_string_of(s@),
{
    match serde_json::to_string(s) {
        Ok(t) => t,
        Err(_) => String::new(),
    }
}

pub open spec fn digit_char(d: nat) -> char {
    if d == 0 { '0' }
    else if d == 1 { '1' }
    else if d == 2 { '2' }
    else if d == 3 { '3' }
    else if d == 4 { '4' }
    else if d == 5 { '5' }
    else if d == 6 { '6' }
    else if d == 7 { '7' }
    else if d == 8 { '8' }
    else { '9' }
}

/// The decimal digits of `n`, most significant first, without leading zeros.
pub open spec fn decimal_of(n: nat) -> Seq<char>
    decreases n,
{
    if n < 10 {
        seq![digit_char(n)]
    } else {
        decimal_of(n / 10) + seq![digit_char(n % 10)]
    }
}

pub open spec fn bool_json(b: bool) -> Seq<char> {
    if b { "true"@ } else { "false"@ }
}

/// The parts, in order, with a comma between each two.
pub open spec fn join(parts: Seq<Seq<char>>) -> Seq<char>
    decreases parts.len(),
{
    if parts.len() == 0 {
        Seq::empty()
    } else if parts.len() == 1 {
        parts[0]
    } else {
        join(parts.drop_last()) + ","@ + parts.last()
    }
}

/// The character sequences of a sequence of strings.
pub open spec fn views(v: Seq<String>) -> Seq<Seq<char>> {
    v.map_values(|s: String| s@)
}

pub open spec fn field_json(f: EmbedField) -> Seq<char> {
    "{\"name\":"@ + json_string_of(f.name@) + ",\"value\":"@ + json_string_of(f.value@)
        + ",\"inline\":"@ + bool_json(f.inline) + "}"@
}

pub open spec fn autor_json(a: EmbedAutor) -> Seq<char> {
    "{\"name\":"@ + json_string_of(a.name@) + ",\"url\":"@ + json_string_of(a.url@)
        + ",\"icon_url\":"@ + json_string_of(a.icon_url@) + "}"@
}

pub open spec fn footer_json(f: EmbedFooter) -> Seq<char> {
    "{\"text\":"@ + json_string_of(f.text@) + ",\"icon_url\":"@ + json_string_of(f.icon_url@)
        + "}"@
}

pub open spec fn url_json(u: Seq<char>) -> Seq<char> {
    "{\"url\":"@ + json_string_of(u) + "}"@
}

pub open spec fn fields_json(fs: Seq<EmbedField>) -> Seq<char> {
    "["@ + join(fs.map_values(|f: EmbedField| field_json(f))) + "]"@
}

/// Appends `m` when the member is present.
pub open spec fn push_if(s: Seq<Seq<char>>, present: bool, m: Seq<char>) -> Seq<Seq<char>> {
    if present { s.push(m) } else { s }
}

/// The members of an embed's JSON object, in field order; absent parts have none.
pub open spec fn embed_members(e: Embed) -> Seq<Seq<char>> {
    let s = push_if(seq![], e.title is Some, "\"title\":"@ + json_string_of(e.title->0@));
    let s = push_if(s, e.description is Some,
        "\"description\":"@ + json_string_of(e.description->0@));
    let s = push_if(s, e.url is Some, "\"url\":"@ + json_string_of(e.url->0@));
    let s = push_if(s, e.color is Some, "\"color\":"@ + decimal_of(e.color->0 as nat));
    let s = push_if(s, e.fields is Some, "\"fields\":"@ + fields_json(e.fields->0@));
    let s = push_if(s, e.autor is Some, "\"autor\":"@ + autor_json(e.autor->0));
    let s = push_if(s, e.footer is Some, "\"footer\":"@ + footer_json(e.footer->0));
    let s = push_if(s, e.timestamp is Some,
        "\"timestamp\":"@ + json_string_of(e.timestamp->0@));
    let s = push_if(s, e.image is Some, "\"image\":"@ + url_json(e.image->0.url@));
    push_if(s, e.thumbnail is Some, "\"thumbnail\":"@ + url_json(e.thumbnail->0.url@))
}

pub open spec fn embed_json(e: Embed) -> Seq<char> {
    "{"@ + join(embed_members(e)) + "}"@
}

pub open spec fn embeds_json(es: Seq<Embed>) -> Seq<char> {
    "["@ + join(es.map_values(|e: Embed| embed_json(e))) + "]"@
}

/// A string member written as `"key":value,`, or nothing when absent.
pub open spec fn leading_member(key: Seq<char>, v: Option<String>) -> Seq<char> {
    match v {
        Some(s) => key + json_string_of(s@) + ","@,
        None => Seq::empty(),
    }
}

/// The JSON document of a message: the absent parts are left out, `tts` is
/// always there, and the members keep the order content, username,
/// avatar_url, tts, embeds.
pub open spec fn payload_json(p: DiscordWebHookPayload) -> Seq<char> {
    "{"@ + leading_member("\"content\":"@, p.content) + leading_member(
        "\"username\":"@,
        p.username,
    ) + leading_member("\"avatar_url\":"@, p.avatar_url) + "\"tts\":"@ + bool_json(p.tts) + match p.embeds {
        Some(es) => ",\"embeds\":"@ + embeds_json(es@),
        None => Seq::empty(),
    } + "}"@
}


fn digit_str(d: u64) -> (r: &'static str)
    requires
        d < 10,
    ensures
        r@ == seq![digit_char(d as nat)],
{
    proof {
        reveal_strlit("0");
        reveal_strlit("1");
        reveal_strlit("2");
        reveal_strlit("3");
        reveal_strlit("4");
        reveal_strlit("5");
        reveal_strlit("6");
        reveal_strlit("7");
        reveal_strlit("8");
        reveal_strlit("9");
    }
    if d == 0 { "0" }
    else if d == 1 { "1" }
    else if d == 2 { "2" }
    else if d == 3 { "3" }
    else if d == 4 { "4" }
    else if d == 5 { "5" }
    else if d == 6 { "6" }
    else if d == 7 { "7" }
    else if d == 8 { "8" }
    else { "9" }
}

/// Writes the decimal digits of `n` after what `out` holds.
pub fn append_decimal(out: &mut String, n: u64)
    ensures
        final(out)@ == old(out)@ + decimal_of(n as nat),
    decreases n,
{
    let ghost start = out@;
    if n >= 10 {
        append_decimal(out, n / 10);
    }
    out.append(digit_str(n % 10));
    assert(out@ =~= start + decimal_of(n as nat));
}

proof fn lemma_join_push(parts: Seq<Seq<char>>, m: Seq<char>)
    ensures
        join(parts.push(m)) == if parts.len() == 0 { m } else { join(parts) + ","@ + m },
{
    assert(parts.push(m).drop_last() =~= parts);
}

/// Writes the parts after what `out` holds, with a comma between each two.
fn append_joined(out: &mut String, parts: &Vec<String>)
    ensures
        final(out)@ == old(out)@ + join(views(parts@)),
{
    let ghost start = out@;
    let mut i: usize = 0;
    while i < parts.len()
        invariant
            i <= parts.len(),
            out@ == start + join(views(parts@.take(i as int))),
        decreases parts.len() - i,
    {
        let ghost before = out@;
        if i > 0 {
            out.append(",");
        }
        out.append(parts[i].as_str());
        proof {
            let done = views(parts@.take(i as int));
            assert(views(parts@.take(i + 1)) =~= done.push(parts@[i as int]@));
            lemma_join_push(done, parts@[i as int]@);
            assert(out@ =~= start + join(views(parts@.take(i + 1))));
        }
        i += 1;
    }
    assert(parts@.take(parts.len() as int) =~= parts@);
}

fn push_part(parts: &mut Vec<String>, s: String)
    ensures
        views(final(parts)@) == views(old(parts)@).push(s@),
{
    parts.push(s);
    assert(views(parts@) =~= views(old(parts)@).push(s@));
}

/// `key` followed by `body`.
fn member(key: &str, body: String) -> (r: String)
    ensures
        r@ == key@ + body@,
{
    let mut m = key.to_string();
    m.append(body.as_str());
    m
}

fn string_json(s: &String) -> (r: String)
    ensures
        r@ == json_string_of(s@),
{
    json_string(s.as_str())
}

fn bool_text(b: bool) -> (r: &'static str)
    ensures
        r@ == bool_json(b),
{
    if b { "true" } else { "false" }
}

fn field_to_json(f: &EmbedField) -> (r: String)
    ensures
        r@ == field_json(*f),
{
    let mut out = "{\"name\":".to_string();
    out.append(string_json(&f.name).as_str());
    out.append(",\"value\":");
    out.append(string_json(&f.value).as_str());
    out.append(",\"inline\":");
    out.append(bool_text(f.inline));
    out.append("}");
    out
}

fn fields_to_json(fs: &Vec<EmbedField>) -> (r: String)
    ensures
        r@ == fields_json(fs@),
{
    let ghost spec_items = fs@.map_values(|f: EmbedField| field_json(f));
    let mut parts: Vec<String> = Vec::new();
    let mut i: usize = 0;
    while i < fs.len()
        invariant
            i <= fs.len(),
            spec_items == fs@.map_values(|f: EmbedField| field_json(f)),
            views(parts@) =~= spec_items.take(i as int),
        decreases fs.len() - i,
    {
        push_part(&mut parts, field_to_json(&fs[i]));
        assert(spec_items.take(i + 1) =~= spec_items.take(i as int).push(spec_items[i as int]));
        i += 1;
    }
    assert(spec_items.take(fs.len() as int) =~= spec_items);
    let mut out = "[".to_string();
    append_joined(&mut out, &parts);
    out.append("]");
    out
}

fn autor_to_json(a: &EmbedAutor) -> (r: String)
    ensures
        r@ == autor_json(*a),
{
    let mut out = "{\"name\":".to_string();
    out.append(string_json(&a.name).as_str());
    out.append(",\"url\":");
    out.append(string_json(&a.url).as_str());
    out.append(",\"icon_url\":");
    out.append(string_json(&a.icon_url).as_str());
    out.append("}");
    out
}

fn footer_to_json(f: &EmbedFooter) -> (r: String)
    ensures
        r@ == footer_json(*f),
{
    let mut out = "{\"text\":".to_string();
    out.append(string_json(&f.text).as_str());
    out.append(",\"icon_url\":");
    out.append(string_json(&f.icon_url).as_str());
    out.append("}");
    out
}

fn url_to_json(u: &String) -> (r: String)
    ensures
        r@ == url_json(u@),
{
    let mut out = "{\"url\":".to_string();
    out.append(string_json(u).as_str());
    out.append("}");
    out
}

fn decimal_text(n: u32) -> (r: String)
    ensures
        r@ == decimal_of(n as nat),
{
    let mut out = String::new();
    append_decimal(&mut out, n as u64);
    out
}


/// Renders one embed as a JSON object, leaving out the parts it does not have.
pub fn embed_to_json(e: &Embed) -> (r: String)
    ensures
        r@ == embed_json(*e),
{
    let mut parts: Vec<String> = Vec::new();
    let ghost mut s: Seq<Seq<char>> = seq![];
    match &e.title {
        Some(t) => push_part(&mut parts, member("\"title\":", string_json(t))),
        None => {},
    }
    proof { s = push_if(s, e.title is Some, "\"title\":"@ + json_string_of(e.title->0@)); }
    assert(views(parts@) == s);
    match &e.description {
        Some(t) => push_part(&mut parts, member("\"description\":", string_json(t))),
        None => {},
    }
    proof {
        s = push_if(s, e.description is Some,
            "\"description\":"@ + json_string_of(e.description->0@));
    }
    assert(views(parts@) == s);
    match &e.url {
        Some(t) => push_part(&mut parts, member("\"url\":", string_json(t))),
        None => {},
    }
    proof { s = push_if(s, e.url is Some, "\"url\":"@ + json_string_of(e.url->0@)); }
    assert(views(parts@) == s);
    match e.color {
        Some(c) => push_part(&mut parts, member("\"color\":", decimal_text(c))),
        None => {},
    }
    proof { s = push_if(s, e.color is Some, "\"color\":"@ + decimal_of(e.color->0 as nat)); }
    assert(views(parts@) == s);
    match &e.fields {
        Some(fs) => push_part(&mut parts, member("\"fields\":", fields_to_json(fs))),
        None => {},
    }
    proof { s = push_if(s, e.fields is Some, "\"fields\":"@ + fields_json(e.fields->0@)); }
    assert(views(parts@) == s);
    match &e.autor {
        Some(a) => push_part(&mut parts, member("\"autor\":", autor_to_json(a))),
        None => {},
    }
    proof { s = push_if(s, e.autor is Some, "\"autor\":"@ + autor_json(e.autor->0)); }
    assert(views(parts@) == s);
    match &e.footer {
        Some(f) => push_part(&mut parts, member("\"footer\":", footer_to_json(f))),
        None => {},
    }
    proof { s = push_if(s, e.footer is Some, "\"footer\":"@ + footer_json(e.footer->0)); }
    assert(views(parts@) == s);
    match &e.timestamp {
        Some(t) => push_part(&mut parts, member("\"timestamp\":", string_json(t))),
        None => {},
    }
    proof {
        s = push_if(s, e.timestamp is Some, "\"timestamp\":"@ + json_string_of(e.timestamp->0@));
    }
    assert(views(parts@) == s);
    match &e.image {
        Some(i) => push_part(&mut parts, member("\"image\":", url_to_json(&i.url))),
        None => {},
    }
    proof { s = push_if(s, e.image is Some, "\"image\":"@ + url_json(e.image->0.url@)); }
    assert(views(parts@) == s);
    match &e.thumbnail {
        Some(i) => push_part(&mut parts, member("\"thumbnail\":", url_to_json(&i.url))),
        None => {},
    }
    proof {
        s = push_if(s, e.thumbnail is Some, "\"thumbnail\":"@ + url_json(e.thumbnail->0.url@));
    }
    assert(views(parts@) == embed_members(*e));
    let mut out = "{".to_string();
    append_joined(&mut out, &parts);
    out.append("}");
    out
}

fn embeds_to_json(es: &Vec<Embed>) -> (r: String)
    ensures
        r@ == embeds_json(es@),
{
    let ghost spec_items = es@.map_values(|e: Embed| embed_json(e));
    let mut parts: Vec<String> = Vec::new();
    let mut i: usize = 0;
    while i < es.len()
        invariant
            i <= es.len(),
            spec_items == es@.map_values(|e: Embed| embed_json(e)),
            views(parts@) =~= spec_items.take(i as int),
        decreases es.len() - i,
    {
        push_part(&mut parts, embed_to_json(&es[i]));
        assert(spec_items.take(i + 1) =~= spec_items.take(i as int).push(spec_items[i as int]));
        i += 1;
    }
    assert(spec_items.take(es.len() as int) =~= spec_items);
    let mut out = "[".to_string();
    append_joined(&mut out, &parts);
    out.append("]");
    out
}

fn append_leading_member(out: &mut String, key: &str, v: &Option<String>)
    ensures
        final(out)@ == old(out)@ + leading_member(key@, *v),
{
    match v {
        Some(s) => {
            let ghost start = out@;
            out.append(key);
            out.append(string_json(s).as_str());
            out.append(",");
            assert(out@ =~= start + leading_member(key@, *v));
        },
        None => {
            assert(out@ =~= old(out)@ + leading_member(key@, *v));
        },
    }
}

impl DiscordWebHookPayload {
    /// Renders the message as a JSON document: absent parts are left out and
    /// `tts` is always written.
    pub fn to_json(&self) -> (r: String)
        ensures
            r@ == payload_json(*self),
    {
        let mut out = "{".to_string();
        append_leading_member(&mut out, "\"content\":", &self.content);
        append_leading_member(&mut out, "\"username\":", &self.username);
        append_leading_member(&mut out, "\"avatar_url\":", &self.avatar_url);
        out.append("\"tts\":");
        out.append(bool_text(self.tts));
        match &self.embeds {
            Some(es) => {
                out.append(",\"embeds\":");
                out.append(embeds_to_json(es).as_str());
            },
            None => {},
        }
        out.append("}");
        assert(out@ =~= payload_json(*self));
        out
    }
}

} // verus!
