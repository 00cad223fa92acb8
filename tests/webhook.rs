use discord_webhook::{
    DiscordWebHook, DiscordWebHookPayload, Embed, EmbedAutor, EmbedField, EmbedFooter, EmbedImage,
    EmbedThumbnail,
};

const TEST_HOOK_URL: &str = "https://discord.com/api/webhooks/xxx/yyy";
const TEST_AVATAR_URL1: &str = "http://example.com/discord/avatars/Shabra2.jpg";
const TEST_AVATAR_URL2: &str = "http://example.com/discord/avatars/Shabra3.jpg";
const TEST_AVATAR_URL3: &str = "http://example.com/discord/avatars/Thorbard.jpg";

#[test]
fn it_works1() {
    let mut hook = DiscordWebHook::new(TEST_HOOK_URL, "Test");
    hook.set_avatar_url(TEST_AVATAR_URL2);
    hook.set_username("Umpalumpa3");

    let embed = Embed {
        title: Some("Schwimmen-Probe GESCHEITERT".to_owned()),
        description: Some("Talentwert: 3\nGE\t15\t[16]\nKO\t14\t[14]\nKK\t8\t[14]\nQS: -".to_owned()),
        color: Some(16711680),
        ..Default::default()
    };

    assert!(hook.add_embed(embed).is_ok());

    let embed2 = Embed {
        title: Some("Schwimmen-Probe GELUNGEN".to_owned()),
        description: Some("Talentwert: 3\nGE\t15\t[16]\nKO\t14\t[14]\nKK\t 8\t[14]\nQS: -".to_owned()),
        color: Some(65280),
        ..Default::default()
    };

    assert!(hook.add_embed(embed2).is_ok());

    println!("{:?}", hook.get_json());
    assert_eq!(2 + 2, 4);
    assert_eq!(hook.count_ebmeds(), 2);
    let json = hook.get_json();
    assert!(json.starts_with(
        "{\"content\":\"Test\",\"username\":\"Umpalumpa3\",\"avatar_url\":\"http://example.com/discord/avatars/Shabra3.jpg\",\"tts\":false,\"embeds\":[{\"title\":\"Schwimmen-Probe GESCHEITERT\""
    ));
    assert!(json.contains("\"color\":16711680}"));
    assert!(json.contains("\"color\":65280}]}"));
}

#[test]
fn it_works2() {
    let embed2 = Embed {
        title: Some("Schwimmen-Probe GELUNGEN".to_owned()),
        description: Some("Talentwert: 3\n```GE\t15\t[16]\nKO\t14\t[14]\nKK\t 8\t[14]```\nQS: -".to_owned()),
        color: Some(65280),
        ..Default::default()
    };

    let mut hook = DiscordWebHook::new_with_embed(TEST_HOOK_URL, embed2);
    hook.set_avatar_url(TEST_AVATAR_URL1);
    hook.set_username("Umpalumpa2");

    println!("{:?}", hook.get_json());
    assert_eq!(2 + 2, 4);
    assert_eq!(hook.count_ebmeds(), 1);
    assert!(hook.get_json().starts_with(
        "{\"username\":\"Umpalumpa2\",\"avatar_url\":\"http://example.com/discord/avatars/Shabra2.jpg\",\"tts\":false,\"embeds\":[{"
    ));
}

#[test]
fn it_works3() {
    let embed2 = Embed {
        title: Some("Rumhibbel-Probe -3 __gelungen__".to_owned()),
        description: Some("Talentwert: 3\n```GE\t15\t[16]\nKO\t14\t[14]\nKK\t 8\t[14]```\n**QS: 2**".to_owned()),
        color: Some(65280),
        ..Default::default()
    };

    let mut hook = DiscordWebHook::new_with_embed(TEST_HOOK_URL, embed2);
    hook.set_avatar_url(TEST_AVATAR_URL3);
    hook.set_username("Thorbard");

    println!("{:?}", hook.get_json());
    assert_eq!(2 + 2, 4);
    assert_eq!(
        hook.get_json(),
        "{\"username\":\"Thorbard\",\"avatar_url\":\"http://example.com/discord/avatars/Thorbard.jpg\",\"tts\":false,\"embeds\":[{\"title\":\"Rumhibbel-Probe -3 __gelungen__\",\"description\":\"Talentwert: 3\\n```GE\\t15\\t[16]\\nKO\\t14\\t[14]\\nKK\\t 8\\t[14]```\\n**QS: 2**\",\"color\":65280}]}"
    );
}

#[test]
fn it_works4() {
    let mut hook = DiscordWebHook::new(TEST_HOOK_URL, "some message");
    hook.set_avatar_url(TEST_AVATAR_URL3);
    hook.set_username("Thorbärdel");

    let mut result: Result<(), String> = Err("bla".to_owned());
    for i in 0..11 {
        let embed = Embed {
            title: Some("Rumhibbel-Probe -3 __gelungen__".to_owned()),
            description: Some("Talentwert: 3\n```GE\t15\t[16]\nKO\t14\t[14]\nKK\t 8\t[14]```\n**QS: 2**".to_owned()),
            color: Some(65280),
            ..Default::default()
        };
        println!("loop counter {}", i);

        result = hook.add_embed(embed);
        println!("embed counter {}", hook.count_ebmeds())
    }

    assert_eq!(result.is_err(), true);
}

#[test]
fn long_content_is_cut_to_2000() {
    let content = "A".repeat(2500);
    let hook = DiscordWebHook::new("https://example/webhook", &content);
    let expected = format!("{{\"content\":\"{}\",\"tts\":false}}", "A".repeat(2000));
    assert_eq!(hook.get_json(), expected);
}

#[test]
fn long_content_is_cut_by_characters() {
    let content = "é".repeat(2001);
    let hook = DiscordWebHook::new(TEST_HOOK_URL, &content);
    let expected = format!("{{\"content\":\"{}\",\"tts\":false}}", "é".repeat(2000));
    assert_eq!(hook.get_json(), expected);
}

#[test]
fn content_of_exactly_2000_is_kept() {
    let content = "b".repeat(2000);
    let hook = DiscordWebHook::new(TEST_HOOK_URL, &content);
    assert_eq!(hook.get_json(), format!("{{\"content\":\"{}\",\"tts\":false}}", content));
}

#[test]
fn long_username_is_cut_to_256() {
    let name = format!("{}{}", "x".repeat(256), "yyyy");
    let mut hook = DiscordWebHook::new(TEST_HOOK_URL, "hi");
    hook.set_username(&name);
    let expected = format!(
        "{{\"content\":\"hi\",\"username\":\"{}\",\"tts\":false}}",
        "x".repeat(256)
    );
    assert_eq!(hook.get_json(), expected);
}

#[test]
fn eleventh_embed_is_refused() {
    let mut hook = DiscordWebHook::new(TEST_HOOK_URL, "m");
    for _ in 0..10 {
        assert!(hook.add_embed(Embed::default()).is_ok());
    }
    assert_eq!(hook.count_ebmeds(), 10);
    let before = hook.get_json();
    let result = hook.add_embed(Embed { title: Some("one more".to_owned()), ..Default::default() });
    assert_eq!(result, Err("Too many embedded elements, maximum is 10".to_owned()));
    assert_eq!(hook.count_ebmeds(), 10);
    assert_eq!(hook.get_json(), before);
}

#[test]
fn fresh_builder_has_no_embeds() {
    let hook = DiscordWebHook::new(TEST_HOOK_URL, "hello");
    assert_eq!(hook.count_ebmeds(), 0);
    assert_eq!(hook.get_json(), "{\"content\":\"hello\",\"tts\":false}");
}

#[test]
fn bare_payload_writes_tts_only() {
    assert_eq!(DiscordWebHookPayload::default().to_json(), "{\"tts\":false}");
}

#[test]
fn single_embed_round_trip() {
    let embed = Embed {
        title: Some("T".to_owned()),
        description: Some("say \"hi\"".to_owned()),
        url: Some("https://e.example/x".to_owned()),
        color: Some(0),
        fields: Some(vec![
            EmbedField { name: "n1".to_owned(), value: "v1".to_owned(), inline: true },
            EmbedField { name: "n2".to_owned(), value: "v2".to_owned(), inline: false },
        ]),
        autor: Some(EmbedAutor {
            name: "A".to_owned(),
            url: "u".to_owned(),
            icon_url: "i".to_owned(),
        }),
        footer: Some(EmbedFooter { text: "f".to_owned(), icon_url: "fi".to_owned() }),
        timestamp: Some("2024-01-02T03:04:05Z".to_owned()),
        image: Some(EmbedImage { url: "img".to_owned() }),
        thumbnail: Some(EmbedThumbnail { url: "th".to_owned() }),
    };
    let hook = DiscordWebHook::new_with_embed(TEST_HOOK_URL, embed.clone());
    assert_eq!(hook.count_ebmeds(), 1);
    let expected_embed = "{\"title\":\"T\",\"description\":\"say \\\"hi\\\"\",\"url\":\"https://e.example/x\",\"color\":0,\"fields\":[{\"name\":\"n1\",\"value\":\"v1\",\"inline\":true},{\"name\":\"n2\",\"value\":\"v2\",\"inline\":false}],\"autor\":{\"name\":\"A\",\"url\":\"u\",\"icon_url\":\"i\"},\"footer\":{\"text\":\"f\",\"icon_url\":\"fi\"},\"timestamp\":\"2024-01-02T03:04:05Z\",\"image\":{\"url\":\"img\"},\"thumbnail\":{\"url\":\"th\"}}";
    assert_eq!(discord_webhook::embed_to_json(&embed), expected_embed);
    assert_eq!(
        hook.get_json(),
        format!("{{\"tts\":false,\"embeds\":[{}]}}", expected_embed)
    );
}

#[test]
fn empty_embed_and_empty_field_list() {
    let hook = DiscordWebHook::new_with_embed(TEST_HOOK_URL, Embed::default());
    assert_eq!(hook.get_json(), "{\"tts\":false,\"embeds\":[{}]}");
    let e = Embed { fields: Some(vec![]), ..Default::default() };
    assert_eq!(discord_webhook::embed_to_json(&e), "{\"fields\":[]}");
}

#[test]
fn strings_are_escaped() {
    let hook = DiscordWebHook::new(TEST_HOOK_URL, "a\"b\\c\nd");
    assert_eq!(hook.get_json(), "{\"content\":\"a\\\"b\\\\c\\nd\",\"tts\":false}");
}

#[test]
fn large_color_is_written_in_decimal() {
    let e = Embed { color: Some(4294967295), ..Default::default() };
    assert_eq!(discord_webhook::embed_to_json(&e), "{\"color\":4294967295}");
}

#[test]
fn avatar_and_url_are_kept_verbatim() {
    let mut hook = DiscordWebHook::new(TEST_HOOK_URL, "x");
    hook.set_avatar_url("not a url");
    assert_eq!(hook.get_url(), TEST_HOOK_URL);
    assert_eq!(hook.get_json(), "{\"content\":\"x\",\"avatar_url\":\"not a url\",\"tts\":false}");
}

#[test]
fn short_username_is_kept() {
    let mut hook = DiscordWebHook::new(TEST_HOOK_URL, "x");
    hook.set_username("Thorbärdel");
    assert_eq!(hook.get_json(), "{\"content\":\"x\",\"username\":\"Thorbärdel\",\"tts\":false}");
}

#[test]
fn standard_limits() {
    let l = discord_webhook::DefaultLength::standard();
    assert_eq!((l.content, l.embeds, l.username, l.title), (2000, 10, 256, 256));
    assert_eq!((l.description, l.fields_name, l.fields_value), (2048, 256, 1024));
    assert_eq!((l.author_name, l.footer_text, l.images), (256, 256, 4));
}
