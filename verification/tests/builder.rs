use webhook::{Author, ColourType, Embed, Field, Footer, Thumbnail, Timestamp, Webhook};

#[test]
fn create_embed() {
    let embed = Embed::new()
        .set_colour(ColourType::Hex("#FFFFFF".to_string()))
        .set_author("Author Name", Some("https://example.com/"), None, None)
        .set_thumbnail("https://example.com/", None, None, None)
        .set_title("Example")
        .set_url("https://example.com/")
        .set_footer("Footer Text", None, None)
        .set_description("Description Text")
        .add_field("Example 1", "Value 1", true)
        .add_fields(&mut vec![
            Field {
                name: "Example 2".to_string(),
                value: "Value 2".to_string(),
                inline: false,
            },
            Field {
                name: "Example 3".to_string(),
                value: "Value 3".to_string(),
                inline: false,
            },
        ]);

    let expected = Embed {
        title: Some("Example".to_string()),
        description: Some("Description Text".to_string()),
        url: Some("https://example.com/".to_string()),
        timestamp: None,
        color: Some(16777215),
        footer: Some(Footer {
            text: "Footer Text".to_string(),
            icon_url: None,
            proxy_icon_url: None,
        }),
        image: None,
        thumbnail: Some(Thumbnail {
            url: "https://example.com/".to_string(),
            proxy_url: None,
            height: None,
            width: None,
        }),
        video: None,
        provider: None,
        author: Some(Author {
            name: "Author Name".to_string(),
            url: Some("https://example.com/".to_string()),
            icon_url: None,
            proxy_icon_url: None,
        }),
        fields: vec![
            Field {
                name: "Example 1".to_string(),
                value: "Value 1".to_string(),
                inline: true,
            },
            Field {
                name: "Example 2".to_string(),
                value: "Value 2".to_string(),
                inline: false,
            },
            Field {
                name: "Example 3".to_string(),
                value: "Value 3".to_string(),
                inline: false,
            },
        ],
    };
    assert_eq!(embed, expected);
    assert_eq!(embed.embed_type(), "rich");
}

#[test]
fn embed_adds_to_webhook() {
    let webhook = Webhook::new("https://discord.com/webhook")
        .set_content("Content Text")
        .set_username("Test Username");

    let embed = Embed::new()
        .set_colour(ColourType::Hex("#FFFFFF".to_string()))
        .set_author("Author Name", Some("https://example.com/"), None, None)
        .set_thumbnail("https://example.com/", None, None, None)
        .set_title("Example")
        .set_url("https://example.com/")
        .set_footer("Footer Text", None, None)
        .set_description("Description Text")
        .add_field("Example 1", "Value 1", true)
        .add_fields(&mut vec![
            Field {
                name: "Example 2".to_string(),
                value: "Value 2".to_string(),
                inline: false,
            },
            Field {
                name: "Example 3".to_string(),
                value: "Value 3".to_string(),
                inline: false,
            },
        ]);

    let webhook = webhook.add_embed(embed);

    let expected_embed = Embed {
        title: Some("Example".to_string()),
        description: Some("Description Text".to_string()),
        url: Some("https://example.com/".to_string()),
        timestamp: None,
        color: Some(16777215),
        footer: Some(Footer {
            text: "Footer Text".to_string(),
            icon_url: None,
            proxy_icon_url: None,
        }),
        image: None,
        thumbnail: Some(Thumbnail {
            url: "https://example.com/".to_string(),
            proxy_url: None,
            height: None,
            width: None,
        }),
        video: None,
        provider: None,
        author: Some(Author {
            name: "Author Name".to_string(),
            url: Some("https://example.com/".to_string()),
            icon_url: None,
            proxy_icon_url: None,
        }),
        fields: vec![
            Field {
                name: "Example 1".to_string(),
                value: "Value 1".to_string(),
                inline: true,
            },
            Field {
                name: "Example 2".to_string(),
                value: "Value 2".to_string(),
                inline: false,
            },
            Field {
                name: "Example 3".to_string(),
                value: "Value 3".to_string(),
                inline: false,
            },
        ],
    };

    assert_eq!(webhook.webhook_url(), "https://discord.com/webhook");
    assert_eq!(webhook.content, Some("Content Text".to_string()));
    assert_eq!(webhook.username, Some("Test Username".to_string()));
    assert_eq!(webhook.avatar_url, None);
    assert_eq!(webhook.embeds, vec![expected_embed]);
    assert_eq!(webhook.components().len(), 0);
}

#[test]
fn colour_parses_with_and_without_prefixes() {
    let bare = Embed::new().set_colour(ColourType::Hex("FFFFFF".to_string()));
    let hash = Embed::new().set_colour(ColourType::Hex("#FFFFFF".to_string()));
    let marker = Embed::new().set_colour(ColourType::Hex("0xFFFFFF".to_string()));
    assert_eq!(bare.color, Some(16777215));
    assert_eq!(hash.color, Some(16777215));
    assert_eq!(marker.color, Some(16777215));

    let red = Embed::new().set_colour(ColourType::Hex("0xff0000".to_string()));
    assert_eq!(red.color, Some(16711680));

    let small = Embed::new().set_colour(ColourType::Hex("123".to_string()));
    assert_eq!(small.color, Some(291));

    let signed = Embed::new().set_colour(ColourType::Hex("+a".to_string()));
    assert_eq!(signed.color, Some(10));
}

#[test]
fn colour_falls_back_on_unparsable_input() {
    let garbage = Embed::new().set_colour(ColourType::Hex("not a colour".to_string()));
    assert_eq!(garbage.color, Some(10066329));

    let empty = Embed::new().set_colour(ColourType::Hex("".to_string()));
    assert_eq!(empty.color, Some(10066329));

    let only_prefix = Embed::new().set_colour(ColourType::Hex("#0x".to_string()));
    assert_eq!(only_prefix.color, Some(10066329));

    let overflow = Embed::new().set_colour(ColourType::Hex("FFFFFFFFFFFFFFFFF".to_string()));
    assert_eq!(overflow.color, Some(10066329));

    let negative = Embed::new().set_colour(ColourType::Hex("-1".to_string()));
    assert_eq!(negative.color, Some(10066329));
}

#[test]
fn colour_takes_raw_integers_as_given() {
    let raw = Embed::new().set_color(ColourType::Integer(16777215));
    assert_eq!(raw.color, Some(16777215));

    let zero = Embed::new().set_colour(ColourType::Integer(0));
    assert_eq!(zero.color, Some(0));
}

#[test]
fn field_order_is_preserved() {
    let embed = Embed::new()
        .add_field("a", "1", false)
        .add_fields(&mut vec![Field::new("b", "2", true), Field::new("c", "3", false)])
        .add_field("d", "4", true)
        .add_fields(&mut vec![Field::new("e", "5", false)]);
    let names: Vec<String> = embed.fields.iter().map(|f| f.name.clone()).collect();
    assert_eq!(names, vec!["a", "b", "c", "d", "e"]);
}

#[test]
fn add_fields_drains_the_batch() {
    let mut batch = vec![Field::new("x", "1", false)];
    let embed = Embed::new().add_fields(&mut batch);
    assert!(batch.is_empty());
    assert_eq!(embed.fields.len(), 1);
}

#[test]
fn timestamp_renders_fixed_iso8601() {
    let embed = Embed::new().set_timestamp(Some(Timestamp::new(1431648000, 0)));
    let expected = chrono::DateTime::<chrono::Utc>::from_timestamp(1431648000, 0)
        .unwrap()
        .format("%+")
        .to_string();
    assert_eq!(embed.timestamp, Some(expected.clone()));
    assert_eq!(expected, "2015-05-15T00:00:00+00:00");
}

#[test]
fn timestamp_without_instant_uses_the_clock() {
    let embed = Embed::new().set_timestamp(None);
    let rendered = embed.timestamp.expect("a timestamp must be set");
    assert!(rendered.contains('T'));
    assert!(rendered.len() >= 19);
}
