use webhook::{ColourType, Embed, Field, Timestamp, Webhook};

fn full_payload() -> Webhook {
    let embed = Embed::new()
        .set_title("Example")
        .set_description("Description Text")
        .set_url("https://example.com/")
        .set_timestamp(Some(Timestamp::new(1431648000, 0)))
        .set_colour(ColourType::Hex("#FFFFFF".to_string()))
        .set_footer(
            "Footer Text",
            Some("https://example.com/footer.png"),
            Some("https://proxy.example.com/footer.png"),
        )
        .set_image(
            "https://example.com/image.png",
            Some("https://proxy.example.com/image.png"),
            Some(480),
            Some(640),
        )
        .set_thumbnail(
            "https://example.com/thumb.png",
            Some("https://proxy.example.com/thumb.png"),
            Some(120),
            Some(160),
        )
        .set_video(
            "https://example.com/video.mp4",
            Some("https://proxy.example.com/video.mp4"),
            Some(720),
            Some(1280),
        )
        .set_provider(Some("Provider Name"), Some("https://provider.example.com/"))
        .set_author(
            "Author Name",
            Some("https://example.com/author"),
            Some("https://example.com/author.png"),
            Some("https://proxy.example.com/author.png"),
        )
        .add_field("Example 1", "Value 1", true)
        .add_fields(&mut vec![Field::new("Example 2", "Value 2", false)]);

    Webhook::new("https://discord.example.com/hook")
        .set_content("Content Text")
        .set_username("Test Username")
        .set_avatar_url("https://example.com/avatar.png")
        .add_embed(embed)
}

#[test]
fn round_trip_preserves_every_field() {
    let payload = full_payload();
    let body = payload.body_json();
    let v: serde_json::Value = serde_json::from_str(&body).expect("the body must parse");

    assert_eq!(v["content"].as_str(), Some("Content Text"));
    assert_eq!(v["username"].as_str(), Some("Test Username"));
    assert_eq!(v["avatar_url"].as_str(), Some("https://example.com/avatar.png"));
    assert!(v.get("webhook_url").is_none());

    let components = v["components"].as_array().expect("components must be an array");
    assert!(components.is_empty());

    let embeds = v["embeds"].as_array().expect("embeds must be an array");
    assert_eq!(embeds.len(), 1);
    let e = &embeds[0];

    assert_eq!(e["title"].as_str(), Some("Example"));
    assert_eq!(e["type"].as_str(), Some("rich"));
    assert_eq!(e["description"].as_str(), Some("Description Text"));
    assert_eq!(e["url"].as_str(), Some("https://example.com/"));
    assert_eq!(e["timestamp"].as_str(), Some("2015-05-15T00:00:00+00:00"));
    assert_eq!(e["color"].as_u64(), Some(16777215));

    assert_eq!(e["footer"]["text"].as_str(), Some("Footer Text"));
    assert_eq!(e["footer"]["icon_url"].as_str(), Some("https://example.com/footer.png"));
    assert_eq!(
        e["footer"]["proxy_icon_url"].as_str(),
        Some("https://proxy.example.com/footer.png")
    );

    assert_eq!(e["image"]["url"].as_str(), Some("https://example.com/image.png"));
    assert_eq!(e["image"]["proxy_url"].as_str(), Some("https://proxy.example.com/image.png"));
    assert_eq!(e["image"]["height"].as_u64(), Some(480));
    assert_eq!(e["image"]["width"].as_u64(), Some(640));

    assert_eq!(e["thumbnail"]["url"].as_str(), Some("https://example.com/thumb.png"));
    assert_eq!(e["thumbnail"]["proxy_url"].as_str(), Some("https://proxy.example.com/thumb.png"));
    assert_eq!(e["thumbnail"]["height"].as_u64(), Some(120));
    assert_eq!(e["thumbnail"]["width"].as_u64(), Some(160));

    assert_eq!(e["video"]["url"].as_str(), Some("https://example.com/video.mp4"));
    assert_eq!(e["video"]["proxy_url"].as_str(), Some("https://proxy.example.com/video.mp4"));
    assert_eq!(e["video"]["height"].as_u64(), Some(720));
    assert_eq!(e["video"]["width"].as_u64(), Some(1280));

    assert_eq!(e["provider"]["name"].as_str(), Some("Provider Name"));
    assert_eq!(e["provider"]["url"].as_str(), Some("https://provider.example.com/"));

    assert_eq!(e["author"]["name"].as_str(), Some("Author Name"));
    assert_eq!(e["author"]["url"].as_str(), Some("https://example.com/author"));
    assert_eq!(e["author"]["icon_url"].as_str(), Some("https://example.com/author.png"));
    assert_eq!(
        e["author"]["proxy_icon_url"].as_str(),
        Some("https://proxy.example.com/author.png")
    );

    let fields = e["fields"].as_array().expect("fields must be an array");
    assert_eq!(fields.len(), 2);
    assert_eq!(fields[0]["name"].as_str(), Some("Example 1"));
    assert_eq!(fields[0]["value"].as_str(), Some("Value 1"));
    assert_eq!(fields[0]["inline"].as_bool(), Some(true));
    assert_eq!(fields[1]["name"].as_str(), Some("Example 2"));
    assert_eq!(fields[1]["value"].as_str(), Some("Value 2"));
    assert_eq!(fields[1]["inline"].as_bool(), Some(false));
}

#[test]
fn unset_optionals_are_omitted_not_null() {
    let payload = Webhook::new("https://discord.example.com/hook").add_embed(Embed::new());
    let body = payload.body_json();
    let v: serde_json::Value = serde_json::from_str(&body).expect("the body must parse");

    let top = v.as_object().expect("the body must be an object");
    assert_eq!(top.len(), 2);
    assert!(top.contains_key("embeds"));
    assert!(top.contains_key("components"));

    let e = v["embeds"][0].as_object().expect("the embed must be an object");
    assert_eq!(e.len(), 2);
    assert_eq!(e["type"].as_str(), Some("rich"));
    assert!(e["fields"].as_array().expect("fields must be an array").is_empty());
}

#[test]
fn string_escaping_round_trips() {
    let tricky = "quote \" backslash \\ newline \n tab \t control \u{1} high \u{263a}";
    let payload = Webhook::new("https://discord.example.com/hook").set_content(tricky);
    let body = payload.body_json();
    let v: serde_json::Value = serde_json::from_str(&body).expect("the body must parse");
    assert_eq!(v["content"].as_str(), Some(tricky));
}

#[test]
fn body_matches_expected_text() {
    let payload = Webhook::new("https://discord.example.com/hook")
        .set_content("hi")
        .add_embed(Embed::new().set_title("t").add_field("n", "v", true));
    assert_eq!(
        payload.body_json(),
        "{\"content\":\"hi\",\"embeds\":[{\"title\":\"t\",\"type\":\"rich\",\"fields\":[{\"name\":\"n\",\"value\":\"v\",\"inline\":true}]}],\"components\":[]}"
    );
}

#[test]
fn request_url_appends_wait_query() {
    let payload = Webhook::new("https://discord.example.com/hook");
    assert_eq!(payload.request_url(), "https://discord.example.com/hook?wait=true");
}

#[test]
fn delivery_outcome_accepts_success_statuses() {
    assert!(webhook::send::delivery_outcome(204, "").is_ok());
    assert!(webhook::send::delivery_outcome(200, "ignored").is_ok());
}

#[test]
fn delivery_outcome_reports_the_response_body() {
    let r = webhook::send::delivery_outcome(400, "bad request body");
    let e = r.expect_err("a 400 status must fail");
    assert_eq!(e.message(), "Failed to send request, bad request body");
    assert!(e.message().contains("bad request body"));

    let r = webhook::send::delivery_outcome(500, "");
    assert_eq!(r.expect_err("a 500 status must fail").message(), "Failed to send request, ");
}

#[test]
fn colour_renders_as_a_number() {
    let payload = Webhook::new("https://discord.example.com/hook")
        .add_embed(Embed::new().set_color(ColourType::Integer(0)));
    let v: serde_json::Value =
        serde_json::from_str(&payload.body_json()).expect("the body must parse");
    assert_eq!(v["embeds"][0]["color"].as_u64(), Some(0));
}
