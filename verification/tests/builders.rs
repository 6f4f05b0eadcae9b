use webhook::interval::{decimal_string, interval_check, Interval};
use webhook::models::{
    AllowedMention, AllowedMentions, ButtonStyles, Embed, EmbedAuthor, EmbedField, EmbedFooter,
    EmbedProvider, EmbedUrlSource, Message, NonCompositeComponent, NonLinkButtonStyle,
};

#[test]
fn interval_contains_bounds() {
    let i = Interval::from_min_max(1usize, 100usize);
    assert!(i.contains(&1));
    assert!(i.contains(&100));
    assert!(i.contains(&50));
    assert!(!i.contains(&0));
    assert!(!i.contains(&101));
    assert_eq!(i.min_allowed, 1);
    assert_eq!(i.max_allowed, 100);
}

#[test]
fn interval_contains_other_types() {
    let i = Interval::from_min_max("b", "d");
    assert!(i.contains(&"c"));
    assert!(!i.contains(&"a"));
    assert!(!i.contains(&"e"));
}

#[test]
fn decimal_string_writes_numbers() {
    assert_eq!(decimal_string(0), "0");
    assert_eq!(decimal_string(7), "7");
    assert_eq!(decimal_string(10), "10");
    assert_eq!(decimal_string(1234), "1234");
    assert_eq!(decimal_string(usize::MAX), usize::MAX.to_string());
}

#[test]
fn interval_check_reports_the_value_and_bounds() {
    let i = Interval::from_min_max(1usize, 100usize);
    assert_eq!(interval_check(&i, &1, "Custom ID length"), Ok(()));
    assert_eq!(
        interval_check(&i, &0, "Custom ID length"),
        Err("Custom ID length (0) not in the [1, 100] interval".to_string())
    );
    assert_eq!(
        interval_check(&i, &101, "X"),
        Err("X (101) not in the [1, 100] interval".to_string())
    );
}

#[test]
fn message_new_is_empty() {
    let m = Message::new();
    assert!(m.content.is_none());
    assert!(m.thread_name.is_none());
    assert!(m.username.is_none());
    assert!(m.avatar_url.is_none());
    assert!(!m.tts);
    assert!(m.embeds.is_empty());
    assert!(m.allow_mentions.is_none());
    assert!(m.action_rows.is_empty());
}

#[test]
fn message_setters_chain() {
    let mut m = Message::new();
    m.content("hello").username("bot").avatar_url("https://a/b.png").thread_name("t").tts(true);
    assert_eq!(m.content.as_deref(), Some("hello"));
    assert_eq!(m.username.as_deref(), Some("bot"));
    assert_eq!(m.avatar_url.as_deref(), Some("https://a/b.png"));
    assert_eq!(m.thread_name.as_deref(), Some("t"));
    assert!(m.tts);
    m.content("again");
    assert_eq!(m.content.as_deref(), Some("again"));
    assert_eq!(m.username.as_deref(), Some("bot"));
}

#[test]
fn embed_new_is_rich_and_empty() {
    let e = Embed::new();
    assert_eq!(e.embed_type(), "rich");
    assert!(e.title.is_none());
    assert!(e.description.is_none());
    assert!(e.fields.is_empty());
    assert!(e.footer.is_none());
    assert!(e.author.is_none());
}

#[test]
fn embed_setters_chain() {
    let mut e = Embed::new();
    e.title("T")
        .description("D")
        .url("U")
        .timestamp("2021-01-01T00:00:00Z")
        .color("123")
        .footer("F", Some("icon".to_string()))
        .image("img")
        .video("vid")
        .thumbnail("thumb")
        .provider("P", "purl")
        .author("A", Some("aurl".to_string()), None)
        .field("n1", "v1", true)
        .field("n2", "v2", false);
    assert_eq!(e.title.as_deref(), Some("T"));
    assert_eq!(e.description.as_deref(), Some("D"));
    assert_eq!(e.url.as_deref(), Some("U"));
    assert_eq!(e.timestamp.as_deref(), Some("2021-01-01T00:00:00Z"));
    assert_eq!(e.color.as_deref(), Some("123"));
    let footer = e.footer.as_ref().unwrap();
    assert_eq!(footer.text, "F");
    assert_eq!(footer.icon_url.as_deref(), Some("icon"));
    assert_eq!(e.image.as_ref().unwrap().url, "img");
    assert_eq!(e.video.as_ref().unwrap().url, "vid");
    assert_eq!(e.thumbnail.as_ref().unwrap().url, "thumb");
    let provider = e.provider.as_ref().unwrap();
    assert_eq!(provider.name, "P");
    assert_eq!(provider.url, "purl");
    let author = e.author.as_ref().unwrap();
    assert_eq!(author.name, "A");
    assert_eq!(author.url.as_deref(), Some("aurl"));
    assert!(author.icon_url.is_none());
    assert_eq!(e.fields.len(), 2);
    assert_eq!(e.fields[0].name, "n1");
    assert_eq!(e.fields[0].value, "v1");
    assert!(e.fields[0].inline);
    assert_eq!(e.fields[1].name, "n2");
    assert!(!e.fields[1].inline);
    assert_eq!(e.embed_type(), "rich");
}

#[test]
fn embed_parts_new() {
    let f = EmbedField::new("name", "value", true);
    assert_eq!((f.name.as_str(), f.value.as_str(), f.inline), ("name", "value", true));
    let footer = EmbedFooter::new("text", None);
    assert_eq!(footer.text, "text");
    assert!(footer.icon_url.is_none());
    let u = EmbedUrlSource::new("u");
    assert_eq!(u.url, "u");
    let p = EmbedProvider::new("n", "u");
    assert_eq!((p.name.as_str(), p.url.as_str()), ("n", "u"));
    let a = EmbedAuthor::new("n", None, Some("i".to_string()));
    assert_eq!(a.name, "n");
    assert!(a.url.is_none());
    assert_eq!(a.icon_url.as_deref(), Some("i"));
}

#[test]
fn message_embed_builds_from_a_new_embed() {
    let mut m = Message::new();
    m.embed(|e| e.title("first")).embed(|e| e.description("second"));
    assert_eq!(m.embeds.len(), 2);
    assert_eq!(m.embeds[0].title.as_deref(), Some("first"));
    assert!(m.embeds[0].description.is_none());
    assert_eq!(m.embeds[1].description.as_deref(), Some("second"));
    assert!(m.embeds[1].title.is_none());
    assert_eq!(m.embeds[1].embed_type(), "rich");
}

#[test]
fn allowed_mentions_names() {
    let a = AllowedMentions::new(
        Some(vec![
            AllowedMention::RoleMention,
            AllowedMention::UserMention,
            AllowedMention::EveryoneMention,
        ]),
        Some(vec!["1".to_string()]),
        None,
        true,
    );
    assert_eq!(
        a.parse,
        Some(vec!["roles".to_string(), "users".to_string(), "everyone".to_string()])
    );
    assert_eq!(a.roles, Some(vec!["1".to_string()]));
    assert!(a.users.is_none());
    assert!(a.replied_user);
}

#[test]
fn allowed_mentions_without_parse_is_empty_list() {
    let a = AllowedMentions::new(None, None, Some(vec!["2".to_string()]), false);
    assert_eq!(a.parse, Some(vec![]));
    assert_eq!(a.users, Some(vec!["2".to_string()]));
    assert!(!a.replied_user);
}

#[test]
fn message_allow_mentions_sets_them() {
    let mut m = Message::new();
    m.allow_mentions(Some(vec![AllowedMention::UserMention]), None, None, false);
    let a = m.allow_mentions.as_ref().unwrap();
    assert_eq!(a.parse, Some(vec!["users".to_string()]));
}

#[test]
fn button_style_codes() {
    assert_eq!(ButtonStyles::Primary.code(), 1);
    assert_eq!(ButtonStyles::Secondary.code(), 2);
    assert_eq!(ButtonStyles::Success.code(), 3);
    assert_eq!(ButtonStyles::Danger.code(), 4);
    assert_eq!(ButtonStyles::Link.code(), 5);
}

#[test]
fn action_row_buttons_become_api_buttons() {
    let mut m = Message::new();
    m.action_row(|row| {
        row.link_button(|b| b.url("https://x").label("go").disabled(false).emoji("42", "e", true))
            .regular_button(|b| b.custom_id("id").style(NonLinkButtonStyle::Danger).label("press"))
            .regular_button(|b| b.custom_id("id2"))
    });
    assert_eq!(m.action_rows.len(), 1);
    let row = &m.action_rows[0];
    assert_eq!(row.component_type, 1);
    assert_eq!(row.component_type(), 1);
    let comps = row.components();
    assert_eq!(comps.len(), 3);
    let NonCompositeComponent::Button(link) = &comps[0];
    assert_eq!(link.component_type, 2);
    assert!(matches!(link.style, Some(ButtonStyles::Link)));
    assert_eq!(link.url.as_deref(), Some("https://x"));
    assert_eq!(link.label.as_deref(), Some("go"));
    assert_eq!(link.disabled, Some(false));
    assert!(link.custom_id.is_none());
    let emoji = link.emoji.as_ref().unwrap();
    assert_eq!((emoji.id.as_str(), emoji.name.as_str(), emoji.animated), ("42", "e", Some(true)));
    let NonCompositeComponent::Button(regular) = &comps[1];
    assert!(matches!(regular.style, Some(ButtonStyles::Danger)));
    assert_eq!(regular.custom_id.as_deref(), Some("id"));
    assert_eq!(regular.label.as_deref(), Some("press"));
    assert!(regular.url.is_none());
    assert!(regular.disabled.is_none());
    let NonCompositeComponent::Button(unstyled) = &comps[2];
    assert!(unstyled.style.is_none());
    assert_eq!(unstyled.custom_id.as_deref(), Some("id2"));
}

#[test]
fn non_link_styles_map_to_api_styles() {
    let mut m = Message::new();
    m.action_row(|row| {
        row.regular_button(|b| b.style(NonLinkButtonStyle::Primary))
            .regular_button(|b| b.style(NonLinkButtonStyle::Secondary))
            .regular_button(|b| b.style(NonLinkButtonStyle::Success))
    });
    let comps = m.action_rows[0].components();
    let NonCompositeComponent::Button(b0) = &comps[0];
    let NonCompositeComponent::Button(b1) = &comps[1];
    let NonCompositeComponent::Button(b2) = &comps[2];
    assert!(matches!(b0.style, Some(ButtonStyles::Primary)));
    assert!(matches!(b1.style, Some(ButtonStyles::Secondary)));
    assert!(matches!(b2.style, Some(ButtonStyles::Success)));
}

#[test]
fn field_is_appended_beyond_the_usual_count() {
    let mut e = Embed::new();
    for _ in 0..26 {
        e.fields.push(EmbedField::new("n", "v", false));
    }
    e.field("last", "value", true);
    assert_eq!(e.fields.len(), 27);
    assert_eq!(e.fields[26].name, "last");
}
