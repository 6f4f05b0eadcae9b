use webhook::models::{
    DiscordApiCompatible, Embed, EmbedField, Message, MessageContext, NonLinkButtonStyle,
};

fn check(m: &Message) -> Result<(), String> {
    let mut context = MessageContext::new();
    m.check_compatibility(&mut context)
}

#[test]
fn valid_message_passes() {
    let mut m = Message::new();
    m.content("hi")
        .embed(|e| e.title("title").description("desc").field("n", "v", false).footer("f", None))
        .action_row(|row| {
            row.regular_button(|b| b.custom_id("a").style(NonLinkButtonStyle::Primary).label("A"))
                .link_button(|b| b.url("https://x").label("X"))
        });
    assert_eq!(check(&m), Ok(()));
}

#[test]
fn empty_message_passes() {
    assert_eq!(check(&Message::new()), Ok(()));
}

#[test]
fn too_many_action_rows() {
    let mut m = Message::new();
    for _ in 0..6 {
        m.action_row(|row| row.link_button(|b| b.url("u")));
    }
    assert_eq!(check(&m), Err("Action row count (6) not in the [0, 5] interval".to_string()));
}

#[test]
fn five_action_rows_pass() {
    let mut m = Message::new();
    for _ in 0..5 {
        m.action_row(|row| row.link_button(|b| b.url("u")));
    }
    assert_eq!(check(&m), Ok(()));
}

#[test]
fn empty_action_row() {
    let mut m = Message::new();
    m.action_row(|row| row);
    assert_eq!(check(&m), Err("Empty action row detected!".to_string()));
}

#[test]
fn button_without_style() {
    let mut m = Message::new();
    m.action_row(|row| row.regular_button(|b| b.custom_id("a")));
    assert_eq!(check(&m), Err("Button style must be set!".to_string()));
}

#[test]
fn link_button_without_url() {
    let mut m = Message::new();
    m.action_row(|row| row.link_button(|b| b.label("x")));
    assert_eq!(check(&m), Err("Url of a Link button must be set!".to_string()));
}

#[test]
fn regular_button_without_custom_id() {
    let mut m = Message::new();
    m.action_row(|row| row.regular_button(|b| b.style(NonLinkButtonStyle::Success)));
    assert_eq!(check(&m), Err("Custom ID of a NonLink button must be set!".to_string()));
}

#[test]
fn duplicate_custom_id_in_one_row() {
    let mut m = Message::new();
    m.action_row(|row| {
        row.regular_button(|b| b.custom_id("same").style(NonLinkButtonStyle::Primary))
            .regular_button(|b| b.custom_id("same").style(NonLinkButtonStyle::Danger))
    });
    assert_eq!(check(&m), Err("Attempt to use the same custom ID (same) twice!".to_string()));
}

#[test]
fn duplicate_custom_id_across_rows() {
    let mut m = Message::new();
    m.action_row(|row| row.regular_button(|b| b.custom_id("x").style(NonLinkButtonStyle::Primary)))
        .action_row(|row| {
            row.regular_button(|b| b.custom_id("x").style(NonLinkButtonStyle::Secondary))
        });
    assert_eq!(check(&m), Err("Attempt to use the same custom ID (x) twice!".to_string()));
}

#[test]
fn distinct_custom_ids_pass() {
    let mut m = Message::new();
    m.action_row(|row| {
        row.regular_button(|b| b.custom_id("x").style(NonLinkButtonStyle::Primary))
            .regular_button(|b| b.custom_id("y").style(NonLinkButtonStyle::Primary))
    })
    .action_row(|row| row.regular_button(|b| b.custom_id("z").style(NonLinkButtonStyle::Primary)));
    assert_eq!(check(&m), Ok(()));
}

#[test]
fn six_regular_buttons_in_a_row() {
    let mut m = Message::new();
    m.action_row(|row| {
        row.regular_button(|b| b.custom_id("1").style(NonLinkButtonStyle::Primary))
            .regular_button(|b| b.custom_id("2").style(NonLinkButtonStyle::Primary))
            .regular_button(|b| b.custom_id("3").style(NonLinkButtonStyle::Primary))
            .regular_button(|b| b.custom_id("4").style(NonLinkButtonStyle::Primary))
            .regular_button(|b| b.custom_id("5").style(NonLinkButtonStyle::Primary))
            .regular_button(|b| b.custom_id("6").style(NonLinkButtonStyle::Primary))
    });
    assert_eq!(check(&m), Err("Button count (6) not in the [0, 5] interval".to_string()));
}

#[test]
fn link_buttons_do_not_count_against_the_row() {
    let mut m = Message::new();
    m.action_row(|row| {
        row.regular_button(|b| b.custom_id("1").style(NonLinkButtonStyle::Primary))
            .regular_button(|b| b.custom_id("2").style(NonLinkButtonStyle::Primary))
            .regular_button(|b| b.custom_id("3").style(NonLinkButtonStyle::Primary))
            .regular_button(|b| b.custom_id("4").style(NonLinkButtonStyle::Primary))
            .regular_button(|b| b.custom_id("5").style(NonLinkButtonStyle::Primary))
            .link_button(|b| b.url("u"))
    });
    assert_eq!(check(&m), Ok(()));
}

#[test]
fn button_count_starts_again_in_each_row() {
    let mut m = Message::new();
    m.action_row(|row| {
        row.regular_button(|b| b.custom_id("1").style(NonLinkButtonStyle::Primary))
            .regular_button(|b| b.custom_id("2").style(NonLinkButtonStyle::Primary))
            .regular_button(|b| b.custom_id("3").style(NonLinkButtonStyle::Primary))
            .regular_button(|b| b.custom_id("4").style(NonLinkButtonStyle::Primary))
            .regular_button(|b| b.custom_id("5").style(NonLinkButtonStyle::Primary))
    })
    .action_row(|row| {
        row.regular_button(|b| b.custom_id("6").style(NonLinkButtonStyle::Primary))
            .regular_button(|b| b.custom_id("7").style(NonLinkButtonStyle::Primary))
            .regular_button(|b| b.custom_id("8").style(NonLinkButtonStyle::Primary))
            .regular_button(|b| b.custom_id("9").style(NonLinkButtonStyle::Primary))
            .regular_button(|b| b.custom_id("10").style(NonLinkButtonStyle::Primary))
    });
    assert_eq!(check(&m), Ok(()));
}

#[test]
fn label_too_long() {
    let label = "l".repeat(81);
    let mut m = Message::new();
    m.action_row(|row| row.link_button(|b| b.url("u").label(&label)));
    assert_eq!(check(&m), Err("Label length (81) not in the [0, 80] interval".to_string()));
}

#[test]
fn label_checked_before_style() {
    let label = "l".repeat(81);
    let mut m = Message::new();
    m.action_row(|row| row.regular_button(|b| b.label(&label)));
    assert_eq!(check(&m), Err("Label length (81) not in the [0, 80] interval".to_string()));
}

#[test]
fn label_of_eighty_bytes_passes() {
    let label = "l".repeat(80);
    let mut m = Message::new();
    m.action_row(|row| row.link_button(|b| b.url("u").label(&label)));
    assert_eq!(check(&m), Ok(()));
}

#[test]
fn custom_id_empty() {
    let mut m = Message::new();
    m.action_row(|row| row.regular_button(|b| b.custom_id("").style(NonLinkButtonStyle::Primary)));
    assert_eq!(check(&m), Err("Custom ID length (0) not in the [1, 100] interval".to_string()));
}

#[test]
fn custom_id_too_long() {
    let id = "i".repeat(101);
    let mut m = Message::new();
    m.action_row(|row| row.regular_button(|b| b.custom_id(&id).style(NonLinkButtonStyle::Primary)));
    assert_eq!(check(&m), Err("Custom ID length (101) not in the [1, 100] interval".to_string()));
}

#[test]
fn custom_id_length_counts_bytes() {
    // each 'é' takes two bytes in UTF-8
    let id = "é".repeat(51);
    let mut m = Message::new();
    m.action_row(|row| row.regular_button(|b| b.custom_id(&id).style(NonLinkButtonStyle::Primary)));
    assert_eq!(check(&m), Err("Custom ID length (102) not in the [1, 100] interval".to_string()));
}

#[test]
fn first_error_of_a_row_is_reported() {
    let mut m = Message::new();
    m.action_row(|row| {
        row.link_button(|b| b.label("no url"))
            .regular_button(|b| b.custom_id("a"))
    });
    assert_eq!(check(&m), Err("Url of a Link button must be set!".to_string()));
}

#[test]
fn embed_title_too_long() {
    let title = "t".repeat(257);
    let mut m = Message::new();
    m.embed(|e| e.title(&title));
    assert_eq!(check(&m), Err("Embed title length (257) not in the [0, 256] interval".to_string()));
}

#[test]
fn embed_description_too_long() {
    let d = "d".repeat(4097);
    let mut m = Message::new();
    m.embed(|e| e.description(&d));
    assert_eq!(
        check(&m),
        Err("Embed description length (4097) not in the [0, 4096] interval".to_string())
    );
}

#[test]
fn embed_author_name_too_long() {
    let a = "a".repeat(257);
    let mut m = Message::new();
    m.embed(|e| e.author(&a, None, None));
    assert_eq!(
        check(&m),
        Err("Embed author name length (257) not in the [0, 256] interval".to_string())
    );
}

#[test]
fn embed_footer_text_too_long() {
    let f = "f".repeat(2049);
    let mut m = Message::new();
    m.embed(|e| e.footer(&f, None));
    assert_eq!(
        check(&m),
        Err("Embed footer text length (2049) not in the [0, 2048] interval".to_string())
    );
}

#[test]
fn embed_field_value_too_long() {
    let v = "v".repeat(1025);
    let mut m = Message::new();
    m.embed(|e| e.field("n", &v, false));
    assert_eq!(
        check(&m),
        Err("Embed field value length (1025) not in the [0, 1024] interval".to_string())
    );
}

#[test]
fn embed_field_name_too_long() {
    let n = "n".repeat(257);
    let mut m = Message::new();
    m.embed(|e| e.field(&n, "v", false));
    assert_eq!(
        check(&m),
        Err("Embed field name length (257) not in the [0, 256] interval".to_string())
    );
}

#[test]
fn embed_field_count_too_high() {
    let mut m = Message::new();
    m.embed(|e| e.title("t"));
    for _ in 0..26 {
        m.embeds[0].fields.push(EmbedField::new("n", "v", false));
    }
    assert_eq!(check(&m), Err("Embed field count (26) not in the [0, 25] interval".to_string()));
}

#[test]
fn embed_text_total_too_long() {
    let d = "d".repeat(4000);
    let mut m = Message::new();
    m.embed(|e| e.description(&d)).embed(|e| e.description(&d));
    assert_eq!(
        check(&m),
        Err("Character count across all embeds (8000) not in the [0, 6000] interval".to_string())
    );
}

#[test]
fn embed_text_counts_all_parts() {
    let mut m = Message::new();
    m.embed(|e| {
        e.title("12345")
            .description("123")
            .footer("12", None)
            .author("1", None, None)
            .field("1234", "123456", false)
    });
    let mut context = MessageContext::new();
    assert_eq!(context.register_embed(&m.embeds[0]), Ok(()));
    // 5 + 3 + 2 + 1 + 4 + 6 = 21 characters so far; 5979 more reach the limit exactly
    let mut big = Embed::new();
    big.description(&"x".repeat(4096)).title(&"y".repeat(256));
    big.field(&"z".repeat(256), &"w".repeat(1024), false);
    big.footer(&"v".repeat(347), None);
    assert_eq!(context.register_embed(&big), Ok(()));
    let mut one_more = Embed::new();
    one_more.title("!");
    assert_eq!(
        context.register_embed(&one_more),
        Err("Character count across all embeds (6001) not in the [0, 6000] interval".to_string())
    );
}

#[test]
fn embeds_are_all_checked_and_the_first_error_kept() {
    let long = "t".repeat(300);
    let mut m = Message::new();
    m.embed(|e| e.title(&long)).embed(|e| e.description(&"d".repeat(5000)));
    assert_eq!(check(&m), Err("Embed title length (300) not in the [0, 256] interval".to_string()));
}

#[test]
fn embed_errors_stop_before_action_rows() {
    let mut m = Message::new();
    m.embed(|e| e.title(&"t".repeat(300))).action_row(|row| row);
    assert_eq!(check(&m), Err("Embed title length (300) not in the [0, 256] interval".to_string()));
}

#[test]
fn embed_registration_error_comes_before_its_own_limits() {
    let mut m = Message::new();
    m.embed(|e| e.description(&"d".repeat(6001)));
    assert_eq!(
        check(&m),
        Err("Character count across all embeds (6001) not in the [0, 6000] interval".to_string())
    );
}

#[test]
fn check_on_a_shared_context_sees_earlier_ids() {
    let mut first = Message::new();
    first.action_row(|row| row.regular_button(|b| b.custom_id("k").style(NonLinkButtonStyle::Primary)));
    let mut context = MessageContext::new();
    assert_eq!(first.check_compatibility(&mut context), Ok(()));
    assert_eq!(
        first.check_compatibility(&mut context),
        Err("Attempt to use the same custom ID (k) twice!".to_string())
    );
}

#[test]
fn failed_check_keeps_what_it_registered() {
    let mut m = Message::new();
    m.action_row(|row| row.regular_button(|b| b.custom_id("a").style(NonLinkButtonStyle::Primary)))
        .action_row(|row| row);
    let mut context = MessageContext::new();
    assert_eq!(m.check_compatibility(&mut context), Err("Empty action row detected!".to_string()));
    let mut again = Message::new();
    again.action_row(|row| {
        row.regular_button(|b| b.custom_id("a").style(NonLinkButtonStyle::Primary))
    });
    assert_eq!(
        again.check_compatibility(&mut context),
        Err("Attempt to use the same custom ID (a) twice!".to_string())
    );
}

#[test]
fn rows_after_a_failing_row_are_still_checked() {
    let mut m = Message::new();
    m.action_row(|row| row)
        .action_row(|row| row.regular_button(|b| b.custom_id("b").style(NonLinkButtonStyle::Primary)));
    let mut context = MessageContext::new();
    assert_eq!(m.check_compatibility(&mut context), Err("Empty action row detected!".to_string()));
    let mut again = Message::new();
    again.action_row(|row| {
        row.regular_button(|b| b.custom_id("b").style(NonLinkButtonStyle::Primary))
    });
    assert_eq!(
        again.check_compatibility(&mut context),
        Err("Attempt to use the same custom ID (b) twice!".to_string())
    );
}

#[test]
fn embed_text_is_counted_across_checks_of_one_context() {
    let mut m = Message::new();
    m.embed(|e| e.description(&"d".repeat(4000)));
    let mut context = MessageContext::new();
    assert_eq!(m.check_compatibility(&mut context), Ok(()));
    assert_eq!(
        m.check_compatibility(&mut context),
        Err("Character count across all embeds (8000) not in the [0, 6000] interval".to_string())
    );
}

#[test]
fn too_many_rows_fail_before_embeds_are_counted() {
    let mut m = Message::new();
    m.embed(|e| e.description(&"d".repeat(4000)));
    for _ in 0..6 {
        m.action_row(|row| row.link_button(|b| b.url("u")));
    }
    let mut context = MessageContext::new();
    assert_eq!(
        m.check_compatibility(&mut context),
        Err("Action row count (6) not in the [0, 5] interval".to_string())
    );
    let mut small = Message::new();
    small.embed(|e| e.description(&"d".repeat(4096)).footer(&"f".repeat(1904), None));
    assert_eq!(small.check_compatibility(&mut context), Ok(()));
}

#[test]
fn embed_parts_check_their_own_limits() {
    let mut context = MessageContext::new();
    let author = webhook::models::EmbedAuthor::new(&"a".repeat(256), None, None);
    assert_eq!(author.check_compatibility(&mut context), Ok(()));
    let footer = webhook::models::EmbedFooter::new(&"f".repeat(2048), None);
    assert_eq!(footer.check_compatibility(&mut context), Ok(()));
    let field = EmbedField::new(&"n".repeat(256), &"v".repeat(1024), true);
    assert_eq!(field.check_compatibility(&mut context), Ok(()));
    let bad = EmbedField::new(&"n".repeat(300), &"v".repeat(2000), true);
    assert_eq!(
        bad.check_compatibility(&mut context),
        Err("Embed field value length (2000) not in the [0, 1024] interval".to_string())
    );
}

#[test]
fn embed_total_counts_characters_not_bytes() {
    // 3001 characters, 6002 bytes in UTF-8
    let mut e = Embed::new();
    e.title(&"é".repeat(3001));
    let mut context = MessageContext::new();
    assert_eq!(context.register_embed(&e), Ok(()));
    let mut more = Embed::new();
    more.description(&"é".repeat(2999));
    assert_eq!(context.register_embed(&more), Ok(()));
    let mut one = Embed::new();
    one.footer("ü", None);
    assert_eq!(
        context.register_embed(&one),
        Err("Character count across all embeds (6001) not in the [0, 6000] interval".to_string())
    );
}

#[test]
fn embed_total_of_multibyte_text_in_a_message() {
    // 4000 + 2000 characters, 12000 bytes: within the total, within each part's limit
    let mut m = Message::new();
    m.embed(|e| e.description(&"ä".repeat(2000))).embed(|e| e.description(&"ä".repeat(2000)));
    m.embed(|e| e.field(&"ö".repeat(100), &"ö".repeat(500), false));
    assert_eq!(check(&m), Ok(()));
}

#[test]
fn once_the_total_is_exceeded_every_later_embed_fails() {
    let mut big = Embed::new();
    big.description(&"d".repeat(4096)).footer(&"f".repeat(1905), None);
    let mut context = MessageContext::new();
    assert_eq!(
        context.register_embed(&big),
        Err("Character count across all embeds (6001) not in the [0, 6000] interval".to_string())
    );
    let empty = Embed::new();
    assert_eq!(
        context.register_embed(&empty),
        Err("Character count across all embeds (6001) not in the [0, 6000] interval".to_string())
    );
}

#[test]
fn regular_button_ignores_its_url_and_registers_its_id() {
    let mut m = Message::new();
    m.action_row(|row| row.regular_button(|b| b.custom_id("r").style(NonLinkButtonStyle::Success)));
    let mut context = MessageContext::new();
    assert_eq!(m.check_compatibility(&mut context), Ok(()));
    assert_eq!(
        m.check_compatibility(&mut context),
        Err("Attempt to use the same custom ID (r) twice!".to_string())
    );
}
