//! The parts of a webhook message, their builders, and the check against Discord's limits.
use vstd::prelude::*;
use vstd::string::*;
use crate::interval::{byte_len, interval_check, outcome_view, Interval};
use crate::limits::{
    ACTION_ROW_COUNT_MAX, AUTHOR_NAME_LEN_MAX, BUTTON_COUNT_MAX, CUSTOM_ID_LEN_MAX,
    CUSTOM_ID_LEN_MIN, DESCRIPTION_LEN_MAX, EMBED_TOTAL_TEXT_LEN_MAX, FIELDS_LEN_MAX,
    FIELD_NAME_LEN_MAX, FIELD_VALUE_LEN_MAX, FOOTER_TEXT_LEN_MAX, LABEL_LEN_MAX, TITLE_LEN_MAX,
};
use crate::rules::{
    check_action_row, check_button, check_component, check_components, check_embed,
    check_embeds, check_action_rows, check_message, embed_text_len, embeds_text_len,
    field_outcome, fields_outcome, fields_text_len, lemma_embeds_text_len_prefix,
    lemma_fields_outcome_prefix_err, register_button_step, register_custom_id_step,
    register_embed_step, ContextView, Outcome,
};

verus! {

/// The ID of a Discord object.
pub type Snowflake = String;

/// A named value shown in an embed.
#[derive(Debug)]
pub struct EmbedField {
    pub name: String,
    pub value: String,
    pub inline: bool,
}

pub struct EmbedFieldView {
    pub name: Seq<char>,
    pub value: Seq<char>,
    pub inline: bool,
}

impl View for EmbedField {
    type V = EmbedFieldView;

    open spec fn view(&self) -> EmbedFieldView {
        EmbedFieldView { name: self.name@, value: self.value@, inline: self.inline }
    }
}

impl EmbedField {
    pub fn new(name: &str, value: &str, inline: bool) -> (r: Self)
        ensures
            r@ == (EmbedFieldView { name: name@, value: value@, inline }),
    {
        Self { name: name.to_owned(), value: value.to_owned(), inline }
    }
}

/// The footer line of an embed.
#[derive(Debug)]
pub struct EmbedFooter {
    pub text: String,
    pub icon_url: Option<String>,
}

pub struct EmbedFooterView {
    pub text: Seq<char>,
    pub icon_url: Option<Seq<char>>,
}

impl View for EmbedFooter {
    type V = EmbedFooterView;

    open spec fn view(&self) -> EmbedFooterView {
        EmbedFooterView { text: self.text@, icon_url: self.icon_url.deep_view() }
    }
}

impl EmbedFooter {
    pub fn new(text: &str, icon_url: Option<String>) -> (r: Self)
        ensures
            r@ == (EmbedFooterView { text: text@, icon_url: icon_url.deep_view() }),
    {
        Self { text: text.to_owned(), icon_url }
    }
}

pub type EmbedImage = EmbedUrlSource;

pub type EmbedThumbnail = EmbedUrlSource;

pub type EmbedVideo = EmbedUrlSource;

/// A media item of an embed, given by its URL.
#[derive(Debug)]
pub struct EmbedUrlSource {
    pub url: String,
}

pub struct EmbedUrlSourceView {
    pub url: Seq<char>,
}

impl View for EmbedUrlSource {
    type V = EmbedUrlSourceView;

    open spec fn view(&self) -> EmbedUrlSourceView {
        EmbedUrlSourceView { url: self.url@ }
    }
}

impl EmbedUrlSource {
    pub fn new(url: &str) -> (r: Self)
        ensures
            r@ == (EmbedUrlSourceView { url: url@ }),
    {
        Self { url: url.to_owned() }
    }
}

/// The provider shown in an embed.
#[derive(Debug)]
pub struct EmbedProvider {
    pub name: String,
    pub url: String,
}

pub struct EmbedProviderView {
    pub name: Seq<char>,
    pub url: Seq<char>,
}

impl View for EmbedProvider {
    type V = EmbedProviderView;

    open spec fn view(&self) -> EmbedProviderView {
        EmbedProviderView { name: self.name@, url: self.url@ }
    }
}

impl EmbedProvider {
    pub fn new(name: &str, url: &str) -> (r: Self)
        ensures
            r@ == (EmbedProviderView { name: name@, url: url@ }),
    {
        Self { name: name.to_owned(), url: url.to_owned() }
    }
}

/// The author shown in an embed.
#[derive(Debug)]
pub struct EmbedAuthor {
    pub name: String,
    pub url: Option<String>,
    pub icon_url: Option<String>,
}

pub struct EmbedAuthorView {
    pub name: Seq<char>,
    pub url: Option<Seq<char>>,
    pub icon_url: Option<Seq<char>>,
}

impl View for EmbedAuthor {
    type V = EmbedAuthorView;

    open spec fn view(&self) -> EmbedAuthorView {
        EmbedAuthorView {
            name: self.name@,
            url: self.url.deep_view(),
            icon_url: self.icon_url.deep_view(),
        }
    }
}

impl EmbedAuthor {
    pub fn new(name: &str, url: Option<String>, icon_url: Option<String>) -> (r: Self)
        ensures
            r@ == (EmbedAuthorView {
                name: name@,
                url: url.deep_view(),
                icon_url: icon_url.deep_view(),
            }),
    {
        Self { name: name.to_owned(), url, icon_url }
    }
}

/// A rich content block of a message. Its type is always "rich", which `embed_type` gives;
/// no field holds it, so no value of the type can hold another.
#[derive(Debug)]
pub struct Embed {
    pub title: Option<String>,
    pub description: Option<String>,
    pub url: Option<String>,
    // ISO8601
    pub timestamp: Option<String>,
    pub color: Option<String>,
    pub footer: Option<EmbedFooter>,
    pub image: Option<EmbedImage>,
    pub video: Option<EmbedVideo>,
    pub thumbnail: Option<EmbedThumbnail>,
    pub provider: Option<EmbedProvider>,
    pub author: Option<EmbedAuthor>,
    pub fields: Vec<EmbedField>,
}

pub struct EmbedView {
    pub title: Option<Seq<char>>,
    pub description: Option<Seq<char>>,
    pub url: Option<Seq<char>>,
    pub timestamp: Option<Seq<char>>,
    pub color: Option<Seq<char>>,
    pub footer: Option<EmbedFooterView>,
    pub image: Option<EmbedUrlSourceView>,
    pub video: Option<EmbedUrlSourceView>,
    pub thumbnail: Option<EmbedUrlSourceView>,
    pub provider: Option<EmbedProviderView>,
    pub author: Option<EmbedAuthorView>,
    pub fields: Seq<EmbedFieldView>,
}

/// An optional part taken by its view.
pub open spec fn opt_view<T: View>(o: Option<T>) -> Option<T::V> {
    match o {
        Some(t) => Some(t@),
        None => None,
    }
}

impl View for Embed {
    type V = EmbedView;

    open spec fn view(&self) -> EmbedView {
        EmbedView {
            title: self.title.deep_view(),
            description: self.description.deep_view(),
            url: self.url.deep_view(),
            timestamp: self.timestamp.deep_view(),
            color: self.color.deep_view(),
            footer: opt_view(self.footer),
            image: opt_view(self.image),
            video: opt_view(self.video),
            thumbnail: opt_view(self.thumbnail),
            provider: opt_view(self.provider),
            author: opt_view(self.author),
            fields: self.fields@.map_values(|f: EmbedField| f@),
        }
    }
}

impl Embed {
    /// The view of a new embed, with nothing set.
    pub open spec fn empty_view() -> EmbedView {
        EmbedView {
            title: None,
            description: None,
            url: None,
            timestamp: None,
            color: None,
            footer: None,
            image: None,
            video: None,
            thumbnail: None,
            provider: None,
            author: None,
            fields: Seq::empty(),
        }
    }

    pub fn new() -> (r: Self)
        ensures
            r@ == Self::empty_view(),
            r@.title is None,
            r@.description is None,
            r@.url is None,
            r@.timestamp is None,
            r@.color is None,
            r@.footer is None,
            r@.image is None,
            r@.video is None,
            r@.thumbnail is None,
            r@.provider is None,
            r@.author is None,
            r@.fields.len() == 0,
    {
        let r = Self {
            title: None,
            description: None,
            url: None,
            timestamp: None,
            color: None,
            footer: None,
            image: None,
            video: None,
            thumbnail: None,
            provider: None,
            author: None,
            fields: Vec::new(),
        };
        assert(r@.fields =~= Seq::<EmbedFieldView>::empty());
        r
    }

    /// The type of the embed, always "rich".
    pub fn embed_type(&self) -> (r: &'static str)
        ensures
            r@ == "rich"@,
    {
        "rich"
    }

    pub fn title(&mut self, title: &str) -> (r: &mut Self)
        ensures
            r@ == (EmbedView { title: Some(title@), ..old(self)@ }),
            *final(self) == *final(r),
    {
        self.title = Some(title.to_owned());
        self
    }

    pub fn description(&mut self, description: &str) -> (r: &mut Self)
        ensures
            r@ == (EmbedView { description: Some(description@), ..old(self)@ }),
            *final(self) == *final(r),
    {
        self.description = Some(description.to_owned());
        self
    }

    pub fn url(&mut self, url: &str) -> (r: &mut Self)
        ensures
            r@ == (EmbedView { url: Some(url@), ..old(self)@ }),
            *final(self) == *final(r),
    {
        self.url = Some(url.to_owned());
        self
    }

    pub fn timestamp(&mut self, timestamp: &str) -> (r: &mut Self)
        ensures
            r@ == (EmbedView { timestamp: Some(timestamp@), ..old(self)@ }),
            *final(self) == *final(r),
    {
        self.timestamp = Some(timestamp.to_owned());
        self
    }

    pub fn color(&mut self, color: &str) -> (r: &mut Self)
        ensures
            r@ == (EmbedView { color: Some(color@), ..old(self)@ }),
            *final(self) == *final(r),
    {
        self.color = Some(color.to_owned());
        self
    }

    pub fn footer(&mut self, text: &str, icon_url: Option<String>) -> (r: &mut Self)
        ensures
            r@ == (EmbedView {
                footer: Some(EmbedFooterView { text: text@, icon_url: icon_url.deep_view() }),
                ..old(self)@
            }),
            *final(self) == *final(r),
    {
        self.footer = Some(EmbedFooter::new(text, icon_url));
        self
    }

    pub fn image(&mut self, url: &str) -> (r: &mut Self)
        ensures
            r@ == (EmbedView { image: Some(EmbedUrlSourceView { url: url@ }), ..old(self)@ }),
            *final(self) == *final(r),
    {
        self.image = Some(EmbedImage::new(url));
        self
    }

    pub fn video(&mut self, url: &str) -> (r: &mut Self)
        ensures
            r@ == (EmbedView { video: Some(EmbedUrlSourceView { url: url@ }), ..old(self)@ }),
            *final(self) == *final(r),
    {
        self.video = Some(EmbedVideo::new(url));
        self
    }

    pub fn thumbnail(&mut self, url: &str) -> (r: &mut Self)
        ensures
            r@ == (EmbedView { thumbnail: Some(EmbedUrlSourceView { url: url@ }), ..old(self)@ }),
            *final(self) == *final(r),
    {
        self.thumbnail = Some(EmbedThumbnail::new(url));
        self
    }

    pub fn provider(&mut self, name: &str, url: &str) -> (r: &mut Self)
        ensures
            r@ == (EmbedView {
                provider: Some(EmbedProviderView { name: name@, url: url@ }),
                ..old(self)@
            }),
            *final(self) == *final(r),
    {
        self.provider = Some(EmbedProvider::new(name, url));
        self
    }

    pub fn author(&mut self, name: &str, url: Option<String>, icon_url: Option<String>) -> (r:
        &mut Self)
        ensures
            r@ == (EmbedView {
                author: Some(
                    EmbedAuthorView {
                        name: name@,
                        url: url.deep_view(),
                        icon_url: icon_url.deep_view(),
                    },
                ),
                ..old(self)@
            }),
            *final(self) == *final(r),
    {
        self.author = Some(EmbedAuthor::new(name, url, icon_url));
        self
    }

    /// Appends a field. It is not to be called on an embed that holds exactly
    /// `FIELDS_LEN_MAX` fields.
    pub fn field(&mut self, name: &str, value: &str, inline: bool) -> (r: &mut Self)
        requires
            old(self)@.fields.len() != FIELDS_LEN_MAX,
        ensures
            r@ == (EmbedView {
                fields: old(self)@.fields.push(EmbedFieldView { name: name@, value: value@, inline }),
                ..old(self)@
            }),
            *final(self) == *final(r),
    {
        self.fields.push(EmbedField::new(name, value, inline));
        proof {
            assert(self@.fields =~= old(self)@.fields.push(
                EmbedFieldView { name: name@, value: value@, inline },
            ));
        }
        self
    }
}

/// A kind of mention that a message may ping.
#[derive(Debug)]
pub enum AllowedMention {
    RoleMention,
    UserMention,
    EveryoneMention,
}

/// The name by which the API knows a kind of mention.
pub open spec fn allowed_mention_name(allowed_mention: AllowedMention) -> Seq<char> {
    match allowed_mention {
        AllowedMention::RoleMention => "roles"@,
        AllowedMention::UserMention => "users"@,
        AllowedMention::EveryoneMention => "everyone"@,
    }
}

fn resolve_allowed_mention_name(allowed_mention: AllowedMention) -> (r: String)
    ensures
        r@ == allowed_mention_name(allowed_mention),
{
    match allowed_mention {
        AllowedMention::RoleMention => "roles".to_string(),
        AllowedMention::UserMention => "users".to_string(),
        AllowedMention::EveryoneMention => "everyone".to_string(),
    }
}

/// Which mentions of a message ping.
#[derive(Debug)]
pub struct AllowedMentions {
    pub parse: Option<Vec<String>>,
    pub roles: Option<Vec<Snowflake>>,
    pub users: Option<Vec<Snowflake>>,
    pub replied_user: bool,
}

pub struct AllowedMentionsView {
    pub parse: Option<Seq<Seq<char>>>,
    pub roles: Option<Seq<Seq<char>>>,
    pub users: Option<Seq<Seq<char>>>,
    pub replied_user: bool,
}

impl View for AllowedMentions {
    type V = AllowedMentionsView;

    open spec fn view(&self) -> AllowedMentionsView {
        AllowedMentionsView {
            parse: self.parse.deep_view(),
            roles: self.roles.deep_view(),
            users: self.users.deep_view(),
            replied_user: self.replied_user,
        }
    }
}

/// The names of the kinds of mention in `parse`, in order; none where `parse` is `None`.
pub open spec fn parse_names(parse: Option<Seq<AllowedMention>>) -> Seq<Seq<char>> {
    match parse {
        Some(p) => p.map_values(|m: AllowedMention| allowed_mention_name(m)),
        None => Seq::empty(),
    }
}

impl AllowedMentions {
    pub fn new(
        parse: Option<Vec<AllowedMention>>,
        roles: Option<Vec<Snowflake>>,
        users: Option<Vec<Snowflake>>,
        replied_user: bool,
    ) -> (r: Self)
        ensures
            r@ == (AllowedMentionsView {
                parse: Some(parse_names(opt_vec_view(parse))),
                roles: roles.deep_view(),
                users: users.deep_view(),
                replied_user,
            }),
    {
        let mut parse_strings: Vec<String> = Vec::new();
        let ghost input = opt_vec_view(parse);
        if parse.is_some() {
            let v = parse.unwrap();
            let ghost items = v@;
            for x in it: v.into_iter()
                invariant
                    items == it.seq(),
                    input == Some(items),
                    parse_strings.deep_view() =~= items.take(it.index() as int).map_values(
                        |m: AllowedMention| allowed_mention_name(m),
                    ),
            {
                let ghost before = parse_strings.deep_view();
                parse_strings.push(resolve_allowed_mention_name(x));
                assert(items.take(it.index() + 1) =~= items.take(it.index() as int).push(x));
                assert(parse_strings.deep_view() =~= before.push(allowed_mention_name(x)));
            }
            assert(items.take(items.len() as int) =~= items);
        } else {
            assert(parse_strings.deep_view() =~= Seq::<Seq<char>>::empty());
        }
        Self { parse: Some(parse_strings), roles, users, replied_user }
    }
}

/// An optional vector taken as a sequence.
pub open spec fn opt_vec_view<T>(o: Option<Vec<T>>) -> Option<Seq<T>> {
    match o {
        Some(v) => Some(v@),
        None => None,
    }
}

/// The style of a button that is not a link.
#[derive(Debug, Clone)]
pub enum NonLinkButtonStyle {
    Primary,
    Secondary,
    Success,
    Danger,
}

/// The style of a button as the API knows it. A link button is made by its own builder,
/// so this enum is not handed to users.
#[derive(Debug)]
pub enum ButtonStyles {
    Primary,
    Secondary,
    Success,
    Danger,
    Link,
}

/// The API style that a non-link style stands for.
pub open spec fn button_style_of(style: NonLinkButtonStyle) -> ButtonStyles {
    match style {
        NonLinkButtonStyle::Primary => ButtonStyles::Primary,
        NonLinkButtonStyle::Secondary => ButtonStyles::Secondary,
        NonLinkButtonStyle::Success => ButtonStyles::Success,
        NonLinkButtonStyle::Danger => ButtonStyles::Danger,
    }
}

impl NonLinkButtonStyle {
    fn get_button_style(&self) -> (r: ButtonStyles)
        ensures
            r == button_style_of(*self),
    {
        match *self {
            NonLinkButtonStyle::Primary => ButtonStyles::Primary,
            NonLinkButtonStyle::Secondary => ButtonStyles::Secondary,
            NonLinkButtonStyle::Success => ButtonStyles::Success,
            NonLinkButtonStyle::Danger => ButtonStyles::Danger,
        }
    }
}

/// The number by which the API knows a button style.
pub open spec fn style_code(style: ButtonStyles) -> i32 {
    match style {
        ButtonStyles::Primary => 1,
        ButtonStyles::Secondary => 2,
        ButtonStyles::Success => 3,
        ButtonStyles::Danger => 4,
        ButtonStyles::Link => 5,
    }
}

impl ButtonStyles {
    /// The number that stands for the style in the API's JSON.
    pub fn code(&self) -> (r: i32)
        ensures
            r == style_code(*self),
    {
        match *self {
            ButtonStyles::Primary => 1,
            ButtonStyles::Secondary => 2,
            ButtonStyles::Success => 3,
            ButtonStyles::Danger => 4,
            ButtonStyles::Link => 5,
        }
    }
}

/// An emoji shown on a button.
#[derive(Debug, Clone)]
pub struct PartialEmoji {
    pub id: Snowflake,
    pub name: String,
    pub animated: Option<bool>,
}

pub struct PartialEmojiView {
    pub id: Seq<char>,
    pub name: Seq<char>,
    pub animated: Option<bool>,
}

impl View for PartialEmoji {
    type V = PartialEmojiView;

    open spec fn view(&self) -> PartialEmojiView {
        PartialEmojiView { id: self.id@, name: self.name@, animated: self.animated }
    }
}

fn copy_string(s: &Option<String>) -> (r: Option<String>)
    ensures
        r.deep_view() == s.deep_view(),
{
    match s {
        Some(t) => Some(t.clone()),
        None => None,
    }
}

fn copy_emoji(e: &Option<PartialEmoji>) -> (r: Option<PartialEmoji>)
    ensures
        opt_view(r) == opt_view(*e),
{
    match e {
        Some(em) => Some(PartialEmoji { id: em.id.clone(), name: em.name.clone(), animated: em.animated }),
        None => None,
    }
}

/// A button in the form that is sent to the API.
#[derive(Debug)]
pub struct Button {
    pub component_type: i8,
    pub style: Option<ButtonStyles>,
    pub label: Option<String>,
    pub emoji: Option<PartialEmoji>,
    pub custom_id: Option<String>,
    pub url: Option<String>,
    pub disabled: Option<bool>,
}

pub struct ButtonView {
    pub component_type: i8,
    pub style: Option<ButtonStyles>,
    pub label: Option<Seq<char>>,
    pub emoji: Option<PartialEmojiView>,
    pub custom_id: Option<Seq<char>>,
    pub url: Option<Seq<char>>,
    pub disabled: Option<bool>,
}

impl View for Button {
    type V = ButtonView;

    open spec fn view(&self) -> ButtonView {
        ButtonView {
            component_type: self.component_type,
            style: self.style,
            label: self.label.deep_view(),
            emoji: opt_view(self.emoji),
            custom_id: self.custom_id.deep_view(),
            url: self.url.deep_view(),
            disabled: self.disabled,
        }
    }
}

impl Button {
    fn new(
        style: Option<ButtonStyles>,
        label: Option<String>,
        emoji: Option<PartialEmoji>,
        url: Option<String>,
        custom_id: Option<String>,
        disabled: Option<bool>,
    ) -> (r: Self)
        ensures
            r@ == (ButtonView {
                component_type: 2,
                style,
                label: label.deep_view(),
                emoji: opt_view(emoji),
                custom_id: custom_id.deep_view(),
                url: url.deep_view(),
                disabled,
            }),
    {
        Self { component_type: 2, style, label, emoji, url, custom_id, disabled }
    }
}

/// The fields that link buttons and regular buttons share.
#[derive(Debug)]
struct ButtonCommonBase {
    pub label: Option<String>,
    pub emoji: Option<PartialEmoji>,
    pub disabled: Option<bool>,
}

pub struct ButtonCommonBaseView {
    pub label: Option<Seq<char>>,
    pub emoji: Option<PartialEmojiView>,
    pub disabled: Option<bool>,
}

impl View for ButtonCommonBase {
    type V = ButtonCommonBaseView;

    closed spec fn view(&self) -> ButtonCommonBaseView {
        ButtonCommonBaseView {
            label: self.label.deep_view(),
            emoji: opt_view(self.emoji),
            disabled: self.disabled,
        }
    }
}

impl ButtonCommonBase {
    fn new(label: Option<String>, emoji: Option<PartialEmoji>, disabled: Option<bool>) -> (r: Self)
        ensures
            r@ == (ButtonCommonBaseView {
                label: label.deep_view(),
                emoji: opt_view(emoji),
                disabled,
            }),
    {
        ButtonCommonBase { label, emoji, disabled }
    }

    fn label(&mut self, label: &str) -> (r: &mut Self)
        ensures
            r@ == (ButtonCommonBaseView { label: Some(label@), ..old(self)@ }),
            *final(self) == *final(r),
    {
        self.label = Some(label.to_string());
        self
    }

    fn emoji(&mut self, emoji_id: Snowflake, name: &str, animated: bool) -> (r: &mut Self)
        ensures
            r@ == (ButtonCommonBaseView {
                emoji: Some(PartialEmojiView { id: emoji_id@, name: name@, animated: Some(animated) }),
                ..old(self)@
            }),
            *final(self) == *final(r),
    {
        self.emoji = Some(PartialEmoji { id: emoji_id, name: name.to_string(), animated: Some(animated) });
        self
    }

    fn disabled(&mut self, disabled: bool) -> (r: &mut Self)
        ensures
            r@ == (ButtonCommonBaseView { disabled: Some(disabled), ..old(self)@ }),
            *final(self) == *final(r),
    {
        self.disabled = Some(disabled);
        self
    }
}

/// A button that opens a URL.
#[derive(Debug)]
pub struct LinkButton {
    button_base: ButtonCommonBase,
    url: Option<String>,
}

pub struct LinkButtonView {
    pub label: Option<Seq<char>>,
    pub emoji: Option<PartialEmojiView>,
    pub disabled: Option<bool>,
    pub url: Option<Seq<char>>,
}

impl View for LinkButton {
    type V = LinkButtonView;

    closed spec fn view(&self) -> LinkButtonView {
        LinkButtonView {
            label: self.button_base@.label,
            emoji: self.button_base@.emoji,
            disabled: self.button_base@.disabled,
            url: self.url.deep_view(),
        }
    }
}

impl LinkButton {
    /// The view of a new link button, with nothing set.
    pub open spec fn empty_view() -> LinkButtonView {
        LinkButtonView { label: None, emoji: None, disabled: None, url: None }
    }

    fn new() -> (r: Self)
        ensures
            r@ == Self::empty_view(),
            r@.label is None,
            r@.emoji is None,
            r@.disabled is None,
            r@.url is None,
    {
        LinkButton { button_base: ButtonCommonBase::new(None, None, None), url: None }
    }

    pub fn url(&mut self, url: &str) -> (r: &mut Self)
        ensures
            r@ == (LinkButtonView { url: Some(url@), ..old(self)@ }),
            *final(self) == *final(r),
    {
        self.url = Some(url.to_string());
        self
    }

    pub fn emoji(&mut self, emoji_id: &str, name: &str, animated: bool) -> (r: &mut Self)
        ensures
            r@ == (LinkButtonView {
                emoji: Some(PartialEmojiView { id: emoji_id@, name: name@, animated: Some(animated) }),
                ..old(self)@
            }),
            *final(self) == *final(r),
    {
        self.button_base.emoji(emoji_id.to_string(), name, animated);
        self
    }

    pub fn disabled(&mut self, disabled: bool) -> (r: &mut Self)
        ensures
            r@ == (LinkButtonView { disabled: Some(disabled), ..old(self)@ }),
            *final(self) == *final(r),
    {
        self.button_base.disabled(disabled);
        self
    }

    pub fn label(&mut self, label: &str) -> (r: &mut Self)
        ensures
            r@ == (LinkButtonView { label: Some(label@), ..old(self)@ }),
            *final(self) == *final(r),
    {
        self.button_base.label(label);
        self
    }
}

/// A button that the receiving application identifies by its custom ID.
pub struct RegularButton {
    button_base: ButtonCommonBase,
    custom_id: Option<String>,
    style: Option<NonLinkButtonStyle>,
}

pub struct RegularButtonView {
    pub label: Option<Seq<char>>,
    pub emoji: Option<PartialEmojiView>,
    pub disabled: Option<bool>,
    pub custom_id: Option<Seq<char>>,
    pub style: Option<NonLinkButtonStyle>,
}

impl View for RegularButton {
    type V = RegularButtonView;

    closed spec fn view(&self) -> RegularButtonView {
        RegularButtonView {
            label: self.button_base@.label,
            emoji: self.button_base@.emoji,
            disabled: self.button_base@.disabled,
            custom_id: self.custom_id.deep_view(),
            style: self.style,
        }
    }
}

impl RegularButton {
    /// The view of a new regular button, with nothing set.
    pub open spec fn empty_view() -> RegularButtonView {
        RegularButtonView { label: None, emoji: None, disabled: None, custom_id: None, style: None }
    }

    fn new() -> (r: Self)
        ensures
            r@ == Self::empty_view(),
            r@.label is None,
            r@.emoji is None,
            r@.disabled is None,
            r@.custom_id is None,
            r@.style is None,
    {
        RegularButton {
            button_base: ButtonCommonBase::new(None, None, None),
            custom_id: None,
            style: None,
        }
    }

    pub fn custom_id(&mut self, custom_id: &str) -> (r: &mut Self)
        ensures
            r@ == (RegularButtonView { custom_id: Some(custom_id@), ..old(self)@ }),
            *final(self) == *final(r),
    {
        self.custom_id = Some(custom_id.to_string());
        self
    }

    pub fn style(&mut self, style: NonLinkButtonStyle) -> (r: &mut Self)
        ensures
            r@ == (RegularButtonView { style: Some(style), ..old(self)@ }),
            *final(self) == *final(r),
    {
        self.style = Some(style);
        self
    }

    pub fn emoji(&mut self, emoji_id: &str, name: &str, animated: bool) -> (r: &mut Self)
        ensures
            r@ == (RegularButtonView {
                emoji: Some(PartialEmojiView { id: emoji_id@, name: name@, animated: Some(animated) }),
                ..old(self)@
            }),
            *final(self) == *final(r),
    {
        self.button_base.emoji(emoji_id.to_string(), name, animated);
        self
    }

    pub fn disabled(&mut self, disabled: bool) -> (r: &mut Self)
        ensures
            r@ == (RegularButtonView { disabled: Some(disabled), ..old(self)@ }),
            *final(self) == *final(r),
    {
        self.button_base.disabled(disabled);
        self
    }

    pub fn label(&mut self, label: &str) -> (r: &mut Self)
        ensures
            r@ == (RegularButtonView { label: Some(label@), ..old(self)@ }),
            *final(self) == *final(r),
    {
        self.button_base.label(label);
        self
    }
}

/// The button that a link button is sent as.
pub open spec fn link_button_form(b: LinkButtonView) -> ButtonView {
    ButtonView {
        component_type: 2,
        style: Some(ButtonStyles::Link),
        label: b.label,
        emoji: b.emoji,
        custom_id: None,
        url: b.url,
        disabled: b.disabled,
    }
}

/// The button that a regular button is sent as.
pub open spec fn regular_button_form(b: RegularButtonView) -> ButtonView {
    ButtonView {
        component_type: 2,
        style: match b.style {
            Some(s) => Some(button_style_of(s)),
            None => None,
        },
        label: b.label,
        emoji: b.emoji,
        custom_id: b.custom_id,
        url: None,
        disabled: b.disabled,
    }
}

trait ToSerializableButton {
    fn to_serializable_button(&self) -> Button;
}

impl ToSerializableButton for LinkButton {
    fn to_serializable_button(&self) -> (r: Button)
        ensures
            r@ == link_button_form(self@),
            r@.component_type == 2,
            r@.style == Some(ButtonStyles::Link),
            r@.label == self@.label,
            r@.emoji == self@.emoji,
            r@.custom_id is None,
            r@.url == self@.url,
            r@.disabled == self@.disabled,
    {
        Button::new(
            Some(ButtonStyles::Link),
            copy_string(&self.button_base.label),
            copy_emoji(&self.button_base.emoji),
            copy_string(&self.url),
            None,
            self.button_base.disabled,
        )
    }
}

impl ToSerializableButton for RegularButton {
    fn to_serializable_button(&self) -> (r: Button)
        ensures
            r@ == regular_button_form(self@),
            r@.component_type == 2,
            r@.style == match self@.style {
                Some(s) => Some(button_style_of(s)),
                None => None,
            },
            r@.label == self@.label,
            r@.emoji == self@.emoji,
            r@.custom_id == self@.custom_id,
            r@.url is None,
            r@.disabled == self@.disabled,
    {
        let style = match &self.style {
            Some(s) => Some(s.get_button_style()),
            None => None,
        };
        Button::new(
            style,
            copy_string(&self.button_base.label),
            copy_emoji(&self.button_base.emoji),
            None,
            copy_string(&self.custom_id),
            self.button_base.disabled,
        )
    }
}

/// A component that holds no other components. Buttons are the only kind so far.
#[derive(Debug)]
pub enum NonCompositeComponent {
    Button(Button),
}

pub enum NonCompositeComponentView {
    Button(ButtonView),
}

impl View for NonCompositeComponent {
    type V = NonCompositeComponentView;

    open spec fn view(&self) -> NonCompositeComponentView {
        match self {
            NonCompositeComponent::Button(b) => NonCompositeComponentView::Button(b@),
        }
    }
}

/// A row of components under a message.
#[derive(Debug)]
pub struct ActionRow {
    pub component_type: u8,
    components: Vec<NonCompositeComponent>,
}

pub struct ActionRowView {
    pub component_type: u8,
    pub components: Seq<NonCompositeComponentView>,
}

impl View for ActionRow {
    type V = ActionRowView;

    closed spec fn view(&self) -> ActionRowView {
        ActionRowView {
            component_type: self.component_type,
            components: self.components@.map_values(|c: NonCompositeComponent| c@),
        }
    }
}

impl ActionRow {
    /// The view of a new action row: of component type 1, with no components.
    pub open spec fn empty_view() -> ActionRowView {
        ActionRowView { component_type: 1, components: Seq::empty() }
    }

    fn new() -> (r: ActionRow)
        ensures
            r@ == Self::empty_view(),
            r@.component_type == 1,
            r@.components.len() == 0,
    {
        let r = ActionRow { component_type: 1, components: Vec::new() };
        assert(r@.components =~= Seq::<NonCompositeComponentView>::empty());
        r
    }

    /// The component type of the row; a new row has 1, the type of an action row.
    pub fn component_type(&self) -> (r: u8)
        ensures
            r == self@.component_type,
    {
        self.component_type
    }

    /// The components of the row, in order.
    pub fn components(&self) -> (r: &Vec<NonCompositeComponent>)
        ensures
            r@.map_values(|c: NonCompositeComponent| c@) == self@.components,
    {
        &self.components
    }

    /// Appends a link button that `button_mutator` builds from a new one.
    pub fn link_button<Func>(&mut self, button_mutator: Func) -> (r: &mut Self) where
        Func: Fn(&mut LinkButton) -> &mut LinkButton,

        requires
            forall|b: &mut LinkButton|
                (*b)@ == LinkButton::empty_view() ==> call_requires(button_mutator, (b,)),
        ensures
            exists|b: &mut LinkButton, out: &mut LinkButton|
                {
                    &&& call_ensures(button_mutator, (b,), out)
                    &&& *final(out) == *out
                    &&& (*b)@ == LinkButton::empty_view()
                    &&& r@ == (ActionRowView {
                        components: old(self)@.components.push(
                            NonCompositeComponentView::Button(link_button_form((*final(b))@)),
                        ),
                        ..old(self)@
                    })
                },
            *final(self) == *final(r),
    {
        let mut button = LinkButton::new();
        let ghost fresh = button;
        let out = button_mutator(&mut button);
        let ghost g_out = out;
        let c = NonCompositeComponent::Button(button.to_serializable_button());
        self.components.push(c);
        proof {
            assert(exists|b: &mut LinkButton|
                call_ensures(button_mutator, (b,), g_out) && *b == fresh && *final(b) == button);
            let b = choose|b: &mut LinkButton|
                call_ensures(button_mutator, (b,), g_out) && *b == fresh && *final(b) == button;
            assert(self@.components =~= old(self)@.components.push(
                NonCompositeComponentView::Button(link_button_form((*final(b))@)),
            ));
        }
        self
    }

    /// Appends a regular button that `button_mutator` builds from a new one.
    pub fn regular_button<Func>(&mut self, button_mutator: Func) -> (r: &mut Self) where
        Func: Fn(&mut RegularButton) -> &mut RegularButton,

        requires
            forall|b: &mut RegularButton|
                (*b)@ == RegularButton::empty_view() ==> call_requires(button_mutator, (b,)),
        ensures
            exists|b: &mut RegularButton, out: &mut RegularButton|
                {
                    &&& call_ensures(button_mutator, (b,), out)
                    &&& *final(out) == *out
                    &&& (*b)@ == RegularButton::empty_view()
                    &&& r@ == (ActionRowView {
                        components: old(self)@.components.push(
                            NonCompositeComponentView::Button(regular_button_form((*final(b))@)),
                        ),
                        ..old(self)@
                    })
                },
            *final(self) == *final(r),
    {
        let mut button = RegularButton::new();
        let ghost fresh = button;
        let out = button_mutator(&mut button);
        let ghost g_out = out;
        let c = NonCompositeComponent::Button(button.to_serializable_button());
        self.components.push(c);
        proof {
            assert(exists|b: &mut RegularButton|
                call_ensures(button_mutator, (b,), g_out) && *b == fresh && *final(b) == button);
            let b = choose|b: &mut RegularButton|
                call_ensures(button_mutator, (b,), g_out) && *b == fresh && *final(b) == button;
            assert(self@.components =~= old(self)@.components.push(
                NonCompositeComponentView::Button(regular_button_form((*final(b))@)),
            ));
        }
        self
    }
}

/// A webhook message.
#[derive(Debug)]
pub struct Message {
    pub content: Option<String>,
    pub thread_name: Option<String>,
    pub username: Option<String>,
    pub avatar_url: Option<String>,
    pub tts: bool,
    pub embeds: Vec<Embed>,
    pub allow_mentions: Option<AllowedMentions>,
    pub action_rows: Vec<ActionRow>,
}

pub struct MessageView {
    pub content: Option<Seq<char>>,
    pub thread_name: Option<Seq<char>>,
    pub username: Option<Seq<char>>,
    pub avatar_url: Option<Seq<char>>,
    pub tts: bool,
    pub embeds: Seq<EmbedView>,
    pub allow_mentions: Option<AllowedMentionsView>,
    pub action_rows: Seq<ActionRowView>,
}

impl View for Message {
    type V = MessageView;

    open spec fn view(&self) -> MessageView {
        MessageView {
            content: self.content.deep_view(),
            thread_name: self.thread_name.deep_view(),
            username: self.username.deep_view(),
            avatar_url: self.avatar_url.deep_view(),
            tts: self.tts,
            embeds: self.embeds@.map_values(|e: Embed| e@),
            allow_mentions: opt_view(self.allow_mentions),
            action_rows: self.action_rows@.map_values(|a: ActionRow| a@),
        }
    }
}

impl Message {
    /// The view of a new message, with nothing set.
    pub open spec fn empty_view() -> MessageView {
        MessageView {
            content: None,
            thread_name: None,
            username: None,
            avatar_url: None,
            tts: false,
            embeds: Seq::empty(),
            allow_mentions: None,
            action_rows: Seq::empty(),
        }
    }

    pub fn new() -> (r: Self)
        ensures
            r@ == Self::empty_view(),
            r@.content is None,
            r@.thread_name is None,
            r@.username is None,
            r@.avatar_url is None,
            !r@.tts,
            r@.embeds.len() == 0,
            r@.allow_mentions is None,
            r@.action_rows.len() == 0,
    {
        let r = Self {
            content: None,
            thread_name: None,
            username: None,
            avatar_url: None,
            tts: false,
            embeds: Vec::new(),
            allow_mentions: None,
            action_rows: Vec::new(),
        };
        assert(r@.embeds =~= Seq::<EmbedView>::empty());
        assert(r@.action_rows =~= Seq::<ActionRowView>::empty());
        r
    }

    pub fn content(&mut self, content: &str) -> (r: &mut Self)
        ensures
            r@ == (MessageView { content: Some(content@), ..old(self)@ }),
            *final(self) == *final(r),
    {
        self.content = Some(content.to_owned());
        self
    }

    pub fn thread_name(&mut self, thread_name: &str) -> (r: &mut Self)
        ensures
            r@ == (MessageView { thread_name: Some(thread_name@), ..old(self)@ }),
            *final(self) == *final(r),
    {
        self.thread_name = Some(thread_name.to_owned());
        self
    }

    pub fn username(&mut self, username: &str) -> (r: &mut Self)
        ensures
            r@ == (MessageView { username: Some(username@), ..old(self)@ }),
            *final(self) == *final(r),
    {
        self.username = Some(username.to_owned());
        self
    }

    pub fn avatar_url(&mut self, avatar_url: &str) -> (r: &mut Self)
        ensures
            r@ == (MessageView { avatar_url: Some(avatar_url@), ..old(self)@ }),
            *final(self) == *final(r),
    {
        self.avatar_url = Some(avatar_url.to_owned());
        self
    }

    pub fn tts(&mut self, tts: bool) -> (r: &mut Self)
        ensures
            r@ == (MessageView { tts, ..old(self)@ }),
            *final(self) == *final(r),
    {
        self.tts = tts;
        self
    }

    /// Appends an embed that `func` builds from a new one.
    pub fn embed<Func>(&mut self, func: Func) -> (r: &mut Self) where
        Func: Fn(&mut Embed) -> &mut Embed,

        requires
            forall|e: &mut Embed| (*e)@ == Embed::empty_view() ==> call_requires(func, (e,)),
        ensures
            exists|e: &mut Embed, out: &mut Embed|
                {
                    &&& call_ensures(func, (e,), out)
                    &&& *final(out) == *out
                    &&& (*e)@ == Embed::empty_view()
                    &&& r@ == (MessageView {
                        embeds: old(self)@.embeds.push((*final(e))@),
                        ..old(self)@
                    })
                },
            *final(self) == *final(r),
    {
        let mut embed = Embed::new();
        let ghost fresh = embed;
        let out = func(&mut embed);
        let ghost g_out = out;
        self.embeds.push(embed);
        proof {
            assert(exists|e: &mut Embed|
                call_ensures(func, (e,), g_out) && *e == fresh && *final(e) == embed);
            let e = choose|e: &mut Embed|
                call_ensures(func, (e,), g_out) && *e == fresh && *final(e) == embed;
            assert(self@.embeds =~= old(self)@.embeds.push((*final(e))@));
        }
        self
    }

    /// Appends an action row that `func` builds from a new one.
    pub fn action_row<Func>(&mut self, func: Func) -> (r: &mut Self) where
        Func: Fn(&mut ActionRow) -> &mut ActionRow,

        requires
            forall|a: &mut ActionRow|
                (*a)@ == ActionRow::empty_view() ==> call_requires(func, (a,)),
        ensures
            exists|a: &mut ActionRow, out: &mut ActionRow|
                {
                    &&& call_ensures(func, (a,), out)
                    &&& *final(out) == *out
                    &&& (*a)@ == ActionRow::empty_view()
                    &&& r@ == (MessageView {
                        action_rows: old(self)@.action_rows.push((*final(a))@),
                        ..old(self)@
                    })
                },
            *final(self) == *final(r),
    {
        let mut row = ActionRow::new();
        let ghost fresh = row;
        let out = func(&mut row);
        let ghost g_out = out;
        self.action_rows.push(row);
        proof {
            assert(exists|a: &mut ActionRow|
                call_ensures(func, (a,), g_out) && *a == fresh && *final(a) == row);
            let a = choose|a: &mut ActionRow|
                call_ensures(func, (a,), g_out) && *a == fresh && *final(a) == row;
            assert(self@.action_rows =~= old(self)@.action_rows.push((*final(a))@));
        }
        self
    }

    pub fn allow_mentions(
        &mut self,
        parse: Option<Vec<AllowedMention>>,
        roles: Option<Vec<Snowflake>>,
        users: Option<Vec<Snowflake>>,
        replied_user: bool,
    ) -> (r: &mut Self)
        ensures
            r@ == (MessageView {
                allow_mentions: Some(
                    AllowedMentionsView {
                        parse: Some(parse_names(opt_vec_view(parse))),
                        roles: roles.deep_view(),
                        users: users.deep_view(),
                        replied_user,
                    },
                ),
                ..old(self)@
            }),
            *final(self) == *final(r),
    {
        self.allow_mentions = Some(AllowedMentions::new(parse, roles, users, replied_user));
        self
    }
}

/// A webhook as the API describes it.
#[derive(Debug)]
pub struct Webhook {
    pub id: Snowflake,
    pub webhook_type: i8,
    pub guild_id: Snowflake,
    pub channel_id: Snowflake,
    pub name: Option<String>,
    pub avatar: Option<String>,
    pub token: String,
    pub application_id: Option<Snowflake>,
}

/// The state that the checks of one message share: the custom IDs registered so far, the
/// characters of embed text counted so far, and the buttons counted in the current action row.
///
/// The custom IDs form a set; they are kept in a vector that never holds one twice (`wf`).
/// vstd specifies the lookups of `std::collections::HashSet` only for key types known to obey
/// its key model (integers, `bool`, boxes of them), and `String` is not among them, so a
/// `HashSet<String>` would leave `insert` without a usable contract.
#[derive(Debug)]
pub struct MessageContext {
    custom_ids: Vec<String>,
    embeds_character_counter: usize,
    button_count_in_action_row: usize,
}

impl View for MessageContext {
    type V = ContextView;

    closed spec fn view(&self) -> ContextView {
        ContextView {
            custom_ids: self.custom_ids@.map_values(|s: String| s@).to_set(),
            embed_chars: self.embeds_character_counter as nat,
            buttons_in_row: self.button_count_in_action_row as nat,
        }
    }
}

impl MessageContext {
    /// No custom ID is recorded twice.
    pub closed spec fn wf(&self) -> bool {
        self.custom_ids@.map_values(|s: String| s@).no_duplicates()
    }

    pub fn new() -> (r: MessageContext)
        ensures
            r.wf(),
            r@ == crate::rules::fresh_context(),
    {
        let r = MessageContext {
            custom_ids: Vec::new(),
            button_count_in_action_row: 0,
            embeds_character_counter: 0,
        };
        assert(r.custom_ids@.map_values(|s: String| s@) =~= Seq::<Seq<char>>::empty());
        assert(r@.custom_ids =~= Set::<Seq<char>>::empty());
        r
    }

    /// Tries to register a custom ID. Use only `register_button` for the IDs of buttons.
    fn register_custom_id(&mut self, id: &str) -> (r: Result<(), String>)
        requires
            old(self).wf(),
        ensures
            final(self).wf(),
            (outcome_view(r), final(self)@) == register_custom_id_step(old(self)@, id@),
    {
        let len_check = interval_check(
            &Interval::from_min_max(CUSTOM_ID_LEN_MIN, CUSTOM_ID_LEN_MAX),
            &id.len(),
            "Custom ID length",
        );
        if len_check.is_err() {
            return len_check;
        }
        let owned = id.to_string();
        let ghost ids = self.custom_ids@.map_values(|s: String| s@);
        if contains_text(&self.custom_ids, &owned) {
            let mut msg = String::from_str("Attempt to use the same custom ID (");
            msg.append(id);
            msg.append(") twice!");
            return Err(msg);
        }
        assert(!ids.contains(id@));
        self.custom_ids.push(owned);
        proof {
            let new_ids = self.custom_ids@.map_values(|s: String| s@);
            assert(new_ids =~= ids.push(id@));
            ids.lemma_push_to_set_commute(id@);
        }
        Ok(())
    }

    /// Tries to register an embed: counts the characters of its title, description, footer
    /// text, author name and field names and values toward the total of the message. The
    /// error comes exactly when the total goes beyond `EMBED_TOTAL_TEXT_LEN_MAX`; the count
    /// keeps the embed's text either way.
    pub fn register_embed(&mut self, embed: &Embed) -> (r: Result<(), String>)
        requires
            old(self)@.embed_chars + embed_text_len(embed@) <= usize::MAX,
        ensures
            final(self).wf() == old(self).wf(),
            (outcome_view(r), final(self)@) == register_embed_step(old(self)@, embed@),
    {
        self.embeds_character_counter += match &embed.title {
            Some(s) => s.as_str().unicode_len(),
            None => 0,
        };
        self.embeds_character_counter += match &embed.description {
            Some(s) => s.as_str().unicode_len(),
            None => 0,
        };
        self.embeds_character_counter += match &embed.footer {
            Some(f) => f.text.as_str().unicode_len(),
            None => 0,
        };
        self.embeds_character_counter += match &embed.author {
            Some(a) => a.name.as_str().unicode_len(),
            None => 0,
        };
        let ghost fields = embed@.fields;
        let ghost before_fields = self.embeds_character_counter as nat;
        let mut i: usize = 0;
        while i < embed.fields.len()
            invariant
                0 <= i <= embed.fields.len(),
                fields == embed@.fields,
                self.custom_ids == old(self).custom_ids,
                self.button_count_in_action_row == old(self).button_count_in_action_row,
                fields.len() == embed.fields.len(),
                before_fields + fields_text_len(fields) <= usize::MAX,
                self.embeds_character_counter == before_fields + fields_text_len(fields.take(i as int)),
            decreases embed.fields.len() - i,
        {
            proof {
                assert(fields.take(i + 1).drop_last() =~= fields.take(i as int));
                lemma_fields_text_len_prefix(fields, i as int + 1);
            }
            let f = &embed.fields[i];
            self.embeds_character_counter += f.name.as_str().unicode_len() + f.value.as_str().unicode_len();
            i = i + 1;
        }
        assert(fields.take(fields.len() as int) =~= fields);
        interval_check(
            &Interval::from_min_max(0, EMBED_TOTAL_TEXT_LEN_MAX),
            &self.embeds_character_counter,
            "Character count across all embeds",
        )
    }

    /// Tries to register a button by its custom ID, and counts it in the current action row.
    fn register_button(&mut self, id: &str) -> (r: Result<(), String>)
        requires
            old(self).wf(),
            old(self)@.buttons_in_row < usize::MAX,
        ensures
            final(self).wf(),
            (outcome_view(r), final(self)@) == register_button_step(old(self)@, id@),
    {
        let registered = self.register_custom_id(id);
        if registered.is_err() {
            return registered;
        }
        self.button_count_in_action_row += 1;
        interval_check(
            &Interval::from_min_max(0, BUTTON_COUNT_MAX),
            &self.button_count_in_action_row,
            "Button count",
        )
    }

    /// Switches the context to count buttons in a new action row.
    fn register_action_row(&mut self)
        ensures
            final(self).wf() == old(self).wf(),
            final(self)@ == (ContextView { buttons_in_row: 0, ..old(self)@ }),
    {
        self.button_count_in_action_row = 0;
    }
}

/// Whether `text` occurs in `texts`.
fn contains_text(texts: &Vec<String>, text: &String) -> (r: bool)
    ensures
        r == texts@.map_values(|s: String| s@).contains(text@),
{
    let ghost views = texts@.map_values(|s: String| s@);
    let mut i: usize = 0;
    while i < texts.len()
        invariant
            views == texts@.map_values(|s: String| s@),
            0 <= i <= texts.len(),
            forall|j: int| 0 <= j < i ==> views[j] != text@,
        decreases texts.len() - i,
    {
        if texts[i] == *text {
            assert(views[i as int] == text@);
            return true;
        }
        i = i + 1;
    }
    false
}

/// The text of a prefix of the fields grows by the last field of the prefix.
proof fn lemma_fields_text_len_prefix(fields: Seq<EmbedFieldView>, n: int)
    requires
        0 < n <= fields.len(),
    ensures
        fields_text_len(fields.take(n)) == fields_text_len(fields.take(n - 1)) + (fields[n
            - 1].name.len() + fields[n - 1].value.len()),
        fields_text_len(fields.take(n)) <= fields_text_len(fields),
    decreases fields.len() - n,
{
    assert(fields.take(n).drop_last() =~= fields.take(n - 1));
    if n < fields.len() {
        lemma_fields_text_len_prefix(fields, n + 1);
    } else {
        assert(fields.take(n) =~= fields);
    }
}

/// A part of a message that Discord's API limits: how many there may be, how long their
/// texts may be, which IDs must be unique, what must be set. A check records in `context`
/// what later checks of the same message need to know.
pub trait DiscordApiCompatible {
    /// What the check gives on the context `context`: the outcome, and the context after.
    spec fn checked(&self, context: ContextView) -> (Outcome, ContextView);

    /// The counters of `context` cannot overflow during the check.
    spec fn counters_fit(&self, context: ContextView) -> bool;

    fn check_compatibility(&self, context: &mut MessageContext) -> (r: Result<(), String>)
        requires
            old(context).wf(),
            self.counters_fit(old(context)@),
        ensures
            final(context).wf(),
            (outcome_view(r), final(context)@) == self.checked(old(context)@),
    ;
}

impl DiscordApiCompatible for Button {
    open spec fn checked(&self, context: ContextView) -> (Outcome, ContextView) {
        check_button(context, self@)
    }

    open spec fn counters_fit(&self, context: ContextView) -> bool {
        context.buttons_in_row < usize::MAX
    }

    fn check_compatibility(&self, context: &mut MessageContext) -> (r: Result<(), String>) {
        if let Some(label) = &self.label {
            let r = interval_check(
                &Interval::from_min_max(0, LABEL_LEN_MAX),
                &label.as_str().len(),
                "Label length",
            );
            if r.is_err() {
                return r;
            }
        }
        match self.style {
            None => Err("Button style must be set!".to_string()),
            Some(ButtonStyles::Link) => {
                if self.url.is_none() {
                    Err("Url of a Link button must be set!".to_string())
                } else {
                    Ok(())
                }
            },
            // all the other styles, listed in case one with other requirements is added
            Some(ButtonStyles::Danger)
            | Some(ButtonStyles::Primary)
            | Some(ButtonStyles::Success)
            | Some(ButtonStyles::Secondary) => {
                if let Some(id) = &self.custom_id {
                    context.register_button(id.as_str())
                } else {
                    Err("Custom ID of a NonLink button must be set!".to_string())
                }
            },
        }
    }
}

impl DiscordApiCompatible for NonCompositeComponent {
    open spec fn checked(&self, context: ContextView) -> (Outcome, ContextView) {
        check_component(context, self@)
    }

    open spec fn counters_fit(&self, context: ContextView) -> bool {
        context.buttons_in_row < usize::MAX
    }

    fn check_compatibility(&self, context: &mut MessageContext) -> (r: Result<(), String>) {
        match self {
            NonCompositeComponent::Button(b) => b.check_compatibility(context),
        }
    }
}

impl DiscordApiCompatible for ActionRow {
    open spec fn checked(&self, context: ContextView) -> (Outcome, ContextView) {
        check_action_row(context, self@)
    }

    open spec fn counters_fit(&self, context: ContextView) -> bool {
        true
    }

    fn check_compatibility(&self, context: &mut MessageContext) -> (r: Result<(), String>) {
        context.register_action_row();
        if self.components.len() == 0 {
            return Err("Empty action row detected!".to_string());
        }
        let ghost comps = self@.components;
        let ghost start = context@;
        let mut acc: Result<(), String> = Ok(());
        let mut i: usize = 0;
        while i < self.components.len()
            invariant
                comps == self@.components,
                comps.len() == self.components.len(),
                0 <= i <= self.components.len(),
                context.wf(),
                context@.buttons_in_row <= i,
                (outcome_view(acc), context@) == check_components(start, comps.take(i as int)),
            decreases self.components.len() - i,
        {
            proof {
                assert(comps.take(i + 1).drop_last() =~= comps.take(i as int));
                assert(comps[i as int] == self.components@[i as int]@);
            }
            let r = self.components[i].check_compatibility(context);
            if acc.is_ok() {
                acc = r;
            }
            i = i + 1;
        }
        assert(comps.take(comps.len() as int) =~= comps);
        acc
    }
}

impl DiscordApiCompatible for EmbedAuthor {
    open spec fn checked(&self, context: ContextView) -> (Outcome, ContextView) {
        (
            crate::interval::interval_outcome(
                0,
                AUTHOR_NAME_LEN_MAX as nat,
                byte_len(self@.name) as nat,
                "Embed author name length"@,
            ),
            context,
        )
    }

    open spec fn counters_fit(&self, context: ContextView) -> bool {
        true
    }

    fn check_compatibility(&self, context: &mut MessageContext) -> (r: Result<(), String>) {
        interval_check(
            &Interval::from_min_max(0, AUTHOR_NAME_LEN_MAX),
            &self.name.as_str().len(),
            "Embed author name length",
        )
    }
}

impl DiscordApiCompatible for EmbedFooter {
    open spec fn checked(&self, context: ContextView) -> (Outcome, ContextView) {
        (
            crate::interval::interval_outcome(
                0,
                FOOTER_TEXT_LEN_MAX as nat,
                byte_len(self@.text) as nat,
                "Embed footer text length"@,
            ),
            context,
        )
    }

    open spec fn counters_fit(&self, context: ContextView) -> bool {
        true
    }

    fn check_compatibility(&self, context: &mut MessageContext) -> (r: Result<(), String>) {
        interval_check(
            &Interval::from_min_max(0, FOOTER_TEXT_LEN_MAX),
            &self.text.as_str().len(),
            "Embed footer text length",
        )
    }
}

impl DiscordApiCompatible for EmbedField {
    open spec fn checked(&self, context: ContextView) -> (Outcome, ContextView) {
        (field_outcome(self@), context)
    }

    open spec fn counters_fit(&self, context: ContextView) -> bool {
        true
    }

    fn check_compatibility(&self, context: &mut MessageContext) -> (r: Result<(), String>) {
        let r = interval_check(
            &Interval::from_min_max(0, FIELD_VALUE_LEN_MAX),
            &self.value.as_str().len(),
            "Embed field value length",
        );
        if r.is_err() {
            return r;
        }
        interval_check(
            &Interval::from_min_max(0, FIELD_NAME_LEN_MAX),
            &self.name.as_str().len(),
            "Embed field name length",
        )
    }
}

impl DiscordApiCompatible for Embed {
    open spec fn checked(&self, context: ContextView) -> (Outcome, ContextView) {
        check_embed(context, self@)
    }

    open spec fn counters_fit(&self, context: ContextView) -> bool {
        context.embed_chars + embed_text_len(self@) <= usize::MAX
    }

    fn check_compatibility(&self, context: &mut MessageContext) -> (r: Result<(), String>) {
        let registered = context.register_embed(self);
        if registered.is_err() {
            return registered;
        }
        let r = interval_check(
            &Interval::from_min_max(0, FIELDS_LEN_MAX),
            &self.fields.len(),
            "Embed field count",
        );
        if r.is_err() {
            return r;
        }
        if let Some(title) = &self.title {
            let r = interval_check(
                &Interval::from_min_max(0, TITLE_LEN_MAX),
                &title.as_str().len(),
                "Embed title length",
            );
            if r.is_err() {
                return r;
            }
        }
        if let Some(description) = &self.description {
            let r = interval_check(
                &Interval::from_min_max(0, DESCRIPTION_LEN_MAX),
                &description.as_str().len(),
                "Embed description length",
            );
            if r.is_err() {
                return r;
            }
        }
        if let Some(author) = &self.author {
            let r = author.check_compatibility(context);
            if r.is_err() {
                return r;
            }
        }
        if let Some(footer) = &self.footer {
            let r = footer.check_compatibility(context);
            if r.is_err() {
                return r;
            }
        }
        let ghost fields = self@.fields;
        let ghost after = context@;
        let mut outcome: Result<(), String> = Ok(());
        let mut i: usize = 0;
        while i < self.fields.len() && outcome.is_ok()
            invariant
                fields == self@.fields,
                fields.len() == self.fields.len(),
                0 <= i <= self.fields.len(),
                context.wf(),
                context@ == after,
                outcome_view(outcome) == fields_outcome(fields.take(i as int)),
            decreases self.fields.len() - i,
        {
            proof {
                assert(fields.take(i + 1).drop_last() =~= fields.take(i as int));
                assert(fields[i as int] == self.fields@[i as int]@);
            }
            outcome = self.fields[i].check_compatibility(context);
            i = i + 1;
        }
        proof {
            if outcome.is_err() {
                lemma_fields_outcome_prefix_err(fields, i as int);
            } else {
                assert(fields.take(fields.len() as int) =~= fields);
            }
        }
        outcome
    }
}

impl DiscordApiCompatible for Message {
    open spec fn checked(&self, context: ContextView) -> (Outcome, ContextView) {
        check_message(context, self@)
    }

    open spec fn counters_fit(&self, context: ContextView) -> bool {
        context.embed_chars + embeds_text_len(self@.embeds) <= usize::MAX
    }

    fn check_compatibility(&self, context: &mut MessageContext) -> (r: Result<(), String>) {
        let rows_check = interval_check(
            &Interval::from_min_max(0, ACTION_ROW_COUNT_MAX),
            &self.action_rows.len(),
            "Action row count",
        );
        if rows_check.is_err() {
            return rows_check;
        }
        let ghost embeds = self@.embeds;
        let ghost start = context@;
        let mut acc: Result<(), String> = Ok(());
        let mut i: usize = 0;
        while i < self.embeds.len()
            invariant
                embeds == self@.embeds,
                embeds.len() == self.embeds.len(),
                0 <= i <= self.embeds.len(),
                context.wf(),
                start.embed_chars + embeds_text_len(embeds) <= usize::MAX,
                context@.embed_chars == start.embed_chars + embeds_text_len(embeds.take(i as int)),
                (outcome_view(acc), context@) == check_embeds(start, embeds.take(i as int)),
            decreases self.embeds.len() - i,
        {
            proof {
                assert(embeds.take(i + 1).drop_last() =~= embeds.take(i as int));
                assert(embeds[i as int] == self.embeds@[i as int]@);
                lemma_embeds_text_len_prefix(embeds, i + 1);
            }
            let r = self.embeds[i].check_compatibility(context);
            if acc.is_ok() {
                acc = r;
            }
            i = i + 1;
        }
        assert(embeds.take(embeds.len() as int) =~= embeds);
        if acc.is_err() {
            return acc;
        }
        let ghost rows = self@.action_rows;
        let ghost middle = context@;
        let mut acc: Result<(), String> = Ok(());
        let mut j: usize = 0;
        while j < self.action_rows.len()
            invariant
                rows == self@.action_rows,
                rows.len() == self.action_rows.len(),
                0 <= j <= self.action_rows.len(),
                context.wf(),
                (outcome_view(acc), context@) == check_action_rows(middle, rows.take(j as int)),
            decreases self.action_rows.len() - j,
        {
            proof {
                assert(rows.take(j + 1).drop_last() =~= rows.take(j as int));
                assert(rows[j as int] == self.action_rows@[j as int]@);
            }
            let r = self.action_rows[j].check_compatibility(context);
            if acc.is_ok() {
                acc = r;
            }
            j = j + 1;
        }
        assert(rows.take(rows.len() as int) =~= rows);
        acc
    }
}

} // verus!
