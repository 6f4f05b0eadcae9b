//! What checking a message against Discord's limits does: the outcome and the context
//! that each check leaves, stated over the views of the parts.
use vstd::prelude::*;
use crate::interval::{byte_len, interval_outcome};
use crate::limits::{
    ACTION_ROW_COUNT_MAX, AUTHOR_NAME_LEN_MAX, BUTTON_COUNT_MAX, CUSTOM_ID_LEN_MAX,
    CUSTOM_ID_LEN_MIN, DESCRIPTION_LEN_MAX, EMBED_TOTAL_TEXT_LEN_MAX, FIELDS_LEN_MAX,
    FIELD_NAME_LEN_MAX, FIELD_VALUE_LEN_MAX, FOOTER_TEXT_LEN_MAX, LABEL_LEN_MAX, TITLE_LEN_MAX,
};
use crate::models::{
    ActionRowView, ButtonStyles, ButtonView, EmbedFieldView, EmbedView, MessageView,
    NonCompositeComponentView,
};

verus! {

/// The outcome of a check: nothing, or the message that reports what is wrong.
pub type Outcome = Result<(), Seq<char>>;

/// The state that the checks of one message share.
pub struct ContextView {
    /// The custom IDs of the buttons registered so far.
    pub custom_ids: Set<Seq<char>>,
    /// The characters of embed text counted so far.
    pub embed_chars: nat,
    /// The buttons counted in the current action row.
    pub buttons_in_row: nat,
}

/// The context in which a message is checked from the start.
pub open spec fn fresh_context() -> ContextView {
    ContextView { custom_ids: Set::empty(), embed_chars: 0, buttons_in_row: 0 }
}

/// `a`, or `b` where `a` is no error: the first error of the two.
pub open spec fn both(a: Outcome, b: Outcome) -> Outcome {
    match a {
        Err(e) => Err(e),
        Ok(()) => b,
    }
}

/// The message that reports a custom ID used twice.
pub open spec fn duplicate_id_message(id: Seq<char>) -> Seq<char> {
    "Attempt to use the same custom ID ("@ + id + ") twice!"@
}

/// Registering the custom ID `id`: its length must lie in
/// `[CUSTOM_ID_LEN_MIN, CUSTOM_ID_LEN_MAX]` and it must be new; then it is recorded.
pub open spec fn register_custom_id_step(c: ContextView, id: Seq<char>) -> (Outcome, ContextView) {
    let len_check = interval_outcome(
        CUSTOM_ID_LEN_MIN as nat,
        CUSTOM_ID_LEN_MAX as nat,
        byte_len(id) as nat,
        "Custom ID length"@,
    );
    if len_check is Err {
        (len_check, c)
    } else if c.custom_ids.contains(id) {
        (Err(duplicate_id_message(id)), c)
    } else {
        (Ok(()), ContextView { custom_ids: c.custom_ids.insert(id), ..c })
    }
}

/// Registering a button with the custom ID `id`: the ID is registered, then the button is
/// counted in the current row, which holds at most `BUTTON_COUNT_MAX` of them.
pub open spec fn register_button_step(c: ContextView, id: Seq<char>) -> (Outcome, ContextView) {
    let (r, c1) = register_custom_id_step(c, id);
    if r is Err {
        (r, c1)
    } else {
        let c2 = ContextView { buttons_in_row: c1.buttons_in_row + 1, ..c1 };
        (interval_outcome(0, BUTTON_COUNT_MAX as nat, c2.buttons_in_row, "Button count"@), c2)
    }
}

/// The bytes of an optional text; none where it is absent.
pub open spec fn opt_byte_len(o: Option<Seq<char>>) -> nat {
    match o {
        Some(s) => byte_len(s) as nat,
        None => 0,
    }
}

/// The characters of an optional text; none where it is absent.
pub open spec fn opt_char_len(o: Option<Seq<char>>) -> nat {
    match o {
        Some(s) => s.len(),
        None => 0,
    }
}

/// The characters of the names and values of the fields `fs`.
pub open spec fn fields_text_len(fs: Seq<EmbedFieldView>) -> nat
    decreases fs.len(),
{
    if fs.len() == 0 {
        0
    } else {
        fields_text_len(fs.drop_last()) + (fs.last().name.len() + fs.last().value.len())
    }
}

/// The characters of text that an embed counts toward the message's total: its title,
/// description, footer text, author name, and field names and values.
pub open spec fn embed_text_len(e: EmbedView) -> nat {
    opt_char_len(e.title) + opt_char_len(e.description) + match e.footer {
        Some(f) => f.text.len(),
        None => 0nat,
    } + match e.author {
        Some(a) => a.name.len(),
        None => 0nat,
    } + fields_text_len(e.fields)
}

/// The characters of text of all the embeds `es`.
pub open spec fn embeds_text_len(es: Seq<EmbedView>) -> nat
    decreases es.len(),
{
    if es.len() == 0 {
        0
    } else {
        embeds_text_len(es.drop_last()) + embed_text_len(es.last())
    }
}

/// Registering an embed: its characters of text are added to the count, which may be at most
/// `EMBED_TOTAL_TEXT_LEN_MAX`.
pub open spec fn register_embed_step(c: ContextView, e: EmbedView) -> (Outcome, ContextView) {
    let c1 = ContextView { embed_chars: c.embed_chars + embed_text_len(e), ..c };
    (
        interval_outcome(
            0,
            EMBED_TOTAL_TEXT_LEN_MAX as nat,
            c1.embed_chars,
            "Character count across all embeds"@,
        ),
        c1,
    )
}

/// The check of one embed field: its value, then its name.
pub open spec fn field_outcome(f: EmbedFieldView) -> Outcome {
    both(
        interval_outcome(
            0,
            FIELD_VALUE_LEN_MAX as nat,
            byte_len(f.value) as nat,
            "Embed field value length"@,
        ),
        interval_outcome(
            0,
            FIELD_NAME_LEN_MAX as nat,
            byte_len(f.name) as nat,
            "Embed field name length"@,
        ),
    )
}

/// The checks of the fields `fs` in order, up to the first error.
pub open spec fn fields_outcome(fs: Seq<EmbedFieldView>) -> Outcome
    decreases fs.len(),
{
    if fs.len() == 0 {
        Ok(())
    } else {
        both(fields_outcome(fs.drop_last()), field_outcome(fs.last()))
    }
}

/// The check of an optional text against `[0, max]`.
pub open spec fn opt_len_outcome(o: Option<Seq<char>>, max: nat, field: Seq<char>) -> Outcome {
    match o {
        Some(s) => interval_outcome(0, max, byte_len(s) as nat, field),
        None => Ok(()),
    }
}

/// The checks of an embed that follow its registration, up to the first error: the number
/// of fields, the title, the description, the author's name, the footer text, the fields.
pub open spec fn embed_limits_outcome(e: EmbedView) -> Outcome {
    both(
        interval_outcome(0, FIELDS_LEN_MAX as nat, e.fields.len(), "Embed field count"@),
        both(
            opt_len_outcome(e.title, TITLE_LEN_MAX as nat, "Embed title length"@),
            both(
                opt_len_outcome(e.description, DESCRIPTION_LEN_MAX as nat, "Embed description length"@),
                both(
                    match e.author {
                        Some(a) => interval_outcome(
                            0,
                            AUTHOR_NAME_LEN_MAX as nat,
                            byte_len(a.name) as nat,
                            "Embed author name length"@,
                        ),
                        None => Ok(()),
                    },
                    both(
                        match e.footer {
                            Some(f) => interval_outcome(
                                0,
                                FOOTER_TEXT_LEN_MAX as nat,
                                byte_len(f.text) as nat,
                                "Embed footer text length"@,
                            ),
                            None => Ok(()),
                        },
                        fields_outcome(e.fields),
                    ),
                ),
            ),
        ),
    )
}

/// Checking an embed: it is registered, then held to its own limits.
pub open spec fn check_embed(c: ContextView, e: EmbedView) -> (Outcome, ContextView) {
    let (r, c1) = register_embed_step(c, e);
    (both(r, embed_limits_outcome(e)), c1)
}

/// Checking a button: the label's length, then the style; a link button needs a URL, any
/// other button a custom ID, which is registered.
pub open spec fn check_button(c: ContextView, b: ButtonView) -> (Outcome, ContextView) {
    let label_check = opt_len_outcome(b.label, LABEL_LEN_MAX as nat, "Label length"@);
    if label_check is Err {
        (label_check, c)
    } else {
        match b.style {
            None => (Err("Button style must be set!"@), c),
            Some(ButtonStyles::Link) => if b.url is None {
                (Err("Url of a Link button must be set!"@), c)
            } else {
                (Ok(()), c)
            },
            Some(_) => match b.custom_id {
                Some(id) => register_button_step(c, id),
                None => (Err("Custom ID of a NonLink button must be set!"@), c),
            },
        }
    }
}

/// Checking a component.
pub open spec fn check_component(c: ContextView, comp: NonCompositeComponentView) -> (
    Outcome,
    ContextView,
) {
    match comp {
        NonCompositeComponentView::Button(b) => check_button(c, b),
    }
}

/// Checking the components `cs` in order: every one is checked, and the first error is the
/// outcome.
pub open spec fn check_components(c: ContextView, cs: Seq<NonCompositeComponentView>) -> (
    Outcome,
    ContextView,
)
    decreases cs.len(),
{
    if cs.len() == 0 {
        (Ok(()), c)
    } else {
        let (r, c1) = check_components(c, cs.drop_last());
        let (r2, c2) = check_component(c1, cs.last());
        (both(r, r2), c2)
    }
}

/// Checking an action row: the button count starts again at zero, the row must not be
/// empty, and its components are checked.
pub open spec fn check_action_row(c: ContextView, row: ActionRowView) -> (Outcome, ContextView) {
    let c0 = ContextView { buttons_in_row: 0, ..c };
    if row.components.len() == 0 {
        (Err("Empty action row detected!"@), c0)
    } else {
        check_components(c0, row.components)
    }
}

/// Checking the embeds `es` in order: every one is checked, and the first error is the
/// outcome.
pub open spec fn check_embeds(c: ContextView, es: Seq<EmbedView>) -> (Outcome, ContextView)
    decreases es.len(),
{
    if es.len() == 0 {
        (Ok(()), c)
    } else {
        let (r, c1) = check_embeds(c, es.drop_last());
        let (r2, c2) = check_embed(c1, es.last());
        (both(r, r2), c2)
    }
}

/// Checking the action rows `rows` in order: every one is checked, and the first error is
/// the outcome.
pub open spec fn check_action_rows(c: ContextView, rows: Seq<ActionRowView>) -> (
    Outcome,
    ContextView,
)
    decreases rows.len(),
{
    if rows.len() == 0 {
        (Ok(()), c)
    } else {
        let (r, c1) = check_action_rows(c, rows.drop_last());
        let (r2, c2) = check_action_row(c1, rows.last());
        (both(r, r2), c2)
    }
}

/// Checking a message: the number of action rows, then all the embeds, then, where they
/// passed, all the action rows.
pub open spec fn check_message(c: ContextView, m: MessageView) -> (Outcome, ContextView) {
    let rows_check = interval_outcome(
        0,
        ACTION_ROW_COUNT_MAX as nat,
        m.action_rows.len(),
        "Action row count"@,
    );
    if rows_check is Err {
        (rows_check, c)
    } else {
        let (r, c1) = check_embeds(c, m.embeds);
        if r is Err {
            (r, c1)
        } else {
            check_action_rows(c1, m.action_rows)
        }
    }
}

} // verus!

verus! {

/// The text of a prefix of the embeds grows by the last embed of the prefix, and is at most
/// the text of all of them.
pub(crate) proof fn lemma_embeds_text_len_prefix(es: Seq<EmbedView>, n: int)
    requires
        0 < n <= es.len(),
    ensures
        embeds_text_len(es.take(n)) == embeds_text_len(es.take(n - 1)) + embed_text_len(es[n - 1]),
        embeds_text_len(es.take(n)) <= embeds_text_len(es),
    decreases es.len() - n,
{
    assert(es.take(n).drop_last() =~= es.take(n - 1));
    if n < es.len() {
        lemma_embeds_text_len_prefix(es, n + 1);
    } else {
        assert(es.take(n) =~= es);
    }
}

/// Once the fields of a prefix give an error, all the fields give that error.
pub(crate) proof fn lemma_fields_outcome_prefix_err(fs: Seq<EmbedFieldView>, n: int)
    requires
        0 <= n <= fs.len(),
        fields_outcome(fs.take(n)) is Err,
    ensures
        fields_outcome(fs) == fields_outcome(fs.take(n)),
    decreases fs.len() - n,
{
    if n == fs.len() {
        assert(fs.take(n) =~= fs);
    } else {
        assert(fs.take(n + 1).drop_last() =~= fs.take(n));
        lemma_fields_outcome_prefix_err(fs, n + 1);
    }
}

} // verus!
