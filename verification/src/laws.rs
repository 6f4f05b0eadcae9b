//! What the checks promise as a whole: a message passes exactly when it keeps Discord's
//! limits, and the facts about registration that the checks rest on.
use vstd::prelude::*;
use crate::interval::byte_len;
use crate::limits::{
    ACTION_ROW_COUNT_MAX, AUTHOR_NAME_LEN_MAX, BUTTON_COUNT_MAX, CUSTOM_ID_LEN_MAX,
    CUSTOM_ID_LEN_MIN, DESCRIPTION_LEN_MAX, EMBED_TOTAL_TEXT_LEN_MAX, FIELDS_LEN_MAX,
    FIELD_NAME_LEN_MAX, FIELD_VALUE_LEN_MAX, FOOTER_TEXT_LEN_MAX, LABEL_LEN_MAX, TITLE_LEN_MAX,
};
use crate::models::{
    link_button_form, regular_button_form, button_style_of, Embed,
    LinkButton, LinkButtonView, RegularButton, RegularButtonView,
    ActionRowView, ButtonStyles, ButtonView, EmbedFieldView, EmbedView, MessageView,
    NonCompositeComponentView,
};
use crate::rules::{
    check_action_rows, check_button, check_components, check_embed, check_embeds, check_message,
    embed_limits_outcome, embed_text_len, embeds_text_len, fields_outcome, fresh_context,
    opt_byte_len, duplicate_id_message, register_custom_id_step, register_button_step,
    register_embed_step, ContextView,
};

verus! {

/// A button that registers a custom ID when checked: one with a style other than a link's.
pub open spec fn registers_id(b: ButtonView) -> bool {
    match b.style {
        Some(ButtonStyles::Link) => false,
        Some(_) => true,
        None => false,
    }
}

/// A button keeps the limits that concern it alone: a label of at most `LABEL_LEN_MAX`
/// bytes, a style, a URL where it is a link, and otherwise a custom ID of
/// `CUSTOM_ID_LEN_MIN` to `CUSTOM_ID_LEN_MAX` bytes.
pub open spec fn button_compatible(b: ButtonView) -> bool {
    &&& match b.label {
        Some(l) => byte_len(l) <= LABEL_LEN_MAX,
        None => true,
    }
    &&& b.style is Some
    &&& b.style == Some(ButtonStyles::Link) ==> b.url is Some
    &&& registers_id(b) ==> match b.custom_id {
        Some(id) => CUSTOM_ID_LEN_MIN <= byte_len(id) <= CUSTOM_ID_LEN_MAX,
        None => false,
    }
}

/// The button that a component is.
pub open spec fn component_button(comp: NonCompositeComponentView) -> ButtonView {
    match comp {
        NonCompositeComponentView::Button(b) => b,
    }
}

/// The custom IDs that the components `cs` register, in order.
pub open spec fn row_ids(cs: Seq<NonCompositeComponentView>) -> Seq<Seq<char>>
    decreases cs.len(),
{
    if cs.len() == 0 {
        Seq::empty()
    } else {
        let b = component_button(cs.last());
        if registers_id(b) {
            row_ids(cs.drop_last()).push(b.custom_id.unwrap())
        } else {
            row_ids(cs.drop_last())
        }
    }
}

/// An action row keeps the limits: it is not empty, its buttons keep theirs, and at most
/// `BUTTON_COUNT_MAX` of them register a custom ID.
pub open spec fn row_compatible(row: ActionRowView) -> bool {
    &&& row.components.len() > 0
    &&& forall|i: int|
        0 <= i < row.components.len() ==> button_compatible(component_button(row.components[i]))
    &&& row_ids(row.components).len() <= BUTTON_COUNT_MAX
}

/// The custom IDs that the action rows `rows` register, in order.
pub open spec fn message_ids(rows: Seq<ActionRowView>) -> Seq<Seq<char>>
    decreases rows.len(),
{
    if rows.len() == 0 {
        Seq::empty()
    } else {
        message_ids(rows.drop_last()) + row_ids(rows.last().components)
    }
}

/// An embed field keeps the limits on its name and value.
pub open spec fn field_compatible(f: EmbedFieldView) -> bool {
    &&& byte_len(f.value) <= FIELD_VALUE_LEN_MAX
    &&& byte_len(f.name) <= FIELD_NAME_LEN_MAX
}

/// An embed keeps the limits that concern it alone.
pub open spec fn embed_compatible(e: EmbedView) -> bool {
    &&& e.fields.len() <= FIELDS_LEN_MAX
    &&& opt_byte_len(e.title) <= TITLE_LEN_MAX
    &&& opt_byte_len(e.description) <= DESCRIPTION_LEN_MAX
    &&& match e.author {
        Some(a) => byte_len(a.name) <= AUTHOR_NAME_LEN_MAX,
        None => true,
    }
    &&& match e.footer {
        Some(f) => byte_len(f.text) <= FOOTER_TEXT_LEN_MAX,
        None => true,
    }
    &&& forall|i: int| 0 <= i < e.fields.len() ==> field_compatible(e.fields[i])
}

/// A message keeps all of Discord's limits: at most `ACTION_ROW_COUNT_MAX` action rows, at
/// most `EMBED_TOTAL_TEXT_LEN_MAX` characters of embed text, every embed and every row within its
/// limits, and no custom ID used twice.
pub open spec fn compatible(m: MessageView) -> bool {
    &&& m.action_rows.len() <= ACTION_ROW_COUNT_MAX
    &&& embeds_text_len(m.embeds) <= EMBED_TOTAL_TEXT_LEN_MAX
    &&& forall|i: int| 0 <= i < m.embeds.len() ==> embed_compatible(m.embeds[i])
    &&& forall|i: int| 0 <= i < m.action_rows.len() ==> row_compatible(m.action_rows[i])
    &&& message_ids(m.action_rows).no_duplicates()
}

/// None of `ids` is in `set`.
pub open spec fn all_new(ids: Seq<Seq<char>>, set: Set<Seq<char>>) -> bool {
    forall|k: int| 0 <= k < ids.len() ==> !set.contains(ids[k])
}

/// The fields of an embed pass their checks exactly when each keeps its limits.
pub proof fn lemma_fields_outcome_ok(fs: Seq<EmbedFieldView>)
    ensures
        fields_outcome(fs) is Ok <==> forall|i: int| 0 <= i < fs.len() ==> field_compatible(fs[i]),
    decreases fs.len(),
{
    if fs.len() > 0 {
        let init = fs.drop_last();
        lemma_fields_outcome_ok(init);
        if fields_outcome(fs) is Ok {
            assert forall|i: int| 0 <= i < fs.len() implies field_compatible(fs[i]) by {
                if i < fs.len() - 1 {
                    assert(init[i] == fs[i]);
                }
            }
        }
        if forall|i: int| 0 <= i < fs.len() ==> field_compatible(fs[i]) {
            assert forall|i: int| 0 <= i < init.len() implies field_compatible(init[i]) by {
                assert(init[i] == fs[i]);
            }
            assert(field_compatible(fs[fs.len() - 1]));
        }
    }
}

/// An embed passes the checks that follow its registration exactly when it keeps the
/// limits that concern it alone.
pub proof fn lemma_embed_limits_ok(e: EmbedView)
    ensures
        embed_limits_outcome(e) is Ok <==> embed_compatible(e),
{
    lemma_fields_outcome_ok(e.fields);
}

/// Checking embeds counts all their text, leaves the rest of the context as it was, and
/// passes exactly when every embed keeps its limits and the count stays in bounds.
pub proof fn lemma_check_embeds(c: ContextView, es: Seq<EmbedView>)
    ensures
        check_embeds(c, es).1 == (ContextView {
            embed_chars: c.embed_chars + embeds_text_len(es),
            ..c
        }),
        check_embeds(c, es).0 is Ok <==> ((es.len() > 0 ==> c.embed_chars + embeds_text_len(es)
            <= EMBED_TOTAL_TEXT_LEN_MAX) && forall|i: int|
            0 <= i < es.len() ==> embed_compatible(es[i])),
    decreases es.len(),
{
    if es.len() > 0 {
        let init = es.drop_last();
        lemma_check_embeds(c, init);
        lemma_embed_limits_ok(es.last());
        let c1 = check_embeds(c, init).1;
        assert(embeds_text_len(es) == embeds_text_len(init) + embed_text_len(es.last()));
        assert(check_embed(c1, es.last()).0 is Ok <==> (c1.embed_chars + embed_text_len(es.last())
            <= EMBED_TOTAL_TEXT_LEN_MAX && embed_compatible(es.last())));
        let all_ok = forall|i: int| 0 <= i < es.len() ==> embed_compatible(es[i]);
        let init_ok = forall|i: int| 0 <= i < init.len() ==> embed_compatible(init[i]);
        assert(all_ok <==> (init_ok && embed_compatible(es.last()))) by {
            if all_ok {
                assert forall|i: int| 0 <= i < init.len() implies embed_compatible(init[i]) by {
                    assert(init[i] == es[i]);
                }
                assert(embed_compatible(es[es.len() - 1]));
            }
            if init_ok && embed_compatible(es.last()) {
                assert forall|i: int| 0 <= i < es.len() implies embed_compatible(es[i]) by {
                    if i < es.len() - 1 {
                        assert(init[i] == es[i]);
                    }
                }
            }
        }
        assert(check_embeds(c, es).0 is Ok <==> (check_embeds(c, init).0 is Ok && check_embed(
            c1,
            es.last(),
        ).0 is Ok));
    }
}

/// Checking a button passes exactly when it keeps its limits and, where it registers a
/// custom ID, the ID is new and the row has room; then the ID is recorded and counted.
pub proof fn lemma_check_button(c: ContextView, b: ButtonView)
    ensures
        check_button(c, b).1.embed_chars == c.embed_chars,
        check_button(c, b).0 is Ok <==> (button_compatible(b) && (registers_id(b) ==> (
        !c.custom_ids.contains(b.custom_id.unwrap()) && c.buttons_in_row + 1
            <= BUTTON_COUNT_MAX))),
        check_button(c, b).0 is Ok ==> check_button(c, b).1 == if registers_id(b) {
            ContextView {
                custom_ids: c.custom_ids.insert(b.custom_id.unwrap()),
                buttons_in_row: c.buttons_in_row + 1,
                ..c
            }
        } else {
            c
        },
{
}

proof fn lemma_no_duplicates_push(s: Seq<Seq<char>>, x: Seq<char>)
    ensures
        s.push(x).no_duplicates() <==> (s.no_duplicates() && !s.contains(x)),
{
    let t = s.push(x);
    if t.no_duplicates() {
        assert forall|i: int, j: int|
            0 <= i < s.len() && 0 <= j < s.len() && i != j implies s[i] != s[j] by {
            assert(t[i] == s[i] && t[j] == s[j]);
        }
        if s.contains(x) {
            let k = choose|k: int| 0 <= k < s.len() && s[k] == x;
            assert(t[k] == t[s.len() as int]);
        }
    }
    if s.no_duplicates() && !s.contains(x) {
        assert forall|i: int, j: int|
            0 <= i < t.len() && 0 <= j < t.len() && i != j implies t[i] != t[j] by {
            if i < s.len() && j < s.len() {
                assert(t[i] == s[i] && t[j] == s[j]);
            } else if i < s.len() {
                assert(t[i] == s[i]);
            } else if j < s.len() {
                assert(t[j] == s[j]);
            }
        }
    }
}

/// Checking components passes exactly when every button keeps its limits, the IDs they
/// register are distinct and new, and the row has room for them all; then those IDs are
/// recorded and counted.
pub proof fn lemma_check_components(c: ContextView, cs: Seq<NonCompositeComponentView>)
    ensures
        check_components(c, cs).1.embed_chars == c.embed_chars,
        check_components(c, cs).0 is Ok <==> ({
            &&& forall|i: int| 0 <= i < cs.len() ==> button_compatible(component_button(cs[i]))
            &&& row_ids(cs).no_duplicates()
            &&& all_new(row_ids(cs), c.custom_ids)
            &&& row_ids(cs).len() > 0 ==> c.buttons_in_row + row_ids(cs).len() <= BUTTON_COUNT_MAX
        }),
        check_components(c, cs).0 is Ok ==> check_components(c, cs).1 == (ContextView {
            custom_ids: c.custom_ids + row_ids(cs).to_set(),
            buttons_in_row: c.buttons_in_row + row_ids(cs).len(),
            ..c
        }),
    decreases cs.len(),
{
    if cs.len() == 0 {
        assert(c.custom_ids + Seq::<Seq<char>>::empty().to_set() =~= c.custom_ids);
    } else {
        let init = cs.drop_last();
        let last = component_button(cs.last());
        lemma_check_components(c, init);
        let c1 = check_components(c, init).1;
        lemma_check_button(c1, last);
        let ids0 = row_ids(init);
        let ids = row_ids(cs);
        let all_ok = forall|i: int| 0 <= i < cs.len() ==> button_compatible(component_button(cs[i]));
        let init_ok = forall|i: int|
            0 <= i < init.len() ==> button_compatible(component_button(init[i]));
        if all_ok {
            assert forall|i: int| 0 <= i < init.len() implies button_compatible(
                component_button(init[i]),
            ) by {
                assert(init[i] == cs[i]);
            }
            assert(button_compatible(component_button(cs[cs.len() - 1])));
        }
        if init_ok && button_compatible(last) {
            assert forall|i: int| 0 <= i < cs.len() implies button_compatible(
                component_button(cs[i]),
            ) by {
                if i < cs.len() - 1 {
                    assert(init[i] == cs[i]);
                }
            }
        }
        assert(check_components(c, cs).0 is Ok <==> (check_components(c, init).0 is Ok
            && check_button(c1, last).0 is Ok));
        if registers_id(last) {
            let id = last.custom_id.unwrap();
            assert(ids == ids0.push(id));
            lemma_no_duplicates_push(ids0, id);
            assert(all_new(ids, c.custom_ids) <==> (all_new(ids0, c.custom_ids)
                && !c.custom_ids.contains(id))) by {
                if all_new(ids, c.custom_ids) {
                    assert forall|k: int| 0 <= k < ids0.len() implies !c.custom_ids.contains(
                        ids0[k],
                    ) by {
                        assert(ids[k] == ids0[k]);
                    }
                    assert(ids[ids0.len() as int] == id);
                }
                if all_new(ids0, c.custom_ids) && !c.custom_ids.contains(id) {
                    assert forall|k: int| 0 <= k < ids.len() implies !c.custom_ids.contains(
                        ids[k],
                    ) by {
                        if k < ids0.len() {
                            assert(ids[k] == ids0[k]);
                        }
                    }
                }
            }
            if check_components(c, init).0 is Ok {
                assert(c1.custom_ids.contains(id) <==> (c.custom_ids.contains(id)
                    || ids0.contains(id)));
                ids0.lemma_push_to_set_commute(id);
                assert(c1.custom_ids.insert(id) =~= c.custom_ids + ids.to_set());
            }
        } else {
            assert(ids == ids0);
        }
    }
}

/// Checking action rows passes exactly when every row keeps its limits and all the IDs they
/// register are distinct and new; then those IDs are recorded.
pub proof fn lemma_check_action_rows(c: ContextView, rows: Seq<ActionRowView>)
    ensures
        check_action_rows(c, rows).1.embed_chars == c.embed_chars,
        check_action_rows(c, rows).0 is Ok <==> ({
            &&& forall|i: int| 0 <= i < rows.len() ==> row_compatible(rows[i])
            &&& message_ids(rows).no_duplicates()
            &&& all_new(message_ids(rows), c.custom_ids)
        }),
        check_action_rows(c, rows).0 is Ok ==> check_action_rows(c, rows).1.custom_ids
            == c.custom_ids + message_ids(rows).to_set(),
    decreases rows.len(),
{
    if rows.len() == 0 {
        assert(c.custom_ids + Seq::<Seq<char>>::empty().to_set() =~= c.custom_ids);
    } else {
        let init = rows.drop_last();
        let last = rows.last();
        lemma_check_action_rows(c, init);
        let c1 = check_action_rows(c, init).1;
        let c0 = ContextView { buttons_in_row: 0, ..c1 };
        lemma_check_components(c0, last.components);
        let a = message_ids(init);
        let b = row_ids(last.components);
        let ids = message_ids(rows);
        assert(ids == a + b);
        let all_ok = forall|i: int| 0 <= i < rows.len() ==> row_compatible(rows[i]);
        let init_ok = forall|i: int| 0 <= i < init.len() ==> row_compatible(init[i]);
        if all_ok {
            assert forall|i: int| 0 <= i < init.len() implies row_compatible(init[i]) by {
                assert(init[i] == rows[i]);
            }
            assert(row_compatible(rows[rows.len() - 1]));
        }
        if init_ok && row_compatible(last) {
            assert forall|i: int| 0 <= i < rows.len() implies row_compatible(rows[i]) by {
                if i < rows.len() - 1 {
                    assert(init[i] == rows[i]);
                }
            }
        }
        // the IDs of all the rows are distinct and new exactly when those of the earlier rows
        // are, those of the last row are, and the two share none
        assert((ids.no_duplicates() && all_new(ids, c.custom_ids)) <==> (a.no_duplicates()
            && all_new(a, c.custom_ids) && b.no_duplicates() && all_new(
            b,
            c.custom_ids + a.to_set(),
        ))) by {
            if ids.no_duplicates() && all_new(ids, c.custom_ids) {
                assert forall|i: int, j: int|
                    0 <= i < a.len() && 0 <= j < a.len() && i != j implies a[i] != a[j] by {
                    assert(ids[i] == a[i] && ids[j] == a[j]);
                }
                assert forall|i: int, j: int|
                    0 <= i < b.len() && 0 <= j < b.len() && i != j implies b[i] != b[j] by {
                    assert(ids[a.len() + i] == b[i] && ids[a.len() + j] == b[j]);
                }
                assert forall|k: int| 0 <= k < a.len() implies !c.custom_ids.contains(a[k]) by {
                    assert(ids[k] == a[k]);
                }
                assert forall|k: int| 0 <= k < b.len() implies !(c.custom_ids
                    + a.to_set()).contains(b[k]) by {
                    assert(ids[a.len() + k] == b[k]);
                    if a.contains(b[k]) {
                        let i = choose|i: int| 0 <= i < a.len() && a[i] == b[k];
                        assert(ids[i] == a[i]);
                    }
                }
            }
            if a.no_duplicates() && all_new(a, c.custom_ids) && b.no_duplicates() && all_new(
                b,
                c.custom_ids + a.to_set(),
            ) {
                assert forall|i: int, j: int|
                    0 <= i < ids.len() && 0 <= j < ids.len() && i != j implies ids[i]
                    != ids[j] by {
                    if i < a.len() && j >= a.len() {
                        assert(a.contains(ids[i]));
                        assert((c.custom_ids + a.to_set()).contains(ids[i]));
                        assert(ids[j] == b[j - a.len()]);
                    } else if j < a.len() && i >= a.len() {
                        assert(a.contains(ids[j]));
                        assert((c.custom_ids + a.to_set()).contains(ids[j]));
                        assert(ids[i] == b[i - a.len()]);
                    } else if i >= a.len() && j >= a.len() {
                        assert(ids[i] == b[i - a.len()] && ids[j] == b[j - a.len()]);
                    }
                }
                assert forall|k: int| 0 <= k < ids.len() implies !c.custom_ids.contains(
                    ids[k],
                ) by {
                    if k >= a.len() {
                        assert(ids[k] == b[k - a.len()]);
                    }
                }
            }
        }
        if check_action_rows(c, init).0 is Ok {
            assert(c.custom_ids + a.to_set() + b.to_set() =~= c.custom_ids + ids.to_set()) by {
                assert forall|x: Seq<char>| ids.contains(x) <==> (a.contains(x) || b.contains(x)) by {
                    if ids.contains(x) {
                        let k = choose|k: int| 0 <= k < ids.len() && ids[k] == x;
                        if k >= a.len() {
                            assert(b[k - a.len()] == x);
                        }
                    }
                    if a.contains(x) {
                        let k = choose|k: int| 0 <= k < a.len() && a[k] == x;
                        assert(ids[k] == x);
                    }
                    if b.contains(x) {
                        let k = choose|k: int| 0 <= k < b.len() && b[k] == x;
                        assert(ids[a.len() + k] == x);
                    }
                }
            }
        }
    }
}

/// A message passes the check from a fresh context exactly when it keeps all of Discord's
/// limits.
pub proof fn lemma_check_message_iff_compatible(m: MessageView)
    ensures
        check_message(fresh_context(), m).0 is Ok <==> compatible(m),
{
    let c = fresh_context();
    lemma_check_embeds(c, m.embeds);
    let c1 = check_embeds(c, m.embeds).1;
    lemma_check_action_rows(c1, m.action_rows);
    assert(all_new(message_ids(m.action_rows), c1.custom_ids));
}

/// A custom ID registers once: after it was registered, registering it again fails with the
/// message that reports it twice, and leaves the context as it was.
pub proof fn lemma_custom_id_registers_once(c: ContextView, id: Seq<char>)
    requires
        register_custom_id_step(c, id).0 is Ok,
    ensures
        register_custom_id_step(c, id).1.custom_ids.contains(id),
        ({
            let c1 = register_custom_id_step(c, id).1;
            register_custom_id_step(c1, id) == (Err::<(), Seq<char>>(duplicate_id_message(id)), c1)
        }),
{
}

/// Checking components forgets no custom ID and leaves the embed count as it was.
pub proof fn lemma_check_components_keeps_records(c: ContextView, cs: Seq<NonCompositeComponentView>)
    ensures
        c.custom_ids.subset_of(check_components(c, cs).1.custom_ids),
        check_components(c, cs).1.embed_chars == c.embed_chars,
    decreases cs.len(),
{
    if cs.len() > 0 {
        lemma_check_components_keeps_records(c, cs.drop_last());
    }
}

/// Checking action rows forgets no custom ID and leaves the embed count as it was.
pub proof fn lemma_check_action_rows_keeps_records(c: ContextView, rows: Seq<ActionRowView>)
    ensures
        c.custom_ids.subset_of(check_action_rows(c, rows).1.custom_ids),
        check_action_rows(c, rows).1.embed_chars == c.embed_chars,
    decreases rows.len(),
{
    if rows.len() > 0 {
        let init = rows.drop_last();
        lemma_check_action_rows_keeps_records(c, init);
        let c1 = check_action_rows(c, init).1;
        lemma_check_components_keeps_records(
            ContextView { buttons_in_row: 0, ..c1 },
            rows.last().components,
        );
    }
}

/// Checking a message forgets nothing: every custom ID recorded before is still recorded
/// after, and the count of embed text grows by exactly the text of the message's embeds
/// where the number of action rows is in bounds, and stays as it was otherwise.
pub proof fn lemma_check_message_keeps_records(c: ContextView, m: MessageView)
    ensures
        c.custom_ids.subset_of(check_message(c, m).1.custom_ids),
        check_message(c, m).1.embed_chars == if m.action_rows.len() <= ACTION_ROW_COUNT_MAX {
            c.embed_chars + embeds_text_len(m.embeds)
        } else {
            c.embed_chars
        },
{
    lemma_check_embeds(c, m.embeds);
    lemma_check_action_rows_keeps_records(check_embeds(c, m.embeds).1, m.action_rows);
}

/// A button with a style other than a link's, whose label keeps its limit, is checked by
/// registering its custom ID, or fails for want of one; its URL plays no part.
pub proof fn lemma_regular_button_registers(c: ContextView, b: ButtonView)
    requires
        registers_id(b),
        match b.label {
            Some(l) => byte_len(l) <= LABEL_LEN_MAX,
            None => true,
        },
    ensures
        check_button(c, b) == match b.custom_id {
            Some(id) => register_button_step(c, id),
            None => (Err::<(), Seq<char>>("Custom ID of a NonLink button must be set!"@), c),
        },
{
}

/// The embed count never goes down: registering an embed adds its text to it, and
/// registering a custom ID or a button leaves it as it was.
pub proof fn lemma_registrations_never_lower_embed_count(c: ContextView, e: EmbedView, id: Seq<char>)
    ensures
        register_embed_step(c, e).1.embed_chars == c.embed_chars + embed_text_len(e),
        register_custom_id_step(c, id).1.embed_chars == c.embed_chars,
        register_button_step(c, id).1.embed_chars == c.embed_chars,
{
}

/// Once the embed text has gone over its limit, every later embed fails to register: in any
/// context whose count is at least the one that the failed registration left.
pub proof fn lemma_embed_total_stays_exceeded(
    c: ContextView,
    first: EmbedView,
    later: ContextView,
    next: EmbedView,
)
    requires
        register_embed_step(c, first).0 is Err,
        later.embed_chars >= register_embed_step(c, first).1.embed_chars,
    ensures
        register_embed_step(later, next).0 is Err,
{
}

/// An embed without fields counts the characters of its title, description, footer text and
/// author name, each where it is present.
pub proof fn lemma_embed_text_without_fields(e: EmbedView)
    requires
        e.fields.len() == 0,
    ensures
        embed_text_len(e) == match e.title {
            Some(t) => t.len(),
            None => 0nat,
        } + match e.description {
            Some(d) => d.len(),
            None => 0nat,
        } + match e.footer {
            Some(f) => f.text.len(),
            None => 0nat,
        } + match e.author {
            Some(a) => a.name.len(),
            None => 0nat,
        },
{
}

/// Appending a field to an embed raises its counted text by the characters of the field's
/// name and value, wherever the field stands among the others.
pub proof fn lemma_embed_text_adds_field(e: EmbedView, f: EmbedFieldView)
    ensures
        embed_text_len(EmbedView { fields: e.fields.push(f), ..e }) == embed_text_len(e)
            + f.name.len() + f.value.len(),
{
    assert(e.fields.push(f).drop_last() =~= e.fields);
}

/// The text of several embeds is the sum of their texts: adding an embed adds its text.
pub proof fn lemma_embeds_text_adds_embed(es: Seq<EmbedView>, e: EmbedView)
    ensures
        embeds_text_len(es.push(e)) == embeds_text_len(es) + embed_text_len(e),
{
    assert(es.push(e).drop_last() =~= es);
}

/// Registering an embed adds its text to the count, touches nothing else, and passes
/// exactly when the new count is at most `EMBED_TOTAL_TEXT_LEN_MAX`.
pub proof fn lemma_register_embed_counts_total(c: ContextView, e: EmbedView)
    ensures
        register_embed_step(c, e).1.embed_chars == c.embed_chars + embed_text_len(e),
        register_embed_step(c, e).1.custom_ids == c.custom_ids,
        register_embed_step(c, e).1.buttons_in_row == c.buttons_in_row,
        register_embed_step(c, e).0 is Ok <==> c.embed_chars + embed_text_len(e)
            <= EMBED_TOTAL_TEXT_LEN_MAX,
{
}

/// A new embed has no part set: no title, description, URL, timestamp, color, footer, image,
/// video, thumbnail, provider or author, and no fields.
pub proof fn lemma_new_embed_is_empty()
    ensures
        Embed::empty_view().title is None,
        Embed::empty_view().description is None,
        Embed::empty_view().url is None,
        Embed::empty_view().timestamp is None,
        Embed::empty_view().color is None,
        Embed::empty_view().footer is None,
        Embed::empty_view().image is None,
        Embed::empty_view().video is None,
        Embed::empty_view().thumbnail is None,
        Embed::empty_view().provider is None,
        Embed::empty_view().author is None,
        Embed::empty_view().fields.len() == 0,
{
}

/// A link button is sent as a button of type 2 and the link style, with the label, emoji,
/// URL and disabled flag that its builder set, and no custom ID.
pub proof fn lemma_link_button_sent_as_built(b: LinkButtonView)
    ensures
        link_button_form(b).component_type == 2,
        link_button_form(b).style == Some(ButtonStyles::Link),
        link_button_form(b).label == b.label,
        link_button_form(b).emoji == b.emoji,
        link_button_form(b).custom_id is None,
        link_button_form(b).url == b.url,
        link_button_form(b).disabled == b.disabled,
{
}

/// A regular button is sent as a button of type 2 with the API style of its style, and
/// with the label, emoji, custom ID and disabled flag that its builder set, and no URL.
pub proof fn lemma_regular_button_sent_as_built(b: RegularButtonView)
    ensures
        regular_button_form(b).component_type == 2,
        b.style is None ==> regular_button_form(b).style is None,
        b.style matches Some(s) ==> regular_button_form(b).style == Some(button_style_of(s)),
        regular_button_form(b).label == b.label,
        regular_button_form(b).emoji == b.emoji,
        regular_button_form(b).custom_id == b.custom_id,
        regular_button_form(b).url is None,
        regular_button_form(b).disabled == b.disabled,
{
}

/// Disabling a button, or not, is what the sent button says: for every flag `d`, a button
/// whose builder set `disabled(d)` is sent with `Some(d)`, and a new button that no one
/// disabled is sent with no flag.
pub proof fn lemma_disabled_flag_is_sent(l: LinkButtonView, r: RegularButtonView, d: bool)
    ensures
        link_button_form(LinkButtonView { disabled: Some(d), ..l }).disabled == Some(d),
        regular_button_form(RegularButtonView { disabled: Some(d), ..r }).disabled == Some(d),
        link_button_form(LinkButton::empty_view()).disabled is None,
        regular_button_form(RegularButton::empty_view()).disabled is None,
{
}

/// A new button has nothing set: no label, emoji, disabled flag, URL, custom ID or style.
pub proof fn lemma_new_buttons_are_empty()
    ensures
        LinkButton::empty_view().label is None,
        LinkButton::empty_view().emoji is None,
        LinkButton::empty_view().disabled is None,
        LinkButton::empty_view().url is None,
        RegularButton::empty_view().label is None,
        RegularButton::empty_view().emoji is None,
        RegularButton::empty_view().disabled is None,
        RegularButton::empty_view().custom_id is None,
        RegularButton::empty_view().style is None,
{
}

} // verus!
