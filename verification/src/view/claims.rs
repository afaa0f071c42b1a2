//! How the claims of a credential are shown: each under a label, nested
//! claims under the labels of the claims around them.

use crate::json::{
    items_view, lemma_arr_view, lemma_obj_view, members_view, optional_string_view, Json, JsonView,
};
use crate::text::{capitalize, capitalized, decimal, decimal_text};
use vstd::prelude::*;
use vstd::string::{StrSliceExecFns, StringExecFns};

verus! {

/// A claim as it is shown: a label and a value.
#[derive(Clone, Debug, Default, PartialEq, Eq)]
pub struct ClaimView {
    /// The label of the claim.
    pub name: String,
    /// The value of the claim.
    pub value: String,
}

/// The mathematical value of a [`ClaimView`].
pub ghost struct ClaimText {
    pub name: Seq<char>,
    pub value: Seq<char>,
}

impl View for ClaimView {
    type V = ClaimText;

    open spec fn view(&self) -> ClaimText {
        ClaimText { name: self.name@, value: self.value@ }
    }
}

/// The values of a list of claims, claim by claim.
pub open spec fn claims_view(claims: Seq<ClaimView>) -> Seq<ClaimText> {
    Seq::new(claims.len(), |i: int| claims[i]@)
}

impl ClaimView {
    /// A copy of this claim.
    pub fn duplicate(&self) -> (copy: ClaimView)
        ensures
            copy@ == self@,
    {
        ClaimView { name: self.name.clone(), value: self.value.clone() }
    }
}

/// The first name that the display entries of a claim give for `locale`:
/// that of the first entry which has a name and whose locale is `locale`.
pub open spec fn name_for_locale(entries: Seq<JsonView>, locale: Option<Seq<char>>) -> Option<
    Seq<char>,
>
    decreases entries.len(),
{
    if entries.len() == 0 {
        None
    } else if entries[0].text_field("locale"@) == locale && entries[0].text_field("name"@) is Some {
        entries[0].text_field("name"@)
    } else {
        name_for_locale(entries.skip(1), locale)
    }
}

/// The display entries of a claim's definition: what it holds under
/// `display`, where that is an array.
pub open spec fn display_entries(definition: JsonView) -> Seq<JsonView> {
    match definition.field("display"@) {
        Some(JsonView::Arr(entries)) => entries,
        _ => Seq::empty(),
    }
}

/// The label under which the claim `key` is shown. Where its definition
/// has a display entry for `locale`, that entry names it; else the first
/// display entry does; else it is the key with a capital.
pub open spec fn label_of(definition: JsonView, key: Seq<char>, locale: Option<Seq<char>>) -> Seq<
    char,
> {
    let entries = display_entries(definition);
    match name_for_locale(entries, locale) {
        Some(name) => name,
        None => if entries.len() > 0 && entries[0].text_field("name"@) is Some {
            entries[0].text_field("name"@)->Some_0
        } else {
            capitalized(key)
        },
    }
}

/// A label below the labels around it: the two with a dot between them,
/// and the label alone at the top.
pub open spec fn nested_label(prefix: Seq<char>, label: Seq<char>) -> Seq<char> {
    if prefix.len() == 0 {
        label
    } else {
        prefix + "."@ + label
    }
}

/// The text of the first `n` items of an array, with a comma and a blank
/// between them.
pub open spec fn items_text(items: Seq<JsonView>, n: int) -> Seq<char>
    decreases items, n,
{
    if n <= 0 || n > items.len() {
        Seq::empty()
    } else if n == 1 {
        value_text(items[0])
    } else {
        items_text(items, n - 1) + ", "@ + value_text(items[n - 1])
    }
}

/// The text of a claim's value: a string as it is, a number in decimal, a
/// truth value as `true` or `false`, the items of an array one after the
/// other, and nothing for null and for an object.
pub open spec fn value_text(value: JsonView) -> Seq<char>
    decreases value, 0int,
{
    match value {
        JsonView::Null => Seq::empty(),
        JsonView::Bool(b) => if b {
            "true"@
        } else {
            "false"@
        },
        JsonView::Int(i) => decimal(i as int),
        JsonView::Num(text) => text,
        JsonView::Str(text) => text,
        JsonView::Arr(items) => items_text(items, items.len() as int),
        JsonView::Obj(_) => Seq::empty(),
    }
}

/// The claims among the first `n` members of an object, as they are
/// shown. A member that is an object is a group: its members are shown in
/// its place, their labels below its label. Any other member is a claim,
/// shown under its label with the text of its value.
pub open spec fn claim_rows(
    claims: JsonView,
    n: int,
    definitions: JsonView,
    locale: Option<Seq<char>>,
    prefix: Seq<char>,
) -> Seq<ClaimText>
    decreases claims, n,
{
    match claims {
        JsonView::Obj(members) => if n <= 0 || n > members.len() {
            Seq::empty()
        } else {
            let key = members[n - 1].0;
            let value = members[n - 1].1;
            let definition = definitions.field_or_null(key);
            let label = nested_label(prefix, label_of(definition, key, locale));
            let rows = match value {
                JsonView::Obj(inner) => claim_rows(
                    value,
                    inner.len() as int,
                    definition,
                    locale,
                    label,
                ),
                _ => seq![ClaimText { name: label, value: value_text(value) }],
            };
            claim_rows(claims, n - 1, definitions, locale, prefix) + rows
        },
        _ => Seq::empty(),
    }
}

/// The claims of an object, as they are shown.
pub open spec fn claims_display(claims: JsonView, definitions: JsonView, locale: Option<Seq<char>>) -> Seq<
    ClaimText,
> {
    match claims {
        JsonView::Obj(members) => claim_rows(
            claims,
            members.len() as int,
            definitions,
            locale,
            Seq::empty(),
        ),
        _ => Seq::empty(),
    }
}

/// Whether two optional texts are the same.
fn same_text(a: &Option<String>, b: &Option<String>) -> (same: bool)
    ensures
        same == (optional_string_view(*a) == optional_string_view(*b)),
{
    match (a, b) {
        (None, None) => true,
        (Some(x), Some(y)) => *x == *y,
        _ => false,
    }
}

/// The label under which the claim `key` is shown.
pub fn label(definition: &Json, key: &str, locale: &Option<String>) -> (label: String)
    ensures
        label@ == label_of(definition@, key@, optional_string_view(*locale)),
{
    let entries = match definition.get("display") {
        Some(Json::Arr(entries)) => entries,
        _ => {
            return capitalize(key);
        },
    };
    let ghost all = items_view(entries@);
    proof {
        lemma_arr_view(*entries);
        assert(all.skip(0) =~= all);
    }
    let mut i: usize = 0;
    while i < entries.len()
        invariant
            i <= entries.len(),
            all == items_view(entries@),
            display_entries(definition@) == all,
            name_for_locale(all, optional_string_view(*locale)) == name_for_locale(
                all.skip(i as int),
                optional_string_view(*locale),
            ),
        decreases entries.len() - i,
    {
        assert(all.skip(i as int)[0] == all[i as int]);
        if same_text(&entries[i].text_field("locale"), locale) {
            match entries[i].text_field("name") {
                Some(name) => {
                    return name;
                },
                None => {},
            }
        }
        assert(all.skip(i as int).skip(1) =~= all.skip(i as int + 1));
        i += 1;
    }
    if entries.len() > 0 {
        match entries[0].text_field("name") {
            Some(name) => {
                return name;
            },
            None => {},
        }
    }
    capitalize(key)
}

/// A label below the labels around it.
fn nest(prefix: &str, label: String) -> (nested: String)
    ensures
        nested@ == nested_label(prefix@, label@),
{
    if prefix.unicode_len() == 0 {
        label
    } else {
        String::from_str(prefix).concat(".").concat(label.as_str())
    }
}

/// Appends the text of a claim's value to `text`.
fn push_value_text(text: &mut String, value: &Json)
    ensures
        final(text)@ == old(text)@ + value_text(value@),
    decreases value,
{
    match value {
        Json::Null => {
            assert(text@ =~= old(text)@ + value_text(value@));
        },
        Json::Bool(b) => {
            if *b {
                text.append("true");
            } else {
                text.append("false");
            }
        },
        Json::Int(i) => {
            let number = decimal_text(*i);
            text.append(number.as_str());
        },
        Json::Num(number) => {
            text.append(number.as_str());
        },
        Json::Str(string) => {
            text.append(string.as_str());
        },
        Json::Arr(items) => {
            let ghost all = items_view(items@);
            proof {
                lemma_arr_view(*items);
            }
            let mut i: usize = 0;
            assert(text@ =~= old(text)@ + items_text(all, 0));
            while i < items.len()
                invariant
                    i <= items.len(),
                    all == items_view(items@),
                    decreases_to!(*value => *items),
                    text@ == old(text)@ + items_text(all, i as int),
                decreases items.len() - i,
            {
                let ghost before = text@;
                if i > 0 {
                    text.append(", ");
                }
                assert(decreases_to!(*items => items[i as int]));
                push_value_text(text, &items[i]);
                assert(text@ =~= old(text)@ + items_text(all, i as int + 1));
                i += 1;
            }
        },
        Json::Obj(_) => {
            assert(text@ =~= old(text)@ + value_text(value@));
        },
    }
}

/// The text of a claim's value.
pub fn value_to_text(value: &Json) -> (text: String)
    ensures
        text@ == value_text(value@),
{
    let mut text = String::new();
    push_value_text(&mut text, value);
    assert(text@ =~= value_text(value@));
    text
}

/// Appends the claims of an object, as they are shown, to `rows`.
fn push_claim_rows(
    rows: &mut Vec<ClaimView>,
    claims: &Json,
    definitions: &Json,
    locale: &Option<String>,
    prefix: &str,
)
    ensures
        claims_view(final(rows)@) == claims_view(old(rows)@) + (match claims@ {
            JsonView::Obj(members) => claim_rows(
                claims@,
                members.len() as int,
                definitions@,
                optional_string_view(*locale),
                prefix@,
            ),
            _ => Seq::empty(),
        }),
    decreases claims,
{
    match claims {
        Json::Obj(members) => {
            let ghost all = members_view(members@);
            let ghost start = claims_view(rows@);
            proof {
                lemma_obj_view(*members);
            }
            let mut i: usize = 0;
            assert(claims_view(rows@) =~= start + claim_rows(
                claims@,
                0,
                definitions@,
                optional_string_view(*locale),
                prefix@,
            ));
            while i < members.len()
                invariant
                    i <= members.len(),
                    all == members_view(members@),
                    claims@ == JsonView::Obj(all),
                    decreases_to!(*claims => *members),
                    claims_view(rows@) == start + claim_rows(
                        claims@,
                        i as int,
                        definitions@,
                        optional_string_view(*locale),
                        prefix@,
                    ),
                decreases members.len() - i,
            {
                let ghost before = claims_view(rows@);
                let key = &members[i].0;
                let value = &members[i].1;
                assert(all[i as int] == (key@, value@));
                let definition = definitions.field_or_null(key.as_str());
                let name = nest(prefix, label(&definition, key.as_str(), locale));
                match value {
                    Json::Obj(inner) => {
                        proof {
                            lemma_obj_view(*inner);
                        }
                        assert(decreases_to!(*members => members[i as int]));
                        push_claim_rows(rows, value, &definition, locale, name.as_str());
                    },
                    _ => {
                        let row = ClaimView { name, value: value_to_text(value) };
                        rows.push(row);
                        assert(claims_view(rows@) =~= before + seq![row@]);
                    },
                }
                assert(claims_view(rows@) =~= start + claim_rows(
                    claims@,
                    i as int + 1,
                    definitions@,
                    optional_string_view(*locale),
                    prefix@,
                ));
                i += 1;
            }
        },
        _ => {
            assert(claims_view(rows@) =~= claims_view(old(rows)@) + Seq::empty());
        },
    }
}

/// The claims of an object, as they are shown: each under its label, the
/// claims of a group in the place of the group.
pub fn display(claims: &Json, definitions: &Json, locale: &Option<String>) -> (rows: Vec<ClaimView>)
    ensures
        claims_view(rows@) == claims_display(claims@, definitions@, optional_string_view(*locale)),
{
    let mut rows: Vec<ClaimView> = Vec::new();
    assert(claims_view(rows@) =~= Seq::empty());
    push_claim_rows(&mut rows, claims, definitions, locale, "");
    proof {
        reveal_strlit("");
        assert(""@ =~= Seq::<char>::empty());
        assert(claims_view(rows@) =~= claims_display(
            claims@,
            definitions@,
            optional_string_view(*locale),
        ));
    }
    rows
}

} // verus!
