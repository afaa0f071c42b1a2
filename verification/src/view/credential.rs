//! Credentials as they are shown.

use crate::holder::credential::{
    Credential as CredentialModel, CredentialDisplay, CredentialDisplayView,
    CredentialView as CredentialModelView, ImageData, ImageDataView, SubjectClaims,
    SubjectClaimsView,
};
use crate::json::{
    duplicate_strings, lemma_obj_view, members_view, optional_string_view, strings_view, Json,
    JsonView,
};
use crate::model::credential::{CredentialState, CredentialStateView};
use crate::model::issuance::{OfferedCredential, OfferedCredentialView};
use crate::view::claims::{claims_display, claims_view, display, ClaimText, ClaimView};
use vstd::prelude::*;
use vstd::std_specs::convert::FromSpecImpl;
use crate::text::push_char;
use vstd::string::{StrSliceExecFns, StringExecFns};

verus! {

impl From<(String, String)> for ClaimView {
    fn from(pair: (String, String)) -> (claim: ClaimView) {
        ClaimView { name: pair.0, value: pair.1 }
    }
}

impl FromSpecImpl<(String, String)> for ClaimView {
    open spec fn obeys_from_spec() -> bool {
        true
    }

    open spec fn from_spec(pair: (String, String)) -> ClaimView {
        ClaimView { name: pair.0, value: pair.1 }
    }
}

/// The second of the Unix era at which an RFC 3339 text stands, as
/// `chrono` reads it: `None` where it reads none.
pub uninterp spec fn rfc3339_seconds(text: Seq<char>) -> Option<i64>;

/// The day of a second of the Unix era in UTC, as `chrono` writes it in the
/// form `%a, %d %b %Y`: `None` where `chrono` has no date for the second.
pub uninterp spec fn day_text(seconds: i64) -> Option<Seq<char>>;

/// Calls `chrono::DateTime::parse_from_rfc3339` and takes the `timestamp`
/// of what it reads. The number is by definition [`rfc3339_seconds`] of
/// the text; an error is `None` there.
#[verifier::external_body]
fn parse_rfc3339(text: &str) -> (seconds: Option<i64>)
    ensures
        seconds == rfc3339_seconds(text@),
{
    match chrono::DateTime::parse_from_rfc3339(text) {
        Ok(date) => Some(date.timestamp()),
        Err(_) => None,
    }
}

/// Calls `chrono::DateTime::format` with `%a, %d %b %Y` on the UTC date
/// that `from_timestamp` makes of the second. The text is by definition
/// [`day_text`] of the second; a second out of range is `None` there.
#[verifier::external_body]
fn format_day(seconds: i64) -> (text: Option<String>)
    ensures
        optional_string_view(text) == day_text(seconds),
{
    match chrono::DateTime::from_timestamp(seconds, 0) {
        Some(date) => Some(date.format("%a, %d %b %Y").to_string()),
        None => None,
    }
}

/// What is shown in place of a date that cannot be read: the date as it
/// stands, and a question mark where it has no text at all. It is never
/// empty, so that a date that is there is told from one that is not.
pub open spec fn date_as_it_stands(date: Seq<char>) -> Seq<char> {
    if date.len() == 0 {
        seq!['?']
    } else {
        date
    }
}

/// The day that is shown for a date in RFC 3339, from what `chrono` read
/// from it and made of that: the day, or the date as it stands where
/// `chrono` reads no date from it or writes no text for it.
pub open spec fn date_shown(date: Seq<char>) -> Seq<char> {
    match rfc3339_seconds(date) {
        Some(seconds) => match day_text(seconds) {
            Some(day) => if day.len() == 0 {
                date_as_it_stands(date)
            } else {
                day
            },
            None => date_as_it_stands(date),
        },
        None => date_as_it_stands(date),
    }
}

/// The day that is shown for an optional date: nothing for none.
pub open spec fn optional_date_shown(date: Option<Seq<char>>) -> Seq<char> {
    match date {
        Some(d) => date_shown(d),
        None => Seq::empty(),
    }
}

/// What is shown in place of a date that cannot be read.
fn as_it_stands(date: &str) -> (shown: String)
    ensures
        shown@ == date_as_it_stands(date@),
        shown@.len() > 0,
{
    if date.unicode_len() == 0 {
        let mut shown = String::new();
        push_char(&mut shown, '?');
        assert(shown@ =~= seq!['?']);
        shown
    } else {
        String::from_str(date)
    }
}

/// The day that is shown for a date in RFC 3339. It is never empty.
pub fn show_date(date: &str) -> (shown: String)
    ensures
        shown@ == date_shown(date@),
        shown@.len() > 0,
{
    match parse_rfc3339(date) {
        Some(seconds) => match format_day(seconds) {
            Some(day) => if day.as_str().unicode_len() == 0 {
                as_it_stands(date)
            } else {
                day
            },
            None => as_it_stands(date),
        },
        None => as_it_stands(date),
    }
}

/// The day that is shown for an optional date: empty for none, and for
/// none only.
pub fn show_optional_date(date: &Option<String>) -> (shown: String)
    ensures
        shown@ == optional_date_shown(optional_string_view(*date)),
        (shown@.len() == 0) == (date is None),
{
    match date {
        Some(d) => show_date(d.as_str()),
        None => String::new(),
    }
}

/// The first display record for `locale`.
pub open spec fn record_for_locale(records: Seq<CredentialDisplayView>, locale: Option<Seq<char>>) -> Option<
    CredentialDisplayView,
>
    decreases records.len(),
{
    if records.len() == 0 {
        None
    } else if records[0].locale == locale {
        Some(records[0])
    } else {
        record_for_locale(records.skip(1), locale)
    }
}

/// The display record by which a credential is shown: the first one for
/// `locale`, or else the first one.
pub open spec fn record_shown(records: Seq<CredentialDisplayView>, locale: Option<Seq<char>>) -> Option<
    CredentialDisplayView,
> {
    match record_for_locale(records, locale) {
        Some(record) => Some(record),
        None => if records.len() > 0 {
            Some(records[0])
        } else {
            None
        },
    }
}

/// The text of an optional text: nothing for none.
pub open spec fn text_or_empty(text: Option<Seq<char>>) -> Seq<char> {
    match text {
        Some(t) => t,
        None => Seq::empty(),
    }
}

/// The image that is shown for an optional image: one without data and
/// type for none.
pub open spec fn image_or_empty(image: Option<ImageDataView>) -> ImageDataView {
    match image {
        Some(i) => i,
        None => ImageDataView { data: Seq::empty(), media_type: Seq::empty() },
    }
}

/// The text of an optional text.
fn or_empty(text: &Option<String>) -> (shown: String)
    ensures
        shown@ == text_or_empty(optional_string_view(*text)),
{
    match text {
        Some(t) => t.clone(),
        None => String::new(),
    }
}

/// The image that is shown for an optional image.
fn image_shown(image: &Option<ImageData>) -> (shown: ImageData)
    ensures
        shown@ == image_or_empty(ImageData::optional_view(*image)),
{
    match image {
        Some(i) => i.duplicate(),
        None => ImageData { data: String::new(), media_type: String::new() },
    }
}

/// The display record by which a credential is shown.
pub fn shown_record<'a>(records: &'a Vec<CredentialDisplay>, locale: &Option<String>) -> (record:
    Option<&'a CredentialDisplay>)
    ensures
        record.is_some() == record_shown(
            CredentialDisplay::list_view(records@),
            optional_string_view(*locale),
        ).is_some(),
        record matches Some(r) ==> record_shown(
            CredentialDisplay::list_view(records@),
            optional_string_view(*locale),
        ) == Some(r@),
{
    let ghost all = CredentialDisplay::list_view(records@);
    assert(all.skip(0) =~= all);
    let mut i: usize = 0;
    while i < records.len()
        invariant
            i <= records.len(),
            all == CredentialDisplay::list_view(records@),
            record_for_locale(all, optional_string_view(*locale)) == record_for_locale(
                all.skip(i as int),
                optional_string_view(*locale),
            ),
        decreases records.len() - i,
    {
        assert(all.skip(i as int)[0] == all[i as int]);
        let same = match (&records[i].locale, locale) {
            (None, None) => true,
            (Some(x), Some(y)) => *x == *y,
            _ => false,
        };
        if same {
            return Some(&records[i]);
        }
        assert(all.skip(i as int).skip(1) =~= all.skip(i as int + 1));
        i += 1;
    }
    if records.len() > 0 {
        Some(&records[0])
    } else {
        None
    }
}

/// A credential as it is shown. It has the shape of the credential that
/// the holder keeps, with every part as text.
#[derive(Clone, Debug, Default, PartialEq, Eq)]
pub struct Credential {
    /// The identifier of the credential.
    pub id: String,
    /// The identifier of the issuer.
    pub issuer: String,
    /// The name of the issuer; empty where the issuer gave none.
    pub issuer_name: String,
    /// The credential as it was issued.
    pub issued: String,
    /// The types that the credential declares.
    pub type_: Vec<String>,
    /// The format of the issued credential.
    pub format: String,
    /// The claims as they are shown, subject by subject. No subject occurs
    /// twice; a subject without an identifier stands under the empty text.
    pub claims: Vec<(String, Vec<ClaimView>)>,
    /// The day on which the credential was issued.
    pub issuance_date: String,
    /// The day from which the credential is valid; empty where there is
    /// none.
    pub valid_from: String,
    /// The day until which the credential is valid; empty where there is
    /// none.
    pub valid_until: String,
    /// The name of the credential.
    pub name: String,
    /// The description of the credential.
    pub description: String,
    /// The background colour; empty where there is none.
    pub background_color: String,
    /// The colour of text; empty where there is none.
    pub text_color: String,
    /// The logo; without data and type where there is none.
    pub logo: ImageData,
    /// The background image; without data and type where there is none.
    pub background: ImageData,
}

/// The mathematical value of a shown [`Credential`].
pub ghost struct CredentialShown {
    pub id: Seq<char>,
    pub issuer: Seq<char>,
    pub issuer_name: Seq<char>,
    pub issued: Seq<char>,
    pub type_: Seq<Seq<char>>,
    pub format: Seq<char>,
    pub claims: Seq<(Seq<char>, Seq<ClaimText>)>,
    pub issuance_date: Seq<char>,
    pub valid_from: Seq<char>,
    pub valid_until: Seq<char>,
    pub name: Seq<char>,
    pub description: Seq<char>,
    pub background_color: Seq<char>,
    pub text_color: Seq<char>,
    pub logo: ImageDataView,
    pub background: ImageDataView,
}

/// The values of the claims of a shown credential, subject by subject.
pub open spec fn subjects_view(subjects: Seq<(String, Vec<ClaimView>)>) -> Seq<
    (Seq<char>, Seq<ClaimText>),
> {
    Seq::new(subjects.len(), |i: int| (subjects[i].0@, claims_view(subjects[i].1@)))
}

impl View for Credential {
    type V = CredentialShown;

    open spec fn view(&self) -> CredentialShown {
        CredentialShown {
            id: self.id@,
            issuer: self.issuer@,
            issuer_name: self.issuer_name@,
            issued: self.issued@,
            type_: strings_view(self.type_@),
            format: self.format@,
            claims: subjects_view(self.claims@),
            issuance_date: self.issuance_date@,
            valid_from: self.valid_from@,
            valid_until: self.valid_until@,
            name: self.name@,
            description: self.description@,
            background_color: self.background_color@,
            text_color: self.text_color@,
            logo: self.logo@,
            background: self.background@,
        }
    }
}

/// The claims under `subject` in place of what stood under it, or at the
/// end where nothing stood under it.
pub open spec fn with_subject(
    subjects: Seq<(Seq<char>, Seq<ClaimText>)>,
    subject: Seq<char>,
    claims: Seq<ClaimText>,
) -> Seq<(Seq<char>, Seq<ClaimText>)> {
    if exists|i: int| 0 <= i < subjects.len() && (#[trigger] subjects[i]).0 == subject {
        Seq::new(
            subjects.len(),
            |i: int|
                if subjects[i].0 == subject {
                    (subject, claims)
                } else {
                    subjects[i]
                },
        )
    } else {
        subjects.push((subject, claims))
    }
}

/// The claims of the first `n` claim sets as they are shown, each set
/// under its subject. A later set takes the place of an earlier one for
/// the same subject.
pub open spec fn subjects_shown(
    sets: Seq<SubjectClaimsView>,
    definitions: JsonView,
    locale: Option<Seq<char>>,
    n: int,
) -> Seq<(Seq<char>, Seq<ClaimText>)>
    decreases n,
{
    if n <= 0 {
        Seq::empty()
    } else {
        with_subject(
            subjects_shown(sets, definitions, locale, n - 1),
            text_or_empty(sets[n - 1].id),
            claims_display(sets[n - 1].claims, definitions, locale),
        )
    }
}

/// No subject occurs twice among the claims that are shown.
pub open spec fn subjects_distinct(subjects: Seq<(Seq<char>, Seq<ClaimText>)>) -> bool {
    forall|i: int, j: int|
        0 <= i < j < subjects.len() ==> (#[trigger] subjects[i]).0 != (#[trigger] subjects[j]).0
}

/// Putting claims under a subject keeps the subjects apart.
pub proof fn lemma_with_subject_distinct(
    subjects: Seq<(Seq<char>, Seq<ClaimText>)>,
    subject: Seq<char>,
    claims: Seq<ClaimText>,
)
    requires
        subjects_distinct(subjects),
    ensures
        subjects_distinct(with_subject(subjects, subject, claims)),
{
    let after = with_subject(subjects, subject, claims);
    if exists|i: int| 0 <= i < subjects.len() && (#[trigger] subjects[i]).0 == subject {
        assert forall|i: int, j: int| 0 <= i < j < after.len() implies (#[trigger] after[i]).0 != (
        #[trigger] after[j]).0 by {
            assert(after[i].0 == subjects[i].0);
            assert(after[j].0 == subjects[j].0);
        }
    } else {
        assert forall|i: int, j: int| 0 <= i < j < after.len() implies (#[trigger] after[i]).0 != (
        #[trigger] after[j]).0 by {
            if j < subjects.len() {
                assert(after[i] == subjects[i]);
                assert(after[j] == subjects[j]);
            } else {
                assert(after[i] == subjects[i]);
            }
        }
    }
}

/// No subject occurs twice among the claims shown for a list of claim
/// sets.
pub proof fn lemma_subjects_shown_distinct(
    sets: Seq<SubjectClaimsView>,
    definitions: JsonView,
    locale: Option<Seq<char>>,
    n: int,
)
    ensures
        subjects_distinct(subjects_shown(sets, definitions, locale, n)),
    decreases n,
{
    if n > 0 {
        lemma_subjects_shown_distinct(sets, definitions, locale, n - 1);
        lemma_with_subject_distinct(
            subjects_shown(sets, definitions, locale, n - 1),
            text_or_empty(sets[n - 1].id),
            claims_display(sets[n - 1].claims, definitions, locale),
        );
    }
}

impl CredentialShown {
    /// A credential with nothing to show.
    pub open spec fn empty() -> CredentialShown {
        CredentialShown {
            id: Seq::empty(),
            issuer: Seq::empty(),
            issuer_name: Seq::empty(),
            issued: Seq::empty(),
            type_: Seq::empty(),
            format: Seq::empty(),
            claims: Seq::empty(),
            issuance_date: Seq::empty(),
            valid_from: Seq::empty(),
            valid_until: Seq::empty(),
            name: Seq::empty(),
            description: Seq::empty(),
            background_color: Seq::empty(),
            text_color: Seq::empty(),
            logo: image_or_empty(None),
            background: image_or_empty(None),
        }
    }

    /// How a credential that the holder keeps is shown for `locale`. What
    /// is text is shown as it is kept. The claims are shown subject by
    /// subject under their labels, the dates as days, and the name, the
    /// description and the colours as the display record for the locale
    /// gives them.
    pub open spec fn of_model(credential: CredentialModelView, locale: Option<Seq<char>>) -> CredentialShown {
        let record = record_shown(credential.display, locale);
        CredentialShown {
            id: credential.id,
            issuer: credential.issuer,
            issuer_name: credential.issuer_name,
            issued: credential.issued,
            type_: credential.type_,
            format: credential.format,
            claims: subjects_shown(
                credential.subject_claims,
                credential.claim_definitions,
                locale,
                credential.subject_claims.len() as int,
            ),
            issuance_date: date_shown(credential.issuance_date),
            valid_from: optional_date_shown(credential.valid_from),
            valid_until: optional_date_shown(credential.valid_until),
            name: match record {
                Some(r) => r.name,
                None => Seq::empty(),
            },
            description: match record {
                Some(r) => text_or_empty(r.description),
                None => Seq::empty(),
            },
            background_color: match record {
                Some(r) => text_or_empty(r.background_color),
                None => Seq::empty(),
            },
            text_color: match record {
                Some(r) => text_or_empty(r.text_color),
                None => Seq::empty(),
            },
            logo: image_or_empty(credential.logo),
            background: image_or_empty(credential.background),
        }
    }

    /// The labels of the claims that a configuration defines, each with an
    /// empty value: the claims of a credential that has not been issued
    /// yet.
    pub open spec fn offered_claims(definitions: JsonView, locale: Option<Seq<char>>) -> Seq<
        ClaimText,
    > {
        claims_display(definition_names(definitions), definitions, locale)
    }

    /// How a credential on offer is shown for `locale`: in the shape of a
    /// credential, with the issuer, the labels of the claims, and what the
    /// display record for the locale gives. The rest is empty.
    pub open spec fn of_offer(
        issuer: Seq<char>,
        issuer_name: Seq<char>,
        offered: OfferedCredentialView,
        locale: Option<Seq<char>>,
    ) -> CredentialShown {
        let record = record_shown(offered.config.display, locale);
        CredentialShown {
            issuer,
            issuer_name,
            claims: seq![
                (
                    Seq::<char>::empty(),
                    CredentialShown::offered_claims(offered.config.claims(), locale),
                ),
            ],
            name: match record {
                Some(r) => r.name,
                None => Seq::empty(),
            },
            description: match record {
                Some(r) => text_or_empty(r.description),
                None => Seq::empty(),
            },
            background_color: match record {
                Some(r) => text_or_empty(r.background_color),
                None => Seq::empty(),
            },
            text_color: match record {
                Some(r) => text_or_empty(r.text_color),
                None => Seq::empty(),
            },
            logo: image_or_empty(offered.logo),
            background: image_or_empty(offered.background),
            ..CredentialShown::empty()
        }
    }
}

/// Whether a node of a tree of claim definitions defines one claim. A
/// node that holds none of `mandatory`, `value_type` and `display` is a
/// group of definitions.
pub open spec fn defines_claim(node: JsonView) -> bool {
    node.field("mandatory"@) is Some || node.field("value_type"@) is Some || node.field(
        "display"@,
    ) is Some
}

/// The first `n` members of a tree of claim definitions as a tree of
/// claims without values: a definition as null, a group as the object of
/// its members.
pub open spec fn definition_members(definitions: JsonView, n: int) -> Seq<(Seq<char>, JsonView)>
    decreases definitions, n,
{
    match definitions {
        JsonView::Obj(members) => if n <= 0 || n > members.len() {
            Seq::empty()
        } else {
            let node = members[n - 1].1;
            definition_members(definitions, n - 1).push(
                (
                    members[n - 1].0,
                    if node is Obj && !defines_claim(node) {
                        JsonView::Obj(definition_members(node, node->Obj_0.len() as int))
                    } else {
                        JsonView::Null
                    },
                ),
            )
        },
        _ => Seq::empty(),
    }
}

/// A tree of claim definitions as a tree of claims without values.
pub open spec fn definition_names(definitions: JsonView) -> JsonView {
    match definitions {
        JsonView::Obj(members) => JsonView::Obj(
            definition_members(definitions, members.len() as int),
        ),
        _ => JsonView::Null,
    }
}

/// Whether a node of a tree of claim definitions defines one claim.
fn is_definition(node: &Json) -> (defines: bool)
    ensures
        defines == defines_claim(node@),
{
    node.get("mandatory").is_some() || node.get("value_type").is_some() || node.get(
        "display",
    ).is_some()
}

/// A tree of claim definitions as a tree of claims without values.
pub fn names_of(definitions: &Json) -> (names: Json)
    ensures
        names@ == definition_names(definitions@),
    decreases definitions,
{
    match definitions {
        Json::Obj(members) => {
            let ghost all = members_view(members@);
            proof {
                lemma_obj_view(*members);
            }
            let mut names: Vec<(String, Json)> = Vec::new();
            let mut i: usize = 0;
            assert(members_view(names@) =~= definition_members(definitions@, 0));
            while i < members.len()
                invariant
                    i <= members.len(),
                    all == members_view(members@),
                    definitions@ == JsonView::Obj(all),
                    decreases_to!(*definitions => *members),
                    members_view(names@) == definition_members(definitions@, i as int),
                decreases members.len() - i,
            {
                let ghost before = members_view(names@);
                let node = &members[i].1;
                assert(all[i as int] == (members[i as int].0@, node@));
                let group = match node {
                    Json::Obj(_) => !is_definition(node),
                    _ => false,
                };
                let name = if group {
                    assert(decreases_to!(*members => members[i as int]));
                    names_of(node)
                } else {
                    Json::Null
                };
                names.push((members[i].0.clone(), name));
                assert(members_view(names@) =~= before.push((members[i as int].0@, name@)));
                i += 1;
            }
            proof {
                lemma_obj_view(names);
            }
            Json::Obj(names)
        },
        _ => Json::Null,
    }
}

/// Puts claims under a subject: in place of what stood under it, or at the
/// end where nothing stood under it.
fn put_subject(subjects: &mut Vec<(String, Vec<ClaimView>)>, subject: String, claims: Vec<ClaimView>)
    ensures
        subjects_view(final(subjects)@) == with_subject(
            subjects_view(old(subjects)@),
            subject@,
            claims_view(claims@),
        ),
{
    let ghost before = subjects_view(subjects@);
    let mut found = false;
    let mut i: usize = 0;
    while i < subjects.len()
        invariant
            i <= subjects.len(),
            subjects@.len() == before.len(),
            before == subjects_view(old(subjects)@),
            forall|k: int| 0 <= k < before.len() ==> (#[trigger] subjects@[k]).0@ == before[k].0,
            forall|k: int|
                0 <= k < i ==> claims_view((#[trigger] subjects@[k]).1@) == if before[k].0
                    == subject@ {
                    claims_view(claims@)
                } else {
                    before[k].1
                },
            forall|k: int|
                i <= k < before.len() ==> claims_view((#[trigger] subjects@[k]).1@) == before[k].1,
            found == exists|k: int| 0 <= k < i && (#[trigger] before[k]).0 == subject@,
        decreases subjects.len() - i,
    {
        if subjects[i].0 == subject {
            subjects[i].1 = duplicate_claims(&claims);
            found = true;
            assert(before[i as int].0 == subject@);
        }
        i += 1;
    }
    if found {
        assert(subjects_view(subjects@) =~= with_subject(before, subject@, claims_view(claims@)));
    } else {
        subjects.push((subject, claims));
        assert(subjects_view(subjects@) =~= with_subject(before, subject@, claims_view(claims@)));
    }
}

/// A copy of a list of claims.
fn duplicate_claims(claims: &Vec<ClaimView>) -> (copies: Vec<ClaimView>)
    ensures
        claims_view(copies@) == claims_view(claims@),
{
    let mut copies: Vec<ClaimView> = Vec::new();
    let mut i: usize = 0;
    while i < claims.len()
        invariant
            i <= claims.len(),
            copies@.len() == i,
            forall|k: int| 0 <= k < i ==> (#[trigger] copies@[k])@ == claims@[k]@,
        decreases claims.len() - i,
    {
        copies.push(claims[i].duplicate());
        i += 1;
    }
    assert(claims_view(copies@) =~= claims_view(claims@));
    copies
}

impl Credential {
    /// A credential with nothing to show.
    pub fn empty() -> (credential: Credential)
        ensures
            credential@ == CredentialShown::empty(),
    {
        let credential = Credential {
            id: String::new(),
            issuer: String::new(),
            issuer_name: String::new(),
            issued: String::new(),
            type_: Vec::new(),
            format: String::new(),
            claims: Vec::new(),
            issuance_date: String::new(),
            valid_from: String::new(),
            valid_until: String::new(),
            name: String::new(),
            description: String::new(),
            background_color: String::new(),
            text_color: String::new(),
            logo: image_shown(&None),
            background: image_shown(&None),
        };
        assert(credential@.type_ =~= Seq::empty());
        assert(credential@.claims =~= Seq::empty());
        credential
    }

    /// Shows a credential that the holder keeps, for `locale`.
    pub fn from_model(credential: &CredentialModel, locale: &Option<String>) -> (shown: Credential)
        ensures
            shown@ == CredentialShown::of_model(credential@, optional_string_view(*locale)),
            subjects_distinct(shown@.claims),
            shown@.issuance_date.len() > 0,
            (shown@.valid_from.len() == 0) == (credential.valid_from is None),
            (shown@.valid_until.len() == 0) == (credential.valid_until is None),
    {
        proof {
            lemma_subjects_shown_distinct(
                credential@.subject_claims,
                credential@.claim_definitions,
                optional_string_view(*locale),
                credential@.subject_claims.len() as int,
            );
        }
        let ghost sets = SubjectClaims::list_view(credential.subject_claims@);
        let mut claims: Vec<(String, Vec<ClaimView>)> = Vec::new();
        let mut i: usize = 0;
        assert(subjects_view(claims@) =~= Seq::empty());
        while i < credential.subject_claims.len()
            invariant
                i <= credential.subject_claims.len(),
                sets == SubjectClaims::list_view(credential.subject_claims@),
                subjects_view(claims@) == subjects_shown(
                    sets,
                    credential.claim_definitions@,
                    optional_string_view(*locale),
                    i as int,
                ),
            decreases credential.subject_claims.len() - i,
        {
            let set = &credential.subject_claims[i];
            assert(sets[i as int] == set@);
            let rows = display(&set.claims, &credential.claim_definitions, locale);
            put_subject(&mut claims, or_empty(&set.id), rows);
            i += 1;
        }
        let record = shown_record(&credential.display, locale);
        let (name, description, background_color, text_color) = match record {
            Some(r) => (
                r.name.clone(),
                or_empty(&r.description),
                or_empty(&r.background_color),
                or_empty(&r.text_color),
            ),
            None => (String::new(), String::new(), String::new(), String::new()),
        };
        Credential {
            id: credential.id.clone(),
            issuer: credential.issuer.clone(),
            issuer_name: credential.issuer_name.clone(),
            issued: credential.issued.clone(),
            type_: duplicate_strings(&credential.type_),
            format: credential.format.clone(),
            claims,
            issuance_date: show_date(credential.issuance_date.as_str()),
            valid_from: show_optional_date(&credential.valid_from),
            valid_until: show_optional_date(&credential.valid_until),
            name,
            description,
            background_color,
            text_color,
            logo: image_shown(&credential.logo),
            background: image_shown(&credential.background),
        }
    }

    /// Shows a credential on offer, for `locale`.
    pub fn from_offered(
        issuer: &str,
        issuer_name: &str,
        offered: &OfferedCredential,
        locale: &Option<String>,
    ) -> (shown: Credential)
        ensures
            shown@ == CredentialShown::of_offer(
                issuer@,
                issuer_name@,
                offered@,
                optional_string_view(*locale),
            ),
    {
        let definitions = offered.config.claims();
        let names = names_of(&definitions);
        let rows = display(&names, &definitions, locale);
        let claims = vec![(String::new(), rows)];
        assert(subjects_view(claims@) =~= seq![
            (
                Seq::<char>::empty(),
                CredentialShown::offered_claims(offered@.config.claims(), optional_string_view(*locale)),
            ),
        ]);
        let record = shown_record(&offered.config.display, locale);
        let (name, description, background_color, text_color) = match record {
            Some(r) => (
                r.name.clone(),
                or_empty(&r.description),
                or_empty(&r.background_color),
                or_empty(&r.text_color),
            ),
            None => (String::new(), String::new(), String::new(), String::new()),
        };
        let base = Credential::empty();
        Credential {
            id: base.id,
            issuer: String::from_str(issuer),
            issuer_name: String::from_str(issuer_name),
            issued: base.issued,
            type_: base.type_,
            format: base.format,
            claims,
            issuance_date: base.issuance_date,
            valid_from: base.valid_from,
            valid_until: base.valid_until,
            name,
            description,
            background_color,
            text_color,
            logo: image_shown(&offered.logo),
            background: image_shown(&offered.background),
        }
    }

    /// Shows a credential on offer, in the shape of a credential: the data
    /// that only an issued credential has is empty.
    pub fn from_offer(issuer: &str, issuer_name: &str, offered: OfferedCredential) -> (shown:
        Credential)
        ensures
            shown@ == CredentialShown::of_offer(issuer@, issuer_name@, offered@, None),
    {
        Credential::from_offered(issuer, issuer_name, &offered, &None)
    }

    /// A copy of this shown credential.
    pub fn duplicate(&self) -> (copy: Credential)
        ensures
            copy@ == self@,
    {
        let mut claims: Vec<(String, Vec<ClaimView>)> = Vec::new();
        let mut i: usize = 0;
        while i < self.claims.len()
            invariant
                i <= self.claims.len(),
                claims@.len() == i,
                forall|k: int|
                    0 <= k < i ==> (#[trigger] claims@[k]).0@ == self.claims@[k].0@ && claims_view(
                        claims@[k].1@,
                    ) == claims_view(self.claims@[k].1@),
            decreases self.claims.len() - i,
        {
            claims.push((self.claims[i].0.clone(), duplicate_claims(&self.claims[i].1)));
            i += 1;
        }
        assert(subjects_view(claims@) =~= subjects_view(self.claims@));
        Credential {
            id: self.id.clone(),
            issuer: self.issuer.clone(),
            issuer_name: self.issuer_name.clone(),
            issued: self.issued.clone(),
            type_: duplicate_strings(&self.type_),
            format: self.format.clone(),
            claims,
            issuance_date: self.issuance_date.clone(),
            valid_from: self.valid_from.clone(),
            valid_until: self.valid_until.clone(),
            name: self.name.clone(),
            description: self.description.clone(),
            background_color: self.background_color.clone(),
            text_color: self.text_color.clone(),
            logo: self.logo.duplicate(),
            background: self.background.duplicate(),
        }
    }
}

impl From<CredentialModel> for Credential {
    fn from(credential: CredentialModel) -> (shown: Credential)
        ensures
            shown@ == CredentialShown::of_model(credential@, None),
            subjects_distinct(shown@.claims),
            shown@.issuance_date.len() > 0,
            (shown@.valid_from.len() == 0) == (credential.valid_from is None),
            (shown@.valid_until.len() == 0) == (credential.valid_until is None),
    {
        Credential::from_model(&credential, &None)
    }
}

impl FromSpecImpl<CredentialModel> for Credential {
    open spec fn obeys_from_spec() -> bool {
        false
    }

    open spec fn from_spec(credential: CredentialModel) -> Credential {
        arbitrary()
    }
}

/// The credentials part of the wallet as it is shown.
#[derive(Clone, Debug, Default, PartialEq, Eq)]
pub struct CredentialView {
    /// The credential that the holder has selected.
    pub id: Option<String>,
    /// The credentials that the wallet holds.
    pub credentials: Vec<Credential>,
}

/// The mathematical value of a [`CredentialView`].
pub ghost struct CredentialsShown {
    pub id: Option<Seq<char>>,
    pub credentials: Seq<CredentialShown>,
}

/// The values of a list of shown credentials, one by one.
pub open spec fn shown_view(credentials: Seq<Credential>) -> Seq<CredentialShown> {
    Seq::new(credentials.len(), |i: int| credentials[i]@)
}

impl View for CredentialView {
    type V = CredentialsShown;

    open spec fn view(&self) -> CredentialsShown {
        CredentialsShown {
            id: optional_string_view(self.id),
            credentials: shown_view(self.credentials@),
        }
    }
}

impl CredentialsShown {
    /// How the credentials part of the wallet is shown for `locale`: the
    /// selection as it is, and each credential as it is shown.
    pub open spec fn of_state(state: CredentialStateView, locale: Option<Seq<char>>) -> CredentialsShown {
        CredentialsShown {
            id: state.id,
            credentials: Seq::new(
                state.credentials.len(),
                |i: int| CredentialShown::of_model(state.credentials[i], locale),
            ),
        }
    }
}

impl CredentialView {
    /// Shows the credentials part of the wallet, for `locale`.
    pub fn from_state(state: &CredentialState, locale: &Option<String>) -> (shown: CredentialView)
        ensures
            shown@ == CredentialsShown::of_state(state@, optional_string_view(*locale)),
    {
        let mut credentials: Vec<Credential> = Vec::new();
        let mut i: usize = 0;
        while i < state.credentials.len()
            invariant
                i <= state.credentials.len(),
                credentials@.len() == i,
                forall|k: int|
                    0 <= k < i ==> (#[trigger] credentials@[k])@ == CredentialShown::of_model(
                        state.credentials@[k]@,
                        optional_string_view(*locale),
                    ),
            decreases state.credentials.len() - i,
        {
            credentials.push(Credential::from_model(&state.credentials[i], locale));
            i += 1;
        }
        let shown = CredentialView { id: state.id.clone(), credentials };
        assert(shown@.credentials =~= CredentialsShown::of_state(
            state@,
            optional_string_view(*locale),
        ).credentials);
        shown
    }
}

impl From<CredentialState> for CredentialView {
    fn from(state: CredentialState) -> (shown: CredentialView)
        ensures
            shown@ == CredentialsShown::of_state(state@, None),
    {
        CredentialView::from_state(&state, &None)
    }
}

impl FromSpecImpl<CredentialState> for CredentialView {
    open spec fn obeys_from_spec() -> bool {
        false
    }

    open spec fn from_spec(state: CredentialState) -> CredentialView {
        arbitrary()
    }
}

} // verus!
