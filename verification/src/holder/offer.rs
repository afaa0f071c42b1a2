//! Credential offers: what an issuer hands to a wallet to start an
//! issuance.

use crate::json::{
    duplicate_strings, json_read, lemma_field_at, lemma_obj_view, lemma_texts_of_texts, member_view,
    members_view, optional_string_view, strings_view, Json, JsonView,
};
use vstd::prelude::*;
use vstd::string::{StrSliceExecFns, StringExecFns, StringSliceAdditionalSpecFns};

verus! {

/// What an issuer says of the transaction code, the PIN, that the holder has to
/// enter.
#[derive(Clone, Debug, Default, PartialEq, Eq)]
pub struct TxCode {
    /// The characters that the code is made of: `numeric` or `text`. Numeric
    /// where the issuer says nothing.
    pub input_mode: Option<String>,
    /// The number of characters of the code.
    pub length: Option<i32>,
    /// Guidance for the holder on how to get the code.
    pub description: Option<String>,
}

/// The mathematical value of a [`TxCode`].
pub ghost struct TxCodeView {
    pub input_mode: Option<Seq<char>>,
    pub length: Option<i32>,
    pub description: Option<Seq<char>>,
}

impl View for TxCode {
    type V = TxCodeView;

    open spec fn view(&self) -> TxCodeView {
        TxCodeView {
            input_mode: optional_string_view(self.input_mode),
            length: self.length,
            description: optional_string_view(self.description),
        }
    }
}

impl TxCodeView {
    /// The JSON form of a transaction code specification: an object with the
    /// members `input_mode`, `length`, `description`.
    pub open spec fn to_json(self) -> JsonView {
        JsonView::Obj(
            seq![
                ("input_mode"@, JsonView::of_optional_text(self.input_mode)),
                ("length"@, JsonView::of_optional_small_int(self.length)),
                ("description"@, JsonView::of_optional_text(self.description)),
            ],
        )
    }

    /// The transaction code specification that a JSON value stands for: `None`
    /// unless it is an object each of whose members reads as its field.
    pub open spec fn from_json(json: JsonView) -> Option<TxCodeView> {
        if json is Obj
            && json.optional_text_field("input_mode"@) is Ok
            && json.optional_small_int_field("length"@) is Ok
            && json.optional_text_field("description"@) is Ok
        {
            Some(
                TxCodeView {
                    input_mode: json.optional_text_field("input_mode"@)->Ok_0,
                    length: json.optional_small_int_field("length"@)->Ok_0,
                    description: json.optional_text_field("description"@)->Ok_0,
                },
            )
        } else {
            None
        }
    }

    /// The JSON form of an optional transaction code specification: null for
    /// none.
    pub open spec fn optional_to_json(value: Option<TxCodeView>) -> JsonView {
        match value {
            Some(v) => v.to_json(),
            None => JsonView::Null,
        }
    }

    /// The optional transaction code specification that a member stands for:
    /// none where the member is missing or null, `Err` where it is there and
    /// reads as no transaction code specification.
    pub open spec fn optional_from_json(member: Option<JsonView>) -> Result<
        Option<TxCodeView>,
        (),
    > {
        match member {
            None => Ok(None),
            Some(JsonView::Null) => Ok(None),
            Some(json) => match TxCodeView::from_json(json) {
                Some(value) => Ok(Some(value)),
                None => Err(()),
            },
        }
    }

    /// Reading the JSON form of a transaction code specification gives it back.
    pub proof fn lemma_round_trip(self)
        ensures
            TxCodeView::from_json(self.to_json()) == Some(self),
    {
        reveal_strlit("input_mode");
        reveal_strlit("length");
        reveal_strlit("description");
        let members = self.to_json()->Obj_0;
        assert("input_mode"@.len() == 10);
        assert("length"@.len() == 6);
        assert("description"@.len() == 11);
        assert(members[0].0 == "input_mode"@);
        assert(members[1].0 == "length"@);
        assert(members[2].0 == "description"@);
        lemma_field_at(members, "input_mode"@, 0);
        lemma_field_at(members, "length"@, 1);
        lemma_field_at(members, "description"@, 2);
    }

    /// Reading the JSON form of an optional transaction code specification
    /// gives it back.
    pub proof fn lemma_optional_round_trip(value: Option<TxCodeView>)
        ensures
            TxCodeView::optional_from_json(Some(TxCodeView::optional_to_json(value))) == Ok::<
                _,
                (),
            >(value),
    {
        if let Some(v) = value {
            v.lemma_round_trip();
        }
    }
}

impl TxCode {
    /// The value of an optional transaction code specification.
    pub open spec fn optional_view(value: Option<TxCode>) -> Option<TxCodeView> {
        match value {
            Some(v) => Some(v@),
            None => None,
        }
    }

    /// A copy of this specification.
    pub fn duplicate(&self) -> (copy: TxCode)
        ensures
            copy@ == self@,
    {
        TxCode {
            input_mode: self.input_mode.clone(),
            length: self.length,
            description: self.description.clone(),
        }
    }

    /// The JSON form of this specification.
    pub fn to_json(&self) -> (json: Json)
        ensures
            json@ == self@.to_json(),
    {
        let members = vec![
            Json::member("input_mode", Json::of_optional_text(&self.input_mode)),
            Json::member("length", Json::of_optional_small_int(self.length)),
            Json::member("description", Json::of_optional_text(&self.description)),
        ];
        proof {
            lemma_obj_view(members);
            assert(members_view(members@) =~= self@.to_json()->Obj_0);
        }
        Json::Obj(members)
    }

    /// Reads a transaction code specification from its JSON form.
    pub fn from_json(json: &Json) -> (value: Option<TxCode>)
        ensures
            value.is_some() == TxCodeView::from_json(json@).is_some(),
            value matches Some(v) ==> TxCodeView::from_json(json@) == Some(v@),
    {
        match json {
            Json::Obj(_) => {},
            _ => {
                return None;
            },
        }
        let input_mode = match json.optional_text_field("input_mode") {
            Ok(value) => value,
            Err(_) => {
                return None;
            },
        };
        let length = match json.optional_small_int_field("length") {
            Ok(value) => value,
            Err(_) => {
                return None;
            },
        };
        let description = match json.optional_text_field("description") {
            Ok(value) => value,
            Err(_) => {
                return None;
            },
        };
        Some(TxCode { input_mode, length, description })
    }

    /// A copy of an optional transaction code specification.
    pub fn optional_duplicate(value: &Option<TxCode>) -> (copy: Option<TxCode>)
        ensures
            TxCode::optional_view(copy) == TxCode::optional_view(*value),
    {
        match value {
            Some(v) => Some(v.duplicate()),
            None => None,
        }
    }

    /// The JSON form of an optional transaction code specification.
    pub fn optional_to_json(value: &Option<TxCode>) -> (json: Json)
        ensures
            json@ == TxCodeView::optional_to_json(TxCode::optional_view(*value)),
    {
        match value {
            Some(v) => v.to_json(),
            None => Json::Null,
        }
    }

    /// Reads an optional transaction code specification from the member that
    /// holds it.
    pub fn optional_from_json(member: Option<&Json>) -> (value: Result<Option<TxCode>, ()>)
        ensures
            value.is_ok() == TxCodeView::optional_from_json(member_view(member)).is_ok(),
            value matches Ok(v) ==> TxCodeView::optional_from_json(member_view(member)) == Ok::<
                _,
                (),
            >(TxCode::optional_view(v)),
    {
        match member {
            None => Ok(None),
            Some(Json::Null) => Ok(None),
            Some(json) => match TxCode::from_json(json) {
                Some(value) => Ok(Some(value)),
                None => Err(()),
            },
        }
    }
}

/// The grant that lets a wallet redeem a code, with a PIN where the issuer asks
/// for one, for an access token.
#[derive(Clone, Debug, Default, PartialEq, Eq)]
pub struct PreAuthorizedCodeGrant {
    /// The code that stands for the issuer's authorization.
    pub pre_authorized_code: String,
    /// The PIN that the holder has to enter, where the issuer asks for one.
    pub tx_code: Option<TxCode>,
}

/// The mathematical value of a [`PreAuthorizedCodeGrant`].
pub ghost struct PreAuthorizedCodeGrantView {
    pub pre_authorized_code: Seq<char>,
    pub tx_code: Option<TxCodeView>,
}

impl View for PreAuthorizedCodeGrant {
    type V = PreAuthorizedCodeGrantView;

    open spec fn view(&self) -> PreAuthorizedCodeGrantView {
        PreAuthorizedCodeGrantView {
            pre_authorized_code: self.pre_authorized_code@,
            tx_code: TxCode::optional_view(self.tx_code),
        }
    }
}

impl PreAuthorizedCodeGrantView {
    /// The JSON form of a pre-authorized code grant: an object with the members
    /// `pre-authorized_code`, `tx_code`.
    pub open spec fn to_json(self) -> JsonView {
        JsonView::Obj(
            seq![
                ("pre-authorized_code"@, JsonView::Str(self.pre_authorized_code)),
                ("tx_code"@, TxCodeView::optional_to_json(self.tx_code)),
            ],
        )
    }

    /// The pre-authorized code grant that a JSON value stands for: `None`
    /// unless it is an object each of whose members reads as its field.
    pub open spec fn from_json(json: JsonView) -> Option<PreAuthorizedCodeGrantView> {
        if json is Obj
            && json.text_field("pre-authorized_code"@) is Some
            && TxCodeView::optional_from_json(json.field("tx_code"@)) is Ok
        {
            Some(
                PreAuthorizedCodeGrantView {
                    pre_authorized_code: json.text_field("pre-authorized_code"@)->Some_0,
                    tx_code: TxCodeView::optional_from_json(json.field("tx_code"@))->Ok_0,
                },
            )
        } else {
            None
        }
    }

    /// The JSON form of an optional pre-authorized code grant: null for none.
    pub open spec fn optional_to_json(value: Option<PreAuthorizedCodeGrantView>) -> JsonView {
        match value {
            Some(v) => v.to_json(),
            None => JsonView::Null,
        }
    }

    /// The optional pre-authorized code grant that a member stands for: none
    /// where the member is missing or null, `Err` where it is there and reads
    /// as no pre-authorized code grant.
    pub open spec fn optional_from_json(member: Option<JsonView>) -> Result<
        Option<PreAuthorizedCodeGrantView>,
        (),
    > {
        match member {
            None => Ok(None),
            Some(JsonView::Null) => Ok(None),
            Some(json) => match PreAuthorizedCodeGrantView::from_json(json) {
                Some(value) => Ok(Some(value)),
                None => Err(()),
            },
        }
    }

    /// Reading the JSON form of a pre-authorized code grant gives it back.
    pub proof fn lemma_round_trip(self)
        ensures
            PreAuthorizedCodeGrantView::from_json(self.to_json()) == Some(self),
    {
        reveal_strlit("pre-authorized_code");
        reveal_strlit("tx_code");
        let members = self.to_json()->Obj_0;
        assert("pre-authorized_code"@.len() == 19);
        assert("tx_code"@.len() == 7);
        assert(members[0].0 == "pre-authorized_code"@);
        assert(members[1].0 == "tx_code"@);
        lemma_field_at(members, "pre-authorized_code"@, 0);
        lemma_field_at(members, "tx_code"@, 1);
        TxCodeView::lemma_optional_round_trip(self.tx_code);
    }

    /// Reading the JSON form of an optional pre-authorized code grant gives it
    /// back.
    pub proof fn lemma_optional_round_trip(value: Option<PreAuthorizedCodeGrantView>)
        ensures
            PreAuthorizedCodeGrantView::optional_from_json(Some(PreAuthorizedCodeGrantView::optional_to_json(value))) == Ok::<
                _,
                (),
            >(value),
    {
        if let Some(v) = value {
            v.lemma_round_trip();
        }
    }
}

impl PreAuthorizedCodeGrant {
    /// The value of an optional pre-authorized code grant.
    pub open spec fn optional_view(value: Option<PreAuthorizedCodeGrant>) -> Option<PreAuthorizedCodeGrantView> {
        match value {
            Some(v) => Some(v@),
            None => None,
        }
    }

    /// A copy of this grant.
    pub fn duplicate(&self) -> (copy: PreAuthorizedCodeGrant)
        ensures
            copy@ == self@,
    {
        PreAuthorizedCodeGrant {
            pre_authorized_code: self.pre_authorized_code.clone(),
            tx_code: TxCode::optional_duplicate(&self.tx_code),
        }
    }

    /// The JSON form of this grant.
    pub fn to_json(&self) -> (json: Json)
        ensures
            json@ == self@.to_json(),
    {
        let members = vec![
            Json::member("pre-authorized_code", Json::Str(self.pre_authorized_code.clone())),
            Json::member("tx_code", TxCode::optional_to_json(&self.tx_code)),
        ];
        proof {
            lemma_obj_view(members);
            assert(members_view(members@) =~= self@.to_json()->Obj_0);
        }
        Json::Obj(members)
    }

    /// Reads a pre-authorized code grant from its JSON form.
    pub fn from_json(json: &Json) -> (value: Option<PreAuthorizedCodeGrant>)
        ensures
            value.is_some() == PreAuthorizedCodeGrantView::from_json(json@).is_some(),
            value matches Some(v) ==> PreAuthorizedCodeGrantView::from_json(json@) == Some(v@),
    {
        match json {
            Json::Obj(_) => {},
            _ => {
                return None;
            },
        }
        let pre_authorized_code = match json.text_field("pre-authorized_code") {
            Some(value) => value,
            None => {
                return None;
            },
        };
        let tx_code = match TxCode::optional_from_json(json.get("tx_code")) {
            Ok(value) => value,
            Err(_) => {
                return None;
            },
        };
        Some(PreAuthorizedCodeGrant { pre_authorized_code, tx_code })
    }

    /// A copy of an optional pre-authorized code grant.
    pub fn optional_duplicate(value: &Option<PreAuthorizedCodeGrant>) -> (copy: Option<PreAuthorizedCodeGrant>)
        ensures
            PreAuthorizedCodeGrant::optional_view(copy) == PreAuthorizedCodeGrant::optional_view(*value),
    {
        match value {
            Some(v) => Some(v.duplicate()),
            None => None,
        }
    }

    /// The JSON form of an optional pre-authorized code grant.
    pub fn optional_to_json(value: &Option<PreAuthorizedCodeGrant>) -> (json: Json)
        ensures
            json@ == PreAuthorizedCodeGrantView::optional_to_json(PreAuthorizedCodeGrant::optional_view(*value)),
    {
        match value {
            Some(v) => v.to_json(),
            None => Json::Null,
        }
    }

    /// Reads an optional pre-authorized code grant from the member that holds
    /// it.
    pub fn optional_from_json(member: Option<&Json>) -> (value: Result<Option<PreAuthorizedCodeGrant>, ()>)
        ensures
            value.is_ok() == PreAuthorizedCodeGrantView::optional_from_json(member_view(member)).is_ok(),
            value matches Ok(v) ==> PreAuthorizedCodeGrantView::optional_from_json(member_view(member)) == Ok::<
                _,
                (),
            >(PreAuthorizedCodeGrant::optional_view(v)),
    {
        match member {
            None => Ok(None),
            Some(Json::Null) => Ok(None),
            Some(json) => match PreAuthorizedCodeGrant::from_json(json) {
                Some(value) => Ok(Some(value)),
                None => Err(()),
            },
        }
    }
}

/// The grants of an offer. Only the pre-authorized code grant is read.
#[derive(Clone, Debug, Default, PartialEq, Eq)]
pub struct Grants {
    /// The pre-authorized code grant.
    pub pre_authorized_code: Option<PreAuthorizedCodeGrant>,
}

/// The mathematical value of a [`Grants`].
pub ghost struct GrantsView {
    pub pre_authorized_code: Option<PreAuthorizedCodeGrantView>,
}

impl View for Grants {
    type V = GrantsView;

    open spec fn view(&self) -> GrantsView {
        GrantsView {
            pre_authorized_code: PreAuthorizedCodeGrant::optional_view(self.pre_authorized_code),
        }
    }
}

impl GrantsView {
    /// The JSON form of a set of grants: an object with the members `pre-
    /// authorized_code`.
    pub open spec fn to_json(self) -> JsonView {
        JsonView::Obj(
            seq![
                ("pre-authorized_code"@, PreAuthorizedCodeGrantView::optional_to_json(self.pre_authorized_code)),
            ],
        )
    }

    /// The set of grants that a JSON value stands for: `None` unless it is an
    /// object each of whose members reads as its field.
    pub open spec fn from_json(json: JsonView) -> Option<GrantsView> {
        if json is Obj
            && PreAuthorizedCodeGrantView::optional_from_json(json.field("pre-authorized_code"@)) is Ok
        {
            Some(
                GrantsView {
                    pre_authorized_code: PreAuthorizedCodeGrantView::optional_from_json(json.field("pre-authorized_code"@))->Ok_0,
                },
            )
        } else {
            None
        }
    }

    /// The JSON form of an optional set of grants: null for none.
    pub open spec fn optional_to_json(value: Option<GrantsView>) -> JsonView {
        match value {
            Some(v) => v.to_json(),
            None => JsonView::Null,
        }
    }

    /// The optional set of grants that a member stands for: none where the
    /// member is missing or null, `Err` where it is there and reads as no set
    /// of grants.
    pub open spec fn optional_from_json(member: Option<JsonView>) -> Result<
        Option<GrantsView>,
        (),
    > {
        match member {
            None => Ok(None),
            Some(JsonView::Null) => Ok(None),
            Some(json) => match GrantsView::from_json(json) {
                Some(value) => Ok(Some(value)),
                None => Err(()),
            },
        }
    }

    /// Reading the JSON form of a set of grants gives it back.
    pub proof fn lemma_round_trip(self)
        ensures
            GrantsView::from_json(self.to_json()) == Some(self),
    {
        reveal_strlit("pre-authorized_code");
        let members = self.to_json()->Obj_0;
        assert("pre-authorized_code"@.len() == 19);
        assert(members[0].0 == "pre-authorized_code"@);
        lemma_field_at(members, "pre-authorized_code"@, 0);
        PreAuthorizedCodeGrantView::lemma_optional_round_trip(self.pre_authorized_code);
    }

    /// Reading the JSON form of an optional set of grants gives it back.
    pub proof fn lemma_optional_round_trip(value: Option<GrantsView>)
        ensures
            GrantsView::optional_from_json(Some(GrantsView::optional_to_json(value))) == Ok::<
                _,
                (),
            >(value),
    {
        if let Some(v) = value {
            v.lemma_round_trip();
        }
    }
}

impl Grants {
    /// The value of an optional set of grants.
    pub open spec fn optional_view(value: Option<Grants>) -> Option<GrantsView> {
        match value {
            Some(v) => Some(v@),
            None => None,
        }
    }

    /// A copy of this set of grants.
    pub fn duplicate(&self) -> (copy: Grants)
        ensures
            copy@ == self@,
    {
        Grants {
            pre_authorized_code: PreAuthorizedCodeGrant::optional_duplicate(&self.pre_authorized_code),
        }
    }

    /// The JSON form of this set of grants.
    pub fn to_json(&self) -> (json: Json)
        ensures
            json@ == self@.to_json(),
    {
        let members = vec![
            Json::member("pre-authorized_code", PreAuthorizedCodeGrant::optional_to_json(&self.pre_authorized_code)),
        ];
        proof {
            lemma_obj_view(members);
            assert(members_view(members@) =~= self@.to_json()->Obj_0);
        }
        Json::Obj(members)
    }

    /// Reads a set of grants from its JSON form.
    pub fn from_json(json: &Json) -> (value: Option<Grants>)
        ensures
            value.is_some() == GrantsView::from_json(json@).is_some(),
            value matches Some(v) ==> GrantsView::from_json(json@) == Some(v@),
    {
        match json {
            Json::Obj(_) => {},
            _ => {
                return None;
            },
        }
        let pre_authorized_code = match PreAuthorizedCodeGrant::optional_from_json(json.get("pre-authorized_code")) {
            Ok(value) => value,
            Err(_) => {
                return None;
            },
        };
        Some(Grants { pre_authorized_code })
    }

    /// A copy of an optional set of grants.
    pub fn optional_duplicate(value: &Option<Grants>) -> (copy: Option<Grants>)
        ensures
            Grants::optional_view(copy) == Grants::optional_view(*value),
    {
        match value {
            Some(v) => Some(v.duplicate()),
            None => None,
        }
    }

    /// The JSON form of an optional set of grants.
    pub fn optional_to_json(value: &Option<Grants>) -> (json: Json)
        ensures
            json@ == GrantsView::optional_to_json(Grants::optional_view(*value)),
    {
        match value {
            Some(v) => v.to_json(),
            None => Json::Null,
        }
    }

    /// Reads an optional set of grants from the member that holds it.
    pub fn optional_from_json(member: Option<&Json>) -> (value: Result<Option<Grants>, ()>)
        ensures
            value.is_ok() == GrantsView::optional_from_json(member_view(member)).is_ok(),
            value matches Ok(v) ==> GrantsView::optional_from_json(member_view(member)) == Ok::<
                _,
                (),
            >(Grants::optional_view(v)),
    {
        match member {
            None => Ok(None),
            Some(Json::Null) => Ok(None),
            Some(json) => match Grants::from_json(json) {
                Some(value) => Ok(Some(value)),
                None => Err(()),
            },
        }
    }
}

/// An offer of credentials by an issuer.
#[derive(Clone, Debug, Default, PartialEq, Eq)]
pub struct CredentialOffer {
    /// The issuer: the address of its service.
    pub credential_issuer: String,
    /// The configurations of the credentials on offer, in the issuer's order.
    pub credential_configuration_ids: Vec<String>,
    /// The grants that the wallet can use to get the credentials.
    pub grants: Option<Grants>,
}

/// The mathematical value of a [`CredentialOffer`].
pub ghost struct CredentialOfferView {
    pub credential_issuer: Seq<char>,
    pub credential_configuration_ids: Seq<Seq<char>>,
    pub grants: Option<GrantsView>,
}

impl View for CredentialOffer {
    type V = CredentialOfferView;

    open spec fn view(&self) -> CredentialOfferView {
        CredentialOfferView {
            credential_issuer: self.credential_issuer@,
            credential_configuration_ids: strings_view(self.credential_configuration_ids@),
            grants: Grants::optional_view(self.grants),
        }
    }
}

impl CredentialOfferView {
    /// The JSON form of a credential offer: an object with the members
    /// `credential_issuer`, `credential_configuration_ids`, `grants`.
    pub open spec fn to_json(self) -> JsonView {
        JsonView::Obj(
            seq![
                ("credential_issuer"@, JsonView::Str(self.credential_issuer)),
                ("credential_configuration_ids"@, JsonView::of_texts(self.credential_configuration_ids)),
                ("grants"@, GrantsView::optional_to_json(self.grants)),
            ],
        )
    }

    /// The credential offer that a JSON value stands for: `None` unless it is
    /// an object each of whose members reads as its field.
    pub open spec fn from_json(json: JsonView) -> Option<CredentialOfferView> {
        if json is Obj
            && json.text_field("credential_issuer"@) is Some
            && json.texts_field("credential_configuration_ids"@) is Some
            && GrantsView::optional_from_json(json.field("grants"@)) is Ok
        {
            Some(
                CredentialOfferView {
                    credential_issuer: json.text_field("credential_issuer"@)->Some_0,
                    credential_configuration_ids: json.texts_field("credential_configuration_ids"@)->Some_0,
                    grants: GrantsView::optional_from_json(json.field("grants"@))->Ok_0,
                },
            )
        } else {
            None
        }
    }

    /// Reading the JSON form of a credential offer gives it back.
    pub proof fn lemma_round_trip(self)
        ensures
            CredentialOfferView::from_json(self.to_json()) == Some(self),
    {
        reveal_strlit("credential_issuer");
        reveal_strlit("credential_configuration_ids");
        reveal_strlit("grants");
        let members = self.to_json()->Obj_0;
        assert("credential_issuer"@.len() == 17);
        assert("credential_configuration_ids"@.len() == 28);
        assert("grants"@.len() == 6);
        assert(members[0].0 == "credential_issuer"@);
        assert(members[1].0 == "credential_configuration_ids"@);
        assert(members[2].0 == "grants"@);
        lemma_field_at(members, "credential_issuer"@, 0);
        lemma_field_at(members, "credential_configuration_ids"@, 1);
        lemma_field_at(members, "grants"@, 2);
        lemma_texts_of_texts(self.credential_configuration_ids, self.credential_configuration_ids.len() as int);
        assert(self.credential_configuration_ids.take(self.credential_configuration_ids.len() as int) =~= self.credential_configuration_ids);
        GrantsView::lemma_optional_round_trip(self.grants);
    }
}

impl CredentialOffer {
    /// A copy of this offer.
    pub fn duplicate(&self) -> (copy: CredentialOffer)
        ensures
            copy@ == self@,
    {
        CredentialOffer {
            credential_issuer: self.credential_issuer.clone(),
            credential_configuration_ids: duplicate_strings(&self.credential_configuration_ids),
            grants: Grants::optional_duplicate(&self.grants),
        }
    }

    /// The JSON form of this offer.
    pub fn to_json(&self) -> (json: Json)
        ensures
            json@ == self@.to_json(),
    {
        let members = vec![
            Json::member("credential_issuer", Json::Str(self.credential_issuer.clone())),
            Json::member("credential_configuration_ids", Json::of_texts(&self.credential_configuration_ids)),
            Json::member("grants", Grants::optional_to_json(&self.grants)),
        ];
        proof {
            lemma_obj_view(members);
            assert(members_view(members@) =~= self@.to_json()->Obj_0);
        }
        Json::Obj(members)
    }

    /// Reads a credential offer from its JSON form.
    pub fn from_json(json: &Json) -> (value: Option<CredentialOffer>)
        ensures
            value.is_some() == CredentialOfferView::from_json(json@).is_some(),
            value matches Some(v) ==> CredentialOfferView::from_json(json@) == Some(v@),
    {
        match json {
            Json::Obj(_) => {},
            _ => {
                return None;
            },
        }
        let credential_issuer = match json.text_field("credential_issuer") {
            Some(value) => value,
            None => {
                return None;
            },
        };
        let credential_configuration_ids = match json.texts_field("credential_configuration_ids") {
            Some(value) => value,
            None => {
                return None;
            },
        };
        let grants = match Grants::optional_from_json(json.get("grants")) {
            Ok(value) => value,
            Err(_) => {
                return None;
            },
        };
        Some(CredentialOffer { credential_issuer, credential_configuration_ids, grants })
    }
}
/// Whether `c` is one of the ten digits.
pub open spec fn is_digit(c: char) -> bool {
    '0' <= c <= '9'
}

impl TxCodeView {
    /// Whether the code is to be made of digits alone: so it is unless the
    /// issuer names another input mode.
    pub open spec fn numeric(self) -> bool {
        match self.input_mode {
            None => true,
            Some(mode) => mode == "numeric"@,
        }
    }

    /// Whether `pin` is a code of the declared length and input mode.
    pub open spec fn accepts(self, pin: Seq<char>) -> bool {
        &&& self.length matches Some(n) ==> pin.len() == n
        &&& self.numeric() ==> forall|i: int| 0 <= i < pin.len() ==> is_digit(#[trigger] pin[i])
    }
}

impl TxCode {
    /// Whether the code is to be made of digits alone.
    pub fn numeric(&self) -> (numeric: bool)
        ensures
            numeric == self@.numeric(),
    {
        match &self.input_mode {
            None => true,
            Some(mode) => {
                let wanted = String::from_str("numeric");
                *mode == wanted
            },
        }
    }

    /// Whether `pin` is a code of the declared length and input mode.
    pub fn accepts(&self, pin: &str) -> (accepted: bool)
        ensures
            accepted == self@.accepts(pin@),
    {
        let len = pin.unicode_len();
        match self.length {
            Some(n) => {
                if n < 0 || (n as u64) != (len as u64) {
                    return false;
                }
            },
            None => {},
        }
        if !self.numeric() {
            return true;
        }
        let mut i: usize = 0;
        while i < len
            invariant
                i <= len,
                len == pin@.len(),
                self@.numeric(),
                self@.length matches Some(n) ==> pin@.len() == n,
                forall|k: int| 0 <= k < i ==> is_digit(#[trigger] pin@[k]),
            decreases len - i,
        {
            let c = pin.get_char(i);
            if !('0' <= c && c <= '9') {
                assert(!is_digit(pin@[i as int]));
                return false;
            }
            i += 1;
        }
        true
    }
}

impl CredentialOfferView {
    /// The pre-authorized code grant of the offer, if it has one.
    pub open spec fn pre_authorized_code(self) -> Option<PreAuthorizedCodeGrantView> {
        match self.grants {
            Some(grants) => grants.pre_authorized_code,
            None => None,
        }
    }
}

impl CredentialOffer {
    /// The pre-authorized code grant of the offer, if it has one.
    pub fn pre_authorized_code(&self) -> (grant: Option<PreAuthorizedCodeGrant>)
        ensures
            PreAuthorizedCodeGrant::optional_view(grant) == self@.pre_authorized_code(),
    {
        match &self.grants {
            Some(grants) => PreAuthorizedCodeGrant::optional_duplicate(&grants.pre_authorized_code),
            None => None,
        }
    }
}

/// What `urlencoding` makes of a percent-encoded text: `None` where the
/// decoded bytes are no UTF-8.
pub uninterp spec fn percent_decoded(text: Seq<char>) -> Option<Seq<char>>;

/// Calls `urlencoding::decode`. The text that comes back is by definition
/// [`percent_decoded`] of the input; an error is `None` there.
#[verifier::external_body]
fn percent_decode(text: &str) -> (decoded: Option<String>)
    ensures
        optional_string_view(decoded) == percent_decoded(text@),
{
    match urlencoding::decode(text) {
        Ok(decoded) => Some(decoded.into_owned()),
        Err(_) => None,
    }
}

/// Why an encoded offer could not be read.
#[derive(Clone, Debug, PartialEq, Eq)]
pub enum DecodeError {
    /// The text is not percent-encoded UTF-8.
    Encoding,
    /// The decoded text is no JSON; with the parser's message.
    Syntax { message: String },
    /// The JSON is no offer: a member is missing or of the wrong type, or
    /// no configuration is on offer.
    Malformed,
}

/// The mathematical value of a [`DecodeError`].
pub ghost enum DecodeErrorView {
    Encoding,
    Syntax { message: Seq<char> },
    Malformed,
}

impl View for DecodeError {
    type V = DecodeErrorView;

    open spec fn view(&self) -> DecodeErrorView {
        match self {
            DecodeError::Encoding => DecodeErrorView::Encoding,
            DecodeError::Syntax { message } => DecodeErrorView::Syntax { message: message@ },
            DecodeError::Malformed => DecodeErrorView::Malformed,
        }
    }
}

/// The offer that a JSON value stands for: `None` unless it reads as an
/// offer of at least one configuration.
pub open spec fn offer_of_json(json: JsonView) -> Option<CredentialOfferView> {
    match CredentialOfferView::from_json(json) {
        Some(offer) => if offer.credential_configuration_ids.len() > 0 {
            Some(offer)
        } else {
            None
        },
        None => None,
    }
}

/// What reading an encoded offer gives: the offer that the text stands
/// for, or the error of the step that fails first. The text is
/// percent-decoded, then parsed as JSON, then read as an offer of at least
/// one configuration.
pub open spec fn offer_decoded(encoded: Seq<char>) -> Result<CredentialOfferView, DecodeErrorView> {
    match percent_decoded(encoded) {
        None => Err(DecodeErrorView::Encoding),
        Some(text) => match json_read(vstd::utf8::encode_utf8(text)) {
            Err(message) => Err(DecodeErrorView::Syntax { message }),
            Ok(json) => match offer_of_json(json) {
                None => Err(DecodeErrorView::Malformed),
                Some(offer) => Ok(offer),
            },
        },
    }
}

/// The value of an offer that was read, or of the error in its place.
pub open spec fn decoded_view(decoded: Result<CredentialOffer, DecodeError>) -> Result<
    CredentialOfferView,
    DecodeErrorView,
> {
    match decoded {
        Ok(offer) => Ok(offer@),
        Err(error) => Err(error@),
    }
}

impl CredentialOffer {
    /// Whether an offer was read, and which.
    pub open spec fn optional_view(value: Option<CredentialOffer>) -> Option<CredentialOfferView> {
        match value {
            Some(v) => Some(v@),
            None => None,
        }
    }

    /// Reads an offer of at least one configuration from its JSON form.
    pub fn of_json(json: &Json) -> (offer: Option<CredentialOffer>)
        ensures
            CredentialOffer::optional_view(offer) == offer_of_json(json@),
    {
        match CredentialOffer::from_json(json) {
            Some(offer) => {
                if offer.credential_configuration_ids.len() > 0 {
                    Some(offer)
                } else {
                    None
                }
            },
            None => None,
        }
    }

    /// Reads an offer from the text that an issuer hands out: JSON,
    /// percent-encoded.
    pub fn decode(encoded: &str) -> (decoded: Result<CredentialOffer, DecodeError>)
        ensures
            decoded_view(decoded) == offer_decoded(encoded@),
    {
        let text = match percent_decode(encoded) {
            Some(text) => text,
            None => {
                return Err(DecodeError::Encoding);
            },
        };
        let json = match Json::parse(text.as_str().as_bytes()) {
            Ok(json) => json,
            Err(message) => {
                return Err(DecodeError::Syntax { message });
            },
        };
        match CredentialOffer::of_json(&json) {
            Some(offer) => Ok(offer),
            None => Err(DecodeError::Malformed),
        }
    }
}

} // verus!
