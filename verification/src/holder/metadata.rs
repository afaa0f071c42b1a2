//! What the issuer's service tells the wallet: its metadata, access
//! tokens and issued credentials.

use crate::holder::credential::{CredentialDisplay, CredentialDisplayView, SubjectClaims, SubjectClaimsView};
use crate::json::{
    duplicate_strings, lemma_field_at, lemma_obj_view, lemma_texts_of_texts, member_view,
    members_view, optional_string_view, strings_view, Json, JsonView,
};
use vstd::prelude::*;
use vstd::string::StringExecFns;

verus! {

/// The shape of one credential on offer, as its issuer declares it.
#[derive(Clone, Debug, Default, PartialEq, Eq)]
pub struct CredentialConfiguration {
    /// The format in which the credential is issued.
    pub format: String,
    /// The scope under which the credential can be asked for.
    pub scope: Option<String>,
    /// How the credential is to be shown, locale by locale.
    pub display: Vec<CredentialDisplay>,
    /// The definition of the credential: its types and, under
    /// `credentialSubject`, the definitions of its claims. Null where the
    /// issuer gives none.
    pub credential_definition: Json,
}

/// The mathematical value of a [`CredentialConfiguration`].
pub ghost struct CredentialConfigurationView {
    pub format: Seq<char>,
    pub scope: Option<Seq<char>>,
    pub display: Seq<CredentialDisplayView>,
    pub credential_definition: JsonView,
}

impl View for CredentialConfiguration {
    type V = CredentialConfigurationView;

    open spec fn view(&self) -> CredentialConfigurationView {
        CredentialConfigurationView {
            format: self.format@,
            scope: optional_string_view(self.scope),
            display: CredentialDisplay::list_view(self.display@),
            credential_definition: self.credential_definition@,
        }
    }
}

impl CredentialConfigurationView {
    /// The JSON form of a credential configuration: an object with the members
    /// `format`, `scope`, `display`, `credential_definition`.
    pub open spec fn to_json(self) -> JsonView {
        JsonView::Obj(
            seq![
                ("format"@, JsonView::Str(self.format)),
                ("scope"@, JsonView::of_optional_text(self.scope)),
                ("display"@, CredentialDisplayView::list_to_json(self.display)),
                ("credential_definition"@, self.credential_definition),
            ],
        )
    }

    /// The credential configuration that a JSON value stands for: `None` unless
    /// it is an object each of whose members reads as its field.
    pub open spec fn from_json(json: JsonView) -> Option<CredentialConfigurationView> {
        if json is Obj
            && json.text_field("format"@) is Some
            && json.optional_text_field("scope"@) is Ok
            && CredentialDisplayView::list_from_json(json.field("display"@)) is Some
        {
            Some(
                CredentialConfigurationView {
                    format: json.text_field("format"@)->Some_0,
                    scope: json.optional_text_field("scope"@)->Ok_0,
                    display: CredentialDisplayView::list_from_json(json.field("display"@))->Some_0,
                    credential_definition: json.field_or_null("credential_definition"@),
                },
            )
        } else {
            None
        }
    }

    /// Reading the JSON form of a credential configuration gives it back.
    pub proof fn lemma_round_trip(self)
        ensures
            CredentialConfigurationView::from_json(self.to_json()) == Some(self),
    {
        reveal_strlit("format");
        reveal_strlit("scope");
        reveal_strlit("display");
        reveal_strlit("credential_definition");
        let members = self.to_json()->Obj_0;
        assert("format"@.len() == 6);
        assert("scope"@.len() == 5);
        assert("display"@.len() == 7);
        assert("credential_definition"@.len() == 21);
        assert(members[0].0 == "format"@);
        assert(members[1].0 == "scope"@);
        assert(members[2].0 == "display"@);
        assert(members[3].0 == "credential_definition"@);
        lemma_field_at(members, "format"@, 0);
        lemma_field_at(members, "scope"@, 1);
        lemma_field_at(members, "display"@, 2);
        lemma_field_at(members, "credential_definition"@, 3);
        CredentialDisplayView::lemma_list_round_trip(self.display);
    }
}

impl CredentialConfiguration {
    /// A copy of this configuration.
    pub fn duplicate(&self) -> (copy: CredentialConfiguration)
        ensures
            copy@ == self@,
    {
        CredentialConfiguration {
            format: self.format.clone(),
            scope: self.scope.clone(),
            display: CredentialDisplay::list_duplicate(&self.display),
            credential_definition: self.credential_definition.duplicate(),
        }
    }

    /// The JSON form of this configuration.
    pub fn to_json(&self) -> (json: Json)
        ensures
            json@ == self@.to_json(),
    {
        let members = vec![
            Json::member("format", Json::Str(self.format.clone())),
            Json::member("scope", Json::of_optional_text(&self.scope)),
            Json::member("display", CredentialDisplay::list_to_json(&self.display)),
            Json::member("credential_definition", self.credential_definition.duplicate()),
        ];
        proof {
            lemma_obj_view(members);
            assert(members_view(members@) =~= self@.to_json()->Obj_0);
        }
        Json::Obj(members)
    }

    /// Reads a credential configuration from its JSON form.
    pub fn from_json(json: &Json) -> (value: Option<CredentialConfiguration>)
        ensures
            value.is_some() == CredentialConfigurationView::from_json(json@).is_some(),
            value matches Some(v) ==> CredentialConfigurationView::from_json(json@) == Some(v@),
    {
        match json {
            Json::Obj(_) => {},
            _ => {
                return None;
            },
        }
        let format = match json.text_field("format") {
            Some(value) => value,
            None => {
                return None;
            },
        };
        let scope = match json.optional_text_field("scope") {
            Ok(value) => value,
            Err(_) => {
                return None;
            },
        };
        let display = match CredentialDisplay::list_from_json(json.get("display")) {
            Some(value) => value,
            None => {
                return None;
            },
        };
        let credential_definition = json.field_or_null("credential_definition");
        Some(CredentialConfiguration { format, scope, display, credential_definition })
    }
}

/// What the issuer answers to a token request.
#[derive(Clone, Debug, Default, PartialEq, Eq)]
pub struct TokenResponse {
    /// The token with which credentials can be asked for.
    pub access_token: String,
    /// The type of the token.
    pub token_type: String,
    /// For how many seconds the token is good.
    pub expires_in: Option<i64>,
    /// The nonce that the proof of possession has to hold.
    pub c_nonce: Option<String>,
    /// For how many seconds the nonce is good.
    pub c_nonce_expires_in: Option<i64>,
}

/// The mathematical value of a [`TokenResponse`].
pub ghost struct TokenResponseView {
    pub access_token: Seq<char>,
    pub token_type: Seq<char>,
    pub expires_in: Option<i64>,
    pub c_nonce: Option<Seq<char>>,
    pub c_nonce_expires_in: Option<i64>,
}

impl View for TokenResponse {
    type V = TokenResponseView;

    open spec fn view(&self) -> TokenResponseView {
        TokenResponseView {
            access_token: self.access_token@,
            token_type: self.token_type@,
            expires_in: self.expires_in,
            c_nonce: optional_string_view(self.c_nonce),
            c_nonce_expires_in: self.c_nonce_expires_in,
        }
    }
}

impl TokenResponseView {
    /// The JSON form of a token response: an object with the members
    /// `access_token`, `token_type`, `expires_in`, `c_nonce`,
    /// `c_nonce_expires_in`.
    pub open spec fn to_json(self) -> JsonView {
        JsonView::Obj(
            seq![
                ("access_token"@, JsonView::Str(self.access_token)),
                ("token_type"@, JsonView::Str(self.token_type)),
                ("expires_in"@, JsonView::of_optional_int(self.expires_in)),
                ("c_nonce"@, JsonView::of_optional_text(self.c_nonce)),
                ("c_nonce_expires_in"@, JsonView::of_optional_int(self.c_nonce_expires_in)),
            ],
        )
    }

    /// The token response that a JSON value stands for: `None` unless it is an
    /// object each of whose members reads as its field.
    pub open spec fn from_json(json: JsonView) -> Option<TokenResponseView> {
        if json is Obj
            && json.text_field("access_token"@) is Some
            && json.text_field("token_type"@) is Some
            && json.optional_int_field("expires_in"@) is Ok
            && json.optional_text_field("c_nonce"@) is Ok
            && json.optional_int_field("c_nonce_expires_in"@) is Ok
        {
            Some(
                TokenResponseView {
                    access_token: json.text_field("access_token"@)->Some_0,
                    token_type: json.text_field("token_type"@)->Some_0,
                    expires_in: json.optional_int_field("expires_in"@)->Ok_0,
                    c_nonce: json.optional_text_field("c_nonce"@)->Ok_0,
                    c_nonce_expires_in: json.optional_int_field("c_nonce_expires_in"@)->Ok_0,
                },
            )
        } else {
            None
        }
    }

    /// The JSON form of an optional token response: null for none.
    pub open spec fn optional_to_json(value: Option<TokenResponseView>) -> JsonView {
        match value {
            Some(v) => v.to_json(),
            None => JsonView::Null,
        }
    }

    /// The optional token response that a member stands for: none where the
    /// member is missing or null, `Err` where it is there and reads as no token
    /// response.
    pub open spec fn optional_from_json(member: Option<JsonView>) -> Result<
        Option<TokenResponseView>,
        (),
    > {
        match member {
            None => Ok(None),
            Some(JsonView::Null) => Ok(None),
            Some(json) => match TokenResponseView::from_json(json) {
                Some(value) => Ok(Some(value)),
                None => Err(()),
            },
        }
    }

    /// Reading the JSON form of a token response gives it back.
    pub proof fn lemma_round_trip(self)
        ensures
            TokenResponseView::from_json(self.to_json()) == Some(self),
    {
        reveal_strlit("access_token");
        reveal_strlit("token_type");
        reveal_strlit("expires_in");
        reveal_strlit("c_nonce");
        reveal_strlit("c_nonce_expires_in");
        let members = self.to_json()->Obj_0;
        assert("access_token"@.len() == 12);
        assert("token_type"@.len() == 10);
        assert("expires_in"@.len() == 10);
        assert("c_nonce"@.len() == 7);
        assert("c_nonce_expires_in"@.len() == 18);
        assert(members[0].0 == "access_token"@);
        assert(members[1].0 == "token_type"@);
        assert(members[2].0 == "expires_in"@);
        assert(members[3].0 == "c_nonce"@);
        assert(members[4].0 == "c_nonce_expires_in"@);
        assert("expires_in"@[0] != "token_type"@[0]);
        lemma_field_at(members, "access_token"@, 0);
        lemma_field_at(members, "token_type"@, 1);
        lemma_field_at(members, "expires_in"@, 2);
        lemma_field_at(members, "c_nonce"@, 3);
        lemma_field_at(members, "c_nonce_expires_in"@, 4);
    }

    /// Reading the JSON form of an optional token response gives it back.
    pub proof fn lemma_optional_round_trip(value: Option<TokenResponseView>)
        ensures
            TokenResponseView::optional_from_json(Some(TokenResponseView::optional_to_json(value))) == Ok::<
                _,
                (),
            >(value),
    {
        if let Some(v) = value {
            v.lemma_round_trip();
        }
    }
}

impl TokenResponse {
    /// The value of an optional token response.
    pub open spec fn optional_view(value: Option<TokenResponse>) -> Option<TokenResponseView> {
        match value {
            Some(v) => Some(v@),
            None => None,
        }
    }

    /// A copy of this response.
    pub fn duplicate(&self) -> (copy: TokenResponse)
        ensures
            copy@ == self@,
    {
        TokenResponse {
            access_token: self.access_token.clone(),
            token_type: self.token_type.clone(),
            expires_in: self.expires_in,
            c_nonce: self.c_nonce.clone(),
            c_nonce_expires_in: self.c_nonce_expires_in,
        }
    }

    /// The JSON form of this response.
    pub fn to_json(&self) -> (json: Json)
        ensures
            json@ == self@.to_json(),
    {
        let members = vec![
            Json::member("access_token", Json::Str(self.access_token.clone())),
            Json::member("token_type", Json::Str(self.token_type.clone())),
            Json::member("expires_in", Json::of_optional_int(self.expires_in)),
            Json::member("c_nonce", Json::of_optional_text(&self.c_nonce)),
            Json::member("c_nonce_expires_in", Json::of_optional_int(self.c_nonce_expires_in)),
        ];
        proof {
            lemma_obj_view(members);
            assert(members_view(members@) =~= self@.to_json()->Obj_0);
        }
        Json::Obj(members)
    }

    /// Reads a token response from its JSON form.
    pub fn from_json(json: &Json) -> (value: Option<TokenResponse>)
        ensures
            value.is_some() == TokenResponseView::from_json(json@).is_some(),
            value matches Some(v) ==> TokenResponseView::from_json(json@) == Some(v@),
    {
        match json {
            Json::Obj(_) => {},
            _ => {
                return None;
            },
        }
        let access_token = match json.text_field("access_token") {
            Some(value) => value,
            None => {
                return None;
            },
        };
        let token_type = match json.text_field("token_type") {
            Some(value) => value,
            None => {
                return None;
            },
        };
        let expires_in = match json.optional_int_field("expires_in") {
            Ok(value) => value,
            Err(_) => {
                return None;
            },
        };
        let c_nonce = match json.optional_text_field("c_nonce") {
            Ok(value) => value,
            Err(_) => {
                return None;
            },
        };
        let c_nonce_expires_in = match json.optional_int_field("c_nonce_expires_in") {
            Ok(value) => value,
            Err(_) => {
                return None;
            },
        };
        Some(TokenResponse { access_token, token_type, expires_in, c_nonce, c_nonce_expires_in })
    }

    /// A copy of an optional token response.
    pub fn optional_duplicate(value: &Option<TokenResponse>) -> (copy: Option<TokenResponse>)
        ensures
            TokenResponse::optional_view(copy) == TokenResponse::optional_view(*value),
    {
        match value {
            Some(v) => Some(v.duplicate()),
            None => None,
        }
    }

    /// The JSON form of an optional token response.
    pub fn optional_to_json(value: &Option<TokenResponse>) -> (json: Json)
        ensures
            json@ == TokenResponseView::optional_to_json(TokenResponse::optional_view(*value)),
    {
        match value {
            Some(v) => v.to_json(),
            None => Json::Null,
        }
    }

    /// Reads an optional token response from the member that holds it.
    pub fn optional_from_json(member: Option<&Json>) -> (value: Result<Option<TokenResponse>, ()>)
        ensures
            value.is_ok() == TokenResponseView::optional_from_json(member_view(member)).is_ok(),
            value matches Ok(v) ==> TokenResponseView::optional_from_json(member_view(member)) == Ok::<
                _,
                (),
            >(TokenResponse::optional_view(v)),
    {
        match member {
            None => Ok(None),
            Some(Json::Null) => Ok(None),
            Some(json) => match TokenResponse::from_json(json) {
                Some(value) => Ok(Some(value)),
                None => Err(()),
            },
        }
    }
}

/// A credential as the issuer handed it out, read from its envelope.
#[derive(Clone, Debug, Default, PartialEq, Eq)]
pub struct IssuedCredential {
    /// The identifier of the credential.
    pub id: String,
    /// The identifier of the issuer.
    pub issuer: String,
    /// The credential as it was issued: the signed envelope, kept as it came.
    pub issued: String,
    /// The types that the credential declares.
    pub type_: Vec<String>,
    /// The claims, subject by subject.
    pub subject_claims: Vec<SubjectClaims>,
    /// When the credential was issued, in RFC 3339.
    pub issuance_date: String,
    /// From when the credential is valid, in RFC 3339.
    pub valid_from: Option<String>,
    /// Until when the credential is valid, in RFC 3339.
    pub valid_until: Option<String>,
}

/// The mathematical value of an [`IssuedCredential`].
pub ghost struct IssuedCredentialView {
    pub id: Seq<char>,
    pub issuer: Seq<char>,
    pub issued: Seq<char>,
    pub type_: Seq<Seq<char>>,
    pub subject_claims: Seq<SubjectClaimsView>,
    pub issuance_date: Seq<char>,
    pub valid_from: Option<Seq<char>>,
    pub valid_until: Option<Seq<char>>,
}

impl View for IssuedCredential {
    type V = IssuedCredentialView;

    open spec fn view(&self) -> IssuedCredentialView {
        IssuedCredentialView {
            id: self.id@,
            issuer: self.issuer@,
            issued: self.issued@,
            type_: strings_view(self.type_@),
            subject_claims: SubjectClaims::list_view(self.subject_claims@),
            issuance_date: self.issuance_date@,
            valid_from: optional_string_view(self.valid_from),
            valid_until: optional_string_view(self.valid_until),
        }
    }
}

impl IssuedCredentialView {
    /// The JSON form of an issued credential: an object with the members `id`,
    /// `issuer`, `issued`, `type`, `subject_claims`, `issuance_date`,
    /// `valid_from`, `valid_until`.
    pub open spec fn to_json(self) -> JsonView {
        JsonView::Obj(
            seq![
                ("id"@, JsonView::Str(self.id)),
                ("issuer"@, JsonView::Str(self.issuer)),
                ("issued"@, JsonView::Str(self.issued)),
                ("type"@, JsonView::of_texts(self.type_)),
                ("subject_claims"@, SubjectClaimsView::list_to_json(self.subject_claims)),
                ("issuance_date"@, JsonView::Str(self.issuance_date)),
                ("valid_from"@, JsonView::of_optional_text(self.valid_from)),
                ("valid_until"@, JsonView::of_optional_text(self.valid_until)),
            ],
        )
    }

    /// The issued credential that a JSON value stands for: `None` unless it is
    /// an object each of whose members reads as its field.
    pub open spec fn from_json(json: JsonView) -> Option<IssuedCredentialView> {
        if json is Obj
            && json.text_field("id"@) is Some
            && json.text_field("issuer"@) is Some
            && json.text_field("issued"@) is Some
            && json.texts_field("type"@) is Some
            && SubjectClaimsView::list_from_json(json.field("subject_claims"@)) is Some
            && json.text_field("issuance_date"@) is Some
            && json.optional_text_field("valid_from"@) is Ok
            && json.optional_text_field("valid_until"@) is Ok
        {
            Some(
                IssuedCredentialView {
                    id: json.text_field("id"@)->Some_0,
                    issuer: json.text_field("issuer"@)->Some_0,
                    issued: json.text_field("issued"@)->Some_0,
                    type_: json.texts_field("type"@)->Some_0,
                    subject_claims: SubjectClaimsView::list_from_json(json.field("subject_claims"@))->Some_0,
                    issuance_date: json.text_field("issuance_date"@)->Some_0,
                    valid_from: json.optional_text_field("valid_from"@)->Ok_0,
                    valid_until: json.optional_text_field("valid_until"@)->Ok_0,
                },
            )
        } else {
            None
        }
    }

    /// Reading the JSON form of an issued credential gives it back.
    pub proof fn lemma_round_trip(self)
        ensures
            IssuedCredentialView::from_json(self.to_json()) == Some(self),
    {
        reveal_strlit("id");
        reveal_strlit("issuer");
        reveal_strlit("issued");
        reveal_strlit("type");
        reveal_strlit("subject_claims");
        reveal_strlit("issuance_date");
        reveal_strlit("valid_from");
        reveal_strlit("valid_until");
        let members = self.to_json()->Obj_0;
        assert("id"@.len() == 2);
        assert("issuer"@.len() == 6);
        assert("issued"@.len() == 6);
        assert("type"@.len() == 4);
        assert("subject_claims"@.len() == 14);
        assert("issuance_date"@.len() == 13);
        assert("valid_from"@.len() == 10);
        assert("valid_until"@.len() == 11);
        assert(members[0].0 == "id"@);
        assert(members[1].0 == "issuer"@);
        assert(members[2].0 == "issued"@);
        assert(members[3].0 == "type"@);
        assert(members[4].0 == "subject_claims"@);
        assert(members[5].0 == "issuance_date"@);
        assert(members[6].0 == "valid_from"@);
        assert(members[7].0 == "valid_until"@);
        assert("issued"@[5] != "issuer"@[5]);
        lemma_field_at(members, "id"@, 0);
        lemma_field_at(members, "issuer"@, 1);
        lemma_field_at(members, "issued"@, 2);
        lemma_field_at(members, "type"@, 3);
        lemma_field_at(members, "subject_claims"@, 4);
        lemma_field_at(members, "issuance_date"@, 5);
        lemma_field_at(members, "valid_from"@, 6);
        lemma_field_at(members, "valid_until"@, 7);
        lemma_texts_of_texts(self.type_, self.type_.len() as int);
        assert(self.type_.take(self.type_.len() as int) =~= self.type_);
        SubjectClaimsView::lemma_list_round_trip(self.subject_claims);
    }
}

impl IssuedCredential {
    /// A copy of this credential.
    pub fn duplicate(&self) -> (copy: IssuedCredential)
        ensures
            copy@ == self@,
    {
        IssuedCredential {
            id: self.id.clone(),
            issuer: self.issuer.clone(),
            issued: self.issued.clone(),
            type_: duplicate_strings(&self.type_),
            subject_claims: SubjectClaims::list_duplicate(&self.subject_claims),
            issuance_date: self.issuance_date.clone(),
            valid_from: self.valid_from.clone(),
            valid_until: self.valid_until.clone(),
        }
    }

    /// The JSON form of this credential.
    pub fn to_json(&self) -> (json: Json)
        ensures
            json@ == self@.to_json(),
    {
        let members = vec![
            Json::member("id", Json::Str(self.id.clone())),
            Json::member("issuer", Json::Str(self.issuer.clone())),
            Json::member("issued", Json::Str(self.issued.clone())),
            Json::member("type", Json::of_texts(&self.type_)),
            Json::member("subject_claims", SubjectClaims::list_to_json(&self.subject_claims)),
            Json::member("issuance_date", Json::Str(self.issuance_date.clone())),
            Json::member("valid_from", Json::of_optional_text(&self.valid_from)),
            Json::member("valid_until", Json::of_optional_text(&self.valid_until)),
        ];
        proof {
            lemma_obj_view(members);
            assert(members_view(members@) =~= self@.to_json()->Obj_0);
        }
        Json::Obj(members)
    }

    /// Reads an issued credential from its JSON form.
    pub fn from_json(json: &Json) -> (value: Option<IssuedCredential>)
        ensures
            value.is_some() == IssuedCredentialView::from_json(json@).is_some(),
            value matches Some(v) ==> IssuedCredentialView::from_json(json@) == Some(v@),
    {
        match json {
            Json::Obj(_) => {},
            _ => {
                return None;
            },
        }
        let id = match json.text_field("id") {
            Some(value) => value,
            None => {
                return None;
            },
        };
        let issuer = match json.text_field("issuer") {
            Some(value) => value,
            None => {
                return None;
            },
        };
        let issued = match json.text_field("issued") {
            Some(value) => value,
            None => {
                return None;
            },
        };
        let type_ = match json.texts_field("type") {
            Some(value) => value,
            None => {
                return None;
            },
        };
        let subject_claims = match SubjectClaims::list_from_json(json.get("subject_claims")) {
            Some(value) => value,
            None => {
                return None;
            },
        };
        let issuance_date = match json.text_field("issuance_date") {
            Some(value) => value,
            None => {
                return None;
            },
        };
        let valid_from = match json.optional_text_field("valid_from") {
            Ok(value) => value,
            Err(_) => {
                return None;
            },
        };
        let valid_until = match json.optional_text_field("valid_until") {
            Ok(value) => value,
            Err(_) => {
                return None;
            },
        };
        Some(IssuedCredential { id, issuer, issued, type_, subject_claims, issuance_date, valid_from, valid_until })
    }
}
impl CredentialConfigurationView {
    /// The definitions of the credential's claims: what the credential
    /// definition holds under `credentialSubject`, null where there is none.
    pub open spec fn claims(self) -> JsonView {
        self.credential_definition.field_or_null("credentialSubject"@)
    }
}

impl CredentialConfiguration {
    /// The definitions of the credential's claims.
    pub fn claims(&self) -> (claims: Json)
        ensures
            claims@ == self@.claims(),
    {
        self.credential_definition.field_or_null("credentialSubject")
    }
}

/// What the issuer transport hands back when it is asked for an issuer's
/// metadata: the metadata, and the identifier under which the state of the
/// flow is kept.
#[derive(Clone, Debug, Default, PartialEq, Eq)]
pub struct Issuer {
    /// The identifier of the issuance, given out by the service. It keys the
    /// state of the flow wherever that is persisted.
    pub issuance_id: String,
    /// The issuer: the address of its service.
    pub credential_issuer: String,
    /// The name of the issuer; empty where the issuer gave none.
    pub name: String,
    /// The configurations that the issuer supports, each under its
    /// identifier.
    pub configurations: Vec<(String, CredentialConfiguration)>,
}

/// The mathematical value of an [`Issuer`].
pub ghost struct IssuerView {
    pub issuance_id: Seq<char>,
    pub credential_issuer: Seq<char>,
    pub name: Seq<char>,
    pub configurations: Seq<(Seq<char>, CredentialConfigurationView)>,
}

/// The values of a list of configurations, each with its identifier.
pub open spec fn configurations_view(configurations: Seq<(String, CredentialConfiguration)>) -> Seq<
    (Seq<char>, CredentialConfigurationView),
> {
    Seq::new(configurations.len(), |i: int| (configurations[i].0@, configurations[i].1@))
}

impl View for Issuer {
    type V = IssuerView;

    open spec fn view(&self) -> IssuerView {
        IssuerView {
            issuance_id: self.issuance_id@,
            credential_issuer: self.credential_issuer@,
            name: self.name@,
            configurations: configurations_view(self.configurations@),
        }
    }
}

/// The first configuration of `configurations` whose identifier is `id`.
pub open spec fn first_configuration(
    configurations: Seq<(Seq<char>, CredentialConfigurationView)>,
    id: Seq<char>,
) -> Option<CredentialConfigurationView>
    decreases configurations.len(),
{
    if configurations.len() == 0 {
        None
    } else if configurations[0].0 == id {
        Some(configurations[0].1)
    } else {
        first_configuration(configurations.skip(1), id)
    }
}

/// The configurations that the first `n` members of an object stand for,
/// each under its key: `None` where one of them reads as no configuration.
pub open spec fn configurations_from_json(members: Seq<(Seq<char>, JsonView)>, n: int) -> Option<
    Seq<(Seq<char>, CredentialConfigurationView)>,
>
    decreases n,
{
    if n <= 0 {
        Some(Seq::empty())
    } else {
        match (
            configurations_from_json(members, n - 1),
            CredentialConfigurationView::from_json(members[n - 1].1),
        ) {
            (Some(front), Some(configuration)) => Some(front.push((members[n - 1].0, configuration))),
            _ => None,
        }
    }
}

/// Once a member reads as no configuration, no longer front of the object
/// is read.
pub proof fn lemma_configurations_none(members: Seq<(Seq<char>, JsonView)>, n: int, m: int)
    requires
        0 < n <= m,
        configurations_from_json(members, n) is None,
    ensures
        configurations_from_json(members, m) is None,
    decreases m - n,
{
    if n < m {
        lemma_configurations_none(members, n + 1, m);
    }
}

impl IssuerView {
    /// The configuration that the issuer supports under `id`.
    pub open spec fn configuration(self, id: Seq<char>) -> Option<CredentialConfigurationView> {
        first_configuration(self.configurations, id)
    }

    /// The name that an issuer's display records give it: that of the first
    /// record, or nothing.
    pub open spec fn name_of(display: Seq<CredentialDisplayView>) -> Seq<char> {
        if display.len() > 0 {
            display[0].name
        } else {
            Seq::empty()
        }
    }

    /// The issuer that a metadata document stands for, under the given
    /// issuance identifier. The document holds the issuer's address under
    /// `credential_issuer`, its display records under `display` and its
    /// configurations, an object, under `credential_configurations_supported`.
    pub open spec fn from_json(issuance_id: Seq<char>, json: JsonView) -> Option<IssuerView> {
        match (
            json.text_field("credential_issuer"@),
            CredentialDisplayView::list_from_json(json.field("display"@)),
            json.field("credential_configurations_supported"@),
        ) {
            (Some(credential_issuer), Some(display), Some(JsonView::Obj(members))) => {
                match configurations_from_json(members, members.len() as int) {
                    Some(configurations) => Some(
                        IssuerView {
                            issuance_id,
                            credential_issuer,
                            name: IssuerView::name_of(display),
                            configurations,
                        },
                    ),
                    None => None,
                }
            },
            _ => None,
        }
    }
}

impl Issuer {
    /// The value of an optional issuer.
    pub open spec fn optional_view(value: Option<Issuer>) -> Option<IssuerView> {
        match value {
            Some(v) => Some(v@),
            None => None,
        }
    }

    /// The configuration that the issuer supports under `id`.
    pub fn configuration(&self, id: &str) -> (found: Option<&CredentialConfiguration>)
        ensures
            found.is_some() == self@.configuration(id@).is_some(),
            found matches Some(configuration) ==> self@.configuration(id@) == Some(configuration@),
    {
        let wanted = String::from_str(id);
        let ghost all = self@.configurations;
        assert(all.skip(0) =~= all);
        let mut i: usize = 0;
        while i < self.configurations.len()
            invariant
                i <= self.configurations.len(),
                wanted@ == id@,
                all == configurations_view(self.configurations@),
                first_configuration(all, id@) == first_configuration(all.skip(i as int), id@),
            decreases self.configurations.len() - i,
        {
            assert(all.skip(i as int)[0] == all[i as int]);
            if self.configurations[i].0 == wanted {
                return Some(&self.configurations[i].1);
            }
            assert(all.skip(i as int).skip(1) =~= all.skip(i as int + 1));
            i += 1;
        }
        None
    }

    /// Reads an issuer from its metadata document.
    pub fn from_json(issuance_id: &str, json: &Json) -> (issuer: Option<Issuer>)
        ensures
            Issuer::optional_view(issuer) == IssuerView::from_json(issuance_id@, json@),
    {
        let credential_issuer = match json.text_field("credential_issuer") {
            Some(value) => value,
            None => {
                return None;
            },
        };
        let display = match CredentialDisplay::list_from_json(json.get("display")) {
            Some(value) => value,
            None => {
                return None;
            },
        };
        let members = match json.get("credential_configurations_supported") {
            Some(Json::Obj(members)) => members,
            _ => {
                return None;
            },
        };
        let ghost all = members_view(members@);
        proof {
            lemma_obj_view(*members);
        }
        let mut configurations: Vec<(String, CredentialConfiguration)> = Vec::new();
        let mut i: usize = 0;
        assert(configurations_view(configurations@) =~= Seq::empty());
        while i < members.len()
            invariant
                i <= members.len(),
                all == members_view(members@),
                json@.text_field("credential_issuer"@) is Some,
                CredentialDisplayView::list_from_json(json@.field("display"@)) is Some,
                json@.field("credential_configurations_supported"@) == Some(JsonView::Obj(all)),
                configurations_from_json(all, i as int) == Some(
                    configurations_view(configurations@),
                ),
            decreases members.len() - i,
        {
            match CredentialConfiguration::from_json(&members[i].1) {
                Some(configuration) => {
                    let ghost before = configurations_view(configurations@);
                    configurations.push((members[i].0.clone(), configuration));
                    assert(configurations_view(configurations@) =~= before.push(
                        (members[i as int].0@, configuration@),
                    ));
                },
                None => {
                    proof {
                        assert(configurations_from_json(all, i as int + 1) is None);
                        lemma_configurations_none(all, i as int + 1, members.len() as int);
                    }
                    return None;
                },
            }
            i += 1;
        }
        let name = if display.len() > 0 {
            display[0].name.clone()
        } else {
            String::new()
        };
        Some(
            Issuer { issuance_id: String::from_str(issuance_id), credential_issuer, name, configurations },
        )
    }
}

} // verus!
