//! What the wallet asks of an issuer's service.

use crate::json::{lemma_field_at, lemma_obj_view, members_view, optional_string_view, Json, JsonView};
use vstd::prelude::*;

verus! {

/// A request for an issuer's metadata.
#[derive(Clone, Debug, Default, PartialEq, Eq)]
pub struct MetadataRequest {
    /// The issuer: the address of its service.
    pub credential_issuer: String,
}

/// The mathematical value of a [`MetadataRequest`].
pub ghost struct MetadataRequestView {
    pub credential_issuer: Seq<char>,
}

impl View for MetadataRequest {
    type V = MetadataRequestView;

    open spec fn view(&self) -> MetadataRequestView {
        MetadataRequestView {
            credential_issuer: self.credential_issuer@,
        }
    }
}

impl MetadataRequestView {
    /// The JSON form of a metadata request: an object with the members
    /// `credential_issuer`.
    pub open spec fn to_json(self) -> JsonView {
        JsonView::Obj(
            seq![
                ("credential_issuer"@, JsonView::Str(self.credential_issuer)),
            ],
        )
    }

    /// The metadata request that a JSON value stands for: `None` unless it is
    /// an object each of whose members reads as its field.
    pub open spec fn from_json(json: JsonView) -> Option<MetadataRequestView> {
        if json is Obj
            && json.text_field("credential_issuer"@) is Some
        {
            Some(
                MetadataRequestView {
                    credential_issuer: json.text_field("credential_issuer"@)->Some_0,
                },
            )
        } else {
            None
        }
    }

    /// Reading the JSON form of a metadata request gives it back.
    pub proof fn lemma_round_trip(self)
        ensures
            MetadataRequestView::from_json(self.to_json()) == Some(self),
    {
        reveal_strlit("credential_issuer");
        let members = self.to_json()->Obj_0;
        assert("credential_issuer"@.len() == 17);
        assert(members[0].0 == "credential_issuer"@);
        lemma_field_at(members, "credential_issuer"@, 0);
    }
}

impl MetadataRequest {
    /// A copy of this request.
    pub fn duplicate(&self) -> (copy: MetadataRequest)
        ensures
            copy@ == self@,
    {
        MetadataRequest {
            credential_issuer: self.credential_issuer.clone(),
        }
    }

    /// The JSON form of this request.
    pub fn to_json(&self) -> (json: Json)
        ensures
            json@ == self@.to_json(),
    {
        let members = vec![
            Json::member("credential_issuer", Json::Str(self.credential_issuer.clone())),
        ];
        proof {
            lemma_obj_view(members);
            assert(members_view(members@) =~= self@.to_json()->Obj_0);
        }
        Json::Obj(members)
    }

    /// Reads a metadata request from its JSON form.
    pub fn from_json(json: &Json) -> (value: Option<MetadataRequest>)
        ensures
            value.is_some() == MetadataRequestView::from_json(json@).is_some(),
            value matches Some(v) ==> MetadataRequestView::from_json(json@) == Some(v@),
    {
        match json {
            Json::Obj(_) => {},
            _ => {
                return None;
            },
        }
        let credential_issuer = match json.text_field("credential_issuer") {
            Some(value) => value,
            None => {
                return None;
            },
        };
        Some(MetadataRequest { credential_issuer })
    }
}

/// A request for an access token in exchange for a pre-authorized code.
#[derive(Clone, Debug, Default, PartialEq, Eq)]
pub struct TokenRequest {
    /// The issuer: the address of its service.
    pub credential_issuer: String,
    /// The identifier of the wallet.
    pub client_id: String,
    /// The type of the grant that is redeemed.
    pub grant_type: String,
    /// The code that stands for the issuer's authorization.
    pub pre_authorized_code: String,
    /// The PIN that the holder entered, where the issuer asks for one.
    pub tx_code: Option<String>,
}

/// The mathematical value of a [`TokenRequest`].
pub ghost struct TokenRequestView {
    pub credential_issuer: Seq<char>,
    pub client_id: Seq<char>,
    pub grant_type: Seq<char>,
    pub pre_authorized_code: Seq<char>,
    pub tx_code: Option<Seq<char>>,
}

impl View for TokenRequest {
    type V = TokenRequestView;

    open spec fn view(&self) -> TokenRequestView {
        TokenRequestView {
            credential_issuer: self.credential_issuer@,
            client_id: self.client_id@,
            grant_type: self.grant_type@,
            pre_authorized_code: self.pre_authorized_code@,
            tx_code: optional_string_view(self.tx_code),
        }
    }
}

impl TokenRequestView {
    /// The JSON form of a token request: an object with the members
    /// `credential_issuer`, `client_id`, `grant_type`, `pre-authorized_code`,
    /// `tx_code`.
    pub open spec fn to_json(self) -> JsonView {
        JsonView::Obj(
            seq![
                ("credential_issuer"@, JsonView::Str(self.credential_issuer)),
                ("client_id"@, JsonView::Str(self.client_id)),
                ("grant_type"@, JsonView::Str(self.grant_type)),
                ("pre-authorized_code"@, JsonView::Str(self.pre_authorized_code)),
                ("tx_code"@, JsonView::of_optional_text(self.tx_code)),
            ],
        )
    }

    /// The token request that a JSON value stands for: `None` unless it is an
    /// object each of whose members reads as its field.
    pub open spec fn from_json(json: JsonView) -> Option<TokenRequestView> {
        if json is Obj
            && json.text_field("credential_issuer"@) is Some
            && json.text_field("client_id"@) is Some
            && json.text_field("grant_type"@) is Some
            && json.text_field("pre-authorized_code"@) is Some
            && json.optional_text_field("tx_code"@) is Ok
        {
            Some(
                TokenRequestView {
                    credential_issuer: json.text_field("credential_issuer"@)->Some_0,
                    client_id: json.text_field("client_id"@)->Some_0,
                    grant_type: json.text_field("grant_type"@)->Some_0,
                    pre_authorized_code: json.text_field("pre-authorized_code"@)->Some_0,
                    tx_code: json.optional_text_field("tx_code"@)->Ok_0,
                },
            )
        } else {
            None
        }
    }

    /// Reading the JSON form of a token request gives it back.
    pub proof fn lemma_round_trip(self)
        ensures
            TokenRequestView::from_json(self.to_json()) == Some(self),
    {
        reveal_strlit("credential_issuer");
        reveal_strlit("client_id");
        reveal_strlit("grant_type");
        reveal_strlit("pre-authorized_code");
        reveal_strlit("tx_code");
        let members = self.to_json()->Obj_0;
        assert("credential_issuer"@.len() == 17);
        assert("client_id"@.len() == 9);
        assert("grant_type"@.len() == 10);
        assert("pre-authorized_code"@.len() == 19);
        assert("tx_code"@.len() == 7);
        assert(members[0].0 == "credential_issuer"@);
        assert(members[1].0 == "client_id"@);
        assert(members[2].0 == "grant_type"@);
        assert(members[3].0 == "pre-authorized_code"@);
        assert(members[4].0 == "tx_code"@);
        lemma_field_at(members, "credential_issuer"@, 0);
        lemma_field_at(members, "client_id"@, 1);
        lemma_field_at(members, "grant_type"@, 2);
        lemma_field_at(members, "pre-authorized_code"@, 3);
        lemma_field_at(members, "tx_code"@, 4);
    }
}

impl TokenRequest {
    /// A copy of this request.
    pub fn duplicate(&self) -> (copy: TokenRequest)
        ensures
            copy@ == self@,
    {
        TokenRequest {
            credential_issuer: self.credential_issuer.clone(),
            client_id: self.client_id.clone(),
            grant_type: self.grant_type.clone(),
            pre_authorized_code: self.pre_authorized_code.clone(),
            tx_code: self.tx_code.clone(),
        }
    }

    /// The JSON form of this request.
    pub fn to_json(&self) -> (json: Json)
        ensures
            json@ == self@.to_json(),
    {
        let members = vec![
            Json::member("credential_issuer", Json::Str(self.credential_issuer.clone())),
            Json::member("client_id", Json::Str(self.client_id.clone())),
            Json::member("grant_type", Json::Str(self.grant_type.clone())),
            Json::member("pre-authorized_code", Json::Str(self.pre_authorized_code.clone())),
            Json::member("tx_code", Json::of_optional_text(&self.tx_code)),
        ];
        proof {
            lemma_obj_view(members);
            assert(members_view(members@) =~= self@.to_json()->Obj_0);
        }
        Json::Obj(members)
    }

    /// Reads a token request from its JSON form.
    pub fn from_json(json: &Json) -> (value: Option<TokenRequest>)
        ensures
            value.is_some() == TokenRequestView::from_json(json@).is_some(),
            value matches Some(v) ==> TokenRequestView::from_json(json@) == Some(v@),
    {
        match json {
            Json::Obj(_) => {},
            _ => {
                return None;
            },
        }
        let credential_issuer = match json.text_field("credential_issuer") {
            Some(value) => value,
            None => {
                return None;
            },
        };
        let client_id = match json.text_field("client_id") {
            Some(value) => value,
            None => {
                return None;
            },
        };
        let grant_type = match json.text_field("grant_type") {
            Some(value) => value,
            None => {
                return None;
            },
        };
        let pre_authorized_code = match json.text_field("pre-authorized_code") {
            Some(value) => value,
            None => {
                return None;
            },
        };
        let tx_code = match json.optional_text_field("tx_code") {
            Ok(value) => value,
            Err(_) => {
                return None;
            },
        };
        Some(TokenRequest { credential_issuer, client_id, grant_type, pre_authorized_code, tx_code })
    }
}

/// A request to the signer for a proof that the holder has the key to which a
/// credential is to be bound.
#[derive(Clone, Debug, Default, PartialEq, Eq)]
pub struct ProofRequest {
    /// The issuer that the proof is made for.
    pub credential_issuer: String,
    /// The identifier of the wallet.
    pub client_id: String,
    /// The nonce that the issuer wants to find in the proof.
    pub c_nonce: Option<String>,
}

/// The mathematical value of a [`ProofRequest`].
pub ghost struct ProofRequestView {
    pub credential_issuer: Seq<char>,
    pub client_id: Seq<char>,
    pub c_nonce: Option<Seq<char>>,
}

impl View for ProofRequest {
    type V = ProofRequestView;

    open spec fn view(&self) -> ProofRequestView {
        ProofRequestView {
            credential_issuer: self.credential_issuer@,
            client_id: self.client_id@,
            c_nonce: optional_string_view(self.c_nonce),
        }
    }
}

impl ProofRequestView {
    /// The JSON form of a proof request: an object with the members
    /// `credential_issuer`, `client_id`, `c_nonce`.
    pub open spec fn to_json(self) -> JsonView {
        JsonView::Obj(
            seq![
                ("credential_issuer"@, JsonView::Str(self.credential_issuer)),
                ("client_id"@, JsonView::Str(self.client_id)),
                ("c_nonce"@, JsonView::of_optional_text(self.c_nonce)),
            ],
        )
    }

    /// The proof request that a JSON value stands for: `None` unless it is an
    /// object each of whose members reads as its field.
    pub open spec fn from_json(json: JsonView) -> Option<ProofRequestView> {
        if json is Obj
            && json.text_field("credential_issuer"@) is Some
            && json.text_field("client_id"@) is Some
            && json.optional_text_field("c_nonce"@) is Ok
        {
            Some(
                ProofRequestView {
                    credential_issuer: json.text_field("credential_issuer"@)->Some_0,
                    client_id: json.text_field("client_id"@)->Some_0,
                    c_nonce: json.optional_text_field("c_nonce"@)->Ok_0,
                },
            )
        } else {
            None
        }
    }

    /// Reading the JSON form of a proof request gives it back.
    pub proof fn lemma_round_trip(self)
        ensures
            ProofRequestView::from_json(self.to_json()) == Some(self),
    {
        reveal_strlit("credential_issuer");
        reveal_strlit("client_id");
        reveal_strlit("c_nonce");
        let members = self.to_json()->Obj_0;
        assert("credential_issuer"@.len() == 17);
        assert("client_id"@.len() == 9);
        assert("c_nonce"@.len() == 7);
        assert(members[0].0 == "credential_issuer"@);
        assert(members[1].0 == "client_id"@);
        assert(members[2].0 == "c_nonce"@);
        lemma_field_at(members, "credential_issuer"@, 0);
        lemma_field_at(members, "client_id"@, 1);
        lemma_field_at(members, "c_nonce"@, 2);
    }
}

impl ProofRequest {
    /// A copy of this request.
    pub fn duplicate(&self) -> (copy: ProofRequest)
        ensures
            copy@ == self@,
    {
        ProofRequest {
            credential_issuer: self.credential_issuer.clone(),
            client_id: self.client_id.clone(),
            c_nonce: self.c_nonce.clone(),
        }
    }

    /// The JSON form of this request.
    pub fn to_json(&self) -> (json: Json)
        ensures
            json@ == self@.to_json(),
    {
        let members = vec![
            Json::member("credential_issuer", Json::Str(self.credential_issuer.clone())),
            Json::member("client_id", Json::Str(self.client_id.clone())),
            Json::member("c_nonce", Json::of_optional_text(&self.c_nonce)),
        ];
        proof {
            lemma_obj_view(members);
            assert(members_view(members@) =~= self@.to_json()->Obj_0);
        }
        Json::Obj(members)
    }

    /// Reads a proof request from its JSON form.
    pub fn from_json(json: &Json) -> (value: Option<ProofRequest>)
        ensures
            value.is_some() == ProofRequestView::from_json(json@).is_some(),
            value matches Some(v) ==> ProofRequestView::from_json(json@) == Some(v@),
    {
        match json {
            Json::Obj(_) => {},
            _ => {
                return None;
            },
        }
        let credential_issuer = match json.text_field("credential_issuer") {
            Some(value) => value,
            None => {
                return None;
            },
        };
        let client_id = match json.text_field("client_id") {
            Some(value) => value,
            None => {
                return None;
            },
        };
        let c_nonce = match json.optional_text_field("c_nonce") {
            Ok(value) => value,
            Err(_) => {
                return None;
            },
        };
        Some(ProofRequest { credential_issuer, client_id, c_nonce })
    }
}

/// A request for a credential.
#[derive(Clone, Debug, Default, PartialEq, Eq)]
pub struct CredentialRequest {
    /// The issuer: the address of its service.
    pub credential_issuer: String,
    /// The token that the issuer gave out for the flow.
    pub access_token: String,
    /// The configuration of the credential that is asked for.
    pub credential_configuration_id: String,
    /// The kind of the proof of possession.
    pub proof_type: String,
    /// The proof of possession.
    pub jwt: String,
}

/// The mathematical value of a [`CredentialRequest`].
pub ghost struct CredentialRequestView {
    pub credential_issuer: Seq<char>,
    pub access_token: Seq<char>,
    pub credential_configuration_id: Seq<char>,
    pub proof_type: Seq<char>,
    pub jwt: Seq<char>,
}

impl View for CredentialRequest {
    type V = CredentialRequestView;

    open spec fn view(&self) -> CredentialRequestView {
        CredentialRequestView {
            credential_issuer: self.credential_issuer@,
            access_token: self.access_token@,
            credential_configuration_id: self.credential_configuration_id@,
            proof_type: self.proof_type@,
            jwt: self.jwt@,
        }
    }
}

impl CredentialRequestView {
    /// The JSON form of a credential request: an object with the members
    /// `credential_issuer`, `access_token`, `credential_configuration_id`,
    /// `proof_type`, `jwt`.
    pub open spec fn to_json(self) -> JsonView {
        JsonView::Obj(
            seq![
                ("credential_issuer"@, JsonView::Str(self.credential_issuer)),
                ("access_token"@, JsonView::Str(self.access_token)),
                ("credential_configuration_id"@, JsonView::Str(self.credential_configuration_id)),
                ("proof_type"@, JsonView::Str(self.proof_type)),
                ("jwt"@, JsonView::Str(self.jwt)),
            ],
        )
    }

    /// The credential request that a JSON value stands for: `None` unless it is
    /// an object each of whose members reads as its field.
    pub open spec fn from_json(json: JsonView) -> Option<CredentialRequestView> {
        if json is Obj
            && json.text_field("credential_issuer"@) is Some
            && json.text_field("access_token"@) is Some
            && json.text_field("credential_configuration_id"@) is Some
            && json.text_field("proof_type"@) is Some
            && json.text_field("jwt"@) is Some
        {
            Some(
                CredentialRequestView {
                    credential_issuer: json.text_field("credential_issuer"@)->Some_0,
                    access_token: json.text_field("access_token"@)->Some_0,
                    credential_configuration_id: json.text_field("credential_configuration_id"@)->Some_0,
                    proof_type: json.text_field("proof_type"@)->Some_0,
                    jwt: json.text_field("jwt"@)->Some_0,
                },
            )
        } else {
            None
        }
    }

    /// Reading the JSON form of a credential request gives it back.
    pub proof fn lemma_round_trip(self)
        ensures
            CredentialRequestView::from_json(self.to_json()) == Some(self),
    {
        reveal_strlit("credential_issuer");
        reveal_strlit("access_token");
        reveal_strlit("credential_configuration_id");
        reveal_strlit("proof_type");
        reveal_strlit("jwt");
        let members = self.to_json()->Obj_0;
        assert("credential_issuer"@.len() == 17);
        assert("access_token"@.len() == 12);
        assert("credential_configuration_id"@.len() == 27);
        assert("proof_type"@.len() == 10);
        assert("jwt"@.len() == 3);
        assert(members[0].0 == "credential_issuer"@);
        assert(members[1].0 == "access_token"@);
        assert(members[2].0 == "credential_configuration_id"@);
        assert(members[3].0 == "proof_type"@);
        assert(members[4].0 == "jwt"@);
        lemma_field_at(members, "credential_issuer"@, 0);
        lemma_field_at(members, "access_token"@, 1);
        lemma_field_at(members, "credential_configuration_id"@, 2);
        lemma_field_at(members, "proof_type"@, 3);
        lemma_field_at(members, "jwt"@, 4);
    }
}

impl CredentialRequest {
    /// A copy of this request.
    pub fn duplicate(&self) -> (copy: CredentialRequest)
        ensures
            copy@ == self@,
    {
        CredentialRequest {
            credential_issuer: self.credential_issuer.clone(),
            access_token: self.access_token.clone(),
            credential_configuration_id: self.credential_configuration_id.clone(),
            proof_type: self.proof_type.clone(),
            jwt: self.jwt.clone(),
        }
    }

    /// The JSON form of this request.
    pub fn to_json(&self) -> (json: Json)
        ensures
            json@ == self@.to_json(),
    {
        let members = vec![
            Json::member("credential_issuer", Json::Str(self.credential_issuer.clone())),
            Json::member("access_token", Json::Str(self.access_token.clone())),
            Json::member("credential_configuration_id", Json::Str(self.credential_configuration_id.clone())),
            Json::member("proof_type", Json::Str(self.proof_type.clone())),
            Json::member("jwt", Json::Str(self.jwt.clone())),
        ];
        proof {
            lemma_obj_view(members);
            assert(members_view(members@) =~= self@.to_json()->Obj_0);
        }
        Json::Obj(members)
    }

    /// Reads a credential request from its JSON form.
    pub fn from_json(json: &Json) -> (value: Option<CredentialRequest>)
        ensures
            value.is_some() == CredentialRequestView::from_json(json@).is_some(),
            value matches Some(v) ==> CredentialRequestView::from_json(json@) == Some(v@),
    {
        match json {
            Json::Obj(_) => {},
            _ => {
                return None;
            },
        }
        let credential_issuer = match json.text_field("credential_issuer") {
            Some(value) => value,
            None => {
                return None;
            },
        };
        let access_token = match json.text_field("access_token") {
            Some(value) => value,
            None => {
                return None;
            },
        };
        let credential_configuration_id = match json.text_field("credential_configuration_id") {
            Some(value) => value,
            None => {
                return None;
            },
        };
        let proof_type = match json.text_field("proof_type") {
            Some(value) => value,
            None => {
                return None;
            },
        };
        let jwt = match json.text_field("jwt") {
            Some(value) => value,
            None => {
                return None;
            },
        };
        Some(CredentialRequest { credential_issuer, access_token, credential_configuration_id, proof_type, jwt })
    }
}
} // verus!
