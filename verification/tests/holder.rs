use wallet::capabilities::holder::{
    self, HolderError, HolderOperation, HolderResponse, HolderResult, OfferRequest, OfferResponse,
};
use wallet::holder::offer::CredentialOffer;

fn response() -> OfferResponse {
    OfferResponse {
        issuance_id: "issuance-1".to_string(),
        issuer: "https://issuer.example".to_string(),
        issuer_name: "Example Issuer".to_string(),
        offered: vec![],
        tx_code: None,
    }
}

#[test]
fn holder_result_unwraps_to_the_offer_response() {
    let result = HolderResult::Success { response: HolderResponse::Offer { offer_response: response() } };
    assert_eq!(result.unwrap_offer(), Ok(response()));
    let error = HolderError::InvalidResponse { message: "no".to_string() };
    assert_eq!(HolderResult::Failure { error: error.clone() }.unwrap_offer(), Err(error));
}

#[test]
fn holder_errors_have_their_text() {
    assert_eq!(
        HolderError::InvalidRequest { message: "a".to_string() }.to_string(),
        "invalid store request a"
    );
    assert_eq!(
        HolderError::InvalidResponse { message: "b".to_string() }.to_string(),
        "invalid store response b"
    );
}

#[test]
fn offer_request_becomes_an_operation() {
    let request = OfferRequest { client_id: "wallet".to_string(), offer: CredentialOffer::default() };
    assert_eq!(holder::offer(request.clone()), HolderOperation::Offer { request });
}
