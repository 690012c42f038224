use france_api_adresse::transport::{api_failure, decoded_success, is_success_status};
use france_api_adresse::types::{ApiErrorResponse, Error};

#[test]
fn success_statuses() {
    assert!(is_success_status(200));
    assert!(is_success_status(204));
    assert!(is_success_status(299));
    assert!(!is_success_status(199));
    assert!(!is_success_status(300));
    assert!(!is_success_status(400));
    assert!(!is_success_status(500));
}

#[test]
fn well_formed_envelope_gives_api_error() {
    let envelope = ApiErrorResponse {
        code: 400,
        message: "q: must contain between 3 and 200 chars".to_string(),
        detail: Some(vec!["q: too short".to_string(), "other".to_string()]),
    };
    let r: Result<(), Error> = api_failure(Ok(envelope));
    match r {
        Err(Error::ApiError { code, message, detail }) => {
            assert_eq!(code, 400);
            assert_eq!(message, "q: must contain between 3 and 200 chars");
            assert_eq!(detail, Some(vec!["q: too short".to_string(), "other".to_string()]));
        }
        other => panic!("unexpected {:?}", other),
    }
}

#[test]
fn envelope_without_detail() {
    let envelope = ApiErrorResponse { code: 503, message: "down".to_string(), detail: None };
    let r: Result<u8, Error> = api_failure(Ok(envelope));
    assert!(matches!(r, Err(Error::ApiError { code: 503, ref message, detail: None }) if message == "down"));
}

#[test]
fn malformed_envelope_gives_json_error() {
    let r: Result<u8, Error> = api_failure(Err("expected value at line 1".to_string()));
    assert!(matches!(r, Err(Error::UnmarshalJsonError(ref m)) if m == "expected value at line 1"));
}

#[test]
fn decoded_body_is_returned() {
    let r: Result<Vec<u32>, Error> = decoded_success(Ok(vec![3, 1, 2]));
    assert_eq!(r.unwrap(), vec![3, 1, 2]);
}

#[test]
fn undecodable_body_gives_json_error() {
    let r: Result<u8, Error> = decoded_success(Err("missing field `features`".to_string()));
    assert!(matches!(r, Err(Error::UnmarshalJsonError(ref m)) if m == "missing field `features`"));
}
