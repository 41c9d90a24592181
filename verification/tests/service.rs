use threescalers::credentials::Credentials;
use threescalers::service::Service;

#[test]
fn transforms_service_id_and_key_into_params() {
    let service_id = "my_service_id";
    let provider_key = "my_provider_key";
    let creds = Credentials::from_key(provider_key);
    let service = Service::new(service_id, creds);

    let mut result = Vec::new();
    service.to_params(&mut result);

    let expected: Vec<(String, String)> = vec![
        ("service_id".to_string(), service_id.to_string()),
        ("provider_key".to_string(), provider_key.to_string()),
    ];
    assert_eq!(expected, result);
}

#[test]
fn transforms_service_id_and_token_into_params() {
    let service_id = "my_service_id";
    let token = "my_token";
    let creds = Credentials::from_token(token);
    let service = Service::new(service_id, creds);

    let mut result = Vec::new();
    service.to_params(&mut result);

    let expected: Vec<(String, String)> = vec![
        ("service_id".to_string(), service_id.to_string()),
        ("service_token".to_string(), token.to_string()),
    ];
    assert_eq!(expected, result);
}
