use threescalers::application::{AppId, AppKey, Application, OAuthToken, UserKey};

#[test]
fn convert_application_from_app_id() {
    let app_id = AppId::from("my_app_id");
    let app = Application::from(app_id.clone());

    assert_eq!(Application::AppId(app_id, None), app);
}

#[test]
fn convert_application_from_app_id_app_key() {
    let app_id_key = (AppId::from("my_app_id"), AppKey::from("my_app_key"));
    let app = Application::from(app_id_key.clone());

    assert_eq!(Application::AppId(app_id_key.0, Some(app_id_key.1)), app);
}

#[test]
fn convert_application_from_user_key() {
    let user_key = UserKey::from("my_user_key");
    let app = Application::from(user_key.clone());

    assert_eq!(Application::UserKey(user_key), app);
}

#[test]
fn convert_application_from_oauth_token() {
    let token = OAuthToken::from("my_oauth_token");
    let app = Application::from(token.clone());

    assert_eq!(Application::OAuthToken(token), app);
}

#[test]
fn transforms_app_id_into_params() {
    let app_id = "my_app_id";
    let app = Application::from_app_id(app_id);

    let mut result = Vec::new();
    app.to_params(&mut result);

    let expected: Vec<(String, String)> = vec![("app_id".to_string(), app_id.to_string())];
    assert_eq!(expected, result);
}

#[test]
fn transforms_app_id_and_key_into_params() {
    let app_id = "my_app_id";
    let key = "my_key";
    let app = Application::from_app_id_and_key(app_id, key);

    let mut result = Vec::new();
    app.to_params(&mut result);

    let expected: Vec<(String, String)> = vec![
        ("app_id".to_string(), app_id.to_string()),
        ("app_key".to_string(), key.to_string()),
    ];
    assert_eq!(expected, result);
}

#[test]
fn transforms_user_key_into_params() {
    let user_key = "my_user_key";
    let app = Application::from_user_key(user_key);

    let mut result = Vec::new();
    app.to_params(&mut result);

    let expected: Vec<(String, String)> = vec![("user_key".to_string(), user_key.to_string())];
    assert_eq!(expected, result);
}

#[test]
fn application_transforms_oauth_token_into_params() {
    let oauth_token = "my_token";
    let app = Application::from_oauth_token(oauth_token);

    let mut result = Vec::new();
    app.to_params(&mut result);

    let expected: Vec<(String, String)> =
        vec![("access_token".to_string(), oauth_token.to_string())];
    assert_eq!(expected, result);
}
