use threescalers::api_call::{ApiCall, Kind};
use threescalers::apicall::{Info, Type};
use threescalers::application::Application;
use threescalers::credentials::Credentials;
use threescalers::encoding::encode;
use threescalers::extensions::{Extension, Extensions, List};
use threescalers::http::request::Request;
use threescalers::http::{HeaderMap, Method, Parameters, RequestParameters};
use threescalers::request::Request as PlainRequest;
use threescalers::response::{Authorization, AuthorizationError, AuthorizationStatus};
use threescalers::service::Service;
use threescalers::timestamp::Timestamp;
use threescalers::transaction::Transaction;
use threescalers::usage::Usage;

#[test]
fn encode_escapes_the_apisonator_set() {
    assert_eq!(encode("plain"), "plain");
    assert_eq!(encode("foo bar?"), "foo%20bar%3F");
    assert_eq!(encode("a=b&c;[]"), "a%3Db%26c%3B%5B%5D");
    assert_eq!(encode("caf\u{e9}"), "caf%C3%A9");
}

#[test]
fn extensions_map_keeps_insertion_order_and_replaces() {
    let mut e = Extensions::new();
    assert_eq!(e.insert("b".to_owned(), "2".to_owned()), None);
    assert_eq!(e.insert("a".to_owned(), "1".to_owned()), None);
    assert_eq!(
        e.insert("b".to_owned(), "3".to_owned()),
        Some("2".to_owned())
    );
    assert_eq!(e.to_string(), "b=3&a=1");
    assert_eq!(e.remove("b"), Some("3".to_owned()));
    assert_eq!(e.remove("nope"), None);
    assert_eq!(e.to_string(), "a=1");
}

#[test]
fn extension_list_builds_and_removes() {
    let list = List::new().no_body().hierarchy().flat_usage(1);
    assert_eq!(list.len(), 3);
    assert_eq!(list.to_string(), "no_body=1&hierarchy=1&flat_usage=1");

    let mut list = list.push_other("k&1".to_owned(), "v 2".to_owned());
    assert_eq!(
        list.to_string(),
        "no_body=1&hierarchy=1&flat_usage=1&k%261=v%202"
    );

    assert!(list.remove_item(&Extension::Hierarchy).is_some());
    assert!(list.remove_item(&Extension::Hierarchy).is_none());
    assert_eq!(list.len(), 3);

    let mut list = list.push(Extension::NoBody);
    assert_eq!(list.remove_all(&Extension::NoBody), 2);
    assert!(!list.is_empty());
    assert_eq!(list.clear(), 2);
    assert!(list.is_empty());
}

#[test]
fn header_map_sorts_by_name_and_replaces() {
    let mut hm = HeaderMap::new();
    assert_eq!(hm.insert("b".to_owned(), "2".to_owned()), None);
    assert_eq!(hm.insert("a".to_owned(), "1".to_owned()), None);
    assert_eq!(hm.insert("c".to_owned(), "3".to_owned()), None);
    assert_eq!(
        hm.insert("b".to_owned(), "9".to_owned()),
        Some("2".to_owned())
    );
    let entries = hm.into_inner();
    assert_eq!(
        entries,
        vec![
            ("a".to_owned(), "1".to_owned()),
            ("b".to_owned(), "9".to_owned()),
            ("c".to_owned(), "3".to_owned()),
        ]
    );
}

#[test]
fn parameters_route_by_method() {
    let params = vec![
        ("k1".to_owned(), "v1".to_owned()),
        ("k2".to_owned(), "v2".to_owned()),
    ];
    let q = Parameters::new(&Method::GET, params.as_slice());
    assert_eq!(q.query(), Some("k1=v1&k2=v2"));
    assert_eq!(q.body(), None);
    assert_eq!(q.path_and_query("/p"), "/p?k1=v1&k2=v2");

    let mut b = Parameters::new(&Method::POST, params.as_slice());
    assert_eq!(b.query(), None);
    assert_eq!(b.body(), Some("k1=v1&k2=v2"));
    assert_eq!(b.path_and_query("/p"), "/p");
    b.push(&[("k3".to_owned(), "v3".to_owned())]);
    assert_eq!(b.body(), Some("k1=v1&k2=v2&k3=v3"));
}

#[test]
fn report_call_prefixes_each_transaction() {
    let service = Service::new("svc", Credentials::from_token("tok"));
    let app1 = Application::from_app_id("app1");
    let app2 = Application::from_app_id("app2");
    let metrics1 = [("hits", "1")];
    let usage1 = Usage::new(&metrics1);
    let txns = [
        Transaction::new(&app1, None, Some(&usage1), Some(123)),
        Transaction::new(&app2, None, None, None),
    ];
    let call = ApiCall::new(Kind::Report, &service, &txns, None);

    let expected: Vec<(String, String)> = vec![
        ("service_id".to_owned(), "svc".to_owned()),
        ("service_token".to_owned(), "tok".to_owned()),
        ("transactions[0]timestamp".to_owned(), "123".to_owned()),
        ("transactions[0]app_id".to_owned(), "app1".to_owned()),
        ("transactions[0]usage[hits]".to_owned(), "1".to_owned()),
        ("transactions[1]app_id".to_owned(), "app2".to_owned()),
    ];
    assert_eq!(call.params(), expected);
}

#[test]
fn builder_without_kind_fails() {
    let service = Service::new("svc", Credentials::from_key("key"));
    let builder = ApiCall::builder(&service);
    assert!(matches!(
        builder.build(),
        Err(threescalers::errors::Error::BuilderPatternBuildErr)
    ));

    let app = Application::from_app_id("a");
    let mut with_kind = ApiCall::builder(&service);
    with_kind.kind(Kind::Authorize);
    let txns = [Transaction::new(&app, None, None, None)];
    with_kind.transactions(&txns);
    let call = with_kind.build().unwrap();
    assert!(matches!(call.kind(), Kind::Authorize));
}

#[test]
fn info_builder_requires_kind_and_app() {
    let service = Service::new("svc", Credentials::from_key("key"));
    let mut builder = Info::builder(&service);
    assert!(builder.build().is_err());
    builder.kind(Type::Report);
    assert!(builder.build().is_err());
    let app = Application::from_app_id("a");
    builder.app(&app);
    let info = builder.build().unwrap();
    assert!(matches!(info.kind(), Type::Report));
}

#[test]
fn request_routes_report_to_post_with_headers() {
    let service = Service::new("svc", Credentials::from_key("key"));
    let app = Application::from_user_key("uk");
    let txns = [Transaction::new(&app, None, None, None)];
    let exts = List::new().no_body();
    let call = ApiCall::new(Kind::Report, &service, &txns, Some(&exts));

    let request = Request::from(&call);
    assert_eq!(request.method, Method::POST);
    assert_eq!(request.path, "/transactions.xml");
    let (uri, body) = request.uri_and_body();
    assert_eq!(uri, "/transactions.xml");
    assert_eq!(
        body,
        Some("service_id=svc&provider_key=key&transactions[0]user_key=uk")
    );
    let headers = request.headers.into_inner();
    assert_eq!(
        headers,
        vec![
            ("3scale-options".to_owned(), "no_body=1".to_owned()),
            ("User-Agent".to_owned(), "threescalers/0.1.0".to_owned()),
        ]
    );
}

#[test]
fn timestamps_render_in_decimal() {
    assert_eq!(Timestamp::new(0).as_str(), "0");
    assert_eq!(Timestamp::new(1234567890).as_str(), "1234567890");
    assert_eq!(Timestamp::new(-5).as_str(), "-5");
    assert_eq!(
        Timestamp::new(i64::MIN).as_str(),
        "-9223372036854775808"
    );
    assert!(Timestamp::none().is_none());
    assert!(!Timestamp::now().as_str().is_empty());
    assert_eq!(Timestamp::from(7).into_inner(), "7");
}

#[test]
fn extension_list_capacity_operations_keep_contents() {
    let list = threescalers::extensions::List::with_capacity(4);
    assert!(list.is_empty());
    let list = list.no_body().reserve(8).shrink_to_fit();
    let _hint = list.capacity();
    assert_eq!(list.to_string(), "no_body=1");
    assert_eq!(list.as_vec().len(), 1);
    assert_eq!(list.into_inner().len(), 1);
}

#[test]
fn request_parameters_route_by_method() {
    let params = vec![("k".to_owned(), "v".to_owned())];
    let q = RequestParameters::new(&Method::DELETE, params.as_slice());
    assert_eq!(q.query(), Some("k=v"));
    assert_eq!(q.path_and_query("/x"), "/x?k=v");
    assert_eq!(q.into_inner(), "k=v");

    let mut b = RequestParameters::new(&Method::PUT, params.as_slice());
    assert_eq!(b.body(), Some("k=v"));
    b.push(&[("k2".to_owned(), "v2".to_owned())]);
    assert_eq!(b.body(), Some("k=v&k2=v2"));
}

#[test]
fn plain_request_renders_path_and_body() {
    let r = PlainRequest::new(
        "GET".to_owned(),
        "/transactions/authorize.xml".to_owned(),
        vec![("a".to_owned(), "1".to_owned()), ("b".to_owned(), "2".to_owned())],
        Some("payload".to_owned()),
    );
    assert_eq!(r.method(), "GET");
    assert_eq!(r.endpoint(), "/transactions/authorize.xml");
    assert_eq!(r.url_params(), "a=1&b=2");
    assert_eq!(r.path(), "/transactions/authorize.xml?a=1&b=2");
    assert_eq!(r.body(), Some("payload"));
}

#[test]
fn authorization_outcome_splits_status_and_error() {
    let status = AuthorizationStatus::new(
        false,
        Some("limits exceeded".to_owned()),
        "Basic".to_owned(),
        None,
        None,
        None,
    );
    let auth = Authorization::Status(status);
    assert!(auth.is_status());
    assert!(!auth.is_error());
    let st = auth.into_inner().unwrap();
    assert!(!st.is_authorized());
    assert_eq!(st.authorized(), Err("limits exceeded"));
    assert_eq!(st.reason(), Some("limits exceeded"));
    assert_eq!(st.plan(), "Basic");

    let err = Authorization::Error(AuthorizationError {
        code: "application_not_found".to_owned(),
        description: "application with id=\"X\" was not found".to_owned(),
    });
    assert!(err.is_error());
    let e = err.into_inner().unwrap_err();
    assert_eq!(e.code(), "application_not_found");
    assert!(e.description().contains("not found"));
}

#[test]
fn copy_data_pushes_body_chunks() {
    let body = b"hello world";
    let mut offset = 6usize;
    let mut buf = [0u8; 16];
    let n = threescalers::http::request::copy_data(&mut offset, body, &mut buf);
    assert_eq!(n, 5);
    assert_eq!(offset, 11);
    assert_eq!(&buf[..5], b"world");
}
