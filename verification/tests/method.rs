use threescalers::http::mapping_rule::Method;

fn all_methods() -> Box<[Method]> {
    Box::new([
        Method::GET,
        Method::HEAD,
        Method::POST,
        Method::PUT,
        Method::DELETE,
        Method::CONNECT,
        Method::OPTIONS,
        Method::TRACE,
        Method::PATCH,
        Method::Other("future_method".into()),
    ])
}

#[test]
fn any_matches_every_other_method() {
    let method = Method::from("any");

    for other in all_methods().iter() {
        assert_eq!(&method, other);
    }
}

#[test]
fn other_only_matches_exact_other() {
    let method = Method::from("future_method");

    assert_ne!(method, Method::Other("other_future_method".into()));

    let all_methods = all_methods();
    let other = all_methods
        .iter()
        .filter(|&m| m == &method)
        .collect::<Vec<_>>();
    assert_eq!(other.len(), 1);

    assert_eq!(&method, other[0]);
}

#[test]
fn equality_and_identity() {
    let all_methods = all_methods();
    for (idx, method) in all_methods.iter().enumerate() {
        // list every method but the one at this index (ie. not using ==)
        let other_methods: Vec<_> = all_methods
            .iter()
            .enumerate()
            .filter(|(oidx, _)| idx != *oidx)
            .map(|(_, m)| m)
            .cloned()
            .collect();

        // identity
        assert_eq!(method, &all_methods[idx]);

        for other_method in other_methods {
            assert_ne!(method, &other_method);
        }
    }
}

fn transitive_id_with_strings_check(method: &Method) {
    let string: String = method.clone().into();
    let other_string_method: Method = string.into();
    let other_str_method: Method = method.as_str().into();

    assert_eq!(method, &other_string_method);
    assert_eq!(method, &other_str_method);
}

#[test]
fn transitive_id_with_strings() {
    for method in all_methods().iter() {
        transitive_id_with_strings_check(method);
    }
}

#[test]
fn transitive_id_with_method_any() {
    assert_eq!(Method::Any.as_str(), "ANY");
    assert_eq!(String::from(Method::Any), "ANY".to_string());
    assert!(matches!(Method::from("ANY"), Method::Any));
    assert!(matches!(Method::from("ANY".to_string()), Method::Any));

    transitive_id_with_strings_check(&Method::Any);
}
