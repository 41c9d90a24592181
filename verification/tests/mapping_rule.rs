use itertools::Itertools as _;
use rand::seq::IndexedRandom as _;

use threescalers::http::mapping_rule::escaping::{self, Error};
use threescalers::http::mapping_rule::{Method, RestRule};

fn random_method() -> Method {
    [
        Method::Any,
        Method::GET,
        Method::HEAD,
        Method::POST,
        Method::CONNECT,
        Method::DELETE,
        Method::OPTIONS,
        Method::PUT,
        Method::TRACE,
        Method::PATCH,
        Method::Other("future_method".into()),
    ]
    .choose(&mut rand::rng())
    .unwrap()
    .clone()
}

#[test]
fn match_simple_case() -> Result<(), Error> {
    let method = random_method();
    let mr = RestRule::new(method.clone(), "/?required=1")?;

    assert!(mr
        .matches_request_line(
            format!(
                "{} {} HTTP/1.1",
                method.as_str(),
                "/test?optional=1&required=1&other=1"
            )
            .as_str()
        )
        .unwrap(),);

    Ok(())
}

#[test]
fn match_simple_cases() -> Result<(), Error> {
    let mr = RestRule::new(Method::Any, "/")?;

    let path_w_qs = [
        ("/", true),
        ("/?", true),
        ("/?a", true),
        ("/?a=", true),
        ("/?a=1", true),
        ("/?a=1&", true),
        ("/?a=1&b=2", true),
        ("/some/path", true),
        ("/some/path/", true),
        ("/some/path/?a=1&b=2", true),
    ];

    for (pnqs, expected) in path_w_qs.iter() {
        let (path, qs) = escaping::split_path_n_qs(pnqs);
        let method = random_method();

        assert_eq!(mr.matches(&method, pnqs), *expected);
        assert_eq!(mr.matches_path_with_qs(pnqs), *expected);
        assert_eq!(mr.matches_path_n_qs(path, qs), *expected);
        assert_eq!(
            mr.matches_request_line(format!("{} {} HTTP/1.1", method.as_str(), pnqs).as_str())
                .unwrap(),
            *expected
        );
    }

    Ok(())
}

#[test]
fn match_edge_cases() -> Result<(), Error> {
    let path_n_qs = "/auto?maybe_empty=&w=hello&color={color}";
    let mr = RestRule::new(Method::from("any"), path_n_qs)?;

    let path_w_qs = [
        ("/", false),
        ("/auto", false),
        ("/auto?", false),
        ("/auto?w=hello&color=red&maybe_empty", false),
        ("/auto?w=hello&color=red&maybe_empty=", true),
        ("/auto-matic?w=hello&maybe_empty=&color=green", true),
        ("/auto?maybe_empty=its-full-now&color=blue&w=hello", true),
        ("/auto-matic?color=black&w=hello&maybe_empty=&", true),
        ("/auto-matic?w=hello&color&maybe_empty=", false),
    ];

    for (pnqs, expected) in path_w_qs.iter() {
        let (path, qs) = escaping::split_path_n_qs(pnqs);
        let method = random_method();

        assert_eq!(mr.matches(&method, pnqs), *expected);
        assert_eq!(mr.matches_path_with_qs(pnqs), *expected);
        assert_eq!(mr.matches_path_n_qs(path, qs), *expected);
        assert_eq!(
            mr.matches_request_line(format!("{} {} HTTP/1.1", method.as_str(), pnqs).as_str())
                .unwrap(),
            *expected
        );
    }

    Ok(())
}

#[test]
fn match_combined_cases() -> Result<(), Error> {
    let args = [r"fmt={fmt}", r"l{an}g={code}", r"s=1", r"t=$9"];

    for permutation in args.iter().permutations(args.len()) {
        let qs = permutation.iter().join("&");
        let path_n_qs = format!("{}?{}", r"/abc/v{version}/id\$$", qs);
        let mr = RestRule::new(Method::from("aNY"), path_n_qs.as_str())?;

        let path_w_qs = [
            ("/abc/v1/id$?fmt=html&lang=ca&s=1&t=$9", true),
            ("///abc/v1//id$?fmt=html&lang=ca&s=1&t=$9", true),
            ("/abc/v1/v2/id$?fmt=html&lang=ca&s=1&t=$9", false),
            ("/abc/v1./id$?fmt=html&lang=ca&other=70&s=1&z=2&t=$9", true),
            ("/abc//v2/id$?misc=1&t=$9&fmt=html&z=2&s=1&leng=en", true),
            ("/abc/v2/id$?misc=1&t=$998&fmt=html&z=2&s=1&l.g=ca", true),
            ("/abc/v1.1/id$?missing_required_params=1", false),
            ("/abc/v1/id$?fmt=html&lang=ca&other=70&s=2&z=1&t=$9", false),
            ("/abc/v1/id$?fmt=json&lang=ca&other=70&z=2", false),
            ("/abc/v1/id?fmt=json&lang=ca&other=70&s=1&z=2&t=$9", false),
        ];

        for (pnqs, expected) in path_w_qs.iter() {
            let (path, qs) = escaping::split_path_n_qs(pnqs);
            let method = random_method();

            assert_eq!(mr.matches(&method, pnqs), *expected);
            assert_eq!(mr.matches_path_with_qs(pnqs), *expected);
            assert_eq!(mr.matches_path_n_qs(path, qs), *expected);
            assert_eq!(
                mr.matches_request_line(
                    format!("{} {} HTTP/1.1", method.as_str(), pnqs).as_str()
                )
                .unwrap(),
                *expected
            );
        }
    }

    Ok(())
}
