use gstm::api::{
    build_headers, check_status, classify_gist, classify_gists, create, fork, format_status, get,
    get_api_endpoint, list, parse_since, status_text, ApiConfig, Error, FileRead, Method, Request,
};
use gstm::json::{get_field, Json};

const GET_FIXTURE: &str = r#"{
  "url": "https://api.github.com/gists/aa5a315d61ae9438b18d",
  "html_url": "https://gist.github.com/aa5a315d61ae9438b18d",
  "id": "aa5a315d61ae9438b18d",
  "description": "Hello World Examples",
  "public": true,
  "created_at": "2010-04-14T02:15:15Z",
  "owner": { "login": "octocat" },
  "files": {
    "hello_world.rb": {
      "filename": "hello_world.rb",
      "type": "application/x-ruby",
      "language": "Ruby",
      "raw_url": "https://gist.githubusercontent.com/octocat/6cad326836d38bd3a7ae/raw/db9c55113504e46fa076e7df3a04ce592e2e86d8/hello_world.rb",
      "size": 167,
      "truncated": false,
      "content": "class HelloWorld\n   def initialize(name)\n      @name = name.capitalize\n   end\n   def sayHi\n      puts \"Hello !\"\n   end\nend\n\nhello = HelloWorld.new(\"World\")\nhello.sayHi"
    },
    "hello_world.py": {
      "filename": "hello_world.py",
      "type": "application/x-python",
      "language": "Python",
      "raw_url": "https://gist.githubusercontent.com/octocat/e29f3839074953e1cc2934867fa5f2d2/raw/99c1bf3a345505c2e6195198d5f8c36267de570b/hello_world.py",
      "size": 1048576,
      "truncated": true,
      "content": "class HelloWorld:\n"
    }
  }
}"#;

fn to_json(v: &serde_json::Value) -> Json {
    match v {
        serde_json::Value::Null => Json::Null,
        serde_json::Value::Bool(b) => Json::Bool(*b),
        serde_json::Value::Number(n) => match n.as_u64() {
            Some(u) => Json::Uint(u),
            None => Json::OtherNumber,
        },
        serde_json::Value::String(s) => Json::Str(s.clone()),
        serde_json::Value::Array(items) => Json::Array(items.iter().map(to_json).collect()),
        serde_json::Value::Object(members) => Json::Object(
            members.iter().map(|(k, v)| (k.clone(), to_json(v))).collect(),
        ),
    }
}

fn parse(text: &str) -> Json {
    to_json(&serde_json::from_str::<serde_json::Value>(text).unwrap())
}

fn stub_config() -> ApiConfig {
    ApiConfig { base_url: "http://127.0.0.1:4000".to_string(), user_agent: "gstm".to_string() }
}

fn header(req: &Request, name: &str) -> Option<String> {
    req.headers.get(name).map(|v| v.to_str().unwrap().to_string())
}

fn api_status(r: Result<(), Error>) -> String {
    match r {
        Err(Error::APIError { status }) => status,
        other => panic!("expected an API error, got {:?}", other),
    }
}

#[test]
fn test_get() {
    let req = get(&stub_config(), "aa5a315d61ae9438b18d", None).unwrap();
    assert_eq!(req.method, Method::Get);
    assert_eq!(req.url, "http://127.0.0.1:4000/gists/aa5a315d61ae9438b18d");
    let gist = classify_gist(200, Ok(parse(GET_FIXTURE))).unwrap();
    assert_eq!(gist.id.as_deref(), Some("aa5a315d61ae9438b18d"));
    assert!(gist.public);
    assert_eq!(gist.owner.as_ref().unwrap().login.as_deref(), Some("octocat"));
    assert_eq!(gist.files.len(), 2);
    let mut names: Vec<(String, usize, Option<bool>)> =
        gist.files.iter().map(|(n, f)| (n.clone(), f.size, f.truncated)).collect();
    names.sort();
    assert_eq!(
        names,
        vec![
            ("hello_world.py".to_string(), 1048576, Some(true)),
            ("hello_world.rb".to_string(), 167, Some(false)),
        ]
    );
}

#[test]
fn get_fixture_keeps_file_fields() {
    let gist = classify_gist(200, Ok(parse(GET_FIXTURE))).unwrap();
    let (_, py) = gist.files.iter().find(|(n, _)| n == "hello_world.py").unwrap();
    assert_eq!(py.language.as_deref(), Some("Python"));
    assert_eq!(py.content.as_deref(), Some("class HelloWorld:\n"));
    assert!(py.raw_url.as_deref().unwrap().ends_with("/hello_world.py"));
    assert_eq!(gist.created_at.as_deref(), Some("2010-04-14T02:15:15Z"));
}

#[test]
fn list_without_user_targets_public_listing() {
    let req = list(&stub_config(), None, None, None).unwrap();
    assert_eq!(req.method, Method::Get);
    assert_eq!(req.url, "http://127.0.0.1:4000/gists/public");
    assert!(req.body.is_none());
}

#[test]
fn list_with_user_targets_that_user() {
    let req = list(&stub_config(), Some("alice".to_string()), None, None).unwrap();
    assert_eq!(req.url, "http://127.0.0.1:4000/users/alice/gists");
    let since = parse_since("2020-05-01T10:00:00+02:00");
    let req = list(&ApiConfig::github(), Some("some-user_9".to_string()), since, None).unwrap();
    assert_eq!(req.url, "https://api.github.com/users/some-user_9/gists");
}

#[test]
fn not_found_is_the_same_api_error_for_every_operation() {
    let expected = Error::APIError { status: "404 Not Found".to_string() };
    // create, get and fork each answer with one gist, a listing with many
    match classify_gist(404, Ok(Json::Null)) {
        Err(e) => assert_eq!(e, expected),
        Ok(_) => panic!("a 404 must not decode"),
    }
    match classify_gist(404, Ok(parse(GET_FIXTURE))) {
        Err(e) => assert_eq!(e, expected),
        Ok(_) => panic!("a 404 must not decode"),
    }
    match classify_gists(404, Ok(Json::Null)) {
        Err(e) => assert_eq!(e, expected),
        Ok(_) => panic!("a 404 must not decode"),
    }
}

#[test]
fn status_text_uses_the_standard_reason() {
    assert_eq!(status_text(404), "404 Not Found");
    assert_eq!(status_text(500), "500 Internal Server Error");
    assert_eq!(status_text(599), "599 ");
    assert_eq!(api_status(check_status(401)), "401 Unauthorized");
    assert!(check_status(200).is_ok());
    assert!(check_status(299).is_ok());
}

#[test]
fn format_status_joins_code_and_reason() {
    assert_eq!(format_status(418, Some("I'm a teapot")), "418 I'm a teapot");
    assert_eq!(format_status(7, None), "7 ");
}

#[test]
fn body_failures_are_request_errors() {
    match classify_gist(200, Err("connection reset".to_string())) {
        Err(Error::RequestError { cause }) => assert_eq!(cause, "connection reset"),
        _ => panic!("expected a request error"),
    }
    match classify_gist(200, Ok(parse(r#"{"files": {}}"#))) {
        Err(Error::RequestError { .. }) => {}
        _ => panic!("a gist without `public` must not decode"),
    }
    match classify_gists(200, Ok(parse(r#"{"public": true, "files": {}}"#))) {
        Err(Error::RequestError { .. }) => {}
        _ => panic!("a listing must be an array"),
    }
}

#[test]
fn negative_size_does_not_decode() {
    let text = r#"{"public": false, "files": {"a": {"size": -1}}}"#;
    assert!(matches!(classify_gist(201, Ok(parse(text))), Err(Error::RequestError { .. })));
    let text = r#"{"public": false, "files": {"a": {"size": 3}}}"#;
    let gist = classify_gist(201, Ok(parse(text))).unwrap();
    assert_eq!(gist.files[0].1.size, 3);
    assert_eq!(gist.files[0].1.truncated, None);
}

#[test]
fn repeated_file_names_do_not_decode() {
    let entry = |n: u64| {
        Json::Object(vec![("size".to_string(), Json::Uint(n))])
    };
    let body = Json::Object(vec![
        ("public".to_string(), Json::Bool(true)),
        (
            "files".to_string(),
            Json::Object(vec![("a".to_string(), entry(1)), ("a".to_string(), entry(2))]),
        ),
    ]);
    assert!(matches!(classify_gist(200, Ok(body)), Err(Error::RequestError { .. })));
}

#[test]
fn listing_decodes_in_order() {
    let text = r#"[
        {"id": "1", "public": true, "files": {}, "owner": null},
        {"id": "2", "public": false, "files": {}, "description": null}
    ]"#;
    let gists = classify_gists(200, Ok(parse(text))).unwrap();
    assert_eq!(gists.len(), 2);
    assert_eq!(gists[0].id.as_deref(), Some("1"));
    assert_eq!(gists[1].id.as_deref(), Some("2"));
    assert!(gists[0].owner.is_none());
    assert!(!gists[1].public);
}

#[test]
fn later_member_wins_in_lookup() {
    let obj = Json::Object(vec![
        ("k".to_string(), Json::Uint(1)),
        ("k".to_string(), Json::Uint(2)),
    ]);
    assert_eq!(get_field(&obj, "k"), Some(&Json::Uint(2)));
    assert_eq!(get_field(&obj, "x"), None);
    assert_eq!(get_field(&Json::Null, "k"), None);
}

#[test]
fn headers_carry_agent_and_token() {
    let config = stub_config();
    let plain = build_headers(&config, None).unwrap();
    assert_eq!(plain.len(), 1);
    assert_eq!(plain.get("user-agent").unwrap(), "gstm");
    let with_token = build_headers(&config, Some("abc123".to_string())).unwrap();
    assert_eq!(with_token.len(), 2);
    assert_eq!(with_token.get("user-agent").unwrap(), "gstm");
    assert_eq!(with_token.get("authorization").unwrap(), "token abc123");
}

#[test]
fn control_characters_cannot_be_sent_as_headers() {
    let config = stub_config();
    assert!(build_headers(&config, Some("abc\n123".to_string())).is_none());
    assert!(build_headers(&config, Some("tab\tis fine".to_string())).is_some());
    assert!(matches!(
        get(&config, "x", Some("a\u{7f}".to_string())),
        Err(Error::RequestError { .. })
    ));
    assert!(matches!(
        fork(&config, "x", Some("\u{0}".to_string())),
        Err(Error::RequestError { .. })
    ));
    assert!(matches!(
        list(&config, None, None, Some("\r".to_string())),
        Err(Error::RequestError { .. })
    ));
    let reads = vec![FileRead { path: "a".to_string(), content: Ok("1".to_string()) }];
    assert!(matches!(
        create(&config, &reads, true, None, Some("\n".to_string())),
        Err(Error::RequestError { .. })
    ));
}

#[test]
fn since_parses_rfc3339() {
    let t = parse_since("2020-05-01T10:00:00+02:00").unwrap();
    assert_eq!(t.seconds, 1588320000);
    assert_eq!(t.offset_seconds, 7200);
    let t = parse_since("1970-01-01T00:00:10Z").unwrap();
    assert_eq!((t.seconds, t.offset_seconds), (10, 0));
    assert!(parse_since("yesterday").is_none());
}

#[test]
fn create_with_an_unreadable_path_sends_nothing() {
    let mut sent = 0;
    let reads = vec![
        FileRead { path: "a.txt".to_string(), content: Ok("one".to_string()) },
        FileRead { path: "missing.txt".to_string(), content: Err("not found".to_string()) },
        FileRead { path: "c.txt".to_string(), content: Ok("three".to_string()) },
    ];
    let outcome = create(&stub_config(), &reads, true, None, Some("tok".to_string()));
    if let Ok(_request) = &outcome {
        sent += 1;
    }
    assert_eq!(sent, 0);
    assert_eq!(
        outcome.unwrap_err(),
        Error::FileIOError { path: "missing.txt".to_string(), cause: "not found".to_string() }
    );
}

#[test]
fn create_builds_one_post_with_all_files() {
    let reads = vec![
        FileRead { path: "x/main.rs".to_string(), content: Ok("fn main() {}".to_string()) },
        FileRead { path: "y/main.rs".to_string(), content: Ok("".to_string()) },
    ];
    let req = create(&stub_config(), &reads, false, Some("demo".to_string()), Some("tok".to_string()))
        .unwrap();
    assert_eq!(req.method, Method::Post);
    assert_eq!(req.url, "http://127.0.0.1:4000/gists");
    assert_eq!(header(&req, "authorization").as_deref(), Some("token tok"));
    assert_eq!(header(&req, "user-agent").as_deref(), Some("gstm"));
    let content = |text: &str| {
        Json::Object(vec![("content".to_string(), Json::Str(text.to_string()))])
    };
    let expected = Json::Object(vec![
        ("description".to_string(), Json::Str("demo".to_string())),
        ("public".to_string(), Json::Bool(false)),
        (
            "files".to_string(),
            Json::Object(vec![
                ("x/main.rs".to_string(), content("fn main() {}")),
                ("y/main.rs".to_string(), content("")),
            ]),
        ),
    ]);
    assert_eq!(req.body, Some(expected));
}

#[test]
fn create_without_description_sends_an_empty_one() {
    let reads = vec![FileRead { path: "a".to_string(), content: Ok("1".to_string()) }];
    let req = create(&stub_config(), &reads, true, None, Some("t".to_string())).unwrap();
    let body = req.body.unwrap();
    assert_eq!(get_field(&body, "description"), Some(&Json::Str(String::new())));
    assert_eq!(get_field(&body, "public"), Some(&Json::Bool(true)));
}

#[test]
fn get_and_fork_urls() {
    let config = ApiConfig::github();
    assert_eq!(get_api_endpoint(), "https://api.github.com");
    assert_eq!(config.user_agent, "gstm");
    let req = get(&config, "abc", Some("t".to_string())).unwrap();
    assert_eq!(req.url, "https://api.github.com/gists/abc");
    assert_eq!(req.headers.len(), 2);
    let req = fork(&config, "abc", Some("t".to_string())).unwrap();
    assert_eq!(req.method, Method::Post);
    assert_eq!(req.url, "https://api.github.com/gists/abc/forks");
    assert_eq!(header(&req, "authorization").as_deref(), Some("token t"));
    let req = fork(&config, "abc", None).unwrap();
    assert_eq!(header(&req, "authorization"), None);
}

#[test]
fn error_messages() {
    let e = Error::APIError { status: "404 Not Found".to_string() };
    assert_eq!(e.message(), "GitHub responded with a HTTP status of 404 Not Found");
    let e = Error::RequestError { cause: "timed out".to_string() };
    assert_eq!(e.message(), "Network and parsing request failed: timed out");
    let e = Error::FileIOError { path: "a.txt".to_string(), cause: "denied".to_string() };
    assert_eq!(e.message(), "File I/O error occurred on a.txt: denied");
}
