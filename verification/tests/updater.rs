use tauri_core::json::{JsonNumber, JsonValue};
use tauri_core::scalar::Scalar;
use tauri_core::updater::{
    builder, default_archive_name_by_os, detect_archive_in_url, extract_path_from_executable,
    get_updater_target, macos_app_name_in_path, Error, ExecutableLocation, Fetched, Host,
    status_is_success, RemoteRelease, TargetOs, Update, UpdateBuilder, UpdateCheck,
};

const SERVER: &str = "http://127.0.0.1:1234";

fn json(text: &str) -> JsonValue {
    convert(&serde_json::from_str::<serde_json::Value>(text).expect("the text is JSON"))
}

fn convert(value: &serde_json::Value) -> JsonValue {
    match value {
        serde_json::Value::Null => JsonValue::Null,
        serde_json::Value::Bool(b) => JsonValue::Bool(*b),
        serde_json::Value::Number(n) => JsonValue::Number(if let Some(u) = n.as_u64() {
            JsonNumber::PosInt(u)
        } else if let Some(i) = n.as_i64() {
            JsonNumber::NegInt(i)
        } else {
            JsonNumber::Fraction(Scalar::from_bits(n.as_f64().unwrap().to_bits()))
        }),
        serde_json::Value::String(s) => JsonValue::String(s.clone()),
        serde_json::Value::Array(items) => JsonValue::Array(items.iter().map(convert).collect()),
        serde_json::Value::Object(members) => JsonValue::Object(
            members.iter().map(|(name, member)| (name.clone(), convert(member))).collect(),
        ),
    }
}

fn generate_sample_raw_json() -> String {
    r#"{
      "version": "v2.0.0",
      "notes": "Test version !",
      "pub_date": "2020-06-22T19:25:57Z",
      "platforms": {
        "darwin": {
          "signature": "dW50cnVzdGVkIGNvbW1lbnQ6IHNpZ25hdHVyZSBmcm9tIHRhdXJpIHNlY3JldCBrZXkKUldUTE5QWWxkQnlZOVJZVGdpKzJmRWZ0SkRvWS9TdFpqTU9xcm1mUmJSSG5OWVlwSklrWkN1SFpWbmh4SDlBcTU3SXpjbm0xMmRjRkphbkpVeGhGcTdrdzlrWGpGVWZQSWdzPQp0cnVzdGVkIGNvbW1lbnQ6IHRpbWVzdGFtcDoxNTkyOTE1MDU3CWZpbGU6L1VzZXJzL3J1bm5lci9ydW5uZXJzLzIuMjYzLjAvd29yay90YXVyaS90YXVyaS90YXVyaS9leGFtcGxlcy9jb21tdW5pY2F0aW9uL3NyYy10YXVyaS90YXJnZXQvZGVidWcvYnVuZGxlL29zeC9hcHAuYXBwLnRhci5negp4ZHFlUkJTVnpGUXdDdEhydTE5TGgvRlVPeVhjTnM5RHdmaGx3c0ZPWjZXWnFwVDRNWEFSbUJTZ1ZkU1IwckJGdmlwSzJPd00zZEZFN2hJOFUvL1FDZz09Cg==",
          "url": "https://github.com/lemarier/tauri-test/releases/download/v1.0.0/app.app.tar.gz"
        },
        "linux": {
          "signature": "dW50cnVzdGVkIGNvbW1lbnQ6IHNpZ25hdHVyZSBmcm9tIHRhdXJpIHNlY3JldCBrZXkKUldUTE5QWWxkQnlZOWZSM29hTFNmUEdXMHRoOC81WDFFVVFRaXdWOUdXUUdwT0NlMldqdXkyaWVieXpoUmdZeXBJaXRqSm1YVmczNXdRL1Brc0tHb1NOTzhrL1hadFcxdmdnPQp0cnVzdGVkIGNvbW1lbnQ6IHRpbWVzdGFtcDoxNTkyOTE3MzQzCWZpbGU6L2hvbWUvcnVubmVyL3dvcmsvdGF1cmkvdGF1cmkvdGF1cmkvZXhhbXBsZXMvY29tbXVuaWNhdGlvbi9zcmMtdGF1cmkvdGFyZ2V0L2RlYnVnL2J1bmRsZS9hcHBpbWFnZS9hcHAuQXBwSW1hZ2UudGFyLmd6CmRUTUM2bWxnbEtTbUhOZGtERUtaZnpUMG5qbVo5TGhtZWE1SFNWMk5OOENaVEZHcnAvVW0zc1A2ajJEbWZUbU0yalRHT0FYYjJNVTVHOHdTQlYwQkF3PT0K",
          "url": "https://github.com/lemarier/tauri-test/releases/download/v1.0.0/app.AppImage.tar.gz"
        },
        "win64": {
          "signature": "dW50cnVzdGVkIGNvbW1lbnQ6IHNpZ25hdHVyZSBmcm9tIHRhdXJpIHNlY3JldCBrZXkKUldUTE5QWWxkQnlZOVJHMWlvTzRUSlQzTHJOMm5waWpic0p0VVI2R0hUNGxhQVMxdzBPRndlbGpXQXJJakpTN0toRURtVzBkcm15R0VaNTJuS1lZRWdzMzZsWlNKUVAzZGdJPQp0cnVzdGVkIGNvbW1lbnQ6IHRpbWVzdGFtcDoxNTkyOTE1NTIzCWZpbGU6RDpcYVx0YXVyaVx0YXVyaVx0YXVyaVxleGFtcGxlc1xjb21tdW5pY2F0aW9uXHNyYy10YXVyaVx0YXJnZXRcZGVidWdcYXBwLng2NC5tc2kuemlwCitXa1lQc3A2MCs1KzEwZnVhOGxyZ2dGMlZqbjBaVUplWEltYUdyZ255eUF6eVF1dldWZzFObStaVEQ3QU1RS1lzcjhDVU4wWFovQ1p1QjJXbW1YZUJ3PT0K",
          "url": "https://github.com/lemarier/tauri-test/releases/download/v1.0.0/app.x64.msi.zip"
        }
      }
    }"#.into()
}

fn generate_sample_platform_json(
    version: &str,
    public_signature: &str,
    download_url: &str,
) -> String {
    format!(
        r#"
        {{
          "name": "v{}",
          "notes": "This is the latest version! Once updated you shouldn't see this prompt.",
          "pub_date": "2020-06-25T14:14:19Z",
          "signature": "{}",
          "url": "{}"
        }}
      "#,
        version, public_signature, download_url
    )
}

fn generate_sample_bad_json() -> String {
    r#"{
      "version": "v0.0.3",
      "notes": "Blablaa",
      "date": "2020-02-20T15:41:00Z",
      "download_link": "https://github.com/lemarier/tauri-test/releases/download/v0.0.1/update3.tar.gz"
    }"#.into()
}

fn host(os: TargetOs) -> Host {
    Host {
        os,
        executable: Ok(ExecutableLocation {
            parent: Some("/opt/app/bin".to_string()),
            bundle: Some("/opt".to_string()),
        }),
        named: None,
        appimage: None,
    }
}

/// An answer that the server gives to requests for one path.
struct Mock {
    method: String,
    path: String,
    status: u16,
    headers: Vec<(String, String)>,
    body: String,
}

fn mock(method: &str, path: &str) -> Mock {
    Mock {
        method: method.to_string(),
        path: path.to_string(),
        status: 200,
        headers: Vec::new(),
        body: String::new(),
    }
}

impl Mock {
    fn with_status(mut self, status: u16) -> Self {
        self.status = status;
        self
    }

    fn with_header(mut self, name: &str, value: &str) -> Self {
        self.headers.push((name.to_string(), value.to_string()));
        self
    }

    fn with_body(mut self, body: String) -> Self {
        self.body = body;
        self
    }

    /// What the server answers to a request for a manifest: `None` for an
    /// address that is not this server's, and nothing to read at a path
    /// that has no answer.
    fn serve(&self, link: &str) -> Option<(u16, String)> {
        let path = link.strip_prefix(SERVER)?;
        let path = if path.is_empty() { "/" } else { path };
        if self.method == "GET" && self.path == path {
            assert!(self.headers.contains(&("content-type".to_string(), "application/json".to_string())));
            Some((self.status, self.body.clone()))
        } else {
            Some((501, "null".to_string()))
        }
    }
}

fn server_url() -> String {
    SERVER.to_string()
}

/// Runs a check against a server, as the application does.
fn block(builder: UpdateBuilder<'_>, server: &Mock) -> Result<Update, Error> {
    let mut check: UpdateCheck = builder.build(host(TargetOs::Linux))?;
    loop {
        let link = check.request().expect("an address is left").clone();
        let fetched = match server.serve(&link) {
            Some((status, body)) => Fetched::Read { status, data: json(&body) },
            None => Fetched::Failed,
        };
        if let Some(result) = check.respond(fetched) {
            return result;
        }
    }
}

#[test]
fn test_app_name_in_path() {
    let executable = std::path::Path::new(
        "/Applications/updater-example.app/Contents/MacOS/updater-example",
    );
    let parent = executable.parent().map(|p| p.to_string_lossy().into_owned());
    let bundle = executable
        .parent()
        .and_then(|p| p.parent())
        .and_then(|p| p.parent())
        .map(|p| p.to_string_lossy().into_owned());
    let location = ExecutableLocation { parent, bundle };
    let executable = extract_path_from_executable(&location, TargetOs::Macos, None);
    let components: Vec<String> = std::path::Path::new(&executable)
        .components()
        .map(|c| c.as_os_str().to_string_lossy().into_owned())
        .collect();
    let app_name = macos_app_name_in_path(&components);
    assert!(std::path::Path::new(&executable).ends_with("updater-example.app"));
    assert_eq!(app_name, "updater-example.app".to_string());
}

#[test]
fn simple_http_updater() {
    let _m = mock("GET", "/")
        .with_status(200)
        .with_header("content-type", "application/json")
        .with_body(generate_sample_raw_json());

    let check_update = block(builder().current_version("0.0.0").url(server_url()), &_m);

    assert!(check_update.is_ok());
    let updater = check_update.expect("Can't check update");

    assert!(updater.should_update);
}

#[test]
fn simple_http_updater_raw_json() {
    let _m = mock("GET", "/")
        .with_status(200)
        .with_header("content-type", "application/json")
        .with_body(generate_sample_raw_json());

    let check_update = block(builder().current_version("0.0.0").url(server_url()), &_m);

    assert!(check_update.is_ok());
    let updater = check_update.expect("Can't check update");

    assert!(updater.should_update);
}

#[test]
fn simple_http_updater_raw_json_win64() {
    let _m = mock("GET", "/")
        .with_status(200)
        .with_header("content-type", "application/json")
        .with_body(generate_sample_raw_json());

    let check_update =
        block(builder().current_version("0.0.0").target("win64").url(server_url()), &_m);

    assert!(check_update.is_ok());
    let updater = check_update.expect("Can't check update");

    assert!(updater.should_update);
    assert_eq!(updater.version, "2.0.0");
    assert_eq!(updater.signature, Some("dW50cnVzdGVkIGNvbW1lbnQ6IHNpZ25hdHVyZSBmcm9tIHRhdXJpIHNlY3JldCBrZXkKUldUTE5QWWxkQnlZOVJHMWlvTzRUSlQzTHJOMm5waWpic0p0VVI2R0hUNGxhQVMxdzBPRndlbGpXQXJJakpTN0toRURtVzBkcm15R0VaNTJuS1lZRWdzMzZsWlNKUVAzZGdJPQp0cnVzdGVkIGNvbW1lbnQ6IHRpbWVzdGFtcDoxNTkyOTE1NTIzCWZpbGU6RDpcYVx0YXVyaVx0YXVyaVx0YXVyaVxleGFtcGxlc1xjb21tdW5pY2F0aW9uXHNyYy10YXVyaVx0YXJnZXRcZGVidWdcYXBwLng2NC5tc2kuemlwCitXa1lQc3A2MCs1KzEwZnVhOGxyZ2dGMlZqbjBaVUplWEltYUdyZ255eUF6eVF1dldWZzFObStaVEQ3QU1RS1lzcjhDVU4wWFovQ1p1QjJXbW1YZUJ3PT0K".into()));
    assert_eq!(
        updater.download_url,
        "https://github.com/lemarier/tauri-test/releases/download/v1.0.0/app.x64.msi.zip"
    );
}

#[test]
fn simple_http_updater_raw_json_uptodate() {
    let _m = mock("GET", "/")
        .with_status(200)
        .with_header("content-type", "application/json")
        .with_body(generate_sample_raw_json());

    let check_update = block(builder().current_version("10.0.0").url(server_url()), &_m);

    assert!(check_update.is_ok());
    let updater = check_update.expect("Can't check update");

    assert!(!updater.should_update);
}

#[test]
fn simple_http_updater_without_version() {
    let _m = mock("GET", "/darwin/1.0.0")
        .with_status(200)
        .with_header("content-type", "application/json")
        .with_body(generate_sample_platform_json(
            "2.0.0",
            "SampleTauriKey",
            "https://tauri.studio",
        ));

    let check_update = block(
        builder()
            .current_version("1.0.0")
            .url(format!("{}/darwin/{{{{current_version}}}}", server_url())),
        &_m,
    );

    assert!(check_update.is_ok());
    let updater = check_update.expect("Can't check update");

    assert!(updater.should_update);
}

#[test]
fn http_updater_uptodate() {
    let _m = mock("GET", "/darwin/10.0.0")
        .with_status(200)
        .with_header("content-type", "application/json")
        .with_body(generate_sample_platform_json(
            "2.0.0",
            "SampleTauriKey",
            "https://tauri.studio",
        ));

    let check_update = block(
        builder()
            .current_version("10.0.0")
            .url(format!("{}/darwin/{{{{current_version}}}}", server_url())),
        &_m,
    );

    assert!(check_update.is_ok());
    let updater = check_update.expect("Can't check update");

    assert!(!updater.should_update);
}

#[test]
fn http_updater_fallback_urls() {
    let _m = mock("GET", "/")
        .with_status(200)
        .with_header("content-type", "application/json")
        .with_body(generate_sample_raw_json());

    let check_update = block(
        builder().url("http://badurl.www.tld/1".into()).url(server_url()).current_version("0.0.1"),
        &_m,
    );

    assert!(check_update.is_ok());
    let updater = check_update.expect("Can't check remote update");

    assert!(updater.should_update);
}

#[test]
fn http_updater_fallback_urls_withs_array() {
    let _m = mock("GET", "/")
        .with_status(200)
        .with_header("content-type", "application/json")
        .with_body(generate_sample_raw_json());

    let check_update = block(
        builder().urls(&["http://badurl.www.tld/1".into(), server_url()]).current_version("0.0.1"),
        &_m,
    );

    assert!(check_update.is_ok());
    let updater = check_update.expect("Can't check remote update");

    assert!(updater.should_update);
}

#[test]
fn http_updater_missing_remote_data() {
    let _m = mock("GET", "/")
        .with_status(200)
        .with_header("content-type", "application/json")
        .with_body(generate_sample_bad_json());

    let check_update = block(builder().url(server_url()).current_version("0.0.1"), &_m);

    assert!(check_update.is_err());
}

#[test]
fn manifest_without_an_address_is_reported_as_a_network_error() {
    let _m = mock("GET", "/")
        .with_status(200)
        .with_header("content-type", "application/json")
        .with_body(generate_sample_bad_json());
    assert_eq!(
        block(builder().url(server_url()).current_version("0.0.1"), &_m),
        Err(Error::Network("Remote JSON error: Release missing `url`".to_string()))
    );
}

#[test]
fn builder_starts_empty_and_collects_settings() {
    let empty = builder();
    assert_eq!(empty, UpdateBuilder::new());
    assert_eq!(empty, UpdateBuilder::default());
    assert!(empty.urls.is_empty());
    assert_eq!(empty.target, None);
    assert_eq!(empty.executable_path, None);
    assert_eq!(empty.current_version, "0.1.0");

    let set = builder()
        .url("a".to_string())
        .url("b".to_string())
        .current_version("1.2.3")
        .target("darwin")
        .executable_path("/opt/app/bin/app");
    assert_eq!(set.urls, vec!["a".to_string(), "b".to_string()]);
    assert_eq!(set.current_version, "1.2.3");
    assert_eq!(set.target, Some("darwin".to_string()));
    assert_eq!(set.executable_path, Some("/opt/app/bin/app".to_string()));
    // `urls` takes the place of what was there.
    let replaced = set.urls(&["c".to_string()]);
    assert_eq!(replaced.urls, vec!["c".to_string()]);
    assert_eq!(replaced.target, Some("darwin".to_string()));
}

#[test]
fn build_fails_in_order() {
    // No address comes first.
    let no_executable =
        Host {
        os: TargetOs::Other,
        executable: Err("gone".to_string()),
        named: None,
        appimage: None,
    };
    assert_eq!(
        builder().build(no_executable),
        Err(Error::Builder("Unable to check update, `url` is required.".to_string()))
    );
    // Then the executable.
    let no_executable =
        Host {
        os: TargetOs::Other,
        executable: Err("gone".to_string()),
        named: None,
        appimage: None,
    };
    assert_eq!(builder().url("a".to_string()).build(no_executable), Err(Error::Io("gone".to_string())));
    // An executable that is named stands for the one that runs.
    let named = Host {
        os: TargetOs::Linux,
        executable: Err("gone".to_string()),
        named: Some(ExecutableLocation { parent: Some("/srv/app".to_string()), bundle: None }),
        appimage: None,
    };
    let check =
        builder().url("a".to_string()).executable_path("/srv/app/run").build(named).unwrap();
    assert_eq!(check.extract_path, "/srv/app");
    let both = Host {
        os: TargetOs::Linux,
        executable: Ok(ExecutableLocation { parent: Some("/opt/app/bin".to_string()), bundle: None }),
        named: Some(ExecutableLocation { parent: Some("/srv/app".to_string()), bundle: None }),
        appimage: None,
    };
    assert_eq!(builder().url("a".to_string()).build(both).unwrap().extract_path, "/opt/app/bin");
    // Then the platform, unless a target is set.
    assert_eq!(
        builder().url("a".to_string()).build(host(TargetOs::Other)),
        Err(Error::UnsupportedPlatform)
    );
    let check = builder().url("a".to_string()).target("amiga").build(host(TargetOs::Other)).unwrap();
    assert_eq!(check.target, "amiga");
    assert_eq!(check.extract_path, "/opt/app/bin");
    assert_eq!(check.next, 0);
    assert_eq!(check.last_error, None);
}

#[test]
fn addresses_are_filled_in() {
    let check = builder()
        .current_version("1.0.0")
        .url("https://a/{{target}}/{{current_version}}?v={{current_version}}".to_string())
        .url("https://b/plain".to_string())
        .build(host(TargetOs::Macos))
        .unwrap();
    assert_eq!(
        check.links,
        vec!["https://a/darwin/1.0.0?v=1.0.0".to_string(), "https://b/plain".to_string()]
    );
    assert_eq!(check.request(), Some(&"https://a/darwin/1.0.0?v=1.0.0".to_string()));
}

#[test]
fn check_ends_as_the_answers_say() {
    let start = || {
        builder()
            .current_version("1.0.0")
            .url("one".to_string())
            .url("two".to_string())
            .build(host(TargetOs::Linux))
            .unwrap()
    };
    // 204: nothing newer.
    let mut check = start();
    assert_eq!(
        check.respond(Fetched::Read { status: 204, data: JsonValue::Null }),
        Some(Err(Error::UpToDate))
    );
    // A body that cannot be read passes the turn, and is remembered.
    let mut check = start();
    assert_eq!(check.respond(Fetched::Unreadable("reset".to_string())), None);
    assert_eq!(check.request(), Some(&"two".to_string()));
    assert_eq!(
        check.respond(Fetched::Failed),
        Some(Err(Error::Network("Tauri API error: reset".to_string())))
    );
    let mut check = start();
    assert_eq!(check.respond(Fetched::Failed), None);
    assert_eq!(
        check.respond(Fetched::Unreadable("reset".to_string())),
        Some(Err(Error::Network("Tauri API error: reset".to_string())))
    );
    // A failure passes the turn; two failures and no manifest at all.
    let mut check = start();
    assert_eq!(check.respond(Fetched::Failed), None);
    assert_eq!(check.request(), Some(&"two".to_string()));
    assert_eq!(
        check.respond(Fetched::Read { status: 500, data: JsonValue::Null }),
        Some(Err(Error::RemoteMetadata(
            "Unable to extract update metadata from the remote server.".to_string()
        )))
    );
    // A manifest without a release is remembered over a later failure.
    let mut check = start();
    assert_eq!(check.respond(Fetched::Read { status: 200, data: json("{}") }), None);
    assert_eq!(
        check.last_error,
        Some(Error::RemoteMetadata("Release missing `name` and `version`".to_string()))
    );
    assert_eq!(
        check.respond(Fetched::Failed),
        Some(Err(Error::Network(
            "Remote JSON error: Release missing `name` and `version`".to_string()
        )))
    );
    // 299 is a success, 300 is not.
    let mut check = start();
    assert_eq!(check.respond(Fetched::Read { status: 300, data: json("{}") }), None);
    assert_eq!(check.last_error, None);
    let release = r#"{"version": "1.0.1", "url": "u"}"#;
    let found = check.respond(Fetched::Read { status: 299, data: json(release) });
    let update = found.unwrap().unwrap();
    assert!(update.should_update);
    assert_eq!(update.version, "1.0.1");
    assert_eq!(update.current_version, "1.0.0");
    assert_eq!(update.date, "N/A");
    assert_eq!(update.body, None);
    assert_eq!(update.signature, None);
    assert_eq!(update.target, "linux");
    assert_eq!(update.extract_path, "/opt/app/bin");
    assert_eq!(update.download_url, "u");
}

#[test]
fn versions_are_compared_as_semantic_versions() {
    let cases = [
        ("1.0.0", "1.0.1", true),
        ("1.0.1", "1.0.0", false),
        ("1.0.0", "1.0.0", false),
        ("1.9.0", "1.10.0", true),
        ("1.0.0-alpha", "1.0.0", true),
        ("1.0.0", "1.0.0-alpha", false),
        // What is no version is never an update.
        ("1.0.0", "latest", false),
        ("one", "2.0.0", false),
        ("1.0", "2.0.0", false),
    ];
    for (current, announced, expected) in cases {
        let mut check = builder()
            .current_version(current)
            .url("one".to_string())
            .build(host(TargetOs::Linux))
            .unwrap();
        let manifest = format!(r#"{{"version": "{}", "url": "u"}}"#, announced);
        let update = check
            .respond(Fetched::Read { status: 200, data: json(&manifest) })
            .unwrap()
            .unwrap();
        assert_eq!(update.should_update, expected, "{} -> {}", current, announced);
        assert_eq!(update.version, announced);
    }
}

#[test]
fn release_is_read_from_either_schema() {
    let flat = json(
        r#"{"name": "vv1.2.3", "notes": 5, "pub_date": true, "signature": "sig", "url": "u"}"#,
    );
    let release = RemoteRelease::from_release(&flat, "linux").unwrap();
    assert_eq!(
        release,
        RemoteRelease {
            version: "1.2.3".to_string(),
            date: "N/A".to_string(),
            download_url: "u".to_string(),
            body: Some("".to_string()),
            signature: Some("sig".to_string()),
        }
    );
    // `version` wins over `name`, and only leading `v`s go.
    let both = json(r#"{"name": "v9", "version": "v1.0.0-vv", "url": "u"}"#);
    assert_eq!(RemoteRelease::from_release(&both, "linux").unwrap().version, "1.0.0-vv");

    let platforms = json(
        r#"{"version": "2.0.0", "signature": "top", "url": "top",
            "platforms": {"linux": {"url": "l"}, "darwin": {"url": "d", "signature": 7}}}"#,
    );
    let linux = RemoteRelease::from_release(&platforms, "linux").unwrap();
    assert_eq!(linux.download_url, "l");
    assert_eq!(linux.signature, None);
    let darwin = RemoteRelease::from_release(&platforms, "darwin").unwrap();
    assert_eq!(darwin.download_url, "d");
    assert_eq!(darwin.signature, Some("".to_string()));

    let errors = [
        (r#"{"url": "u"}"#, "Release missing `name` and `version`"),
        (r#"{"version": 1, "url": "u"}"#, "Unable to extract `version` from remote server"),
        (r#"{"name": null, "url": "u"}"#, "Unable to extract `name` from remote server`"),
        (r#"{"version": "1"}"#, "Release missing `url`"),
        (r#"{"version": "1", "url": 1}"#, "Unable to extract `url` from remote server`"),
        (r#"{"version": "1", "url": "u", "platforms": {}}"#, "Platform not available"),
        (r#"{"version": "1", "url": "u", "platforms": []}"#, "Platform not available"),
        (r#"{"version": "1", "url": "u", "platforms": {"linux": {}}}"#, "Release missing `url`"),
        (r#"[1, 2]"#, "Release missing `name` and `version`"),
    ];
    for (manifest, reason) in errors {
        assert_eq!(
            RemoteRelease::from_release(&json(manifest), "linux"),
            Err(Error::RemoteMetadata(reason.to_string())),
            "{}",
            manifest
        );
    }
}

#[test]
fn later_member_of_a_name_counts() {
    let value = JsonValue::Object(vec![
        ("a".to_string(), JsonValue::Bool(false)),
        ("b".to_string(), JsonValue::Null),
        ("a".to_string(), JsonValue::Bool(true)),
    ]);
    assert_eq!(value.get("a"), Some(&JsonValue::Bool(true)));
    assert_eq!(value.get("b"), Some(&JsonValue::Null));
    assert_eq!(value.get("c"), None);
    assert_eq!(JsonValue::Array(vec![]).get("a"), None);
    assert_eq!(JsonValue::String("s".to_string()).as_str(), Some("s"));
    assert_eq!(JsonValue::Bool(true).as_str(), None);
}

#[test]
fn targets_and_archive_names() {
    assert_eq!(get_updater_target(TargetOs::Linux), Some("linux".to_string()));
    assert_eq!(get_updater_target(TargetOs::Macos), Some("darwin".to_string()));
    assert_eq!(get_updater_target(TargetOs::Windows32), Some("win32".to_string()));
    assert_eq!(get_updater_target(TargetOs::Windows64), Some("win64".to_string()));
    assert_eq!(get_updater_target(TargetOs::Other), None);
    assert_eq!(default_archive_name_by_os(TargetOs::Windows64), "update.zip");
    assert_eq!(default_archive_name_by_os(TargetOs::Windows32), "update.zip");
    assert_eq!(default_archive_name_by_os(TargetOs::Linux), "update.tar.gz");
    assert_eq!(default_archive_name_by_os(TargetOs::Other), "update.tar.gz");
    assert_eq!(detect_archive_in_url("https://a/b/app.tar.gz"), "app.tar.gz");
    assert_eq!(detect_archive_in_url("app.zip"), "app.zip");
    assert_eq!(detect_archive_in_url("https://a/b/"), "");
    assert_eq!(detect_archive_in_url(""), "");
}

#[test]
fn extract_path_by_platform() {
    let location = ExecutableLocation {
        parent: Some("/Applications/A.app/Contents/MacOS".to_string()),
        bundle: Some("/Applications/A.app".to_string()),
    };
    assert_eq!(
        extract_path_from_executable(&location, TargetOs::Macos, Some("/x.AppImage".to_string())),
        "/Applications/A.app"
    );
    assert_eq!(
        extract_path_from_executable(&location, TargetOs::Linux, Some("/x.AppImage".to_string())),
        "/x.AppImage"
    );
    assert_eq!(
        extract_path_from_executable(&location, TargetOs::Linux, None),
        "/Applications/A.app/Contents/MacOS"
    );
    assert_eq!(
        extract_path_from_executable(
            &location,
            TargetOs::Windows64,
            Some("/x.AppImage".to_string())
        ),
        "/Applications/A.app/Contents/MacOS"
    );
    let plain = ExecutableLocation { parent: Some("/usr/bin".to_string()), bundle: None };
    assert_eq!(extract_path_from_executable(&plain, TargetOs::Macos, None), "/usr/bin");
}

#[test]
fn statuses_of_success_are_those_from_200_to_299() {
    for status in [200u16, 204, 250, 299] {
        assert!(status_is_success(status), "{}", status);
    }
    for status in [0u16, 99, 100, 199, 300, 404, 500, 999, 1000, u16::MAX] {
        assert!(!status_is_success(status), "{}", status);
    }
    // A status that is none of HTTP is none of success: the turn passes.
    let mut check = builder()
        .url("one".to_string())
        .url("two".to_string())
        .build(host(TargetOs::Linux))
        .unwrap();
    assert_eq!(check.respond(Fetched::Read { status: 0, data: JsonValue::Null }), None);
    assert_eq!(check.request(), Some(&"two".to_string()));
}
