use tauri_core::assets::{
    asset_key,
    asset_kind, asset_prefix, compression_level, out_file_name, out_file_name_of,
    prepare_javascript, wrap_javascript, AssetKind, AssetOptions,
};
use tauri_core::cli::{
    get_matches, get_matches_internal, ArgData, ArgMatches, CliArg, CliConfig, ErrorKind,
    Matches, ParseError, ParsedArg, SubcommandMatches,
};
use tauri_core::json::JsonValue;

fn arg(name: &str, takes_value: Option<bool>, multiple: Option<bool>) -> CliArg {
    CliArg { name: name.to_string(), takes_value, multiple }
}

fn parsed(name: &str, occurrences: u64, values: Option<&[&str]>) -> ParsedArg {
    ParsedArg {
        name: name.to_string(),
        occurrences,
        values: values.map(|v| v.iter().map(|s| s.to_string()).collect()),
    }
}

fn string(text: &str) -> JsonValue {
    JsonValue::String(text.to_string())
}

fn config() -> CliConfig {
    CliConfig {
        args: Some(vec![
            arg("verbose", None, None),
            arg("config", Some(true), None),
            arg("files", Some(true), Some(true)),
            arg("quiet", Some(false), Some(true)),
            arg("output", Some(true), Some(false)),
        ]),
        subcommands: Some(vec![(
            "run".to_string(),
            CliConfig { args: Some(vec![arg("debug", None, None)]), subcommands: None },
        )]),
    }
}

#[test]
fn args_are_resolved_as_declared() {
    let found = ArgMatches {
        args: vec![
            parsed("verbose", 3, None),
            parsed("config", 1, Some(&["a.json", "ignored"])),
            parsed("files", 2, Some(&["x", "y", "z"])),
            parsed("quiet", 1, Some(&["value"])),
            parsed("undeclared", 1, None),
        ],
        subcommand: None,
    };
    let matches = get_matches_internal(&config(), &found);
    assert_eq!(
        matches,
        Matches {
            args: vec![
                ("verbose".to_string(), ArgData { value: JsonValue::Bool(true), occurrences: 3 }),
                ("config".to_string(), ArgData { value: string("a.json"), occurrences: 1 }),
                (
                    "files".to_string(),
                    ArgData {
                        value: JsonValue::Array(vec![string("x"), string("y"), string("z")]),
                        occurrences: 2
                    }
                ),
                // An arg that takes no value is a flag, whatever it was given.
                ("quiet".to_string(), ArgData { value: JsonValue::Bool(true), occurrences: 1 }),
                // An arg that did not occur is a flag that is not set.
                ("output".to_string(), ArgData { value: JsonValue::Bool(false), occurrences: 0 }),
            ],
            subcommand: None,
        }
    );
}

#[test]
fn value_that_is_missing_is_null() {
    let found = ArgMatches {
        args: vec![
            parsed("config", 1, None),
            parsed("files", 1, None),
            parsed("output", 2, Some(&[])),
        ],
        subcommand: None,
    };
    let matches = get_matches_internal(&config(), &found);
    assert_eq!(matches.args[1].1, ArgData { value: JsonValue::Null, occurrences: 1 });
    assert_eq!(matches.args[2].1, ArgData { value: JsonValue::Null, occurrences: 1 });
    assert_eq!(matches.args[4].1, ArgData { value: JsonValue::Null, occurrences: 2 });
    // Several values of which none was given are an empty list.
    let found = ArgMatches { args: vec![parsed("files", 1, Some(&[]))], subcommand: None };
    assert_eq!(
        get_matches_internal(&config(), &found).args[2].1,
        ArgData { value: JsonValue::Array(Vec::new()), occurrences: 1 }
    );
}

#[test]
fn subcommand_is_resolved_by_its_own_configuration() {
    let found = ArgMatches {
        args: vec![parsed("debug", 5, None)],
        subcommand: Some(("run".to_string(), vec![parsed("debug", 1, None), parsed("verbose", 1, None)])),
    };
    let matches = get_matches_internal(&config(), &found);
    assert_eq!(matches.args.len(), 5);
    assert_eq!(
        matches.subcommand,
        Some(Box::new(SubcommandMatches {
            name: "run".to_string(),
            matches: Matches {
                args: vec![(
                    "debug".to_string(),
                    ArgData { value: JsonValue::Bool(true), occurrences: 1 }
                )],
                subcommand: None
            }
        }))
    );
    // A command without args has none to resolve.
    let bare = CliConfig { args: None, subcommands: None };
    assert_eq!(
        get_matches_internal(&bare, &ArgMatches { args: vec![parsed("x", 1, None)], subcommand: None }),
        Matches::default()
    );
}

#[test]
fn help_and_version_are_answers() {
    let help = ParseError { kind: ErrorKind::DisplayHelp, text: "USAGE: app".to_string() };
    assert_eq!(
        get_matches(&config(), Err(help)),
        Ok(Matches {
            args: vec![(
                "help".to_string(),
                ArgData { value: string("USAGE: app"), occurrences: 0 }
            )],
            subcommand: None
        })
    );
    let version = ParseError { kind: ErrorKind::DisplayVersion, text: "app 1.0".to_string() };
    assert_eq!(
        get_matches(&config(), Err(version)),
        Ok(Matches {
            args: vec![("version".to_string(), ArgData { value: JsonValue::Null, occurrences: 0 })],
            subcommand: None
        })
    );
    let wrong = ParseError { kind: ErrorKind::Other, text: "unexpected argument".to_string() };
    assert_eq!(get_matches(&config(), Err(wrong.clone())), Err(wrong));
    let found = ArgMatches { args: Vec::new(), subcommand: None };
    assert_eq!(get_matches(&config(), Ok(found)).unwrap().args.len(), 5);
}

#[test]
fn matches_are_set() {
    let mut matches = Matches::default();
    matches.set_arg("a".to_string(), ArgData { value: JsonValue::Null, occurrences: 1 });
    matches.set_subcommand("sub".to_string(), Matches::default());
    assert_eq!(
        matches.args,
        vec![("a".to_string(), ArgData { value: JsonValue::Null, occurrences: 1 })]
    );
    assert_eq!(matches.subcommand.unwrap().name, "sub");
}

#[test]
fn assets_are_prepared_by_their_extension() {
    assert_eq!(asset_kind(Some("html")), AssetKind::Html);
    assert_eq!(asset_kind(Some("js")), AssetKind::Javascript);
    assert_eq!(asset_kind(Some("cjs")), AssetKind::Javascript);
    assert_eq!(asset_kind(Some("mjs")), AssetKind::Javascript);
    assert_eq!(asset_kind(Some("JS")), AssetKind::Other);
    assert_eq!(asset_kind(Some("htm")), AssetKind::Other);
    assert_eq!(asset_kind(Some("css")), AssetKind::Other);
    assert_eq!(asset_kind(Some("")), AssetKind::Other);
    assert_eq!(asset_kind(None), AssetKind::Other);
    assert_eq!(AssetOptions::new().csp, None);
    assert_eq!(
        AssetOptions::new().csp("default-src 'self'".to_string()),
        AssetOptions { csp: Some("default-src 'self'".to_string()) }
    );
}

#[test]
fn scripts_get_the_invoke_key() {
    let js = "console.log(1)";
    let module = format!(
        r#"
              const __TAURI_INVOKE_KEY__ = __TAURI__INVOKE_KEY_TOKEN__;
              {}
            "#,
        js
    );
    let script = format!(
        r#"(function () {{
              const __TAURI_INVOKE_KEY__ = __TAURI__INVOKE_KEY_TOKEN__;
              {}
            }})()"#,
        js
    );
    assert_eq!(wrap_javascript(js, true), module);
    assert_eq!(wrap_javascript(js, false), script);
    assert_eq!(prepare_javascript(js), Some(script));
    assert_eq!(wrap_javascript("", false), wrap_javascript("", false));
}

#[test]
fn modules_are_told_by_import_and_export() {
    let modules = [
        "import{a} from 'b'",
        "import {a} from \"b\"",
        "import*as a from 'b'",
        "import * as a from 'b'",
        "import '",
        "import \";",
        "x = import('./a.js')",
        "import a from 'b-c'",
        "import a,\n b from \"bc\"",
        "export{a}",
        "export {a}",
        "export*from 'a'",
        "export * from 'a'",
        "export default 1",
        "export class A {}",
        "export let a = 1",
        "export const a = 1",
        "export function f() {}",
        "var x; export const y = x",
    ];
    for js in modules {
        assert_eq!(prepare_javascript(js), Some(wrap_javascript(js, true)), "{}", js);
    }
    let scripts = [
        "",
        "imports = 1",
        "exports.a = 1",
        "export var a",
        "import a from './b.js'",
        "require('a')",
        "import 'a'",
    ];
    for js in scripts {
        assert_eq!(prepare_javascript(js), Some(wrap_javascript(js, false)), "{}", js);
    }
}

#[test]
fn compressed_content_is_named_by_its_hash() {
    assert_eq!(out_file_name("abc", Some("js")), "abc.js");
    assert_eq!(out_file_name("abc", None), "abc");
    assert_eq!(out_file_name("abc", Some("")), "abc.");
    // The hash of nothing, and of three letters.
    assert_eq!(
        out_file_name_of(b"", None),
        "af1349b9f5f9a1a6a0404dea36dcc9499bcb25c9adc112b7cc9a93cae41f3262"
    );
    assert_eq!(
        out_file_name_of(b"abc", Some("txt")),
        "6437b3ac38465133ffb63b75273a8db548c558465d79db03fd359c6cd5bd9d85.txt"
    );
    assert_ne!(out_file_name_of(b"abd", Some("txt")), out_file_name_of(b"abc", Some("txt")));
    assert_eq!(out_file_name_of(b"abc", None), blake3::hash(b"abc").to_hex().to_string());
}

#[test]
fn level_and_prefix() {
    assert_eq!(compression_level(true, 1, 21), 1);
    assert_eq!(compression_level(false, 1, 21), 21);
    assert_eq!(
        asset_prefix(true, "/a/b.html".to_string(), Some("/a".to_string())),
        "/a"
    );
    assert_eq!(asset_prefix(false, "/a".to_string(), Some("/".to_string())), "/a");
    assert_eq!(asset_prefix(false, "/".to_string(), None), "/");
}

#[test]
fn asset_key_is_the_path_below_the_prefix() {
    assert_eq!(asset_key("/site/dist/index.html", "/site/dist"), Some("/index.html".to_string()));
    assert_eq!(asset_key("/site/dist/js/app.js", "/site/dist/"), Some("/js/app.js".to_string()));
    assert_eq!(asset_key("dist\\css\\main.css", "dist"), Some("/css/main.css".to_string()));
    assert_eq!(asset_key("C:\\site\\a.txt", "C:/site"), Some("/a.txt".to_string()));
    // The prefix itself, and an empty prefix.
    assert_eq!(asset_key("/site/dist", "/site/dist"), Some("/".to_string()));
    assert_eq!(asset_key("a/b", ""), Some("/a/b".to_string()));
    assert_eq!(asset_key("/a/b", ""), Some("/a/b".to_string()));
    // A path that only begins like the prefix does not lie under it.
    assert_eq!(asset_key("/site/distant/a", "/site/dist"), None);
    assert_eq!(asset_key("/other/index.html", "/site/dist"), None);
    assert_eq!(asset_key("/site", "/site/dist"), None);
}
