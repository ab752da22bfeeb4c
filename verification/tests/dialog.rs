use tauri_core::dialog::{
    ask, open, save, set_default_path, Allowlist, AskResponse, Cmd, Dialog, DialogFilter, Error,
    FileDialogBuilder, OpenDialogOptions, PathProbe, Pick, Platform, SaveDialogOptions,
};

fn filters() -> Vec<DialogFilter> {
    vec![DialogFilter {
        name: "Images".to_string(),
        extensions: vec!["png".to_string(), "jpg".to_string()],
    }]
}

fn nothing() -> PathProbe {
    PathProbe { exists: false, is_file: false, parent: None, file_name: None }
}

fn file() -> PathProbe {
    PathProbe {
        exists: true,
        is_file: true,
        parent: Some("/home/me".to_string()),
        file_name: Some("a.png".to_string()),
    }
}

fn directory() -> PathProbe {
    PathProbe {
        exists: true,
        is_file: false,
        parent: Some("/home".to_string()),
        file_name: Some("me".to_string()),
    }
}

fn empty() -> FileDialogBuilder {
    FileDialogBuilder { directory: None, file_name: None, filters: Vec::new() }
}

#[test]
fn default_path_is_set_by_platform() {
    assert_eq!(
        set_default_path(empty(), Platform::Linux, "/home/me/a.png".to_string(), file()),
        FileDialogBuilder {
            directory: None,
            file_name: Some("/home/me/a.png".to_string()),
            filters: Vec::new()
        }
    );
    assert_eq!(
        set_default_path(empty(), Platform::Desktop, "/home/me/a.png".to_string(), file()),
        FileDialogBuilder {
            directory: Some("/home/me".to_string()),
            file_name: Some("a.png".to_string()),
            filters: Vec::new()
        }
    );
    for platform in [Platform::Linux, Platform::Desktop] {
        assert_eq!(
            set_default_path(empty(), platform, "/home/me".to_string(), directory()),
            FileDialogBuilder {
                directory: Some("/home/me".to_string()),
                file_name: None,
                filters: Vec::new()
            }
        );
    }
    // A file without a directory keeps the directory that was set.
    let rootless = PathProbe { parent: None, ..file() };
    let started = FileDialogBuilder { directory: Some("/tmp".to_string()), ..empty() };
    assert_eq!(
        set_default_path(started, Platform::Desktop, "a.png".to_string(), rootless).directory,
        Some("/tmp".to_string())
    );
}

#[test]
fn open_dialog_picks_what_was_asked_for() {
    let options = |multiple, directory| OpenDialogOptions {
        filters: filters(),
        multiple,
        directory,
        default_path: None,
    };
    let builder = FileDialogBuilder { filters: filters(), ..empty() };
    assert_eq!(
        open(options(false, false), Platform::Linux, nothing()),
        Ok(Dialog::Open { builder: builder.clone(), pick: Pick::File })
    );
    assert_eq!(
        open(options(true, false), Platform::Linux, nothing()),
        Ok(Dialog::Open { builder: builder.clone(), pick: Pick::Files })
    );
    // A folder is asked for, whatever is said of several files.
    assert_eq!(
        open(options(true, true), Platform::Desktop, nothing()),
        Ok(Dialog::Open { builder: builder.clone(), pick: Pick::Folder })
    );
    assert_eq!(
        open(options(false, true), Platform::Desktop, nothing()),
        Ok(Dialog::Open { builder, pick: Pick::Folder })
    );
}

#[test]
fn dialog_is_refused_for_a_path_that_does_not_exist() {
    let options = OpenDialogOptions {
        filters: Vec::new(),
        multiple: false,
        directory: false,
        default_path: Some("/nowhere".to_string()),
    };
    assert_eq!(
        open(options, Platform::Linux, nothing()),
        Err(Error::DialogDefaultPathNotExists("/nowhere".to_string()))
    );
    let options =
        SaveDialogOptions { filters: Vec::new(), default_path: Some("/nowhere".to_string()) };
    assert_eq!(
        save(options, Platform::Desktop, nothing()),
        Err(Error::DialogDefaultPathNotExists("/nowhere".to_string()))
    );
    let options =
        SaveDialogOptions { filters: filters(), default_path: Some("/home/me/a.png".to_string()) };
    assert_eq!(
        save(options, Platform::Desktop, file()),
        Ok(Dialog::Save {
            builder: FileDialogBuilder {
                directory: Some("/home/me".to_string()),
                file_name: Some("a.png".to_string()),
                filters: filters()
            }
        })
    );
}

#[test]
fn only_yes_is_yes() {
    assert!(ask(AskResponse::Yes));
    assert!(!ask(AskResponse::No));
    assert!(!ask(AskResponse::Error));
}

#[test]
fn requests_are_answered_by_dialogs() {
    let all = Allowlist { dialog_open: true, dialog_save: true };
    let none = Allowlist { dialog_open: false, dialog_save: false };
    let name = || Ok::<String, String>("app".to_string());
    let open_cmd = || Cmd::OpenDialog {
        options: OpenDialogOptions {
            filters: Vec::new(),
            multiple: false,
            directory: false,
            default_path: None,
        },
    };
    let save_cmd =
        || Cmd::SaveDialog { options: SaveDialogOptions { filters: Vec::new(), default_path: None } };
    assert_eq!(
        open_cmd().run(all, Platform::Linux, nothing(), name()),
        Ok(Dialog::Open { builder: empty(), pick: Pick::File })
    );
    assert_eq!(
        save_cmd().run(all, Platform::Linux, nothing(), name()),
        Ok(Dialog::Save { builder: empty() })
    );
    assert_eq!(
        open_cmd().run(none, Platform::Linux, nothing(), name()),
        Err(Error::ApiNotAllowlisted("dialog > open".to_string()))
    );
    assert_eq!(
        save_cmd().run(none, Platform::Linux, nothing(), name()),
        Err(Error::ApiNotAllowlisted("dialog > save".to_string()))
    );
    // Messages and questions need no permission.
    assert_eq!(
        Cmd::MessageDialog { message: "hello".to_string() }.run(
            none,
            Platform::Linux,
            nothing(),
            name()
        ),
        Ok(Dialog::Message { title: "app".to_string(), message: "hello".to_string() })
    );
    assert_eq!(
        Cmd::AskDialog { title: None, message: "sure?".to_string() }.run(
            none,
            Platform::Linux,
            nothing(),
            name()
        ),
        Ok(Dialog::Ask { title: "app".to_string(), message: "sure?".to_string() })
    );
    assert_eq!(
        Cmd::AskDialog { title: Some("Quit".to_string()), message: "sure?".to_string() }.run(
            none,
            Platform::Linux,
            nothing(),
            name()
        ),
        Ok(Dialog::Ask { title: "Quit".to_string(), message: "sure?".to_string() })
    );
    // The executable is asked for even where the question has a title.
    assert_eq!(
        Cmd::AskDialog { title: Some("Quit".to_string()), message: "sure?".to_string() }.run(
            all,
            Platform::Linux,
            nothing(),
            Err("gone".to_string())
        ),
        Err(Error::Io("gone".to_string()))
    );
    assert_eq!(
        Cmd::MessageDialog { message: "hello".to_string() }.run(
            all,
            Platform::Linux,
            nothing(),
            Err("gone".to_string())
        ),
        Err(Error::Io("gone".to_string()))
    );
}
