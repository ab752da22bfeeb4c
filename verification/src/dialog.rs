//! The dialog endpoints: what a request from web content asks the native
//! dialogs for.

use vstd::prelude::*;
use vstd::string::*;

verus! {

/// A group of file extensions under a name.
#[derive(Clone, Debug, PartialEq, Eq)]
pub struct DialogFilter {
    pub name: String,
    pub extensions: Vec<String>,
}

/// The options for the open dialog API.
#[derive(Clone, Debug, PartialEq, Eq)]
pub struct OpenDialogOptions {
    /// The filters of the dialog.
    pub filters: Vec<DialogFilter>,
    /// Whether the dialog allows multiple selection or not.
    pub multiple: bool,
    /// Whether the dialog is a directory selection (`true` value) or file selection (`false` value).
    pub directory: bool,
    /// The initial path of the dialog.
    pub default_path: Option<String>,
}

/// The options for the save dialog API.
#[derive(Clone, Debug, PartialEq, Eq)]
pub struct SaveDialogOptions {
    /// The filters of the dialog.
    pub filters: Vec<DialogFilter>,
    /// The initial path of the dialog.
    pub default_path: Option<String>,
}

/// The API descriptor.
#[derive(Clone, Debug, PartialEq, Eq)]
pub enum Cmd {
    /// The open dialog API.
    OpenDialog { options: OpenDialogOptions },
    /// The save dialog API.
    SaveDialog { options: SaveDialogOptions },
    MessageDialog { message: String },
    AskDialog { title: Option<String>, message: String },
}

/// Why a dialog was not shown.
#[derive(Clone, Debug, PartialEq, Eq)]
pub enum Error {
    /// The application does not allow this endpoint; its name.
    ApiNotAllowlisted(String),
    /// The initial path of the dialog does not exist; the path.
    DialogDefaultPathNotExists(String),
    /// The running executable could not be told; the cause in words.
    Io(String),
}

/// What the disk says of the initial path of a dialog.
#[derive(Clone, Debug, PartialEq, Eq)]
pub struct PathProbe {
    /// Whether something exists at the path.
    pub exists: bool,
    /// Whether that is a file.
    pub is_file: bool,
    /// The directory that holds it, if there is one.
    pub parent: Option<String>,
    /// Its name: the last component of the path.
    pub file_name: Option<String>,
}

/// How a dialog names the file that it starts with.
#[derive(Clone, Copy, Debug, PartialEq, Eq, Structural)]
pub enum Platform {
    /// By its whole path, without a directory: Linux.
    Linux,
    /// By its directory and its name: Windows and macOS.
    Desktop,
}

/// Where a file dialog starts.
#[derive(Clone, Debug, PartialEq, Eq)]
pub struct FileDialogBuilder {
    /// The directory that the dialog shows first.
    pub directory: Option<String>,
    /// The file name that the dialog proposes.
    pub file_name: Option<String>,
    /// The groups of extensions to choose among.
    pub filters: Vec<DialogFilter>,
}

/// What an open dialog lets the user pick.
#[derive(Clone, Copy, Debug, PartialEq, Eq, Structural)]
pub enum Pick {
    Folder,
    Files,
    File,
}

/// A native dialog to show.
#[derive(Clone, Debug, PartialEq, Eq)]
pub enum Dialog {
    Open { builder: FileDialogBuilder, pick: Pick },
    Save { builder: FileDialogBuilder },
    Message { title: String, message: String },
    Ask { title: String, message: String },
}

/// What the user answered to a question.
#[derive(Clone, Copy, Debug, PartialEq, Eq, Structural)]
pub enum AskResponse {
    Yes,
    No,
    Error,
}

/// The endpoints that an application allows.
#[derive(Clone, Copy, Debug, PartialEq, Eq, Structural)]
pub struct Allowlist {
    pub dialog_open: bool,
    pub dialog_save: bool,
}

/// The start of a dialog after its initial path is set: a file is proposed
/// by name (on Linux by its whole path, elsewhere by its last component
/// inside its directory, where it has one), and anything else is the
/// directory that the dialog shows first.
pub open spec fn with_default_path(
    builder: FileDialogBuilder,
    platform: Platform,
    default_path: String,
    probe: PathProbe,
) -> FileDialogBuilder {
    if probe.is_file {
        match platform {
            Platform::Linux => FileDialogBuilder { file_name: Some(default_path), ..builder },
            Platform::Desktop => FileDialogBuilder {
                directory: match probe.parent {
                    Some(parent) => Some(parent),
                    None => builder.directory,
                },
                file_name: probe.file_name,
                ..builder
            },
        }
    } else {
        FileDialogBuilder { directory: Some(default_path), ..builder }
    }
}

/// Sets the initial path of a dialog: see [`with_default_path`]. A file
/// has a name.
pub fn set_default_path(
    dialog_builder: FileDialogBuilder,
    platform: Platform,
    default_path: String,
    probe: PathProbe,
) -> (builder: FileDialogBuilder)
    requires
        probe.is_file && platform == Platform::Desktop ==> probe.file_name is Some,
    ensures
        builder == with_default_path(dialog_builder, platform, default_path, probe),
{
    let mut dialog_builder = dialog_builder;
    if probe.is_file {
        match platform {
            Platform::Linux => {
                dialog_builder.file_name = Some(default_path);
            },
            Platform::Desktop => {
                if let Some(parent) = probe.parent {
                    dialog_builder.directory = Some(parent);
                }
                dialog_builder.file_name = probe.file_name;
            },
        }
    } else {
        dialog_builder.directory = Some(default_path);
    }
    dialog_builder
}

/// The start of a dialog with the given filters and initial path, or the
/// error for an initial path that does not exist.
pub open spec fn file_dialog(
    filters: Vec<DialogFilter>,
    default_path: Option<String>,
    platform: Platform,
    probe: PathProbe,
) -> Result<FileDialogBuilder, Error> {
    let builder = FileDialogBuilder { directory: None, file_name: None, filters };
    match default_path {
        Some(path) => if !probe.exists {
            Err(Error::DialogDefaultPathNotExists(path))
        } else {
            Ok(with_default_path(builder, platform, path, probe))
        },
        None => Ok(builder),
    }
}

/// Starts a file dialog.
fn start(
    filters: Vec<DialogFilter>,
    default_path: Option<String>,
    platform: Platform,
    probe: PathProbe,
) -> (r: Result<FileDialogBuilder, Error>)
    requires
        default_path is Some && probe.exists && probe.is_file && platform == Platform::Desktop
            ==> probe.file_name is Some,
    ensures
        r == file_dialog(filters, default_path, platform, probe),
{
    let dialog_builder = FileDialogBuilder { directory: None, file_name: None, filters };
    match default_path {
        Some(default_path) => {
            if !probe.exists {
                return Err(Error::DialogDefaultPathNotExists(default_path));
            }
            Ok(set_default_path(dialog_builder, platform, default_path, probe))
        },
        None => Ok(dialog_builder),
    }
}

/// What an open dialog lets pick: a folder where one is asked for, else
/// several files where that is allowed, else one file.
pub open spec fn pick_of(options: OpenDialogOptions) -> Pick {
    if options.directory {
        Pick::Folder
    } else if options.multiple {
        Pick::Files
    } else {
        Pick::File
    }
}

/// Shows an open dialog.
///
/// `probe` is what the disk says of the initial path, where the options
/// name one. The dialog is refused when that path does not exist.
pub fn open(options: OpenDialogOptions, platform: Platform, probe: PathProbe) -> (r: Result<
    Dialog,
    Error,
>)
    requires
        options.default_path is Some && probe.exists && probe.is_file && platform
            == Platform::Desktop ==> probe.file_name is Some,
    ensures
        match file_dialog(options.filters, options.default_path, platform, probe) {
            Ok(builder) => r == Ok::<Dialog, Error>(
                Dialog::Open { builder, pick: pick_of(options) },
            ),
            Err(e) => r == Err::<Dialog, Error>(e),
        },
{
    let pick = if options.directory {
        Pick::Folder
    } else if options.multiple {
        Pick::Files
    } else {
        Pick::File
    };
    match start(options.filters, options.default_path, platform, probe) {
        Ok(builder) => Ok(Dialog::Open { builder, pick }),
        Err(e) => Err(e),
    }
}

/// Shows a save dialog.
///
/// `probe` is what the disk says of the initial path, where the options
/// name one. The dialog is refused when that path does not exist.
pub fn save(options: SaveDialogOptions, platform: Platform, probe: PathProbe) -> (r: Result<
    Dialog,
    Error,
>)
    requires
        options.default_path is Some && probe.exists && probe.is_file && platform
            == Platform::Desktop ==> probe.file_name is Some,
    ensures
        match file_dialog(options.filters, options.default_path, platform, probe) {
            Ok(builder) => r == Ok::<Dialog, Error>(Dialog::Save { builder }),
            Err(e) => r == Err::<Dialog, Error>(e),
        },
{
    match start(options.filters, options.default_path, platform, probe) {
        Ok(builder) => Ok(Dialog::Save { builder }),
        Err(e) => Err(e),
    }
}

/// The answer to a dialog with a yes/no question: `true` for yes, `false`
/// for anything else.
pub fn ask(response: AskResponse) -> (answer: bool)
    ensures
        answer == (response == AskResponse::Yes),
{
    match response {
        AskResponse::Yes => true,
        _ => false,
    }
}

/// Whether `r` is the dialog of a request, or the reason why none is shown.
///
/// An endpoint that the application does not allow is refused under its
/// name, `dialog > open` or `dialog > save`. A message is shown under the
/// name of the application, and a question under its own title or else
/// under that name; `app_name` is the name of the running executable
/// without its extension, or the reason why the executable cannot be told.
pub open spec fn dialog_of(
    cmd: Cmd,
    allowlist: Allowlist,
    platform: Platform,
    probe: PathProbe,
    app_name: Result<String, String>,
    r: Result<Dialog, Error>,
) -> bool {
    match cmd {
        Cmd::OpenDialog { options } => if allowlist.dialog_open {
            match file_dialog(options.filters, options.default_path, platform, probe) {
                Ok(builder) => r == Ok::<Dialog, Error>(
                    Dialog::Open { builder, pick: pick_of(options) },
                ),
                Err(e) => r == Err::<Dialog, Error>(e),
            }
        } else {
            r matches Err(Error::ApiNotAllowlisted(api)) && api@ == "dialog > open"@
        },
        Cmd::SaveDialog { options } => if allowlist.dialog_save {
            match file_dialog(options.filters, options.default_path, platform, probe) {
                Ok(builder) => r == Ok::<Dialog, Error>(Dialog::Save { builder }),
                Err(e) => r == Err::<Dialog, Error>(e),
            }
        } else {
            r matches Err(Error::ApiNotAllowlisted(api)) && api@ == "dialog > save"@
        },
        Cmd::MessageDialog { message } => match app_name {
            Ok(name) => r == Ok::<Dialog, Error>(Dialog::Message { title: name, message }),
            Err(cause) => r == Err::<Dialog, Error>(Error::Io(cause)),
        },
        Cmd::AskDialog { title, message } => match app_name {
            Ok(name) => r == Ok::<Dialog, Error>(
                Dialog::Ask {
                    title: match title {
                        Some(title) => title,
                        None => name,
                    },
                    message,
                },
            ),
            Err(cause) => r == Err::<Dialog, Error>(Error::Io(cause)),
        },
    }
}

impl Cmd {
    /// Settles which dialog a request shows: see [`dialog_of`].
    ///
    /// `probe` is what the disk says of the initial path of a file dialog,
    /// where the request names one.
    pub fn run(
        self,
        allowlist: Allowlist,
        platform: Platform,
        probe: PathProbe,
        app_name: Result<String, String>,
    ) -> (r: Result<Dialog, Error>)
        requires
            self matches Cmd::OpenDialog { options } ==> (allowlist.dialog_open
                && options.default_path is Some && probe.exists && probe.is_file && platform
                == Platform::Desktop ==> probe.file_name is Some),
            self matches Cmd::SaveDialog { options } ==> (allowlist.dialog_save
                && options.default_path is Some && probe.exists && probe.is_file && platform
                == Platform::Desktop ==> probe.file_name is Some),
        ensures
            dialog_of(self, allowlist, platform, probe, app_name, r),
    {
        match self {
            Cmd::OpenDialog { options } => {
                if allowlist.dialog_open {
                    open(options, platform, probe)
                } else {
                    Err(Error::ApiNotAllowlisted(String::from_str("dialog > open")))
                }
            },
            Cmd::SaveDialog { options } => {
                if allowlist.dialog_save {
                    save(options, platform, probe)
                } else {
                    Err(Error::ApiNotAllowlisted(String::from_str("dialog > save")))
                }
            },
            Cmd::MessageDialog { message } => {
                match app_name {
                    Ok(app_name) => Ok(Dialog::Message { title: app_name, message }),
                    Err(cause) => Err(Error::Io(cause)),
                }
            },
            Cmd::AskDialog { title, message } => {
                match app_name {
                    Ok(app_name) => Ok(
                        Dialog::Ask {
                            title: match title {
                                Some(title) => title,
                                None => app_name,
                            },
                            message,
                        },
                    ),
                    Err(cause) => Err(Error::Io(cause)),
                }
            },
        }
    }
}

} // verus!
