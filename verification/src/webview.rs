//! What a window and its webview are made from.

use crate::dpi::{LogicalPosition, LogicalSize, Position, Size};
use crate::error::Error;
use crate::icon::{
    first_image_is_png, icon_made, is_valid_icon, IcoImage, WindowIcon, WryIcon,
};
use crate::json::JsonValue;
use crate::scalar::Scalar;
use crate::window::Callback;
use vstd::prelude::*;

verus! {

/// A full-screen mode.
#[derive(Clone, Copy, Debug, PartialEq, Eq, Structural)]
pub enum Fullscreen {
    /// Borderless, on the monitor the window is on.
    Borderless,
}

/// An entry of a menu.
#[derive(Clone, Debug, PartialEq, Eq)]
pub enum MenuItem {
    /// An entry of the application's own, with the identity that its events
    /// carry.
    Custom { id: u32, name: String },
    /// A line between two groups of entries.
    Separator,
}

/// A menu of a window's menu bar.
#[derive(Clone, Debug, PartialEq, Eq)]
pub struct Menu {
    pub title: String,
    pub items: Vec<MenuItem>,
}

/// The attributes a native window is created with. What is `None` is left to
/// the toolkit.
#[derive(Clone, Debug, PartialEq, Eq)]
pub struct WindowAttributes {
    /// The size of the client area.
    pub inner_size: Option<Size>,
    /// The least size of the client area.
    pub min_inner_size: Option<Size>,
    /// The greatest size of the client area.
    pub max_inner_size: Option<Size>,
    /// The position of the window.
    pub position: Option<Position>,
    /// Whether the user can resize the window.
    pub resizable: bool,
    /// Whether the window starts in a full-screen mode, and in which.
    pub fullscreen: Option<Fullscreen>,
    /// The title of the window.
    pub title: Option<String>,
    /// Whether the window starts maximized.
    pub maximized: bool,
    /// Whether the window is shown as soon as it exists.
    pub visible: bool,
    /// Whether the window takes the focus when it is created.
    pub focus: bool,
    /// Whether the window's background is transparent.
    pub transparent: bool,
    /// Whether the window has borders and bars.
    pub decorations: bool,
    /// Whether the window stays above the others.
    pub always_on_top: bool,
    /// The icon of the window.
    pub window_icon: Option<WindowIcon>,
    /// The menu bar of the window.
    pub window_menu: Option<Vec<Menu>>,
    /// Whether the window is kept out of the taskbar.
    pub skip_taskbar: bool,
}

/// A window as a configuration file declares it.
#[derive(Clone, Debug, PartialEq, Eq)]
pub struct WindowConfig {
    pub label: String,
    pub url: String,
    pub x: Option<Scalar>,
    pub y: Option<Scalar>,
    pub width: Scalar,
    pub height: Scalar,
    pub min_width: Option<Scalar>,
    pub min_height: Option<Scalar>,
    pub max_width: Option<Scalar>,
    pub max_height: Option<Scalar>,
    pub resizable: bool,
    pub title: String,
    pub fullscreen: bool,
    pub focus: bool,
    pub transparent: bool,
    pub maximized: bool,
    pub visible: bool,
    pub decorations: bool,
    pub always_on_top: bool,
    pub skip_taskbar: bool,
}

/// The builder of a window: the attributes gathered so far.
#[derive(Clone, Debug, PartialEq, Eq)]
pub struct WindowBuilderWrapper(pub WindowAttributes);

/// What a webview is given besides its window.
#[derive(Clone, Debug, PartialEq, Eq)]
pub struct WebviewAttributes {
    /// Scripts to run before any page script, in this order.
    pub initialization_scripts: Vec<String>,
    /// Where the webview keeps its data.
    pub data_directory: Option<String>,
    /// The handlers of the application's own URI schemes, by scheme.
    pub uri_scheme_protocols: Vec<(String, Callback)>,
}

/// A window that is declared and not yet made.
#[derive(Clone, Debug, PartialEq, Eq)]
pub struct PendingWindow {
    /// The name of the window.
    pub label: String,
    /// The attributes of the window.
    pub window_builder: WindowBuilderWrapper,
    /// The attributes of the webview.
    pub webview_attributes: WebviewAttributes,
    /// The handler of calls from web content.
    pub rpc_handler: Option<Callback>,
    /// The handler of files dragged over or dropped on the window.
    pub file_drop_handler: Option<Callback>,
    /// The address of the content.
    pub url: String,
}

/// A call from web content.
#[derive(Debug, PartialEq, Eq)]
pub struct RpcRequest {
    /// The name of what is called.
    pub command: String,
    /// The arguments of the call.
    pub params: Option<JsonValue>,
}

/// Files dragged over or dropped on a window.
#[derive(Clone, Debug, PartialEq, Eq)]
pub enum FileDropEvent {
    /// The files are held over the window.
    Hovered(Vec<String>),
    /// The files have been dropped on the window.
    Dropped(Vec<String>),
    /// The files have left the window without being dropped.
    Cancelled,
}

/// The attributes of a window of which nothing was said: resizable,
/// visible, focused and decorated, and everything else off or left to the
/// toolkit.
pub open spec fn default_attributes() -> WindowAttributes {
    WindowAttributes {
        inner_size: None,
        min_inner_size: None,
        max_inner_size: None,
        position: None,
        resizable: true,
        fullscreen: None,
        title: None,
        maximized: false,
        visible: true,
        focus: true,
        transparent: false,
        decorations: true,
        always_on_top: false,
        window_icon: None,
        window_menu: None,
        skip_taskbar: false,
    }
}

/// A size in logical pixels.
pub open spec fn logical_size(width: Scalar, height: Scalar) -> Size {
    Size::Logical(LogicalSize { width, height })
}

/// A position in logical pixels.
pub open spec fn logical_position(x: Scalar, y: Scalar) -> Position {
    Position::Logical(LogicalPosition { x, y })
}

/// The full-screen mode that a flag asks for.
pub open spec fn fullscreen_mode(fullscreen: bool) -> Option<Fullscreen> {
    if fullscreen {
        Some(Fullscreen::Borderless)
    } else {
        None
    }
}

/// The attributes that a configuration declares: its title, size and
/// flags; its size limits and its position where both of their numbers are
/// given, and left to the toolkit otherwise.
pub open spec fn configured(config: WindowConfig) -> WindowAttributes {
    WindowAttributes {
        inner_size: Some(logical_size(config.width, config.height)),
        min_inner_size: if config.min_width is Some && config.min_height is Some {
            Some(logical_size(config.min_width->0, config.min_height->0))
        } else {
            None
        },
        max_inner_size: if config.max_width is Some && config.max_height is Some {
            Some(logical_size(config.max_width->0, config.max_height->0))
        } else {
            None
        },
        position: if config.x is Some && config.y is Some {
            Some(logical_position(config.x->0, config.y->0))
        } else {
            None
        },
        resizable: config.resizable,
        fullscreen: fullscreen_mode(config.fullscreen),
        title: Some(config.title),
        maximized: config.maximized,
        visible: config.visible,
        focus: true,
        transparent: config.transparent,
        decorations: config.decorations,
        always_on_top: config.always_on_top,
        window_icon: None,
        window_menu: None,
        skip_taskbar: config.skip_taskbar,
    }
}

/// Whether `r` is `before` with the icon of an icon file set: the builder
/// with the first image of the file as its icon and nothing else changed,
/// or the reason why no icon can be made of the bytes (see [`icon_made`]).
pub open spec fn icon_set(
    before: WindowBuilderWrapper,
    image_bytes: Seq<u8>,
    windows: bool,
    stored_as_png: Option<Result<Option<IcoImage>, String>>,
    r: Result<WindowBuilderWrapper, Error>,
) -> bool {
    match r {
        Ok(builder) => builder.0.window_icon is Some && builder.0 == (WindowAttributes {
            window_icon: builder.0.window_icon,
            ..before.0
        }) && icon_made(
            image_bytes,
            windows,
            stored_as_png,
            Ok(WryIcon(builder.0.window_icon->0)),
        ),
        Err(e) => icon_made(image_bytes, windows, stored_as_png, Err(e)),
    }
}

impl WindowBuilderWrapper {
    /// The builder of a window of which nothing was said yet.
    pub fn new() -> (builder: Self)
        ensures
            builder.0 == default_attributes(),
    {
        WindowBuilderWrapper(
            WindowAttributes {
                inner_size: None,
                min_inner_size: None,
                max_inner_size: None,
                position: None,
                resizable: true,
                fullscreen: None,
                title: None,
                maximized: false,
                visible: true,
                focus: true,
                transparent: false,
                decorations: true,
                always_on_top: false,
                window_icon: None,
                window_menu: None,
                skip_taskbar: false,
            },
        )
    }

    /// The builder of a window as a configuration declares it.
    pub fn with_config(config: WindowConfig) -> (builder: Self)
        ensures
            builder.0 == configured(config),
    {
        let mut window = WindowBuilderWrapper::new().title(config.title).inner_size(
            config.width,
            config.height,
        ).visible(config.visible).resizable(config.resizable).decorations(
            config.decorations,
        ).maximized(config.maximized).fullscreen(config.fullscreen).transparent(
            config.transparent,
        ).always_on_top(config.always_on_top).skip_taskbar(config.skip_taskbar);

        if let (Some(min_width), Some(min_height)) = (config.min_width, config.min_height) {
            window = window.min_inner_size(min_width, min_height);
        }
        if let (Some(max_width), Some(max_height)) = (config.max_width, config.max_height) {
            window = window.max_inner_size(max_width, max_height);
        }
        if let (Some(x), Some(y)) = (config.x, config.y) {
            window = window.position(x, y);
        }
        if config.focus {
            window = window.focus();
        }
        window
    }

    /// Sets the menu bar.
    pub fn menu(self, menu: Vec<Menu>) -> (builder: Self)
        ensures
            builder.0 == (WindowAttributes { window_menu: Some(menu), ..self.0 }),
    {
        let mut builder = self;
        builder.0.window_menu = Some(menu);
        builder
    }

    /// Sets the position of the window, in logical pixels.
    pub fn position(self, x: Scalar, y: Scalar) -> (builder: Self)
        ensures
            builder.0 == (WindowAttributes { position: Some(logical_position(x, y)), ..self.0 }),
    {
        let mut builder = self;
        builder.0.position = Some(Position::Logical(LogicalPosition { x, y }));
        builder
    }

    /// Sets the size of the client area, in logical pixels.
    pub fn inner_size(self, width: Scalar, height: Scalar) -> (builder: Self)
        ensures
            builder.0 == (WindowAttributes {
                inner_size: Some(logical_size(width, height)),
                ..self.0
            }),
    {
        let mut builder = self;
        builder.0.inner_size = Some(Size::Logical(LogicalSize { width, height }));
        builder
    }

    /// Sets the least size of the client area, in logical pixels.
    pub fn min_inner_size(self, min_width: Scalar, min_height: Scalar) -> (builder: Self)
        ensures
            builder.0 == (WindowAttributes {
                min_inner_size: Some(logical_size(min_width, min_height)),
                ..self.0
            }),
    {
        let mut builder = self;
        builder.0.min_inner_size = Some(
            Size::Logical(LogicalSize { width: min_width, height: min_height }),
        );
        builder
    }

    /// Sets the greatest size of the client area, in logical pixels.
    pub fn max_inner_size(self, max_width: Scalar, max_height: Scalar) -> (builder: Self)
        ensures
            builder.0 == (WindowAttributes {
                max_inner_size: Some(logical_size(max_width, max_height)),
                ..self.0
            }),
    {
        let mut builder = self;
        builder.0.max_inner_size = Some(
            Size::Logical(LogicalSize { width: max_width, height: max_height }),
        );
        builder
    }

    /// Sets whether the user can resize the window.
    pub fn resizable(self, resizable: bool) -> (builder: Self)
        ensures
            builder.0 == (WindowAttributes { resizable, ..self.0 }),
    {
        let mut builder = self;
        builder.0.resizable = resizable;
        builder
    }

    /// Sets the title of the window.
    pub fn title(self, title: String) -> (builder: Self)
        ensures
            builder.0 == (WindowAttributes { title: Some(title), ..self.0 }),
    {
        let mut builder = self;
        builder.0.title = Some(title);
        builder
    }

    /// Sets whether the window starts in the borderless full-screen mode.
    pub fn fullscreen(self, fullscreen: bool) -> (builder: Self)
        ensures
            builder.0 == (WindowAttributes { fullscreen: fullscreen_mode(fullscreen), ..self.0 }),
    {
        let mut builder = self;
        if fullscreen {
            builder.0.fullscreen = Some(Fullscreen::Borderless);
        } else {
            builder.0.fullscreen = None;
        }
        builder
    }

    /// Has the window take the focus when it is created.
    pub fn focus(self) -> (builder: Self)
        ensures
            builder.0 == (WindowAttributes { focus: true, ..self.0 }),
    {
        let mut builder = self;
        builder.0.focus = true;
        builder
    }

    /// Sets whether the window starts maximized.
    pub fn maximized(self, maximized: bool) -> (builder: Self)
        ensures
            builder.0 == (WindowAttributes { maximized, ..self.0 }),
    {
        let mut builder = self;
        builder.0.maximized = maximized;
        builder
    }

    /// Sets whether the window is shown as soon as it exists.
    pub fn visible(self, visible: bool) -> (builder: Self)
        ensures
            builder.0 == (WindowAttributes { visible, ..self.0 }),
    {
        let mut builder = self;
        builder.0.visible = visible;
        builder
    }

    /// Sets whether the window's background is transparent.
    pub fn transparent(self, transparent: bool) -> (builder: Self)
        ensures
            builder.0 == (WindowAttributes { transparent, ..self.0 }),
    {
        let mut builder = self;
        builder.0.transparent = transparent;
        builder
    }

    /// Sets whether the window has borders and bars.
    pub fn decorations(self, decorations: bool) -> (builder: Self)
        ensures
            builder.0 == (WindowAttributes { decorations, ..self.0 }),
    {
        let mut builder = self;
        builder.0.decorations = decorations;
        builder
    }

    /// Sets whether the window stays above the others.
    pub fn always_on_top(self, always_on_top: bool) -> (builder: Self)
        ensures
            builder.0 == (WindowAttributes { always_on_top, ..self.0 }),
    {
        let mut builder = self;
        builder.0.always_on_top = always_on_top;
        builder
    }

    /// Sets the icon of the window, from the bytes of an icon file. Bytes
    /// of which no icon can be made give an invalid icon, and no builder:
    /// see [`WryIcon::try_from`] and [`icon_set`]. Where the first image of
    /// the file is stored as PNG, `stored_as_png` is what decoding it came
    /// to.
    pub fn icon(
        self,
        image_bytes: &Vec<u8>,
        windows: bool,
        stored_as_png: Option<Result<Option<IcoImage>, String>>,
    ) -> (r: Result<Self, Error>)
        requires
            windows && first_image_is_png(image_bytes@) ==> stored_as_png is Some,
        ensures
            icon_set(self, image_bytes@, windows, stored_as_png, r),
            r is Ok <==> is_valid_icon(image_bytes@, windows, stored_as_png),
    {
        match WryIcon::try_from(image_bytes, windows, stored_as_png) {
            Ok(icon) => {
                let mut builder = self;
                builder.0.window_icon = Some(icon.0);
                Ok(builder)
            },
            Err(e) => Err(e),
        }
    }

    /// Sets whether the window is kept out of the taskbar.
    pub fn skip_taskbar(self, skip: bool) -> (builder: Self)
        ensures
            builder.0 == (WindowAttributes { skip_taskbar: skip, ..self.0 }),
    {
        let mut builder = self;
        builder.0.skip_taskbar = skip;
        builder
    }

    /// Whether an icon was set.
    pub fn has_icon(&self) -> (has: bool)
        ensures
            has == (self.0.window_icon is Some),
    {
        self.0.window_icon.is_some()
    }

    /// Whether a menu bar was set.
    pub fn has_menu(&self) -> (has: bool)
        ensures
            has == (self.0.window_menu is Some),
    {
        self.0.window_menu.is_some()
    }
}

impl PendingWindow {
    /// Declares a window: its name, its attributes and the address of its
    /// content, without handlers, protocols or scripts.
    pub fn new(window_builder: WindowBuilderWrapper, label: String, url: String) -> (pending:
        PendingWindow)
        ensures
            pending.label == label,
            pending.window_builder == window_builder,
            pending.url == url,
            pending.rpc_handler is None,
            pending.file_drop_handler is None,
            pending.webview_attributes.initialization_scripts@.len() == 0,
            pending.webview_attributes.data_directory is None,
            pending.webview_attributes.uri_scheme_protocols@.len() == 0,
    {
        PendingWindow {
            label,
            window_builder,
            webview_attributes: WebviewAttributes {
                initialization_scripts: Vec::new(),
                data_directory: None,
                uri_scheme_protocols: Vec::new(),
            },
            rpc_handler: None,
            file_drop_handler: None,
            url,
        }
    }
}

} // verus!
