use tauri_core::context::DispatcherContext;
use tauri_core::dispatcher::{DetachedWindow, WryDispatcher};
use tauri_core::error::Error;
use tauri_core::handlers::{
    create_file_drop_handler, create_rpc_handler, custom_protocol_response, FileDropEventWrapper,
    NativeFileDropEvent, NativeRpcRequest, ProtocolError, RpcRequestWrapper,
};
use tauri_core::icon::{
    cut_raw_image, document_like, icon_bytes, png_encoded, BadIcon, IcoImage, Icon, WindowIcon,
    WryIcon,
};
use tauri_core::json::JsonValue;
use tauri_core::manager::{
    create_window, Config, Context, Manager, ManagerBase, NewWindow, PackageInfo, RuntimeOrDispatch,
};
use tauri_core::message::{Message, WindowMessage};
use tauri_core::monitor::{Monitor, MonitorHandle, MonitorHandleWrapper};
use tauri_core::dpi::{PhysicalPosition, PhysicalSize};
use tauri_core::runtime::{SystemTrayPlan, TrayIcon, Wry};
use tauri_core::scalar::Scalar;
use tauri_core::webview::{
    FileDropEvent, MenuItem, PendingWindow, RpcRequest, WindowBuilderWrapper,
};
use tauri_core::window::{Callback, WindowId};

/// An icon file with one image of the given size, every pixel the same.
fn ico(width: u32, height: u32, pixel: [u8; 4]) -> Vec<u8> {
    let mut rgba = Vec::new();
    for _ in 0..width * height {
        rgba.extend_from_slice(&pixel);
    }
    let image = ico::IconImage::from_rgba_data(width, height, rgba);
    let mut dir = ico::IconDir::new(ico::ResourceType::Icon);
    dir.add_entry(ico::IconDirEntry::encode(&image).unwrap());
    let mut bytes = Vec::new();
    dir.write(&mut bytes).unwrap();
    bytes
}

#[test]
fn pixel_data_must_fill_the_icon() {
    let icon = WindowIcon::from_rgba(vec![1, 2, 3, 4, 5, 6, 7, 8], 2, 1).unwrap();
    assert_eq!(icon.rgba(), &vec![1, 2, 3, 4, 5, 6, 7, 8]);
    assert_eq!((icon.width(), icon.height()), (2, 1));
    assert!(WindowIcon::from_rgba(Vec::new(), 0, 7).is_ok());
    assert_eq!(
        WindowIcon::from_rgba(vec![0; 7], 1, 1),
        Err(BadIcon::ByteCountNotDivisibleBy4 { byte_count: 7 })
    );
    assert_eq!(
        WindowIcon::from_rgba(vec![0; 8], 1, 1),
        Err(BadIcon::DimensionsVsPixelCount { width: 1, height: 1, pixel_count: 2 })
    );
    // The byte count is tested first.
    assert_eq!(
        WindowIcon::from_rgba(vec![0; 5], 9, 9),
        Err(BadIcon::ByteCountNotDivisibleBy4 { byte_count: 5 })
    );
    // A product beyond 32 bits is no overflow.
    assert_eq!(
        WindowIcon::from_rgba(vec![0; 4], 65536, 65536),
        Err(BadIcon::DimensionsVsPixelCount { width: 65536, height: 65536, pixel_count: 1 })
    );
    assert_eq!(
        BadIcon::ByteCountNotDivisibleBy4 { byte_count: 7 }.message(),
        "The length of the `rgba` argument (7) isn't divisible by 4, making it impossible to interpret as 32bpp RGBA pixels."
    );
    assert_eq!(
        BadIcon::DimensionsVsPixelCount { width: 1, height: 2, pixel_count: 3 }.message(),
        "The specified dimensions (1x2) don't match the number of pixels supplied by the `rgba` argument (3). For those dimensions, the expected pixel count is 2."
    );
}

fn invalid(cause: &str) -> Result<WryIcon, Error> {
    Err(Error::InvalidIcon(cause.to_string()))
}

#[test]
fn icon_file_is_decoded() {
    let bytes = ico(2, 3, [10, 20, 30, 255]);
    let icon = WryIcon::try_from(&bytes, true, None).unwrap();
    assert_eq!((icon.0.width(), icon.0.height()), (2, 3));
    assert_eq!(icon.0.rgba().len(), 24);
    assert_eq!(&icon.0.rgba()[..4], &[10, 20, 30, 255]);
}

#[test]
fn what_is_no_icon_file_is_an_invalid_icon() {
    let bytes = ico(1, 1, [0, 0, 0, 255]);
    // Icon files are decoded on one platform only.
    assert_eq!(
        WryIcon::try_from(&bytes, false, None),
        invalid("image `ico` extension not supported; please file a Tauri feature request")
    );
    // A picture of another kind.
    let png = [0x89u8, b'P', b'N', b'G', 0x0d, 0x0a, 0x1a, 0x0a, 0, 0, 0, 0];
    assert_eq!(
        WryIcon::try_from(&png.to_vec(), true, None),
        invalid("image `png` extension not supported; please file a Tauri feature request")
    );
    // Bytes of no known kind.
    assert_eq!(
        WryIcon::try_from(&vec![1, 2, 3, 4, 5], true, None),
        invalid("could not determine icon extension")
    );
    assert_eq!(WryIcon::try_from(&Vec::new(), true, None), invalid("could not determine icon extension"));
    // An icon file without images.
    assert_eq!(
        WryIcon::try_from(&vec![0, 0, 1, 0, 0, 0], true, None),
        invalid("icon file holds no image")
    );
    // An icon file that is cut short.
    let cut = bytes[..bytes.len() - 3].to_vec();
    match WryIcon::try_from(&cut, true, None) {
        Err(Error::InvalidIcon(cause)) => assert!(!cause.is_empty()),
        other => panic!("unexpected {:?}", other),
    }
}

#[test]
fn office_documents_are_refused_at_sight() {
    // The beginning of an archive that names the parts of an office
    // document, with the largest length there is in its header.
    let mut archive = vec![0u8; 64];
    archive[..4].copy_from_slice(b"PK\x03\x04");
    archive[18..22].copy_from_slice(&[0xff, 0xff, 0xff, 0xff]);
    archive[0x1e..0x1e + 19].copy_from_slice(b"[Content_Types].xml");
    assert!(document_like(&archive));
    assert_eq!(WryIcon::try_from(&archive, true, None), invalid("image type not supported"));
    let compound = vec![0xd0u8, 0xcf, 0x11, 0xe0, 0xa1, 0xb1, 0x1a, 0xe1, 0, 0];
    assert!(document_like(&compound));
    assert_eq!(WryIcon::try_from(&compound, true, None), invalid("image type not supported"));
    assert!(!document_like(b"PK\x03"));
    // The header of a raw image that breaks off before its version.
    let cut = [0x49u8, 0x49, 0x2a, 0x00, 0, 0, 0, 0, 0x43, 0x52];
    assert!(cut_raw_image(&cut));
    assert_eq!(WryIcon::try_from(&cut.to_vec(), true, None), invalid("image type not supported"));
    let mut whole = cut.to_vec();
    whole.push(2);
    assert!(!cut_raw_image(&whole));
    assert_eq!(
        WryIcon::try_from(&whole, true, None),
        invalid("image `cr2` extension not supported; please file a Tauri feature request")
    );
    assert!(!document_like(&ico(1, 1, [0, 0, 0, 255])));
}

/// What decoding the first image of an icon file comes to.
fn decoded(bytes: &[u8]) -> Result<Option<IcoImage>, String> {
    let dir = ico::IconDir::read(std::io::Cursor::new(bytes)).map_err(|e| e.to_string())?;
    match dir.entries().first() {
        Some(entry) => {
            let image = entry.decode().map_err(|e| e.to_string())?;
            Ok(Some(IcoImage {
                rgba: image.rgba_data().to_vec(),
                width: entry.width(),
                height: entry.height(),
            }))
        },
        None => Ok(None),
    }
}

#[test]
fn icon_image_stored_as_png_is_decoded_by_the_caller() {
    // A pixel that is neither opaque nor clear is stored as PNG.
    let stored_as_png = ico(1, 1, [1, 2, 3, 4]);
    assert!(png_encoded(&stored_as_png));
    let icon = WryIcon::try_from(&stored_as_png, true, Some(decoded(&stored_as_png))).unwrap();
    assert_eq!((icon.0.width(), icon.0.height()), (1, 1));
    assert_eq!(icon.0.rgba(), &vec![1, 2, 3, 4]);
    // What the caller could not decode is an invalid icon, in its words.
    assert_eq!(
        WryIcon::try_from(&stored_as_png, true, Some(Err("no palette".to_string()))),
        invalid("no palette")
    );
    assert_eq!(
        WryIcon::try_from(&stored_as_png, true, Some(Ok(None))),
        invalid("icon file holds no image")
    );
    // Pixels that do not fill the declared size.
    let short = IcoImage { rgba: vec![1, 2, 3, 4], width: 2, height: 1 };
    assert_eq!(
        WryIcon::try_from(&stored_as_png, true, Some(Ok(Some(short)))),
        invalid(
            "The specified dimensions (2x1) don't match the number of pixels supplied by the `rgba` argument (1). For those dimensions, the expected pixel count is 2."
        )
    );
    // Off the platform the file is refused before any image is looked at.
    assert_eq!(
        WryIcon::try_from(&stored_as_png, false, None),
        invalid("image `ico` extension not supported; please file a Tauri feature request")
    );
    // A bitmap is decoded by the library, whatever the caller hands over.
    let bitmap = ico(1, 1, [9, 8, 7, 255]);
    assert!(!png_encoded(&bitmap));
    let icon = WryIcon::try_from(&bitmap, true, Some(Err("unused".to_string()))).unwrap();
    assert_eq!(icon.0.rgba(), &vec![9, 8, 7, 255]);
    assert!(!png_encoded(&[0, 0, 1, 0, 0, 0]));
}

#[test]
fn icon_image_stored_as_png_is_told_from_its_first_bytes() {
    // A PNG image with a palette colour type and no palette.
    let mut bytes = vec![0, 0, 1, 0, 1, 0, 1, 1, 0, 0, 1, 0, 8, 0];
    let image: Vec<u8> = vec![
        0x89, b'P', b'N', b'G', 0x0d, 0x0a, 0x1a, 0x0a, 0, 0, 0, 13, b'I', b'H', b'D', b'R', 0, 0,
        0, 1, 0, 0, 0, 1, 8, 3, 0, 0, 0,
    ];
    bytes.extend_from_slice(&(image.len() as u32).to_le_bytes());
    bytes.extend_from_slice(&22u32.to_le_bytes());
    bytes.extend_from_slice(&image);
    assert!(png_encoded(&bytes));
    // The data of the image must lie within the file.
    let mut beyond = bytes.clone();
    beyond.truncate(bytes.len() - 1);
    assert!(!png_encoded(&beyond));
    match WryIcon::try_from(&beyond, true, None) {
        Err(Error::InvalidIcon(cause)) => assert!(!cause.is_empty()),
        other => panic!("unexpected {:?}", other),
    }
    // A directory without images names none.
    let mut empty = bytes.clone();
    empty[4] = 0;
    assert!(!png_encoded(&empty));
}

#[test]
fn icon_is_the_bytes_given_or_read() {
    assert_eq!(icon_bytes(Icon::Raw(vec![1, 2]), None), Ok(vec![1, 2]));
    assert_eq!(icon_bytes(Icon::File("i.ico".to_string()), Some(Ok(vec![3]))), Ok(vec![3]));
    assert_eq!(
        icon_bytes(Icon::File("i.ico".to_string()), Some(Err("denied".to_string()))),
        Err(Error::InvalidIcon("denied".to_string()))
    );
    assert_eq!(Error::InvalidIcon("denied".to_string()).message(), "invalid icon: denied");
}

#[test]
fn builder_takes_an_icon_and_a_menu() {
    let builder = WindowBuilderWrapper::new();
    assert!(!builder.has_icon());
    assert!(!builder.has_menu());
    let bytes = ico(1, 1, [9, 9, 9, 255]);
    let with_icon = builder.icon(&bytes, true, None).unwrap();
    assert!(with_icon.has_icon());
    assert_eq!(with_icon.0.window_icon.as_ref().unwrap().rgba(), &vec![9, 9, 9, 255]);
    assert_eq!(with_icon.0.title, None);
    let refused = WindowBuilderWrapper::new().title("kept".to_string());
    assert_eq!(
        refused.icon(&vec![1, 2, 3], true, None),
        Err(Error::InvalidIcon("could not determine icon extension".to_string()))
    );
    let with_menu = WindowBuilderWrapper::new()
        .menu(vec![tauri_core::webview::Menu { title: "File".to_string(), items: vec![MenuItem::Separator] }]);
    assert!(with_menu.has_menu());
    assert!(WindowBuilderWrapper::new().focus().0.focus);
}

#[test]
fn icon_is_sent_to_the_window() {
    let mut context = DispatcherContext::new();
    let bytes = ico(1, 1, [1, 2, 3, 255]);
    let icon = WryIcon::try_from(&bytes, true, None).unwrap();
    let dispatcher = WryDispatcher::new(WindowId(2));
    dispatcher.set_icon(&mut context, Icon::Raw(bytes.clone()), None, true, None).unwrap();
    assert_eq!(
        context.proxy.next_event(),
        Some(Message::Window(WindowId(2), WindowMessage::SetIcon(icon.0.clone())))
    );
    dispatcher
        .set_icon(&mut context, Icon::File("i.ico".to_string()), Some(Ok(bytes)), true, None)
        .unwrap();
    assert_eq!(
        context.proxy.next_event(),
        Some(Message::Window(WindowId(2), WindowMessage::SetIcon(icon.0)))
    );
}

#[test]
fn icon_stored_as_png_is_sent_to_the_window() {
    let mut context = DispatcherContext::new();
    let bytes = ico(1, 1, [1, 2, 3, 4]);
    let dispatcher = WryDispatcher::new(WindowId(5));
    dispatcher
        .set_icon(&mut context, Icon::Raw(bytes.clone()), None, true, Some(decoded(&bytes)))
        .unwrap();
    let icon = WindowIcon::from_rgba(vec![1, 2, 3, 4], 1, 1).unwrap();
    assert_eq!(
        context.proxy.next_event(),
        Some(Message::Window(WindowId(5), WindowMessage::SetIcon(icon)))
    );
    assert_eq!(
        dispatcher.set_icon(
            &mut context,
            Icon::Raw(bytes),
            None,
            true,
            Some(Err("bad image".to_string()))
        ),
        Err(Error::InvalidIcon("bad image".to_string()))
    );
    assert!(!context.proxy.has_event());
    let with_icon = WindowBuilderWrapper::new()
        .icon(&ico(1, 1, [5, 6, 7, 8]), true, Some(decoded(&ico(1, 1, [5, 6, 7, 8]))))
        .unwrap();
    assert_eq!(with_icon.0.window_icon.as_ref().unwrap().rgba(), &vec![5, 6, 7, 8]);
}

#[test]
fn invalid_icon_is_not_sent() {
    let mut context = DispatcherContext::new();
    let dispatcher = WryDispatcher::new(WindowId(2));
    assert_eq!(
        dispatcher.set_icon(&mut context, Icon::Raw(vec![1, 2, 3]), None, true, None),
        Err(Error::InvalidIcon("could not determine icon extension".to_string()))
    );
    assert_eq!(
        dispatcher.set_icon(
            &mut context,
            Icon::File("i.ico".to_string()),
            Some(Err("denied".to_string())),
            true,
            None
        ),
        Err(Error::InvalidIcon("denied".to_string()))
    );
    assert_eq!(
        dispatcher.set_icon(
            &mut context,
            Icon::File("i.png".to_string()),
            Some(Ok(vec![0x89, b'P', b'N', b'G', 0x0d, 0x0a, 0x1a, 0x0a])),
            true,
            None
        ),
        Err(Error::InvalidIcon(
            "image `png` extension not supported; please file a Tauri feature request".to_string()
        ))
    );
    assert!(!context.proxy.has_event());
    // The icon is made before the channel is tried.
    context.proxy.close();
    assert_eq!(
        dispatcher.set_icon(&mut context, Icon::Raw(vec![1, 2, 3]), None, true, None),
        Err(Error::InvalidIcon("could not determine icon extension".to_string()))
    );
    assert_eq!(
        dispatcher.set_icon(&mut context, Icon::Raw(ico(1, 1, [1, 2, 3, 255])), None, true, None),
        Err(Error::FailedToSendMessage)
    );
}

#[test]
fn calls_from_content_reach_the_handler() {
    let adapter = create_rpc_handler("main".to_string(), Callback(7));
    let (call, response) = adapter.call(
        WindowId(3),
        NativeRpcRequest {
            id: Some(JsonValue::Bool(true)),
            method: "greet".to_string(),
            params: Some(JsonValue::Array(vec![JsonValue::Null])),
        },
    );
    // The adapter never answers by itself.
    assert_eq!(response, None);
    assert_eq!(call.handler, Callback(7));
    assert_eq!(
        call.window,
        DetachedWindow { label: "main".to_string(), dispatcher: WryDispatcher::new(WindowId(3)) }
    );
    assert_eq!(
        call.request,
        RpcRequest {
            command: "greet".to_string(),
            params: Some(JsonValue::Array(vec![JsonValue::Null]))
        }
    );
    let request = RpcRequest::from(RpcRequestWrapper(NativeRpcRequest {
        id: None,
        method: "m".to_string(),
        params: None,
    }));
    assert_eq!(request, RpcRequest { command: "m".to_string(), params: None });
}

#[test]
fn file_drops_reach_the_handler() {
    let adapter = create_file_drop_handler("main".to_string(), Callback(8));
    let paths = vec!["/a".to_string(), "/b".to_string()];
    let call = adapter.call(WindowId(4), NativeFileDropEvent::Dropped(paths.clone()));
    assert_eq!(call.handler, Callback(8));
    assert_eq!(call.event, FileDropEvent::Dropped(paths.clone()));
    assert_eq!(call.window.label, "main");
    assert_eq!(call.window.dispatcher.window_id, WindowId(4));
    assert_eq!(
        FileDropEvent::from(FileDropEventWrapper(NativeFileDropEvent::Hovered(paths.clone()))),
        FileDropEvent::Hovered(paths)
    );
    assert_eq!(
        FileDropEvent::from(FileDropEventWrapper(NativeFileDropEvent::Cancelled)),
        FileDropEvent::Cancelled
    );
}

#[test]
fn protocol_failures_lose_their_cause() {
    assert_eq!(custom_protocol_response(Ok(vec![1, 2])), Ok(vec![1, 2]));
    assert_eq!(
        custom_protocol_response(Err("not found".to_string())),
        Err(ProtocolError::InitScriptError)
    );
}

#[test]
fn monitor_is_what_its_handle_says() {
    let handle = MonitorHandle {
        name: Some("HDMI-1".to_string()),
        position: PhysicalPosition { x: -1920, y: 0 },
        size: PhysicalSize { width: 1920, height: 1080 },
        scale_factor: Scalar::from_bits(2.0f64.to_bits()),
    };
    assert_eq!(
        Monitor::from(MonitorHandleWrapper(handle)),
        Monitor {
            name: Some("HDMI-1".to_string()),
            size: PhysicalSize { width: 1920, height: 1080 },
            position: PhysicalPosition { x: -1920, y: 0 },
            scale_factor: Scalar::from_bits(2.0f64.to_bits()),
        }
    );
}

#[test]
fn system_tray_takes_the_icon_in_the_form_of_the_platform() {
    let runtime = Wry::new();
    assert_eq!(
        runtime.system_tray(true, Icon::File("tray.png".to_string()), vec![MenuItem::Separator]),
        SystemTrayPlan {
            icon: TrayIcon::Path("tray.png".to_string()),
            menu_items: vec![MenuItem::Separator]
        }
    );
    assert_eq!(
        runtime.system_tray(false, Icon::Raw(vec![1]), Vec::new()),
        SystemTrayPlan { icon: TrayIcon::Bytes(vec![1]), menu_items: Vec::new() }
    );
    assert_eq!(runtime.system_tray_built(Ok(())), Ok(()));
    assert_eq!(
        runtime.system_tray_built(Err("no tray".to_string())),
        Err(Error::SystemTray("no tray".to_string()))
    );
    assert_eq!(
        Error::SystemTray("no tray".to_string()).message(),
        "error encountered during tray setup: no tray"
    );
}

#[test]
fn window_is_planned_on_the_loop_thread_and_requested_elsewhere() {
    let declared = || {
        PendingWindow::new(WindowBuilderWrapper::new(), "w".to_string(), "u".to_string())
    };
    let mut runtime = Wry::new();
    match create_window(RuntimeOrDispatch::Runtime(&mut runtime), declared()) {
        Ok(NewWindow::Planned(plan)) => assert_eq!(plan.label, "w"),
        other => panic!("unexpected {:?}", other),
    }
    assert!(!runtime.context.proxy.has_event());
    let dispatcher = WryDispatcher::new(WindowId(1));
    match create_window(
        RuntimeOrDispatch::Dispatch(dispatcher, &mut runtime.context),
        declared(),
    ) {
        Ok(NewWindow::Requested(request)) => assert_eq!(request.label, "w"),
        other => panic!("unexpected {:?}", other),
    }
    assert!(runtime.context.proxy.has_event());
    runtime.context.proxy.close();
    assert_eq!(
        create_window(RuntimeOrDispatch::Dispatch(dispatcher, &mut runtime.context), declared()),
        Err(Error::FailedToSendMessage)
    );
}

#[test]
fn runtime_manages_its_own_windows() {
    let mut runtime = Wry::new();
    assert!(matches!(runtime.runtime(), RuntimeOrDispatch::Runtime(_)));
    let declared = PendingWindow::new(WindowBuilderWrapper::new(), "w".to_string(), "u".to_string());
    match Manager::create_window(&mut runtime, declared) {
        Ok(NewWindow::Planned(plan)) => {
            assert_eq!(plan.label, "w");
            assert_eq!(plan.url, "u");
        },
        other => panic!("unexpected {:?}", other),
    }
    assert!(!runtime.context.proxy.has_event());
    assert_eq!(runtime.webview_count(), 0);
    if let RuntimeOrDispatch::Runtime(lent) = runtime.runtime() {
        lent.context.proxy.close();
    }
    assert!(!runtime.context.proxy.is_open_now());
    let context = Context {
        config: Config { windows: Vec::new(), cli: None },
        assets: (),
        default_window_icon: Some(vec![1, 2, 3]),
        package_info: PackageInfo { name: "app".to_string(), version: "1.0.0".to_string() },
    };
    assert_eq!(context.package_info.name, "app");
    assert!(context.config.windows.is_empty());
}
