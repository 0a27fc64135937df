use staccato::building::platform::Os;
use staccato::error::SdlError;
use staccato::event::{RawEvent, WindowEvent};
use staccato::rect::Size;
use staccato::wgpu_context::{ContextError, ContextProgress, ContextStep, WgpuRenderContext};
use staccato::rect::Point;
use staccato::wgpu_window::{
    check_release_order, surface_config, PresentMode, Processed, Release, SurfaceCapabilities,
    TextureUsage, WgpuWindow, WgpuWindowError, WindowDestroyedFirst, FRAME_LATENCY,
};
use staccato::window::{
    CreationStage, CreationStep, NativeCall, NativeReply, Window, WindowAnswer, WindowCreation,
    WindowHandler, WindowOption, WindowState, WindowSystem, WINDOW_METAL, WINDOW_RESIZABLE,
    WINDOW_VULKAN,
};

fn option(title: &str, width: i32, height: i32) -> WindowOption {
    WindowOption { title: title.to_string(), size: Size::new(width, height) }
}

fn ok() -> NativeReply {
    NativeReply::Done { ok: true }
}

fn failed() -> NativeReply {
    NativeReply::Done { ok: false }
}

fn call_of(step: CreationStep) -> (WindowCreation, NativeCall) {
    match step {
        CreationStep::Call { creation, call } => (creation, call),
        other => panic!("no call: {:?}", other),
    }
}

fn open_window(os: Os, id: u32) -> WindowHandler {
    let (creation, _) = WindowHandler::new(option("w", 10, 10), os).unwrap();
    let (creation, _) = call_of(creation.advance(ok()));
    let (creation, _) = call_of(creation.advance(ok()));
    let (creation, _) = call_of(creation.advance(NativeReply::WindowId { id }));
    let last = match os {
        Os::MacOS => creation.advance(ok()),
        _ => creation.advance(NativeReply::Handles { window: 1, instance: 2 }),
    };
    match last {
        CreationStep::Ready { mut window } => {
            assert!(window.mark_open());
            window
        }
        other => panic!("not ready: {:?}", other),
    }
}

fn capabilities() -> SurfaceCapabilities<u8, char> {
    SurfaceCapabilities { formats: vec![7, 8, 9], alpha_modes: vec!['o', 'p'] }
}

fn bound(width: i32, height: i32) -> WgpuWindow<u8, char> {
    let window = Window::new(open_window(Os::Windows, 1), "title", Size::new(width, height));
    WgpuWindow::from_window_and_surface(window, &capabilities()).unwrap()
}

#[test]
fn creation_on_macos_goes_through_the_metal_view() {
    let (creation, call) = WindowHandler::new(option("hello", 1024, 768), Os::MacOS).unwrap();
    assert_eq!(
        call,
        NativeCall::CreateWindow {
            title: "hello".to_string(),
            width: 1024,
            height: 768,
            flags: WINDOW_RESIZABLE | WINDOW_METAL,
        }
    );
    assert_eq!(creation, WindowCreation { system: WindowSystem::AppKit, stage: CreationStage::Creating });
    let (creation, call) = call_of(creation.advance(ok()));
    assert_eq!(call, NativeCall::ShowWindow);
    let (creation, call) = call_of(creation.advance(ok()));
    assert_eq!(call, NativeCall::GetWindowId);
    let (creation, call) = call_of(creation.advance(NativeReply::WindowId { id: 42 }));
    assert_eq!(call, NativeCall::CreateMetalView);
    match creation.advance(ok()) {
        CreationStep::Ready { mut window } => {
            assert_eq!(window.state(), WindowState::Created);
            assert!(!window.is_open());
            assert_eq!(window.id(), 42);
            assert_eq!(window.system(), WindowSystem::AppKit);
            assert_eq!(window.show(), Err(SdlError::ClosedWindow));
            assert!(window.mark_open());
            assert_eq!(window.state(), WindowState::Open);
            assert_eq!(window.show(), Ok(NativeCall::ShowWindow));
        }
        other => panic!("not ready: {:?}", other),
    }
}

#[test]
fn creation_on_windows_goes_through_the_handles() {
    let (creation, call) = WindowHandler::new(option("hello", 1, 2), Os::Windows).unwrap();
    assert_eq!(
        call,
        NativeCall::CreateWindow {
            title: "hello".to_string(),
            width: 1,
            height: 2,
            flags: WINDOW_RESIZABLE | WINDOW_VULKAN,
        }
    );
    let (creation, _) = call_of(creation.advance(ok()));
    let (creation, _) = call_of(creation.advance(ok()));
    let (creation, call) = call_of(creation.advance(NativeReply::WindowId { id: 9 }));
    assert_eq!(call, NativeCall::GetWin32Handles);
    match creation.advance(NativeReply::Handles { window: 0x10, instance: 0x20 }) {
        CreationStep::Ready { window } => {
            assert_eq!(window.state(), WindowState::Created);
            assert_eq!(window.id(), 9);
            assert_eq!(window.system(), WindowSystem::Win32);
        }
        other => panic!("not ready: {:?}", other),
    }
}

#[test]
fn creation_is_refused_before_anything_is_asked() {
    assert_eq!(WindowHandler::new(option("w", 1, 1), Os::Linux), Err(SdlError::UnsupportedPlatform));
    assert_eq!(WindowHandler::new(option("a\0b", 1, 1), Os::MacOS), Err(SdlError::InvalidTitle));
    assert_eq!(WindowHandler::new(option("a\0b", 1, 1), Os::Linux), Err(SdlError::UnsupportedPlatform));
}

#[test]
fn creation_that_fails_at_once_leaves_nothing_to_destroy() {
    let (creation, _) = WindowHandler::new(option("w", 1, 1), Os::MacOS).unwrap();
    assert_eq!(creation.advance(failed()), CreationStep::Failed { error: SdlError::CreateWindow });
}

#[test]
fn creation_that_fails_later_destroys_the_window_first() {
    let (creation, _) = WindowHandler::new(option("w", 1, 1), Os::MacOS).unwrap();
    let (creation, _) = call_of(creation.advance(ok()));
    let (creation, call) = call_of(creation.advance(failed()));
    assert_eq!(call, NativeCall::DestroyWindow);
    assert_eq!(creation.stage, CreationStage::Destroying { error: SdlError::ShowWindow });
    assert_eq!(creation.advance(ok()), CreationStep::Failed { error: SdlError::ShowWindow });
}

#[test]
fn creation_without_a_view_or_a_handle_fails() {
    let (creation, _) = WindowHandler::new(option("w", 1, 1), Os::MacOS).unwrap();
    let (creation, _) = call_of(creation.advance(ok()));
    let (creation, _) = call_of(creation.advance(ok()));
    let (creation, _) = call_of(creation.advance(NativeReply::WindowId { id: 1 }));
    let (creation, call) = call_of(creation.advance(failed()));
    assert_eq!(call, NativeCall::DestroyWindow);
    assert_eq!(creation.advance(failed()), CreationStep::Failed { error: SdlError::CreateView });

    for (window, instance, error) in [
        (0, 5, SdlError::MissingWindowHandle),
        (0, 0, SdlError::MissingWindowHandle),
        (5, 0, SdlError::MissingInstanceHandle),
    ] {
        let (creation, _) = WindowHandler::new(option("w", 1, 1), Os::Windows).unwrap();
        let (creation, _) = call_of(creation.advance(ok()));
        let (creation, _) = call_of(creation.advance(ok()));
        let (creation, _) = call_of(creation.advance(NativeReply::WindowId { id: 1 }));
        let (creation, call) = call_of(creation.advance(NativeReply::Handles { window, instance }));
        assert_eq!(call, NativeCall::DestroyWindow);
        assert_eq!(creation.advance(ok()), CreationStep::Failed { error });
    }
}

#[test]
fn creation_with_an_answer_that_does_not_fit_fails() {
    let (creation, _) = WindowHandler::new(option("w", 1, 1), Os::MacOS).unwrap();
    assert_eq!(
        creation.advance(NativeReply::WindowId { id: 1 }),
        CreationStep::Failed { error: SdlError::UnexpectedReply }
    );
    let (creation, _) = call_of(creation.advance(ok()));
    let (creation, call) = call_of(creation.advance(NativeReply::Size { size: None }));
    assert_eq!(call, NativeCall::DestroyWindow);
    assert_eq!(creation.advance(ok()), CreationStep::Failed { error: SdlError::UnexpectedReply });
}

#[test]
fn open_window_asks_the_platform() {
    let mut window = open_window(Os::MacOS, 3);
    assert_eq!(window.checked_open(), Ok(()));
    assert_eq!(window.show(), Ok(NativeCall::ShowWindow));
    assert_eq!(window.hide_window(), Ok(NativeCall::HideWindow));
    assert_eq!(window.size(), Ok(NativeCall::GetWindowSize));
    assert_eq!(window.title(), Ok(NativeCall::GetWindowTitle));
    assert_eq!(
        window.set_size(Size::new(0, 0)),
        Ok(NativeCall::SetWindowSize { width: 1, height: 1 })
    );
    assert_eq!(
        window.set_size(Size::new(640, -3)),
        Ok(NativeCall::SetWindowSize { width: 640, height: 1 })
    );
    assert_eq!(
        window.set_title("new"),
        Ok(NativeCall::SetWindowTitle { title: "new".to_string() })
    );
    assert_eq!(window.set_title("n\0w"), Err(SdlError::InvalidTitle));
    assert!(window.is_open());
}

#[test]
fn closed_window_fails_without_asking() {
    let mut window = open_window(Os::Windows, 3);
    window.close();
    assert!(!window.is_open());
    assert_eq!(window.id(), 3);
    assert_eq!(window.checked_open(), Err(SdlError::ClosedWindow));
    assert_eq!(window.show(), Err(SdlError::ClosedWindow));
    assert_eq!(window.hide_window(), Err(SdlError::ClosedWindow));
    assert_eq!(window.size(), Err(SdlError::ClosedWindow));
    assert_eq!(window.title(), Err(SdlError::ClosedWindow));
    assert_eq!(window.set_size(Size::new(5, 5)), Err(SdlError::ClosedWindow));
    assert_eq!(window.set_title("new"), Err(SdlError::ClosedWindow));
    assert_eq!(window.set_title("n\0w"), Err(SdlError::ClosedWindow));
    assert!(SdlError::ClosedWindow.is_closed_resource());
    assert!(!SdlError::ShowWindow.is_closed_resource());
    window.close();
    assert!(!window.is_open());
    assert!(!window.mark_open());
    assert_eq!(window.state(), WindowState::Closed);
    assert_eq!(window.show(), Err(SdlError::ClosedWindow));
}

#[test]
fn binding_marks_the_window_open_as_its_last_step() {
    let (creation, _) = WindowHandler::new(option("w", 10, 10), Os::Windows).unwrap();
    let (creation, _) = call_of(creation.advance(ok()));
    let (creation, _) = call_of(creation.advance(ok()));
    let (creation, _) = call_of(creation.advance(NativeReply::WindowId { id: 5 }));
    let handler = match creation.advance(NativeReply::Handles { window: 1, instance: 2 }) {
        CreationStep::Ready { window } => window,
        other => panic!("not ready: {:?}", other),
    };
    assert_eq!(
        Window::first_calls(),
        vec![NativeCall::GetWindowTitle, NativeCall::GetWindowSize]
    );
    let window = Window::new(handler, "w", Size::new(10, 10));
    assert!(!window.is_open());
    assert_eq!(window.update_calls(), Err(SdlError::ClosedWindow));
    let bound: WgpuWindow<u8, char> =
        WgpuWindow::from_window_and_surface(window, &capabilities()).unwrap();
    assert!(bound.window().is_open());
    assert_eq!(bound.window().window().state(), WindowState::Open);

    let mut closed = Window::new(handler, "w", Size::new(10, 10));
    closed.close();
    let refused: Result<WgpuWindow<u8, char>, WgpuWindowError> =
        WgpuWindow::from_window_and_surface(closed, &capabilities());
    assert_eq!(refused.unwrap_err(), WgpuWindowError::SdlError(SdlError::ClosedWindow));
}

#[test]
fn closed_window_is_not_bound_whatever_else_is_wrong() {
    let none: SurfaceCapabilities<u8, char> = SurfaceCapabilities { formats: vec![], alpha_modes: vec![] };
    let closed = || {
        let mut window = Window::new(open_window(Os::Windows, 1), "t", Size::new(5, 5));
        window.close();
        window
    };
    let wanted = WgpuWindowError::SdlError(SdlError::ClosedWindow);
    assert_eq!(WgpuWindow::from_window_and_surface(closed(), &none).unwrap_err(), wanted);
    assert_eq!(WgpuWindow::from_window(closed(), false, &none).unwrap_err(), wanted);
    assert_eq!(WgpuWindow::from_window(closed(), true, &capabilities()).unwrap_err(), wanted);
}

#[test]
fn answers_of_the_platform_are_read() {
    assert_eq!(WindowHandler::finish(&NativeCall::ShowWindow, ok()), Ok(WindowAnswer::Done));
    assert_eq!(WindowHandler::finish(&NativeCall::ShowWindow, failed()), Err(SdlError::ShowWindow));
    assert_eq!(WindowHandler::finish(&NativeCall::HideWindow, failed()), Err(SdlError::HideWindow));
    let set_size = NativeCall::SetWindowSize { width: 1, height: 1 };
    assert_eq!(WindowHandler::finish(&set_size, ok()), Ok(WindowAnswer::Done));
    assert_eq!(WindowHandler::finish(&set_size, failed()), Err(SdlError::SetWindowSize));
    let set_title = NativeCall::SetWindowTitle { title: "t".to_string() };
    assert_eq!(WindowHandler::finish(&set_title, failed()), Err(SdlError::SetWindowTitle));
    assert_eq!(
        WindowHandler::finish(&NativeCall::GetWindowSize, NativeReply::Size { size: Some(Size::new(3, 4)) }),
        Ok(WindowAnswer::Size { size: Size::new(3, 4) })
    );
    assert_eq!(
        WindowHandler::finish(&NativeCall::GetWindowSize, NativeReply::Size { size: None }),
        Err(SdlError::GetWindowSize)
    );
    assert_eq!(
        WindowHandler::finish(&NativeCall::GetWindowTitle, NativeReply::Title { title: Some("abc".to_string()) }),
        Ok(WindowAnswer::Title { title: "abc".to_string() })
    );
    assert_eq!(
        WindowHandler::finish(&NativeCall::GetWindowTitle, NativeReply::Title { title: None }),
        Ok(WindowAnswer::Title { title: String::new() })
    );
    assert_eq!(
        WindowHandler::finish(&NativeCall::GetWindowTitle, ok()),
        Err(SdlError::UnexpectedReply)
    );
    assert_eq!(
        WindowHandler::finish(&NativeCall::DestroyWindow, ok()),
        Err(SdlError::UnexpectedReply)
    );
}

#[test]
fn window_keeps_what_was_learnt() {
    let mut window = Window::new(open_window(Os::MacOS, 8), "first", Size::new(100, 50));
    assert_eq!(window.id(), 8);
    assert_eq!(window.title().unwrap().as_str(), "first");
    assert_eq!(window.get_size(), Size::new(100, 50));
    assert!(window.is_open());
    assert_eq!(
        window.update_calls(),
        Ok(vec![NativeCall::GetWindowTitle, NativeCall::GetWindowSize])
    );
    assert_eq!(
        window.update(&NativeCall::GetWindowTitle, NativeReply::Title { title: Some("second".to_string()) }),
        Ok(())
    );
    assert_eq!(window.title().unwrap().as_str(), "second");
    assert_eq!(
        window.update(&NativeCall::GetWindowSize, NativeReply::Size { size: Some(Size::new(7, 9)) }),
        Ok(())
    );
    assert_eq!(window.get_size(), Size::new(7, 9));
    assert_eq!(
        window.update(&NativeCall::GetWindowSize, NativeReply::Size { size: None }),
        Err(SdlError::GetWindowSize)
    );
    assert_eq!(window.get_size(), Size::new(7, 9));
    assert_eq!(window.update(&NativeCall::GetWindowTitle, NativeReply::Title { title: None }), Ok(()));
    assert_eq!(window.title().unwrap().as_str(), "");
    assert_eq!(window.update(&NativeCall::ShowWindow, ok()), Ok(()));
    assert_eq!(window.get_size(), Size::new(7, 9));
    assert_eq!(window.window().id(), 8);
}

#[test]
fn closed_cached_window_fails_without_asking() {
    let mut window = Window::new(open_window(Os::MacOS, 8), "first", Size::new(100, 50));
    window.close();
    assert!(!window.is_open());
    assert_eq!(window.update_calls(), Err(SdlError::ClosedWindow));
    assert_eq!(window.show(), Err(SdlError::ClosedWindow));
    assert_eq!(window.hide_window(), Err(SdlError::ClosedWindow));
    assert_eq!(window.set_title("x"), Err(SdlError::ClosedWindow));
    assert_eq!(window.try_set_size(Size::new(1, 1)), Err(SdlError::ClosedWindow));
    assert_eq!(window.title(), Err(SdlError::ClosedWindow));
    assert_eq!(window.get_size(), Size::new(100, 50));
}

#[test]
fn window_that_is_not_open_yet_gives_no_title() {
    let (creation, _) = WindowHandler::new(option("w", 10, 10), Os::Windows).unwrap();
    let (creation, _) = call_of(creation.advance(ok()));
    let (creation, _) = call_of(creation.advance(ok()));
    let (creation, _) = call_of(creation.advance(NativeReply::WindowId { id: 5 }));
    let handler = match creation.advance(NativeReply::Handles { window: 1, instance: 2 }) {
        CreationStep::Ready { window } => window,
        other => panic!("not ready: {:?}", other),
    };
    let mut window = Window::new(handler, "w", Size::new(10, 10));
    assert_eq!(window.title(), Err(SdlError::ClosedWindow));
    assert_eq!(window.try_set_size(Size::new(0, 0)), Err(SdlError::ClosedWindow));
    assert_eq!(window.get_size(), Size::new(10, 10));
    assert!(window.mark_open());
    assert_eq!(window.title().unwrap().as_str(), "w");
}

#[test]
fn resizing_a_window_to_nothing_keeps_one_pixel() {
    let mut window = Window::new(open_window(Os::MacOS, 8), "w", Size::new(800, 600));
    assert_eq!(
        window.try_set_size(Size::new(0, 0)),
        Ok(NativeCall::SetWindowSize { width: 1, height: 1 })
    );
    assert_eq!(window.get_size(), Size::new(1, 1));
    let asked = NativeCall::SetWindowSize { width: 1, height: 1 };
    assert_eq!(window.update(&asked, ok()), Ok(()));
    assert_eq!(window.get_size(), Size::new(1, 1));
    assert_eq!(window.title().unwrap().as_str(), "w");
}

#[test]
fn resizing_a_window_keeps_the_size_asked_for() {
    let mut window = Window::new(open_window(Os::Windows, 8), "w", Size::new(800, 600));
    assert_eq!(
        window.try_set_size(Size::new(1920, 1080)),
        Ok(NativeCall::SetWindowSize { width: 1920, height: 1080 })
    );
    assert_eq!(window.get_size(), Size::new(1920, 1080));
    assert_eq!(
        window.try_set_size(Size::new(-7, 30)),
        Ok(NativeCall::SetWindowSize { width: 1, height: 30 })
    );
    assert_eq!(window.get_size(), Size::new(1, 30));
    assert!(window.is_open());
}

#[test]
fn window_is_closed_by_its_own_close_event() {
    let mut window = Window::new(open_window(Os::MacOS, 8), "w", Size::new(1, 1));
    assert!(!window.process(&RawEvent::WindowClose { id: 9 }));
    assert!(!window.process(&RawEvent::Quit));
    assert!(!window.process(&RawEvent::Window { window_id: 8, event: WindowEvent::Hidden }));
    assert!(window.is_open());
    assert!(window.process(&RawEvent::WindowClose { id: 8 }));
    assert!(!window.is_open());
    let mut window = Window::new(open_window(Os::MacOS, 8), "w", Size::new(1, 1));
    assert!(window.process(&RawEvent::Window { window_id: 8, event: WindowEvent::Destroyed }));
    assert!(!window.is_open());
}

#[test]
fn window_can_be_worked_on_in_place() {
    let mut window = Window::new(open_window(Os::MacOS, 8), "kept", Size::new(3, 4));
    assert_eq!(window.window_mut().show(), Ok(NativeCall::ShowWindow));
    assert_eq!(window.title().unwrap().as_str(), "kept");
    window.window_mut().close();
    assert!(!window.is_open());
    assert_eq!(window.title(), Err(SdlError::ClosedWindow));
    assert_eq!(window.get_size(), Size::new(3, 4));
    assert_eq!(window.into_handler().state(), WindowState::Closed);
}

#[test]
fn destroying_a_window_ends_with_the_window() {
    assert_eq!(
        open_window(Os::MacOS, 1).destroy(),
        vec![NativeCall::DestroyMetalView, NativeCall::DestroyWindow]
    );
    assert_eq!(open_window(Os::Windows, 1).destroy(), vec![NativeCall::DestroyWindow]);
}

#[test]
fn surface_is_set_up_from_the_preferred_capabilities() {
    let config = surface_config(&capabilities(), Size::new(1024, 768)).unwrap();
    assert_eq!(config.usage, TextureUsage::RenderAttachment);
    assert_eq!(config.format, 7);
    assert_eq!(config.width, 1024);
    assert_eq!(config.height, 768);
    assert_eq!(config.present_mode, PresentMode::Fifo);
    assert_eq!(config.alpha_mode, 'o');
    assert!(config.view_formats.is_empty());
    assert_eq!(config.desired_maximum_frame_latency, 2);
    assert_eq!(FRAME_LATENCY, 2);
}

#[test]
fn surface_is_never_empty() {
    for (width, height, wanted) in [
        (0, 0, (1, 1)),
        (-5, 10, (1, 10)),
        (10, -5, (10, 1)),
        (i32::MIN, i32::MAX, (1, i32::MAX as u32)),
        (1, 1, (1, 1)),
    ] {
        let config = surface_config(&capabilities(), Size::new(width, height)).unwrap();
        assert_eq!((config.width, config.height), wanted);
    }
    assert_eq!(Size::new(0, -3).at_least_one(), Size::new(1, 1));
    assert_eq!(Size::new(4, 5).at_least_one(), Size::new(4, 5));
}

#[test]
fn surface_without_capabilities_is_refused() {
    let none: SurfaceCapabilities<u8, char> = SurfaceCapabilities { formats: vec![], alpha_modes: vec!['o'] };
    assert_eq!(surface_config(&none, Size::new(1, 1)).unwrap_err(), WgpuWindowError::NoSurfaceFormat);
    let none: SurfaceCapabilities<u8, char> = SurfaceCapabilities { formats: vec![1], alpha_modes: vec![] };
    assert_eq!(surface_config(&none, Size::new(1, 1)).unwrap_err(), WgpuWindowError::NoAlphaMode);
    let none: SurfaceCapabilities<u8, char> = SurfaceCapabilities { formats: vec![], alpha_modes: vec![] };
    assert_eq!(surface_config(&none, Size::new(1, 1)).unwrap_err(), WgpuWindowError::NoSurfaceFormat);
    let window = Window::new(open_window(Os::Windows, 1), "t", Size::new(5, 5));
    assert_eq!(
        WgpuWindow::from_window_and_surface(window, &none).unwrap_err(),
        WgpuWindowError::NoSurfaceFormat
    );
}

#[test]
fn binding_a_window_sets_up_its_surface() {
    let bound = bound(800, 0);
    assert_eq!(bound.config().width, 800);
    assert_eq!(bound.config().height, 1);
    assert_eq!(bound.config().format, 7);
    assert_eq!(bound.size(), Size::new(800, 1));
    assert_eq!(bound.window().get_size(), Size::new(800, 1));
    assert_eq!(bound.window().title().unwrap().as_str(), "title");
    assert!(!bound.needs_configure());
}

#[test]
fn binding_fails_where_the_surface_was_not_created() {
    let window = Window::new(open_window(Os::Windows, 1), "t", Size::new(5, 5));
    assert_eq!(
        WgpuWindow::from_window(window, false, &capabilities()).unwrap_err(),
        WgpuWindowError::CreateSurfaceError
    );
    let window = Window::new(open_window(Os::Windows, 1), "t", Size::new(5, 5));
    let bound = WgpuWindow::from_window(window, true, &capabilities()).unwrap();
    assert_eq!(bound.size(), Size::new(5, 5));
}

#[test]
fn resize_to_nothing_keeps_one_pixel() {
    let mut bound = bound(800, 600);
    assert_eq!(bound.resize(Size::new(0, 0)), Ok(()));
    assert_eq!(bound.window().get_size(), Size::new(1, 1));
    assert_eq!(bound.size(), Size::new(1, 1));
    assert_eq!((bound.config().width, bound.config().height), (1, 1));
    assert!(bound.needs_configure());
    bound.configured();
    assert!(!bound.needs_configure());
    assert_eq!(bound.size(), Size::new(1, 1));
}

#[test]
fn resize_follows_the_window() {
    let mut bound = bound(800, 600);
    assert_eq!(bound.resize(Size::new(1920, 1080)), Ok(()));
    assert_eq!(bound.size(), Size::new(1920, 1080));
    assert_eq!((bound.config().width, bound.config().height), (1920, 1080));
    assert_eq!(bound.config().format, 7);
    assert_eq!(bound.config().alpha_mode, 'o');
    assert!(bound.needs_configure());
    assert_eq!(bound.resize(Size::new(-1, 5)), Ok(()));
    assert_eq!(bound.size(), Size::new(1, 5));
}

#[test]
fn resize_of_a_closed_window_fails_and_changes_nothing() {
    let mut bound = bound(800, 600);
    bound.close();
    assert_eq!(
        bound.resize(Size::new(0, 0)),
        Err(WgpuWindowError::SdlError(SdlError::ClosedWindow))
    );
    assert_eq!(bound.size(), Size::new(800, 600));
    assert_eq!((bound.config().width, bound.config().height), (800, 600));
    assert!(!bound.needs_configure());
    assert!(!bound.window().is_open());
}

#[test]
fn events_resize_and_close_the_bound_window() {
    let mut bound = bound(800, 600);
    let pixels = |window_id, x, y| RawEvent::Window {
        window_id,
        event: WindowEvent::PixelSizeChanged { size: Point::new(x, y) },
    };
    assert_eq!(bound.process(&pixels(2, 10, 10)), Processed::Ignored);
    assert_eq!(bound.size(), Size::new(800, 600));
    assert_eq!(bound.process(&RawEvent::Quit), Processed::Ignored);
    assert_eq!(
        bound.process(&RawEvent::Window {
            window_id: 1,
            event: WindowEvent::Resized { size: Point::new(5, 5) }
        }),
        Processed::Ignored
    );
    assert!(!bound.needs_configure());
    assert_eq!(bound.process(&pixels(1, 0, 0)), Processed::Resized);
    assert_eq!(bound.size(), Size::new(1, 1));
    assert_eq!((bound.config().width, bound.config().height), (1, 1));
    assert!(bound.needs_configure());
    bound.configured();
    assert_eq!(bound.process(&pixels(1, 640, 480)), Processed::Resized);
    assert_eq!(bound.size(), Size::new(640, 480));
    assert_eq!(bound.process(&RawEvent::WindowClose { id: 2 }), Processed::Ignored);
    assert!(bound.window().is_open());
    assert_eq!(bound.process(&RawEvent::WindowClose { id: 1 }), Processed::Closed);
    assert!(!bound.window().is_open());
    bound.configured();
    assert_eq!(bound.process(&pixels(1, 10, 10)), Processed::Ignored);
    assert_eq!(bound.size(), Size::new(640, 480));
    assert!(!bound.needs_configure());
}

#[test]
fn teardown_releases_the_surface_before_the_window() {
    let releases = bound(10, 10).teardown();
    assert_eq!(
        releases,
        vec![
            Release::SurfaceConfiguration,
            Release::Surface,
            Release::Device,
            Release::Queue,
            Release::Native { call: NativeCall::DestroyWindow },
        ]
    );
    assert_eq!(check_release_order(&releases), Ok(()));
    let window = Window::new(open_window(Os::MacOS, 1), "title", Size::new(1, 1));
    let releases = WgpuWindow::from_window_and_surface(window, &capabilities()).unwrap().teardown();
    assert_eq!(
        releases,
        vec![
            Release::SurfaceConfiguration,
            Release::Surface,
            Release::Device,
            Release::Queue,
            Release::Native { call: NativeCall::DestroyMetalView },
            Release::Native { call: NativeCall::DestroyWindow },
        ]
    );
    assert_eq!(check_release_order(&releases), Ok(()));
}

#[derive(Debug, Clone, Copy, PartialEq, Eq)]
enum Destroyed {
    Surface,
    Window,
}

#[test]
fn fake_backend_sees_the_surface_go_first() {
    let mut seen: Vec<Destroyed> = Vec::new();
    for release in bound(10, 10).teardown() {
        match release {
            Release::Surface => seen.push(Destroyed::Surface),
            Release::Native { call: NativeCall::DestroyWindow } => seen.push(Destroyed::Window),
            _ => {}
        }
    }
    assert_eq!(seen, vec![Destroyed::Surface, Destroyed::Window]);
}

#[test]
fn window_destroyed_before_its_surface_is_a_defect() {
    let window = Release::Native { call: NativeCall::DestroyWindow };
    assert_eq!(
        check_release_order(&vec![window.clone(), Release::Surface]),
        Err(WindowDestroyedFirst { at: 0 })
    );
    assert_eq!(
        check_release_order(&vec![Release::Device, Release::Queue, window.clone(), Release::Surface]),
        Err(WindowDestroyedFirst { at: 2 })
    );
    assert_eq!(check_release_order(&vec![window.clone()]), Err(WindowDestroyedFirst { at: 0 }));
    assert_eq!(check_release_order(&vec![Release::Surface, window.clone()]), Ok(()));
    assert_eq!(check_release_order(&vec![]), Ok(()));
    assert_eq!(
        check_release_order(&vec![Release::Native { call: NativeCall::DestroyMetalView }, Release::Device]),
        Ok(())
    );
}

#[test]
fn context_without_window_acquires_three_things() {
    let mut context = WgpuRenderContext::new();
    assert_eq!(context.first(), ContextStep::Instance);
    assert_eq!(
        context.advance(Ok(())),
        ContextProgress::Acquire { step: ContextStep::Adapter { compatible_with_surface: false } }
    );
    assert_eq!(context.advance(Ok(())), ContextProgress::Acquire { step: ContextStep::Device });
    assert_eq!(context.advance(Ok(())), ContextProgress::Ready);
}

#[test]
fn context_with_window_creates_the_surface_before_the_adapter() {
    let mut context = WgpuRenderContext::new_with_window();
    assert_eq!(context.first(), ContextStep::Instance);
    assert_eq!(context.advance(Ok(())), ContextProgress::Acquire { step: ContextStep::Surface });
    assert_eq!(
        context.advance(Ok(())),
        ContextProgress::Acquire { step: ContextStep::Adapter { compatible_with_surface: true } }
    );
    assert_eq!(context.advance(Ok(())), ContextProgress::Acquire { step: ContextStep::Device });
    assert_eq!(context.advance(Ok(())), ContextProgress::Acquire { step: ContextStep::Window });
    assert_eq!(context.advance(Ok(())), ContextProgress::Ready);
}

#[test]
fn context_failures_name_what_was_not_to_be_had() {
    let reason = WgpuWindowError::NoSurfaceFormat;
    let mut context = WgpuRenderContext::new_with_window();
    context.advance(Ok(()));
    assert_eq!(
        context.advance(Err(reason)),
        ContextProgress::Failed { error: ContextError::CreateSurfaceError }
    );
    let mut context = WgpuRenderContext::new_with_window();
    context.advance(Ok(()));
    context.advance(Ok(()));
    assert_eq!(
        context.advance(Err(reason)),
        ContextProgress::Failed { error: ContextError::RequestAdapterError }
    );
    context.advance(Ok(()));
    assert_eq!(
        context.advance(Err(reason)),
        ContextProgress::Failed { error: ContextError::RequestDeviceError }
    );
    context.advance(Ok(()));
    assert_eq!(
        context.advance(Err(reason)),
        ContextProgress::Failed { error: ContextError::WgpuWindowError(reason) }
    );
}

#[test]
fn errors_have_their_words() {
    assert_eq!(SdlError::ClosedWindow.message(), "try to operate a closed window");
    assert_eq!(SdlError::InvalidTitle.message(), "invalid title string");
    assert_eq!(SdlError::CreateWindow.message(), "failed to create window");
    assert_eq!(SdlError::ShowWindow.message(), "failed to show window");
    assert_eq!(SdlError::HideWindow.message(), "failed to hide window");
    assert_eq!(SdlError::GetWindowSize.message(), "failed to get window size");
    assert_eq!(SdlError::SetWindowSize.message(), "failed to set window size");
    assert_eq!(SdlError::SetWindowTitle.message(), "failed to set window title");
    assert_eq!(SdlError::CreateView.message(), "failed to create NSView");
    assert_eq!(SdlError::MissingWindowHandle.message(), "missing window handle:hwnd");
    assert_eq!(SdlError::MissingInstanceHandle.message(), "missing window handle:hinstance");
    assert_eq!(SdlError::Initialize.message(), "failed to initialize sdl system");
}
