use rendercore::connection::plan_connection;
use rendercore::context::teardown_actions;
use rendercore::context::App;
use rendercore::context::ContextOptions;
use rendercore::context::surface_from_driver;
use rendercore::context::TeardownAction;
use rendercore::diagnostics::map_category;
use rendercore::diagnostics::map_severity;
use rendercore::diagnostics::LogLevel;
use rendercore::diagnostics::MessageCategory;
use rendercore::diagnostics::CATEGORY_PERFORMANCE;
use rendercore::diagnostics::CATEGORY_VALIDATION;
use rendercore::diagnostics::SEVERITY_ERROR;
use rendercore::diagnostics::SEVERITY_INFO;
use rendercore::diagnostics::SEVERITY_VERBOSE;
use rendercore::diagnostics::SEVERITY_WARNING;
use rendercore::error::ContextError;
use rendercore::events::handle_window_event;
use rendercore::events::Action;
use rendercore::events::Key;
use rendercore::events::WindowEvent;
use rendercore::frame::Frame;
use rendercore::frame::FramePool;
use rendercore::swapchain::negotiate;
use rendercore::swapchain::Extent2D;
use rendercore::swapchain::SurfaceCapabilities;
use rendercore::swapchain::SurfaceFormat;
use rendercore::swapchain::Swapchain;
use rendercore::swapchain::SwapchainSupportDetails;
use rendercore::swapchain::COLOR_SPACE_SRGB_NONLINEAR;
use rendercore::swapchain::FORMAT_B8G8R8_UNORM;
use rendercore::swapchain::PRESENT_MODE_FIFO;
use rendercore::swapchain::PRESENT_MODE_MAILBOX;
use rendercore::FRAMES_IN_FLIGHT;
use rendercore::WINDOW_HEIGHT;
use rendercore::WINDOW_WIDTH;

fn name(s: &str) -> Vec<u8> {
    s.as_bytes().to_vec()
}

#[test]
fn plan_connection_appends_window_extensions() {
    let supported_layers = vec![name("VK_LAYER_KHRONOS_validation")];
    let supported_extensions = vec![name("VK_EXT_debug_utils"), name("VK_KHR_surface"), name("VK_KHR_xlib_surface")];
    let config = plan_connection(
        true,
        vec![name("VK_LAYER_KHRONOS_validation")],
        vec![name("VK_EXT_debug_utils")],
        vec![name("VK_KHR_surface"), name("VK_KHR_xlib_surface")],
        &supported_layers,
        &supported_extensions,
    )
    .unwrap();
    assert_eq!(config.layers, vec![name("VK_LAYER_KHRONOS_validation")]);
    assert_eq!(
        config.extensions,
        vec![name("VK_EXT_debug_utils"), name("VK_KHR_surface"), name("VK_KHR_xlib_surface")]
    );
}

#[test]
fn plan_connection_reports_unloadable_driver() {
    let none: Vec<Vec<u8>> = Vec::new();
    let r = plan_connection(false, Vec::new(), Vec::new(), Vec::new(), &none, &none);
    assert!(matches!(r, Err(ContextError::DriverUnavailable)));
}

#[test]
fn plan_connection_reports_missing_layer() {
    let supported_layers: Vec<Vec<u8>> = Vec::new();
    let supported_extensions = vec![name("VK_KHR_surface")];
    let r = plan_connection(
        true,
        vec![name("VK_LAYER_KHRONOS_validation")],
        Vec::new(),
        vec![name("VK_KHR_surface")],
        &supported_layers,
        &supported_extensions,
    );
    assert!(matches!(r, Err(ContextError::LayerOrExtensionUnsupported)));
}

#[test]
fn plan_connection_reports_missing_extension() {
    let supported_layers: Vec<Vec<u8>> = Vec::new();
    let supported_extensions = vec![name("VK_KHR_surface")];
    let r = plan_connection(
        true,
        Vec::new(),
        vec![name("VK_EXT_debug_utils")],
        vec![name("VK_KHR_surface")],
        &supported_layers,
        &supported_extensions,
    );
    assert!(matches!(r, Err(ContextError::LayerOrExtensionUnsupported)));
}

#[test]
fn surface_from_driver_maps_platform_failure() {
    assert_eq!(surface_from_driver(Some(4)), Ok(4));
    assert_eq!(surface_from_driver(None), Err(ContextError::SurfaceCreationFailed));
}

#[test]
fn severity_mapping_matches_the_contract() {
    assert_eq!(map_severity(SEVERITY_VERBOSE), LogLevel::Debug);
    assert_eq!(map_severity(SEVERITY_INFO), LogLevel::Info);
    assert_eq!(map_severity(SEVERITY_WARNING), LogLevel::Warn);
    assert_eq!(map_severity(SEVERITY_ERROR), LogLevel::Error);
    assert_eq!(map_severity(0xdead), LogLevel::Warn);
}

#[test]
fn category_mapping_matches_the_contract() {
    assert_eq!(map_category(CATEGORY_VALIDATION), MessageCategory::Validation);
    assert_eq!(map_category(CATEGORY_PERFORMANCE), MessageCategory::Performance);
    assert_eq!(map_category(0), MessageCategory::General);
    assert_eq!(map_category(0xbeef), MessageCategory::General);
}

#[test]
fn window_events_decide_as_the_run_loop_does() {
    assert_eq!(handle_window_event(&WindowEvent::CloseRequested, false), Action::Exit);
    assert_eq!(handle_window_event(&WindowEvent::RedrawRequested, false), Action::RequestRedraw);
    assert_eq!(handle_window_event(&WindowEvent::KeyPressed(Key::Escape), true), Action::Exit);
    assert_eq!(
        handle_window_event(&WindowEvent::KeyPressed(Key::F11), false),
        Action::SetFullscreen(true)
    );
    assert_eq!(
        handle_window_event(&WindowEvent::KeyPressed(Key::F11), true),
        Action::SetFullscreen(false)
    );
    assert_eq!(handle_window_event(&WindowEvent::KeyPressed(Key::Other), false), Action::Ignore);
    assert_eq!(handle_window_event(&WindowEvent::Other, true), Action::Ignore);
}

#[test]
fn default_options_match_the_stock_configuration() {
    let options = ContextOptions::default();
    assert!(!options.validation_enabled);
    assert_eq!(options.frames_in_flight, FRAMES_IN_FLIGHT);
    assert_eq!(options.preferred_format.format, FORMAT_B8G8R8_UNORM);
    assert_eq!(options.preferred_format.color_space, COLOR_SPACE_SRGB_NONLINEAR);
    assert_eq!(options.preferred_present_mode, PRESENT_MODE_MAILBOX);
    assert_eq!(options.window_width, WINDOW_WIDTH);
    assert_eq!(options.window_height, WINDOW_HEIGHT);
}

fn sample_app(diagnostics: Option<u64>) -> App {
    let caps = SurfaceCapabilities {
        min_image_count: 2,
        max_image_count: 8,
        current_extent: Extent2D { width: 800, height: 600 },
        min_image_extent: Extent2D { width: 1, height: 1 },
        max_image_extent: Extent2D { width: 4096, height: 4096 },
        current_transform: 1,
    };
    let preferred = SurfaceFormat { format: FORMAT_B8G8R8_UNORM, color_space: COLOR_SPACE_SRGB_NONLINEAR };
    let details =
        SwapchainSupportDetails::new(Some(caps), Some(vec![preferred]), Some(vec![PRESENT_MODE_FIFO]))
            .unwrap();
    let config = negotiate(&details, preferred, PRESENT_MODE_MAILBOX, 800, 600);
    let chain =
        Swapchain::new(details, &config, Some(500), vec![501, 502], vec![601, 602]).unwrap();
    let frames = vec![
        Frame::new(701, 702, 703, 704).unwrap(),
        Frame::new(711, 712, 713, 714).unwrap(),
    ];
    let pool = FramePool::create(2, frames).unwrap();
    App::new(100, diagnostics, 200, 300, 400, chain, pool)
}

fn expected_teardown(diagnostics: Option<u64>) -> Vec<TeardownAction> {
    let mut actions = vec![
        TeardownAction::DestroyImageView(601),
        TeardownAction::DestroyImageView(602),
        TeardownAction::DestroySwapchain(500),
        TeardownAction::DestroySemaphore(701),
        TeardownAction::DestroySemaphore(702),
        TeardownAction::DestroyCommandPool(703),
        TeardownAction::DestroySemaphore(711),
        TeardownAction::DestroySemaphore(712),
        TeardownAction::DestroyCommandPool(713),
        TeardownAction::DestroyDevice(300),
        TeardownAction::DestroySurface(400),
    ];
    if let Some(h) = diagnostics {
        actions.push(TeardownAction::DetachDiagnostics(h));
    }
    actions.push(TeardownAction::DestroyInstance(100));
    actions
}

#[test]
fn teardown_runs_in_reverse_dependency_order() {
    let app = sample_app(None);
    assert_eq!(teardown_actions(&app), expected_teardown(None));
}

#[test]
fn teardown_detaches_diagnostics_before_the_instance() {
    let app = sample_app(Some(900));
    let actions = teardown_actions(&app);
    assert_eq!(actions, expected_teardown(Some(900)));
    let detach = actions.iter().position(|a| *a == TeardownAction::DetachDiagnostics(900)).unwrap();
    assert_eq!(detach, actions.len() - 2);
}

#[test]
fn two_full_lifetimes_tear_down_cleanly() {
    // Construct and immediately tear down two independent contexts: both
    // passes complete without any error and with the same total plan.
    let first = sample_app(None);
    let first_plan = teardown_actions(&first);
    drop(first);
    let second = sample_app(None);
    let second_plan = teardown_actions(&second);
    drop(second);
    assert_eq!(first_plan, second_plan);
    assert_eq!(first_plan.len(), 12);
}
