use wrac_plugin::wrac_clap_adapter::api::{
    ClapWindow, GuiApi, GuiConfiguration, GuiSize, PluginError,
};
use wrac_plugin::wrac_wxp_gui::layout::{
    default_gui_api, default_gui_configuration, is_api_supported, pack_size, unpack_size,
    GuiResizePolicy, GuiSizeLimits, HostGuiLayout, WindowSystem,
};
use wrac_plugin::wrac_wxp_gui::probe::{plan_probe, ProbeIp, ProbeRun, ProbeStep};
use wrac_plugin::wrac_wxp_gui::session::{
    clamp_size, escape_html, escape_js_string, project_name_from_plugin_id,
    sanitize_plugin_data_dir, session_page, url_probe_error_html, webview_data_dir, SessionPage,
    SessionSize, UrlProbeError, WebviewDataDir, WxpFrontendSource, URL_PROBE_TIMEOUT_MS,
};
use wrac_plugin::wrac_wxp_gui::thread_lease::GuiThreadState;
use wrac_plugin::wrac_wxp_gui::window::{ParentWindowHandle, StoredParentWindow};

fn size(width: u32, height: u32) -> GuiSize {
    GuiSize { width, height }
}

#[test]
fn clamps_host_size_with_physical_limits() {
    let clamped = clamp_size(
        GuiSize { width: 100, height: 900 },
        GuiSizeLimits {
            min: GuiSize { width: 320, height: 240 },
            max: GuiSize { width: 640, height: 480 },
        },
    );

    assert_eq!(clamped.width, 320);
    assert_eq!(clamped.height, 480);
}

#[test]
fn resolves_http_probe_targets() {
    let target = plan_probe("http://127.0.0.1:5173/").unwrap().unwrap();
    assert_eq!(target.display, "127.0.0.1:5173");
    assert_eq!(target.addresses.len(), 1);
    assert_eq!(target.addresses[0].ip, ProbeIp::V4(0x7f00_0001));
    assert_eq!(target.addresses[0].port, 5173);

    let target = plan_probe("http://localhost:5173/").unwrap().unwrap();
    assert_eq!(target.display, "localhost:5173");
    assert_eq!(target.addresses.len(), 2);
    assert_eq!(target.addresses[0].ip, ProbeIp::V4(0x7f00_0001));
    assert_eq!(target.addresses[0].port, 5173);
    assert_eq!(target.addresses[1].ip, ProbeIp::V6(1));
    assert_eq!(target.addresses[1].port, 5173);

    let target = plan_probe("http://[::1]:5173/").unwrap().unwrap();
    assert_eq!(target.display, "[::1]:5173");
    assert_eq!(target.addresses.len(), 1);
    assert_eq!(target.addresses[0].ip, ProbeIp::V6(1));
    assert_eq!(target.addresses[0].port, 5173);
}

#[test]
fn skips_domain_probe_targets() {
    assert!(plan_probe("https://example.com/path").unwrap().is_none());
}

#[test]
fn default_ports_are_probed() {
    let target = plan_probe("https://127.0.0.1/").unwrap().unwrap();
    assert_eq!(target.display, "127.0.0.1:443");
    let target = plan_probe("HTTP://LOCALHOST").unwrap().unwrap();
    assert_eq!(target.display, "localhost:80");
}

#[test]
fn other_schemes_are_not_probed() {
    assert!(plan_probe("wxp-plugin://localhost/").unwrap().is_none());
}

#[test]
fn an_unreadable_url_is_a_probe_error() {
    let error = plan_probe("not a url").err().unwrap();
    assert_eq!(error.target, "not a url");
    assert_eq!(error.error, "URL parse failed: relative URL without a base");
}

#[test]
fn probes_go_from_endpoint_to_endpoint() {
    let target = plan_probe("http://localhost:5173/").unwrap().unwrap();
    let mut run = ProbeRun::start(target).unwrap();
    match run.next_step(100, 500) {
        ProbeStep::Connect { position, remaining } => {
            assert_eq!(position, 0);
            assert_eq!(remaining, 400);
            assert_eq!(run.address(position).text, "127.0.0.1:5173");
        }
        ProbeStep::Unreachable { .. } => panic!("expected a connection"),
    }
    run.refused("connection refused");
    match run.next_step(200, 500) {
        ProbeStep::Connect { position, remaining } => {
            assert_eq!(position, 1);
            assert_eq!(remaining, 300);
            assert_eq!(run.address(position).text, "[::1]:5173");
        }
        ProbeStep::Unreachable { .. } => panic!("expected a connection"),
    }
    run.refused("no route");
    match run.next_step(300, 500) {
        ProbeStep::Unreachable { error } => {
            assert_eq!(error.target, "localhost:5173");
            assert!(error.error.contains("127.0.0.1:5173: connection refused"));
            assert!(error.error.contains("[::1]:5173: no route"));
        }
        ProbeStep::Connect { .. } => panic!("expected the end"),
    }
}

#[test]
fn escapes_error_page_values() {
    let error = UrlProbeError {
        target: "127.0.0.1:5173".to_string(),
        error: "failed <because> \"quoted\" & 'single'".to_string(),
    };
    let html = url_probe_error_html("http://127.0.0.1:5173/?x=\"<&", &error, 500);

    assert!(html.contains("http://127.0.0.1:5173/?x=&quot;&lt;&amp;"));
    assert!(html.contains("failed &lt;because&gt; &quot;quoted&quot; &amp; &#39;single&#39;"));
    assert!(html.contains("const url = \"http://127.0.0.1:5173/?x=\\\"\\x3C\\x26\";"));
    assert!(html.contains("await fetch(url, {"));
    assert!(html.contains("window.location.replace(url);"));
}

#[test]
fn escaped_text_ends_no_element_and_no_string() {
    assert_eq!(escape_html("a<b>&\"'"), "a&lt;b&gt;&amp;&quot;&#39;");
    assert_eq!(escape_js_string("</script>\\\"\n"), "\\x3C/script\\x3E\\\\\\\"\\n");
}

#[test]
fn pages_follow_the_frontend_and_the_probe() {
    let html = WxpFrontendSource::Html { html: "<p>hi</p>" };
    match session_page(html, None, URL_PROBE_TIMEOUT_MS) {
        SessionPage::Html { html } => assert_eq!(html, "<p>hi</p>"),
        _ => panic!("expected a page"),
    }
    match session_page(WxpFrontendSource::Url { url: "http://localhost:1/" }, None, 500) {
        SessionPage::Url { url } => assert_eq!(url, "http://localhost:1/"),
        _ => panic!("expected a URL"),
    }
    let error = UrlProbeError { target: "t".to_string(), error: "e".to_string() };
    match session_page(WxpFrontendSource::Url { url: "http://localhost:1/" }, Some(&error), 500) {
        SessionPage::Html { html } => {
            assert_eq!(html, url_probe_error_html("http://localhost:1/", &error, 500))
        }
        _ => panic!("expected a page"),
    }
}

#[test]
fn session_sizes_stay_within_the_limits() {
    let limits = GuiSizeLimits { min: size(320, 240), max: size(640, 480) };
    let mut session = SessionSize::new(size(1000, 10), limits);
    assert_eq!(session.host_size, size(640, 240));
    session.set_size(size(400, 300));
    assert_eq!(session.host_size, size(400, 300));
}

#[test]
fn data_directories_have_safe_names() {
    assert_eq!(sanitize_plugin_data_dir("com.acme.gain/../x y"), "com.acme.gain_.._x_y");
    let name = project_name_from_plugin_id("com.acme.my-gain").unwrap();
    assert_eq!(name.qualifier, "com");
    assert_eq!(name.organization, "acme");
    assert_eq!(name.application, "my-gain");
    assert!(project_name_from_plugin_id("").is_none());
    match webview_data_dir("com.acme.gain", true) {
        WebviewDataDir::Project { below } => assert_eq!(below, ["webview", "com.acme.gain"]),
        WebviewDataDir::Temporary { .. } => panic!("expected the project directory"),
    }
    match webview_data_dir("com.acme.gain", false) {
        WebviewDataDir::Temporary { below } => {
            assert_eq!(below, ["com.acme.gain", "webview", "data"])
        }
        WebviewDataDir::Project { .. } => panic!("expected a temporary directory"),
    }
}

#[test]
fn packing_keeps_the_size() {
    assert_eq!(pack_size(size(1, 2)), 0x1_0000_0002);
    assert_eq!(unpack_size(0x1_0000_0002), size(1, 2));
    assert_eq!(unpack_size(pack_size(size(u32::MAX, 7))), size(u32::MAX, 7));
}

#[test]
fn layouts_clamp_and_store() {
    let limits = GuiSizeLimits { min: size(320, 240), max: size(640, 480) };
    let mut layout = HostGuiLayout::new(size(1, 1), limits, GuiResizePolicy { can_resize: true });
    assert_eq!(layout.accepted_size(), size(320, 240));
    assert_eq!(layout.clamp_size(size(9999, 300)), size(640, 300));
    assert_eq!(layout.clamp_size(layout.clamp_size(size(9999, 300))), size(640, 300));
    layout.store_accepted_size(size(500, 400));
    assert_eq!(layout.accepted_size(), size(500, 400));
    assert!(layout.can_resize());
    assert!(layout.resize_hints().can_resize_horizontally);
    assert!(!GuiResizePolicy { can_resize: false }.resize_hints().can_resize_vertically);
}

#[test]
fn each_system_has_its_api() {
    assert_eq!(default_gui_api(WindowSystem::Macos), GuiApi::Cocoa);
    assert_eq!(default_gui_api(WindowSystem::Windows), GuiApi::Win32);
    assert_eq!(default_gui_api(WindowSystem::Unix), GuiApi::X11);
    assert_eq!(
        default_gui_configuration(WindowSystem::Unix),
        GuiConfiguration { api: GuiApi::X11, is_floating: false }
    );
    assert!(is_api_supported(WindowSystem::Macos, GuiApi::Cocoa, false));
    assert!(!is_api_supported(WindowSystem::Macos, GuiApi::Cocoa, true));
    assert!(!is_api_supported(WindowSystem::Macos, GuiApi::X11, false));
}

#[test]
fn parents_become_handles() {
    let stored = StoredParentWindow::from_clap_window(ClapWindow::Cocoa { ns_view: 8 });
    assert_eq!(
        stored.to_parent_window_handle(),
        Ok(ParentWindowHandle::AppKit { ns_view: 8 })
    );
    let stored = StoredParentWindow::from_clap_window(ClapWindow::Win32 { hwnd: 9 });
    assert_eq!(stored.to_parent_window_handle(), Ok(ParentWindowHandle::Win32 { hwnd: 9 }));
    let stored = StoredParentWindow::from_clap_window(ClapWindow::X11 { window: 10 });
    assert_eq!(stored.to_parent_window_handle(), Ok(ParentWindowHandle::Xcb { window: 10 }));
    assert!(StoredParentWindow::Cocoa { ns_view: 0 }.to_parent_window_handle().is_err());
    assert!(StoredParentWindow::X11 { window: 1 << 40 }.to_parent_window_handle().is_err());
}

#[test]
fn one_thread_owns_the_gui() {
    let mut state = GuiThreadState::new();
    assert!(state.acquire(1, true).is_ok());
    assert!(state.acquire(1, true).is_ok());
    assert_eq!(state.lease_count(), 2);
    assert_eq!(
        state.acquire(2, true),
        Err(PluginError::UnsupportedHostGuiThreadingModel)
    );
    assert!(state.check(2).is_err());
    state.release();
    assert!(state.check(2).is_err());
    state.release();
    assert!(state.check(2).is_ok());
    assert!(state.acquire(2, true).is_ok());
}

#[test]
fn escaped_text_can_be_read_back() {
    let text = "a < b && c > \"d\" 'e' &amp;";
    let read = escape_html(text)
        .replace("&lt;", "<")
        .replace("&gt;", ">")
        .replace("&quot;", "\"")
        .replace("&#39;", "'")
        .replace("&amp;", "&");
    assert_eq!(read, text);

    let text = "a\tb\"c\\td\n";
    let escaped = escape_js_string(text);
    assert_eq!(escaped, "a\\tb\\\"c\\\\td\\n");
    let read = escaped
        .replace("\\\\", "\u{0}")
        .replace("\\t", "\t")
        .replace("\\\"", "\"")
        .replace("\\n", "\n")
        .replace('\u{0}', "\\");
    assert_eq!(read, text);
}
