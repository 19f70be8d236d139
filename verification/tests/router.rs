use shiny_hunter::pico_timer::hid::KeyEvent;
use shiny_hunter::pico_timer::router::{route, route_path, RouteOutcome};
use shiny_hunter::pico_timer::switch_descriptor::{SwitchButton, SwitchHatValues};

fn get(path: &str) -> (Option<KeyEvent>, &'static str) {
    match route("GET", path) {
        RouteOutcome::Served { route, with_body } => {
            assert!(with_body);
            (route.command, route.body)
        }
        _ => panic!("{path} is not served"),
    }
}

#[test]
fn root_taps_a() {
    assert_eq!(get("/"), (Some(KeyEvent::Tap(SwitchButton::BtnA)), "OK"));
}

#[test]
fn hold_holds_a_two_seconds() {
    assert_eq!(get("/hold"), (Some(KeyEvent::Hold(SwitchButton::BtnA, 2000)), "OK"));
}

#[test]
fn dpad_paths() {
    let cases = [
        ("/dpad/up", SwitchHatValues::Up),
        ("/dpad/down", SwitchHatValues::Down),
        ("/dpad/left", SwitchHatValues::Left),
        ("/dpad/right", SwitchHatValues::Right),
    ];
    for (path, dir) in cases {
        assert_eq!(get(path), (Some(KeyEvent::DPad(dir, 2000)), "OK"));
    }
}

#[test]
fn status_reports_online_without_command() {
    assert_eq!(get("/status"), (None, "ONLINE"));
}

#[test]
fn head_runs_handler_without_body() {
    match route("HEAD", "/hold") {
        RouteOutcome::Served { route, with_body } => {
            assert!(!with_body);
            assert_eq!(route.command, Some(KeyEvent::Hold(SwitchButton::BtnA, 2000)));
        }
        _ => panic!("HEAD must be served"),
    }
}

#[test]
fn other_methods_are_refused() {
    for m in ["POST", "PUT", "DELETE", "get", ""] {
        assert!(matches!(route(m, "/hold"), RouteOutcome::MethodNotAllowed));
    }
}

#[test]
fn unknown_paths_are_not_served() {
    for p in ["/nope", "", "/dpad", "/hold/", "/Status", "/hold?x=1"] {
        assert!(matches!(route("GET", p), RouteOutcome::NotFound));
        assert!(matches!(route("POST", p), RouteOutcome::NotFound));
        assert!(route_path(p).is_none());
    }
}
