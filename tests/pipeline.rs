use profile_site::handlers::{finish, home, profile, received_event, Handled, Plan};
use profile_site::router::{route, Route};
use profile_site::templates::{select_template, IndexTemplate, ProfileTemplate, RenderInput, Template};
use profile_site::types::{Level, Profile, RenderError, Response, STATUS_BAD_REQUEST, STATUS_OK};

fn named(name: &str) -> Profile {
    Profile { name: name.to_string() }
}

fn rendered_profile(t: &Template) -> String {
    match t {
        Template::Profile(ProfileTemplate { profile }) => format!("<h1>{}</h1>", profile.name),
        Template::Index(IndexTemplate {}) => "<h1>Welcome</h1>".to_string(),
    }
}

/// Runs a handler's plan, with `render` standing for the template engine.
fn serve(plan: Plan, mut render: impl FnMut(&Template) -> Result<String, RenderError>) -> (Response, Option<Handled>) {
    match plan {
        Plan::Respond(r) => (r, None),
        Plan::Render(input) => {
            let page = select_template(input);
            let outcome = render(&page);
            let h = finish(&page, outcome);
            let response = Response { status: h.response.status, body: h.response.body.clone() };
            (response, Some(h))
        }
    }
}

#[test]
fn routes_get_root_to_home() {
    assert_eq!(route("GET", "/"), Some(Route::Home));
}

#[test]
fn routes_get_profile_to_profile() {
    assert_eq!(route("GET", "/profile"), Some(Route::Profile));
}

#[test]
fn rejects_other_methods_and_paths() {
    assert_eq!(route("POST", "/"), None);
    assert_eq!(route("get", "/profile"), None);
    assert_eq!(route("GET", "/profile/"), None);
    assert_eq!(route("GET", "/other"), None);
    assert_eq!(route("GET", ""), None);
}

#[test]
fn absent_name_is_empty() {
    assert_eq!(Profile::from_query(None).name, "");
    assert_eq!(Profile::from_query(Some("dave".to_string())).name, "dave");
}

#[test]
fn empty_name_short_circuits() {
    for p in [Profile::from_query(None), Profile::from_query(Some(String::new()))] {
        let mut rendered = false;
        let (r, handled) = serve(profile(p), |t| {
            rendered = true;
            Ok(rendered_profile(t))
        });
        assert_eq!(r.status, STATUS_OK);
        assert_eq!(r.body, "");
        assert!(handled.is_none());
        assert!(!rendered);
    }
}

#[test]
fn whitespace_name_is_not_trimmed() {
    match profile(named(" ")) {
        Plan::Render(RenderInput::Profile(p)) => assert_eq!(p.name, " "),
        _ => panic!("a blank name is rendered"),
    }
}

#[test]
fn nonempty_name_renders_profile_page() {
    let (r, handled) = serve(profile(named("alice")), |t| Ok(rendered_profile(t)));
    assert_eq!(r.status, 200);
    assert_eq!(r.body, "<h1>alice</h1>");
    assert!(r.body.contains("alice"));
    let h = handled.unwrap();
    assert_eq!(h.event.level, Level::Debug);
    assert_eq!(h.event.message, "Serving profile");
}

#[test]
fn home_renders_landing_page() {
    let (r, handled) = serve(home(), |t| Ok(rendered_profile(t)));
    assert_eq!(r.status, 200);
    assert_eq!(r.body, "<h1>Welcome</h1>");
    assert_eq!(handled.unwrap().event.message, "Serving index.html");
}

#[test]
fn home_plan_has_no_data() {
    assert!(matches!(home(), Plan::Render(RenderInput::Home)));
    assert!(matches!(select_template(RenderInput::Home), Template::Index(_)));
}

#[test]
fn profile_template_binds_the_profile() {
    match select_template(RenderInput::Profile(named("erin"))) {
        Template::Profile(t) => assert_eq!(t.profile.name, "erin"),
        Template::Index(_) => panic!("profile input selects the profile page"),
    }
}

#[test]
fn failed_home_render_is_bad_request() {
    let (r, handled) = serve(home(), |_| Err(RenderError { detail: "missing slot".to_string() }));
    assert_eq!(r.status, STATUS_BAD_REQUEST);
    assert_eq!(r.body, "400 Bad Request");
    assert!(!r.body.contains("missing slot"));
    let h = handled.unwrap();
    assert_eq!(h.event.level, Level::Error);
    assert_eq!(h.event.message, "Failed to render index.html with following error: missing slot");
}

#[test]
fn failed_profile_render_is_bad_request() {
    let (r, handled) = serve(profile(named("bob")), |_| Err(RenderError { detail: "boom".to_string() }));
    assert_eq!(r.status, 400);
    assert_eq!(r.body, "400 Bad Request");
    assert_eq!(handled.unwrap().event.message, "Failed to render profile with following error: boom");
}

#[test]
fn received_event_names_the_profile() {
    let e = received_event(&named("alice"));
    assert_eq!(e.level, Level::Debug);
    assert_eq!(e.message, "Fetching profile: alice");
}

#[test]
fn labels_name_each_page() {
    assert_eq!(Template::Index(IndexTemplate {}).label(), "index.html");
    assert_eq!(Template::Profile(ProfileTemplate { profile: named("x") }).label(), "profile");
}

#[test]
fn interleaved_requests_keep_their_own_data() {
    let plan_a = profile(named("alice"));
    let plan_b = profile(named("bob"));
    let (rb, _) = serve(plan_b, |t| Ok(rendered_profile(t)));
    let (ra, _) = serve(plan_a, |t| Ok(rendered_profile(t)));
    assert_eq!(ra.body, "<h1>alice</h1>");
    assert_eq!(rb.body, "<h1>bob</h1>");
    assert!(!ra.body.contains("bob"));
    assert!(!rb.body.contains("alice"));
}

#[test]
fn repeated_request_is_identical() {
    let (first, _) = serve(profile(named("carol")), |t| Ok(rendered_profile(t)));
    for _ in 0..5 {
        let (again, _) = serve(profile(named("carol")), |t| Ok(rendered_profile(t)));
        assert_eq!(again.status, first.status);
        assert_eq!(again.body.as_bytes(), first.body.as_bytes());
    }
}

#[test]
fn response_constructors() {
    let ok = Response::ok("hi".to_string());
    assert_eq!((ok.status, ok.body.as_str()), (200, "hi"));
    let empty = Response::empty();
    assert_eq!((empty.status, empty.body.as_str()), (200, ""));
    let bad = Response::bad_request();
    assert_eq!((bad.status, bad.body.as_str()), (400, "400 Bad Request"));
}
