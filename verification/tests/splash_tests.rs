use cipollino_client::collab::{cleanup_connect_error_message, CollabScreen, SocketEvent, N_CONNECTION_ICONS};
use cipollino_client::paths::{cleanup_recent_path, get_path_relative_to_home_dir, relative_or_path};
use cipollino_client::recents::{add_recent, Recents, UserPref, MAX_RECENTS};
use cipollino_client::splash::{
    check_new_project, open_project, random_quote, NewProjectErrorSource, NewProjectPathFacts, NewProjectScreen,
    SplashScreen, SplashScreenState,
};

fn strings(items: &[&str]) -> Vec<String> {
    items.iter().map(|s| s.to_string()).collect()
}

#[test]
fn parse_errors_mean_invalid_url() {
    let msg = cleanup_connect_error_message("URL parse error: relative URL".to_string(), "foo");
    assert_eq!(msg, "Invalid URL");
}

#[test]
fn unsupported_scheme_messages() {
    let err = || "URL scheme not supported".to_string();
    assert_eq!(cleanup_connect_error_message(err(), "http://x"), "URL should use ws:// or wss:// scheme");
    assert_eq!(cleanup_connect_error_message(err(), "  ws://host  "), "ws:// not supported. Try wss://");
    assert_eq!(cleanup_connect_error_message(err(), "\twss://host"), "wss:// not supported. Try ws://");
}

#[test]
fn http_and_connect_errors() {
    assert_eq!(cleanup_connect_error_message("HTTP error: 400".to_string(), "ws://a"), "Invalid server protocol");
    assert_eq!(
        cleanup_connect_error_message("IO error: Unable to connect (os error 111)".to_string(), "ws://a"),
        "Could not connect to server"
    );
}

#[test]
fn other_errors_pass_through() {
    assert_eq!(cleanup_connect_error_message("timeout".to_string(), "ws://a"), "timeout");
    assert_eq!(cleanup_connect_error_message(String::new(), ""), "");
}

#[test]
fn parse_takes_precedence_over_scheme() {
    let msg = cleanup_connect_error_message("parse: scheme not supported".to_string(), "ws://a");
    assert_eq!(msg, "Invalid URL");
}

#[test]
fn cleaning_twice_changes_nothing_more() {
    for (msg, url) in [
        ("URL parse error", "x"),
        ("URL scheme not supported", "http://x"),
        ("URL scheme not supported", "ws://x"),
        ("URL scheme not supported", "wss://x"),
        ("HTTP error: 200", "ws://x"),
        ("Unable to connect", "ws://x"),
        ("something else", "ws://x"),
    ] {
        let once = cleanup_connect_error_message(msg.to_string(), url);
        let twice = cleanup_connect_error_message(once.clone(), url);
        assert_eq!(once, twice);
    }
}

#[test]
fn collab_screen_connects_and_fails() {
    let mut screen: CollabScreen<u32> = CollabScreen::new();
    assert_eq!(screen.url, "");
    assert!(screen.socket.is_none());
    screen.url = "ws://server".to_string();
    screen.connect_result(Err("HTTP error: 500".to_string()));
    assert_eq!(screen.error, "Invalid server protocol");
    assert!(screen.socket.is_none());

    screen.connect_result(Ok(7));
    assert_eq!(screen.error, "");
    assert_eq!(screen.socket, Some(7));

    assert_eq!(screen.on_socket_event(SocketEvent::Pending), None);
    assert_eq!(screen.socket, Some(7));

    assert_eq!(screen.on_socket_event(SocketEvent::Closed), None);
    assert_eq!(screen.error, "Could not connect to server.");
    assert!(screen.socket.is_none());
}

#[test]
fn collab_screen_hands_back_socket_on_welcome() {
    let mut screen: CollabScreen<u32> = CollabScreen::new();
    screen.connect_result(Ok(3));
    assert_eq!(screen.on_socket_event(SocketEvent::Welcome), Some(3));
    assert!(screen.socket.is_none());
    screen.editor_failed("bad welcome".to_string());
    assert_eq!(screen.error, "bad welcome");
}

#[test]
fn collab_screen_socket_error_is_explained() {
    let mut screen: CollabScreen<u32> = CollabScreen::new();
    screen.url = " wss://x".to_string();
    screen.connect_result(Ok(1));
    let taken = screen.on_socket_event(SocketEvent::Error("URL scheme not supported".to_string()));
    assert_eq!(taken, None);
    assert_eq!(screen.error, "wss:// not supported. Try ws://");
    assert!(screen.socket.is_none());
}

#[test]
fn connection_icon_wraps() {
    let mut screen: CollabScreen<u32> = CollabScreen::new();
    for expected in [1, 2, 3, 4, 0, 1] {
        screen.advance_connection_icon();
        assert_eq!(screen.connection_icon_idx, expected);
    }
    assert_eq!(N_CONNECTION_ICONS, 5);
}

#[test]
fn recents_pref_name_and_default() {
    assert_eq!(Recents::name(), "recents");
    assert!(Recents::default().is_empty());
    assert_eq!(MAX_RECENTS, 3);
}

#[test]
fn add_recent_puts_path_first() {
    let mut recents = strings(&["a", "b"]);
    add_recent(&mut recents, "c".to_string());
    assert_eq!(recents, strings(&["c", "a", "b"]));
}

#[test]
fn add_recent_moves_existing_path_to_front() {
    let mut recents = strings(&["a", "b", "c"]);
    add_recent(&mut recents, "c".to_string());
    assert_eq!(recents, strings(&["c", "a", "b"]));
}

#[test]
fn add_recent_keeps_three() {
    let mut recents = strings(&["a", "b", "c"]);
    add_recent(&mut recents, "d".to_string());
    assert_eq!(recents, strings(&["d", "a", "b"]));
}

#[test]
fn add_recent_drops_one_from_a_long_list() {
    let mut recents = strings(&["a", "b", "c", "d", "e"]);
    add_recent(&mut recents, "f".to_string());
    assert_eq!(recents, strings(&["f", "a", "b", "c", "d"]));
}

#[test]
fn add_recent_removes_only_first_copy() {
    let mut recents = strings(&["a", "b", "a"]);
    add_recent(&mut recents, "a".to_string());
    assert_eq!(recents, strings(&["a", "b", "a"]));
}

#[test]
fn reopening_same_path_changes_nothing() {
    let mut recents = strings(&["x", "y"]);
    add_recent(&mut recents, "z".to_string());
    let once = recents.clone();
    add_recent(&mut recents, "z".to_string());
    assert_eq!(recents, once);
}

#[test]
fn recents_stay_without_repeats() {
    let mut recents = Vec::new();
    for p in ["a", "b", "a", "c", "b", "d", "a"] {
        add_recent(&mut recents, p.to_string());
        assert!(recents.len() <= MAX_RECENTS);
        let mut sorted = recents.clone();
        sorted.sort();
        sorted.dedup();
        assert_eq!(sorted.len(), recents.len());
        assert_eq!(recents[0], p);
    }
}

#[test]
fn open_project_success_records_recent() {
    let mut recents = strings(&["old"]);
    let mut next: Option<u8> = None;
    let mut error: Option<String> = Some("earlier".to_string());
    open_project("/p/new.cip".to_string(), Some(9u8), &mut recents, &mut next, &mut error);
    assert_eq!(recents, strings(&["/p/new.cip", "old"]));
    assert_eq!(next, Some(9));
    assert_eq!(error, Some("earlier".to_string()));
}

#[test]
fn open_project_failure_sets_error() {
    let mut recents = strings(&["old"]);
    let mut next: Option<u8> = None;
    let mut error: Option<String> = None;
    open_project("/p/missing.cip".to_string(), None, &mut recents, &mut next, &mut error);
    assert_eq!(recents, strings(&["old"]));
    assert_eq!(next, None);
    assert_eq!(error, Some("Could not open \"/p/missing.cip\".".to_string()));
}

#[test]
fn recent_paths_shown_relative_to_home() {
    assert_eq!(cleanup_recent_path("/home/u/projects/a.cip", "/home/u"), "projects/a.cip");
    assert_eq!(cleanup_recent_path("/opt/a.cip", "/home/u"), "../../opt/a.cip");
    assert_eq!(cleanup_recent_path("rel/a.cip", "/home/u"), "rel/a.cip");
}

#[test]
fn path_relative_to_home_dir() {
    assert_eq!(get_path_relative_to_home_dir("/home/u/Documents", Some("/home/u")), "Documents");
    assert_eq!(get_path_relative_to_home_dir("/home/u/Documents", None), "/home/u/Documents");
}

#[test]
fn random_quote_is_one_of_the_quotes() {
    let quotes = strings(&["one", "two", "three"]);
    for _ in 0..20 {
        let q = random_quote(&quotes);
        assert!(quotes.contains(&q));
    }
}

#[test]
fn splash_screen_starts_on_menu() {
    let quotes = strings(&["q"]);
    let screen: SplashScreen<u8> = SplashScreen::new(&quotes);
    assert!(matches!(screen.state, SplashScreenState::Menu));
    assert_eq!(screen.quote, "q");
    assert!(screen.error.is_none());
    let screen: SplashScreen<u8> = SplashScreen::new_with_error(&quotes, "oops".to_string());
    assert_eq!(screen.error, Some("oops".to_string()));
}

#[test]
fn splash_screen_tick_closes_error_and_switches() {
    let quotes = strings(&["q"]);
    let mut screen: SplashScreen<u8> = SplashScreen::new_with_error(&quotes, "oops".to_string());
    screen.finish_tick(false, None);
    assert_eq!(screen.error, Some("oops".to_string()));
    screen.finish_tick(true, Some(SplashScreenState::NewProject(NewProjectScreen::new(None))));
    assert!(screen.error.is_none());
    assert!(matches!(screen.state, SplashScreenState::NewProject(_)));
}

fn facts(exists: bool, is_dir: bool, taken: bool) -> NewProjectPathFacts {
    NewProjectPathFacts { location_exists: exists, location_is_dir: is_dir, target_exists: taken }
}

fn check(name: &str, f: NewProjectPathFacts) -> Result<String, (&'static str, bool)> {
    let screen = NewProjectScreen { project_name: name.to_string(), project_location: "Docs".to_string() };
    screen
        .get_new_project_path("/home/u", f)
        .map_err(|(msg, source)| (msg, matches!(source, NewProjectErrorSource::Name)))
}

#[test]
fn new_project_defaults() {
    let screen = NewProjectScreen::new(Some("Documents/Cipollino Projects/".to_string()));
    assert_eq!(screen.project_name, "Project");
    assert_eq!(screen.project_location, "Documents/Cipollino Projects/");
    assert_eq!(NewProjectScreen::new(None).project_location, "");
}

#[test]
fn new_project_errors_in_order() {
    assert_eq!(check("P", facts(false, false, true)), Err(("Project location does not exist.", false)));
    assert_eq!(check("P", facts(true, false, true)), Err(("Project location must be a folder.", false)));
    assert_eq!(check("", facts(true, true, true)), Err(("Project name cannot be empty.", true)));
    assert_eq!(check("a/b", facts(true, true, true)), Err(("Project name cannot be a path.", true)));
    assert_eq!(check("P", facts(true, true, true)), Err(("Project name taken.", true)));
    assert_eq!(check("P", facts(true, true, false)), Ok("/home/u/Docs/P.cip".to_string()));
}

#[test]
fn new_project_paths() {
    let screen = NewProjectScreen { project_name: "Film".to_string(), project_location: "Docs/Projects".to_string() };
    assert_eq!(screen.project_folder("/home/u"), "/home/u/Docs/Projects");
    assert_eq!(screen.project_file("/home/u"), "/home/u/Docs/Projects/Film.cip");
    assert_eq!(screen.project_file(""), "Docs/Projects/Film.cip");
    let dotted = NewProjectScreen { project_name: "a.b".to_string(), project_location: "".to_string() };
    assert_eq!(dotted.project_file("/h"), "/h/a.cip");
}

#[test]
fn relative_path_or_the_path_itself() {
    assert_eq!(relative_or_path("/home/a/p.cip", Some("p.cip".to_string())), "p.cip");
    assert_eq!(relative_or_path("/home/a/p.cip", None), "/home/a/p.cip");
}

#[test]
fn add_recent_compares_paths_not_texts() {
    let mut recents = vec!["x".to_string(), "projects/a.cip/".to_string(), "y".to_string()];
    add_recent(&mut recents, "projects/a.cip".to_string());
    assert_eq!(recents, vec!["projects/a.cip".to_string(), "x".to_string(), "y".to_string()]);
    let mut recents = vec!["projects//b.cip".to_string()];
    add_recent(&mut recents, "projects/b.cip".to_string());
    assert_eq!(recents, vec!["projects/b.cip".to_string()]);
}

#[test]
fn checking_a_new_project_from_its_parts() {
    let ok = NewProjectPathFacts { location_exists: true, location_is_dir: true, target_exists: false };
    assert_eq!(check_new_project("P", 1, "/x/P.cip".to_string(), ok).ok(), Some("/x/P.cip".to_string()));
    assert_eq!(
        check_new_project("a/b", 2, "/x/a/b.cip".to_string(), ok).err().map(|e| e.0),
        Some("Project name cannot be a path.")
    );
    assert_eq!(check_new_project("", 0, "/x".to_string(), ok).err().map(|e| e.0), Some("Project name cannot be empty."));
}
