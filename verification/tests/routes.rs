use lan_server::credentials::CredentialStore;
use lan_server::listing::{DirectoryEntry, DirectoryScan, ListError, ScannedChild};
use lan_server::page::FRONT_END;
use lan_server::response::{Body, Response};
use lan_server::routes::{
    answer_listing, index, list_directory, login, message_of, status_of, ListStep,
};
use lan_server::session::{session_cookie, RequestCookie, SameSite};

fn marker() -> RequestCookie {
    RequestCookie { name: "auth".to_string(), value: "secret".to_string() }
}

fn refusal() -> Response {
    Response {
        status: 401,
        content_type: None,
        location: None,
        cookie: None,
        body: Body::Text("Unauthorized".to_string()),
    }
}

#[test]
fn login_with_a_wrong_password_is_unauthorized() {
    let store = CredentialStore::from_config(None);
    let response = login(&store, Some("admin"), Some("wrongpass"));
    assert_eq!(response.status, 401);
    assert_eq!(response.body, Body::Text("Invalid credentials".to_string()));
    assert_eq!(response.cookie, None);
    assert_eq!(response.location, None);
    assert_eq!(response.content_type, None);
}

#[test]
fn login_with_the_right_password_opens_a_session() {
    let store = CredentialStore::from_config(None);
    let response = login(&store, Some("admin"), Some("password"));
    assert_eq!(response.status, 303);
    assert_eq!(response.location, Some("/".to_string()));
    assert_eq!(response.body, Body::Empty);
    assert_eq!(response.content_type, None);
    let cookie = response.cookie.expect("a session cookie");
    assert_eq!(cookie, session_cookie());
    assert_eq!(cookie.name, "auth");
    assert_eq!(cookie.value, "secret");
    assert_eq!(cookie.path, "/");
    assert!(cookie.http_only);
    assert_eq!(cookie.same_site, SameSite::Strict);
    assert_eq!(cookie.max_age, None);
}

#[test]
fn login_of_an_unknown_user_is_unauthorized() {
    let store = CredentialStore::parse("admin:password");
    assert_eq!(login(&store, Some("root"), Some("password")).status, 401);
    assert_eq!(login(&store, Some(""), Some("")).status, 401);
}

#[test]
fn login_without_its_parts_counts_them_as_empty() {
    let store = CredentialStore::parse("admin:password");
    assert_eq!(login(&store, None, None).status, 401);
    assert_eq!(login(&store, Some("admin"), None).status, 401);
    assert_eq!(login(&store, None, Some("password")).status, 401);
    let open = CredentialStore::parse(":,guest:");
    assert_eq!(login(&open, None, None).status, 303);
    assert_eq!(login(&open, Some("guest"), None).status, 303);
    assert_eq!(login(&open, None, Some("guest")).status, 401);
}

#[test]
fn login_uses_the_configured_users() {
    let store = CredentialStore::from_config(Some("carol:pw,dave:pw2"));
    assert_eq!(login(&store, Some("carol"), Some("pw")).status, 303);
    assert_eq!(login(&store, Some("dave"), Some("pw2")).status, 303);
    assert_eq!(login(&store, Some("dave"), Some("pw")).status, 401);
    assert_eq!(login(&store, Some("admin"), Some("password")).status, 401);
}

#[test]
fn index_shows_the_page() {
    let response = index();
    assert_eq!(
        response,
        Response {
            status: 200,
            content_type: Some("text/html".to_string()),
            location: None,
            cookie: None,
            body: Body::Text(FRONT_END.to_string()),
        }
    );
}

#[test]
fn index_shows_the_same_page_every_time() {
    assert_eq!(index(), index());
}

#[test]
fn page_holds_the_list_and_the_script_that_fills_it() {
    let Body::Text(page) = index().body else {
        panic!("the page is text");
    };
    assert!(page.contains("<!DOCTYPE html>"));
    assert!(page.contains("<div id=\"directory-list\"></div>"));
    assert!(page.contains("window.onload = () => fetchDirectory();"));
    assert!(page.contains("fetch(`/list/${path}`"));
    assert!(page.contains("credentials: 'include'"));
    assert!(page.contains("<button>Back</button>"));
    assert!(page.contains("fetchDirectory(`${path}${entry.name}/`)"));
    assert!(page.contains("<a href='/${path}${entry.name}' download>"));
}

#[test]
fn listing_without_a_session_is_unauthorized() {
    assert_eq!(list_directory(true, &[], ""), ListStep::Answer(refusal()));
    assert_eq!(list_directory(true, &[], "sub/"), ListStep::Answer(refusal()));
}

#[test]
fn listing_with_a_wrong_cookie_is_unauthorized() {
    let wrong_value = [RequestCookie { name: "auth".to_string(), value: "guess".to_string() }];
    assert_eq!(list_directory(true, &wrong_value, ""), ListStep::Answer(refusal()));
    let wrong_name = [RequestCookie { name: "token".to_string(), value: "secret".to_string() }];
    assert_eq!(list_directory(true, &wrong_name, ""), ListStep::Answer(refusal()));
}

#[test]
fn listing_with_a_session_scans_the_path() {
    assert_eq!(list_directory(true, &[marker()], ""), ListStep::Scan(".".to_string()));
    assert_eq!(list_directory(true, &[marker()], "sub/"), ListStep::Scan("sub/".to_string()));
}

#[test]
fn listing_with_a_session_is_answered_with_the_entries() {
    let step = list_directory(true, &[marker()], "sub/");
    assert_eq!(step, ListStep::Scan("sub/".to_string()));
    let found = DirectoryScan::Children(vec![ScannedChild {
        name: "a.txt".to_string(),
        is_dir: Some(false),
    }]);
    let response = answer_listing(&found);
    assert_eq!(response.status, 200);
    assert_eq!(
        response.body,
        Body::Listing(vec![DirectoryEntry { name: "a.txt".to_string(), is_dir: false }])
    );
}

#[test]
fn listing_where_no_session_is_asked_for_scans_the_path() {
    assert_eq!(list_directory(false, &[], ""), ListStep::Scan(".".to_string()));
    assert_eq!(list_directory(false, &[], "docs"), ListStep::Scan("docs".to_string()));
    assert_eq!(list_directory(false, &[marker()], "docs"), ListStep::Scan("docs".to_string()));
}

#[test]
fn answer_for_a_missing_path_is_not_found() {
    assert_eq!(
        answer_listing(&DirectoryScan::Missing),
        Response {
            status: 404,
            content_type: None,
            location: None,
            cookie: None,
            body: Body::Json("Directory not found".to_string()),
        }
    );
}

#[test]
fn answer_for_an_unreadable_directory_is_a_server_error() {
    assert_eq!(
        answer_listing(&DirectoryScan::Unreadable),
        Response {
            status: 500,
            content_type: None,
            location: None,
            cookie: None,
            body: Body::Json("Failed to read directory".to_string()),
        }
    );
}

#[test]
fn answer_for_a_directory_is_its_listing() {
    let root = DirectoryScan::Children(vec![
        ScannedChild { name: "notes.txt".to_string(), is_dir: Some(false) },
        ScannedChild { name: "broken-link".to_string(), is_dir: None },
        ScannedChild { name: "sub".to_string(), is_dir: Some(true) },
    ]);
    assert_eq!(
        answer_listing(&root),
        Response {
            status: 200,
            content_type: None,
            location: None,
            cookie: None,
            body: Body::Listing(vec![
                DirectoryEntry { name: "notes.txt".to_string(), is_dir: false },
                DirectoryEntry { name: "sub".to_string(), is_dir: true },
            ]),
        }
    );
}

#[test]
fn plain_response_has_no_header_of_its_own() {
    let response = Response::plain(404, Body::Empty);
    assert_eq!(
        response,
        Response { status: 404, content_type: None, location: None, cookie: None, body: Body::Empty }
    );
}

#[test]
fn failed_listing_has_its_status_and_message() {
    assert_eq!(status_of(ListError::NotFound), 404);
    assert_eq!(message_of(ListError::NotFound), "Directory not found");
    assert_eq!(status_of(ListError::ReadError), 500);
    assert_eq!(message_of(ListError::ReadError), "Failed to read directory");
}

#[test]
fn cookie_from_a_login_opens_the_listing() {
    let store = CredentialStore::from_config(None);
    let issued = login(&store, Some("admin"), Some("password")).cookie.expect("a session cookie");
    let brought_back = RequestCookie { name: issued.name, value: issued.value };
    let other = RequestCookie { name: "theme".to_string(), value: "dark".to_string() };
    assert_eq!(
        list_directory(true, &[other, brought_back], "sub/"),
        ListStep::Scan("sub/".to_string())
    );
}

#[test]
fn answer_for_a_scan_that_was_cut_short_is_what_was_found() {
    let found = DirectoryScan::CutShort(vec![ScannedChild {
        name: "a.txt".to_string(),
        is_dir: Some(false),
    }]);
    assert_eq!(
        answer_listing(&found),
        Response::plain(
            200,
            Body::Listing(vec![DirectoryEntry { name: "a.txt".to_string(), is_dir: false }])
        )
    );
}

#[test]
fn login_with_a_password_of_colons() {
    let store = CredentialStore::from_config(Some("bob:pa:ss"));
    assert_eq!(login(&store, Some("bob"), Some("pa:ss")).status, 303);
    assert_eq!(login(&store, Some("bob:pa"), Some("ss")).status, 401);
    assert_eq!(login(&store, Some("bob"), Some("pa")).status, 401);
}
