use babel_core::flaresolverr::client::{page_of, page_request, FlareSolverrError, MAX_TIMEOUT_MS};
use babel_core::flaresolverr::models::{FlareSolverrRawResponse, FlareSolverrSolution};
use babel_core::flaresolverr::parser::{extract_pre_text, pre_text_outcome, ExtractError};
use babel_core::flaresolverr::storage::{source_dir, source_file_name};
use babel_core::igdb::auth::token_url;
use babel_core::igdb::database::games::{page_window, search_pattern};

#[test]
fn page_request_fields() {
    let r = page_request("https://example.org/list");
    assert_eq!(r.cmd, "request.get");
    assert_eq!(r.url, "https://example.org/list");
    assert_eq!(r.max_timeout, 60000);
    assert_eq!(MAX_TIMEOUT_MS, 60000);
}

fn response(status: &str, page: &str) -> FlareSolverrRawResponse {
    FlareSolverrRawResponse {
        status: status.to_string(),
        solution: FlareSolverrSolution { response: page.to_string() },
    }
}

#[test]
fn page_of_ok_response() {
    assert_eq!(page_of(response("ok", "<html></html>")), Ok("<html></html>".to_string()));
}

#[test]
fn page_of_failed_response() {
    assert_eq!(page_of(response("error", "x")), Err(FlareSolverrError::RequestFailed));
    assert_eq!(page_of(response("OK", "x")), Err(FlareSolverrError::RequestFailed));
}

#[test]
fn pre_text_found() {
    let html = "<html><body><p>intro</p><pre>{\"name\":\"src\",\"downloads\":[]}</pre><pre>second</pre></body></html>";
    assert_eq!(extract_pre_text(html), Ok("{\"name\":\"src\",\"downloads\":[]}".to_string()));
}

#[test]
fn pre_text_joins_nested_text() {
    let html = "<pre>{\"a\": <b>1</b>}</pre>";
    assert_eq!(extract_pre_text(html), Ok("{\"a\": 1}".to_string()));
}

#[test]
fn pre_text_missing() {
    assert_eq!(extract_pre_text("<html><body>nothing</body></html>"), Err(ExtractError::PreElementMissing));
    assert_eq!(extract_pre_text(""), Err(ExtractError::PreElementMissing));
}

#[test]
fn pre_text_outcomes() {
    assert_eq!(pre_text_outcome(Err(())), Err(ExtractError::SelectorRejected));
    assert_eq!(pre_text_outcome(Ok(None)), Err(ExtractError::PreElementMissing));
    assert_eq!(pre_text_outcome(Ok(Some("t".to_string()))), Ok("t".to_string()));
}

#[test]
fn source_paths() {
    let name = "fitgirl".to_string();
    assert_eq!(source_dir(&name), vec!["sources".to_string(), "fitgirl".to_string()]);
    assert_eq!(source_file_name(&name), "fitgirl.json");
}

#[test]
fn twitch_token_address() {
    assert_eq!(
        token_url("abc", "s3cr3t"),
        "https://id.twitch.tv/oauth2/token?client_id=abc&client_secret=s3cr3t&grant_type=client_credentials"
    );
}

#[test]
fn catalogue_search_parameters() {
    assert_eq!(search_pattern("resident evil 5"), "%resident evil 5%");
    assert_eq!(search_pattern(""), "%%");
    assert_eq!(page_window(20, 0), (20, 0));
    assert_eq!(page_window(usize::MAX, 1), (-1, 1));
}
