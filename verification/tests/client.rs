use vaultmaid::api::client::{is_success, ApiError, ApiPrefix, Client};
use vaultmaid::api::url::Url;

fn client_with_server(url: &str) -> Client {
    Client::new(Url::parse(url).unwrap())
}

#[test]
fn url_joining_with_api_prefix() {
    let client = client_with_server("https://vault.bitwarden.com");
    let url = client.url("/ciphers", ApiPrefix::Api).unwrap();
    assert_eq!(url.as_str(), "https://vault.bitwarden.com/api/ciphers");
}

#[test]
fn url_joining_with_identity_prefix() {
    let client = client_with_server("https://vault.bitwarden.com");
    let url = client.url("/connect/token", ApiPrefix::Identity).unwrap();
    assert_eq!(
        url.as_str(),
        "https://vault.bitwarden.com/identity/connect/token"
    );
}

#[test]
fn url_joining_handles_trailing_slash_on_server() {
    let client = client_with_server("https://vault.bitwarden.com/");
    let url = client.url("/ciphers", ApiPrefix::Api).unwrap();
    assert_eq!(url.as_str(), "https://vault.bitwarden.com/api/ciphers");
}

#[test]
fn url_joining_with_nested_path() {
    let client = client_with_server("https://vault.bitwarden.com");
    let url = client.url("/ciphers/123/import", ApiPrefix::Api).unwrap();
    assert_eq!(
        url.as_str(),
        "https://vault.bitwarden.com/api/ciphers/123/import"
    );
}

#[test]
fn auth_header_with_token() {
    let client = client_with_server("https://vault.bitwarden.com").with_token("abc123".to_string());
    assert_eq!(client.auth_header(), Some("Bearer abc123".to_string()));
}

#[test]
fn auth_header_without_token() {
    let client = client_with_server("https://vault.bitwarden.com");
    assert_eq!(client.auth_header(), None);
}

#[test]
fn leading_slashes_are_stripped() {
    let client = client_with_server("https://vault.bitwarden.com");
    for path in ["ciphers", "/ciphers", "///ciphers"] {
        let url = client.url(path, ApiPrefix::Api).unwrap();
        assert_eq!(url.as_str(), "https://vault.bitwarden.com/api/ciphers");
    }
    let root = client.url("///", ApiPrefix::Identity).unwrap();
    assert_eq!(root.as_str(), "https://vault.bitwarden.com/identity/");
}

#[test]
fn a_server_that_cannot_be_a_base_has_no_endpoints() {
    for server in [
        "mailto:someone@example.com",
        "mailto:someone@example.com/",
        "localhost:",
        "localhost:8080",
        "data:",
        "data:?x",
        "data:#/",
    ] {
        let client = client_with_server(server);
        let error = client.url("/ciphers", ApiPrefix::Api).expect_err("no base");
        assert_eq!(error, "relative URL with a cannot-be-a-base base", "{server}");
    }
    let client = client_with_server("other:/root");
    assert_eq!(
        client.url("/ciphers", ApiPrefix::Api).unwrap().as_str(),
        "other:/root/api/ciphers"
    );
}

#[test]
fn urls_are_normalised() {
    let url = Url::parse("HTTPS://Vault.Example.TEST:443").expect("parse");
    assert_eq!(url.as_str(), "https://vault.example.test/");
    assert_eq!(url.clone(), url);
    assert_eq!(
        url.join("a/../b").expect("join").as_str(),
        "https://vault.example.test/b"
    );
    assert_eq!(
        Url::parse("not-a-url").expect_err("relative"),
        "relative URL without a base"
    );
}

#[test]
fn status_codes_map_to_errors() {
    for status in [200u16, 204, 299] {
        assert!(is_success(status));
        assert_eq!(ApiError::from_response(status), None);
    }
    assert!(!is_success(199));
    assert!(!is_success(300));
    assert_eq!(
        ApiError::from_response(401),
        Some(ApiError::Unauthorized {
            message: "Unauthorized".to_owned()
        })
    );
    assert_eq!(
        ApiError::from_response(403),
        Some(ApiError::Forbidden {
            message: "Forbidden".to_owned()
        })
    );
    assert_eq!(
        ApiError::from_response(429),
        Some(ApiError::RateLimited {
            message: "Too Many Requests".to_owned()
        })
    );
    assert_eq!(
        ApiError::from_response(500),
        Some(ApiError::ServerError {
            message: "Internal Server Error".to_owned()
        })
    );
    assert_eq!(
        ApiError::from_response(599),
        Some(ApiError::ServerError {
            message: "unknown error".to_owned()
        })
    );
    assert_eq!(
        ApiError::from_response(404),
        Some(ApiError::Other {
            status: 404,
            message: "Not Found".to_owned()
        })
    );
    assert_eq!(
        ApiError::from_status(418, Some("tea".to_owned())),
        Some(ApiError::Other {
            status: 418,
            message: "tea".to_owned()
        })
    );
}

#[test]
fn api_errors_have_messages() {
    let message = |status: u16| ApiError::from_response(status).expect("error").message();
    assert_eq!(message(401), "unauthorized: Unauthorized");
    assert_eq!(message(403), "forbidden: Forbidden");
    assert_eq!(message(429), "rate limited: Too Many Requests");
    assert_eq!(message(503), "server error: Service Unavailable");
    assert_eq!(message(404), "API error 404 Not Found: Not Found");
    assert_eq!(
        message(499),
        "API error 499 <unknown status code>: unknown error"
    );
    assert_eq!(
        ApiError::Network("timed out".to_owned()).message(),
        "network error: timed out"
    );
    assert_eq!(
        ApiError::UrlParse("empty host".to_owned()).message(),
        "URL parse error: empty host"
    );
}

#[test]
fn a_path_of_the_server_is_kept() {
    for server in [
        "https://vw.example.test/vault",
        "https://vw.example.test/vault/",
        "https://vw.example.test/vault?x=1",
        "https://vw.example.test/vault#top",
        "https://vw.example.test/vault/?x=/y#z?",
    ] {
        let client = client_with_server(server);
        let url = client.url("/ciphers", ApiPrefix::Api).unwrap();
        assert_eq!(
            url.as_str(),
            "https://vw.example.test/vault/api/ciphers",
            "{server}"
        );
    }
    let deep = client_with_server("http://localhost:8080/a/b");
    assert_eq!(
        deep.url("connect/token", ApiPrefix::Identity)
            .unwrap()
            .as_str(),
        "http://localhost:8080/a/b/identity/connect/token"
    );
}

#[test]
fn a_trailing_slash_on_the_server_does_not_matter() {
    for (prefix, segment) in [(ApiPrefix::Api, "api"), (ApiPrefix::Identity, "identity")] {
        for server in ["https://vault.example", "https://vault.example/"] {
            for path in ["a1/b-2//c", "/a1/b-2//c", "//a1/b-2//c"] {
                let url = client_with_server(server).url(path, prefix).unwrap();
                assert_eq!(
                    url.as_str(),
                    format!("https://vault.example/{segment}/a1/b-2//c")
                );
            }
        }
    }
}

#[test]
fn joining_below_keeps_the_last_segment() {
    let url = Url::parse("https://vw.example.test/vault").expect("parse");
    assert_eq!(
        url.join("x").expect("join").as_str(),
        "https://vw.example.test/x"
    );
    assert_eq!(
        url.join_below("x").expect("join").as_str(),
        "https://vw.example.test/vault/x"
    );
    assert_eq!(
        url.join_below("").expect("join").as_str(),
        "https://vw.example.test/vault/"
    );
}

#[test]
fn a_plain_host_passes_through() {
    for host in ["localhost", "vault.bitwarden.com", "a..b.", "x"] {
        let expected = format!("https://{host}/");
        for text in [format!("https://{host}"), expected.clone()] {
            assert_eq!(Url::parse(&text).expect("parse").as_str(), expected);
        }
        let client = client_with_server(&format!("https://{host}"));
        assert_eq!(
            client.url("//ciphers", ApiPrefix::Api).unwrap().as_str(),
            format!("https://{host}/api/ciphers")
        );
    }
}
