use reqwest::header::HeaderValue;
use v2ex_sign::client::default_headers;
use v2ex_sign::client::is_success;
use v2ex_sign::client::ClientError;
use v2ex_sign::client::Header;
use v2ex_sign::client::ACCEPT;
use v2ex_sign::client::ACCEPT_LANGUAGE;
use v2ex_sign::client::TIMEOUT_SECONDS;
use v2ex_sign::client::USER_AGENT;

#[test]
fn headers_are_the_four_of_a_browser_with_the_cookie() {
    let headers = default_headers("A2=\"2|1:0|10:1700000000\"; PB3_SESSION=x").unwrap();
    assert_eq!(
        headers,
        vec![
            Header {
                name: "user-agent",
                value: "Mozilla/5.0 (Windows NT 10.0; Win64; x64) AppleWebKit/537.36 (KHTML, like Gecko) Chrome/120.0.0.0 Safari/537.36".to_string(),
            },
            Header {
                name: "accept",
                value: "text/html,application/xhtml+xml,application/xml;q=0.9,image/avif,image/webp,image/apng,*/*;q=0.8".to_string(),
            },
            Header { name: "accept-language", value: "zh-CN,zh;q=0.9".to_string() },
            Header {
                name: "cookie",
                value: "A2=\"2|1:0|10:1700000000\"; PB3_SESSION=x".to_string(),
            },
        ]
    );
}

#[test]
fn fixed_header_values_are_accepted_by_the_client() {
    for value in [USER_AGENT, ACCEPT, ACCEPT_LANGUAGE] {
        assert!(HeaderValue::from_str(value).is_ok());
    }
}

#[test]
fn header_names_are_those_of_the_client() {
    let headers = default_headers("k=v").unwrap();
    assert_eq!(headers[0].name, reqwest::header::USER_AGENT.as_str());
    assert_eq!(headers[1].name, reqwest::header::ACCEPT.as_str());
    assert_eq!(headers[2].name, reqwest::header::ACCEPT_LANGUAGE.as_str());
    assert_eq!(headers[3].name, reqwest::header::COOKIE.as_str());
}

#[test]
fn cookie_with_a_line_break_is_refused() {
    assert_eq!(default_headers("a=b\nc=d"), Err(ClientError::InvalidCookie));
    assert_eq!(default_headers("a=b\r"), Err(ClientError::InvalidCookie));
}

#[test]
fn cookie_with_a_control_character_is_refused() {
    assert_eq!(default_headers("a=\u{0}"), Err(ClientError::InvalidCookie));
    assert_eq!(default_headers("a=\u{1f}"), Err(ClientError::InvalidCookie));
    assert_eq!(default_headers("a=\u{7f}"), Err(ClientError::InvalidCookie));
}

#[test]
fn cookie_with_a_tab_or_beyond_ascii_is_accepted() {
    assert!(default_headers("a=\tb").is_ok());
    assert!(default_headers("名=值").is_ok());
    assert!(default_headers("a=\u{80}").is_ok());
    assert!(default_headers("").is_ok());
}

#[test]
fn every_single_character_is_judged_as_stated() {
    let mut code: u32 = 0;
    while code < 0x400 {
        let c = char::from_u32(code).unwrap();
        let expected = c == '\t' || (code >= 32 && code != 127);
        assert_eq!(default_headers(&c.to_string()).is_ok(), expected, "U+{:04X}", code);
        code += 1;
    }
}

#[test]
fn client_error_has_its_sentence() {
    assert_eq!(ClientError::InvalidCookie.message(), "Cookie 包含非法字符，请检查 config.json");
}

#[test]
fn success_is_the_two_hundreds() {
    assert!(!is_success(0));
    assert!(!is_success(199));
    assert!(is_success(200));
    assert!(is_success(204));
    assert!(is_success(299));
    assert!(!is_success(300));
    assert!(!is_success(302));
    assert!(!is_success(404));
    assert!(!is_success(500));
    assert!(!is_success(u16::MAX));
}

#[test]
fn success_agrees_with_the_client() {
    let mut code: u16 = 100;
    while code < 1000 {
        let status = reqwest::StatusCode::from_u16(code).unwrap();
        assert_eq!(is_success(code), status.is_success(), "{}", code);
        code += 1;
    }
}

#[test]
fn a_request_may_take_fifteen_seconds() {
    assert_eq!(TIMEOUT_SECONDS, 15);
}
