use v2ex_sign::config::Config;
use v2ex_sign::config::ConfigError;
use v2ex_sign::config::Variable;

fn some(s: &str) -> Option<String> {
    Some(s.to_string())
}

#[test]
fn complete_settings_are_kept_as_given() {
    let config = Config::from_values(some("A2=\"x\""), some(" 123:abc "), some("-1001")).unwrap();
    assert_eq!(config.v2ex_cookie, "A2=\"x\"");
    assert_eq!(config.telegram_bot_token, " 123:abc ");
    assert_eq!(config.telegram_chat_id, "-1001");
}

#[test]
fn missing_cookie_is_reported() {
    assert_eq!(
        Config::from_values(None, some("t"), some("c")),
        Err(ConfigError::Missing(Variable::Cookie))
    );
}

#[test]
fn blank_cookie_is_reported() {
    assert_eq!(
        Config::from_values(some(""), some("t"), some("c")),
        Err(ConfigError::Empty(Variable::Cookie))
    );
    assert_eq!(
        Config::from_values(some(" \t\n"), some("t"), some("c")),
        Err(ConfigError::Empty(Variable::Cookie))
    );
}

#[test]
fn missing_token_is_reported() {
    assert_eq!(
        Config::from_values(some("k"), None, some("c")),
        Err(ConfigError::Missing(Variable::BotToken))
    );
}

#[test]
fn blank_token_is_reported() {
    assert_eq!(
        Config::from_values(some("k"), some("   "), some("c")),
        Err(ConfigError::Empty(Variable::BotToken))
    );
}

#[test]
fn missing_chat_is_reported() {
    assert_eq!(
        Config::from_values(some("k"), some("t"), None),
        Err(ConfigError::Missing(Variable::ChatId))
    );
}

#[test]
fn blank_chat_is_reported() {
    assert_eq!(
        Config::from_values(some("k"), some("t"), some("\u{3000}")),
        Err(ConfigError::Empty(Variable::ChatId))
    );
}

#[test]
fn the_first_fault_wins() {
    assert_eq!(Config::from_values(None, None, None), Err(ConfigError::Missing(Variable::Cookie)));
    assert_eq!(
        Config::from_values(some(" "), None, None),
        Err(ConfigError::Empty(Variable::Cookie))
    );
    assert_eq!(
        Config::from_values(some("k"), some(""), None),
        Err(ConfigError::Empty(Variable::BotToken))
    );
}

#[test]
fn variables_have_their_names() {
    assert_eq!(Variable::Cookie.name(), "V2EX_COOKIE");
    assert_eq!(Variable::BotToken.name(), "TELEGRAM_BOT_TOKEN");
    assert_eq!(Variable::ChatId.name(), "TELEGRAM_CHAT_ID");
}

#[test]
fn errors_have_their_sentences() {
    assert_eq!(ConfigError::Missing(Variable::Cookie).message(), "环境变量 V2EX_COOKIE 未设置");
    assert_eq!(
        ConfigError::Empty(Variable::Cookie).message(),
        "环境变量 V2EX_COOKIE 为空，请正确设置"
    );
    assert_eq!(
        ConfigError::Missing(Variable::BotToken).message(),
        "环境变量 TELEGRAM_BOT_TOKEN 未设置"
    );
    assert_eq!(
        ConfigError::Empty(Variable::BotToken).message(),
        "环境变量 TELEGRAM_BOT_TOKEN 为空，请正确设置"
    );
    assert_eq!(
        ConfigError::Missing(Variable::ChatId).message(),
        "环境变量 TELEGRAM_CHAT_ID 未设置"
    );
    assert_eq!(
        ConfigError::Empty(Variable::ChatId).message(),
        "环境变量 TELEGRAM_CHAT_ID 为空，请正确设置"
    );
}
