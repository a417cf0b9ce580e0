use v2ex_sign::client::ClientError;
use v2ex_sign::client::Header;
use v2ex_sign::config::ConfigError;
use v2ex_sign::config::Variable;
use v2ex_sign::message::Notification;
use v2ex_sign::page::MAX_PAGE_BYTES;
use v2ex_sign::workflow::Action;
use v2ex_sign::workflow::Event;
use v2ex_sign::workflow::InitError;
use v2ex_sign::workflow::RunError;
use v2ex_sign::workflow::Stage;
use v2ex_sign::workflow::V2EXSigner;
use v2ex_sign::workflow::BALANCE_SELECTOR;
use v2ex_sign::workflow::BALANCE_URL;
use v2ex_sign::workflow::BASE_URL;
use v2ex_sign::workflow::DAILY_URL;
use v2ex_sign::workflow::DAYS_SELECTOR;
use v2ex_sign::workflow::REWARD_SELECTOR;
use v2ex_sign::workflow::SETTLE_MILLIS;
use v2ex_sign::workflow::USERNAME_SELECTOR;

fn some(s: &str) -> Option<String> {
    Some(s.to_string())
}

fn signer() -> V2EXSigner {
    V2EXSigner::new(some("A2=session"), some("42:TOKEN"), some("-100200")).unwrap()
}

fn daily_page(offer: bool, username: &str, days: &str) -> String {
    let mut page = String::new();
    page.push_str("<!DOCTYPE html><html><head><title>V2EX</title></head><body>");
    page.push_str("<div id=\"Top\"><div class=\"content\"><div class=\"site-nav\">");
    page.push_str("<a href=\"/\" name=\"top\">V2EX</a>");
    page.push_str("<div class=\"tools\"><a href=\"/\" class=\"top\">首页</a>");
    page.push_str("<a href=\"/member/x\" class=\"top\">");
    page.push_str(username);
    page.push_str("</a><a href=\"/notes\" class=\"top\">记事本</a></div>");
    page.push_str("</div></div></div>");
    page.push_str("<div id=\"Main\"><div class=\"sep20\"></div><div class=\"box\">");
    page.push_str("<div class=\"header\">日常任务</div>");
    page.push_str("<div class=\"cell\">");
    if offer {
        page.push_str("<input type=\"button\" class=\"super normal button\" value=\"领取 X 铜币\" ");
        page.push_str("onclick=\"location.href = '/mission/daily/redeem?once=123';\" />");
    } else {
        page.push_str("<span class=\"gray\">每日登录奖励已领取</span>");
    }
    page.push_str("</div><div class=\"cell\"><span> ");
    page.push_str(days);
    page.push_str(" </span></div></div></div></body></html>");
    page
}

fn balance_page(reward: &str, balance: &str) -> String {
    let mut page = String::new();
    page.push_str("<html><body><div id=\"Main\"><div class=\"box\">");
    page.push_str("<table class=\"data\" cellpadding=\"5\">");
    page.push_str("<tr><td class=\"h\">时间</td><td class=\"h\">类型</td>");
    page.push_str("<td class=\"h\">数额</td><td class=\"h\">余额</td><td class=\"h\">描述</td></tr>");
    page.push_str("<tr><td class=\"d\"><small>2024-01-01</small></td><td class=\"d\">每日登录奖励</td>");
    page.push_str("<td class=\"d\"><span class=\"positive\"><strong>");
    page.push_str(reward);
    page.push_str("</strong></span></td><td class=\"d\">");
    page.push_str(balance);
    page.push_str("</td><td class=\"d\">奖励</td></tr>");
    page.push_str("<tr><td class=\"d\">2023-12-31</td><td class=\"d\">每日登录奖励</td>");
    page.push_str("<td class=\"d\"><span class=\"positive\"><strong>9.00</strong></span></td>");
    page.push_str("<td class=\"d\">99.00</td><td class=\"d\">奖励</td></tr>");
    page.push_str("</table></div></div></body></html>");
    page
}

fn fetch(url: &str) -> Action {
    Action::Fetch { url: url.to_string() }
}

#[test]
fn the_addresses_and_selectors_are_the_known_ones() {
    assert_eq!(BASE_URL, "https://www.v2ex.com");
    assert_eq!(DAILY_URL, "https://www.v2ex.com/mission/daily");
    assert_eq!(BALANCE_URL, "https://www.v2ex.com/balance");
    assert_eq!(SETTLE_MILLIS, 2000);
    assert_eq!(DAYS_SELECTOR, "#Main > div.box > div:nth-child(3) > span");
    assert_eq!(USERNAME_SELECTOR, "#Top > div > div > div.tools > a:nth-child(2)");
    assert_eq!(BALANCE_SELECTOR, "table.data tr:nth-child(2) > td:nth-child(4)");
    assert_eq!(REWARD_SELECTOR, "table.data tr:nth-child(2) > td:nth-child(3) > span > strong");
}

#[test]
fn new_signer_is_ready_and_carries_the_headers() {
    let signer = signer();
    assert_eq!(signer.stage(), Stage::Ready);
    let headers = signer.headers();
    assert_eq!(headers.len(), 4);
    assert_eq!(headers[3], Header { name: "cookie", value: "A2=session".to_string() });
}

#[test]
fn signer_keeps_its_settings() {
    let signer = signer();
    assert_eq!(signer.config().v2ex_cookie, "A2=session");
    assert_eq!(signer.config().telegram_bot_token, "42:TOKEN");
    assert_eq!(signer.config().telegram_chat_id, "-100200");
}

#[test]
fn absent_variable_fails_initialization() {
    assert_eq!(
        V2EXSigner::new(None, some("t"), some("c")).err(),
        Some(InitError::Config(ConfigError::Missing(Variable::Cookie)))
    );
    assert_eq!(
        V2EXSigner::new(some("k"), None, some("c")).err(),
        Some(InitError::Config(ConfigError::Missing(Variable::BotToken)))
    );
    assert_eq!(
        V2EXSigner::new(some("k"), some("t"), None).err(),
        Some(InitError::Config(ConfigError::Missing(Variable::ChatId)))
    );
}

#[test]
fn whitespace_only_variable_fails_initialization() {
    assert_eq!(
        V2EXSigner::new(some("  "), some("t"), some("c")).err(),
        Some(InitError::Config(ConfigError::Empty(Variable::Cookie)))
    );
    assert_eq!(
        V2EXSigner::new(some("k"), some("\t"), some("c")).err(),
        Some(InitError::Config(ConfigError::Empty(Variable::BotToken)))
    );
    assert_eq!(
        V2EXSigner::new(some("k"), some("t"), some("\n")).err(),
        Some(InitError::Config(ConfigError::Empty(Variable::ChatId)))
    );
}

#[test]
fn cookie_with_illegal_character_fails_initialization() {
    assert_eq!(
        V2EXSigner::new(some("a=b\nc"), some("t"), some("c")).err(),
        Some(InitError::Client(ClientError::InvalidCookie))
    );
}

#[test]
fn settings_are_checked_before_the_cookie_as_header() {
    assert_eq!(
        V2EXSigner::new(some("a=b\nc"), some(" "), some("c")).err(),
        Some(InitError::Config(ConfigError::Empty(Variable::BotToken)))
    );
}

#[test]
fn run_begins_with_the_daily_page() {
    let mut signer = signer();
    assert_eq!(signer.step(Event::Start), fetch("https://www.v2ex.com/mission/daily"));
    assert_eq!(signer.stage(), Stage::FirstPage);
}

#[test]
fn page_without_claim_input_skips_the_claim() {
    let mut signer = signer();
    signer.step(Event::Start);
    let action = signer.step(Event::Body(daily_page(false, "alice", "7")));
    assert_eq!(action, fetch("https://www.v2ex.com/mission/daily"));
    assert_eq!(signer.stage(), Stage::SecondPage);
}

#[test]
fn end_to_end_without_claim_link() {
    let mut signer = signer();
    let mut actions = Vec::new();
    actions.push(signer.step(Event::Start));
    actions.push(signer.step(Event::Body(daily_page(false, "alice", "7"))));
    actions.push(signer.step(Event::Body(daily_page(false, "alice", "7"))));
    actions.push(signer.step(Event::Body(balance_page("1.00", "100.00"))));
    actions.push(signer.step(Event::Status(200)));
    let text = "📝 V2EX签到信息 📝\n👤 用户名：alice\n📅 签到状态：已完成/无需签到\n💰 每日奖励：1.00\n🏦 账户总额：100.00\n🗓\u{fe0f} 7";
    assert_eq!(
        actions,
        vec![
            fetch("https://www.v2ex.com/mission/daily"),
            fetch("https://www.v2ex.com/mission/daily"),
            fetch("https://www.v2ex.com/balance"),
            Action::Notify(Notification {
                url: "https://api.telegram.org/bot42:TOKEN/sendMessage".to_string(),
                chat_id: "-100200".to_string(),
                text: text.to_string(),
                disable_web_page_preview: true,
            }),
            Action::Finish(Ok(())),
        ]
    );
    for part in ["alice", "7", "100.00", "1.00", "已完成/无需签到"] {
        assert!(text.contains(part));
    }
    assert_eq!(signer.stage(), Stage::Succeeded);
}

#[test]
fn end_to_end_with_claim() {
    let mut signer = signer();
    let mut actions = Vec::new();
    actions.push(signer.step(Event::Start));
    actions.push(signer.step(Event::Body(daily_page(true, "bob", "已连续登录 1 天"))));
    assert_eq!(signer.stage(), Stage::Claim);
    actions.push(signer.step(Event::Status(200)));
    assert_eq!(signer.stage(), Stage::Settle);
    actions.push(signer.step(Event::Elapsed));
    actions.push(signer.step(Event::Body(daily_page(false, "bob", "已连续登录 2 天"))));
    actions.push(signer.step(Event::Body(balance_page("5.00", "105.00"))));
    assert_eq!(signer.stage(), Stage::Delivery);
    actions.push(signer.step(Event::Status(200)));
    assert_eq!(
        actions,
        vec![
            fetch("https://www.v2ex.com/mission/daily"),
            Action::Claim {
                url: "https://www.v2ex.com/mission/daily/redeem?once=123".to_string(),
                referer: "https://www.v2ex.com/mission/daily".to_string(),
            },
            Action::Wait { millis: 2000 },
            fetch("https://www.v2ex.com/mission/daily"),
            fetch("https://www.v2ex.com/balance"),
            Action::Notify(Notification {
                url: "https://api.telegram.org/bot42:TOKEN/sendMessage".to_string(),
                chat_id: "-100200".to_string(),
                text: "📝 V2EX签到信息 📝\n👤 用户名：bob\n📅 签到状态：🎉 签到成功\n💰 每日奖励：5.00\n🏦 账户总额：105.00\n🗓\u{fe0f} 已连续登录 2 天".to_string(),
                disable_web_page_preview: true,
            }),
            Action::Finish(Ok(())),
        ]
    );
}

fn text_after_claim_answered(status: u16) -> String {
    let mut signer = signer();
    signer.step(Event::Start);
    signer.step(Event::Body(daily_page(true, "bob", "1")));
    assert_eq!(signer.step(Event::Status(status)), Action::Wait { millis: 2000 });
    signer.step(Event::Elapsed);
    signer.step(Event::Body(daily_page(true, "bob", "1")));
    match signer.step(Event::Body(balance_page("5.00", "105.00"))) {
        Action::Notify(n) => n.text,
        other => panic!("{:?}", other),
    }
}

#[test]
fn claim_answered_without_success_leaves_the_status_at_its_default() {
    for status in [199, 302, 403, 500] {
        let text = text_after_claim_answered(status);
        assert!(text.contains("签到状态：已完成/无需签到"), "{}", status);
        assert!(!text.contains("签到成功"), "{}", status);
    }
}

#[test]
fn claim_answered_with_success_sets_the_status() {
    for status in [200, 204, 299] {
        let text = text_after_claim_answered(status);
        assert!(text.contains("签到状态：🎉 签到成功"), "{}", status);
    }
}

#[test]
fn missing_fields_become_placeholders() {
    let mut signer = signer();
    signer.step(Event::Start);
    signer.step(Event::Body("<html></html>".to_string()));
    signer.step(Event::Body("not even html".to_string()));
    let action = signer.step(Event::Body(String::new()));
    match action {
        Action::Notify(n) => assert_eq!(
            n.text,
            "📝 V2EX签到信息 📝\n👤 用户名：未知用户\n📅 签到状态：已完成/无需签到\n💰 每日奖励：未知\n🏦 账户总额：未知\n🗓\u{fe0f} 未知"
        ),
        other => panic!("{:?}", other),
    }
}

#[test]
fn the_state_of_the_account_is_read_from_the_second_page() {
    let mut signer = signer();
    signer.step(Event::Start);
    signer.step(Event::Body(daily_page(false, "first", "1")));
    signer.step(Event::Body(daily_page(false, "second", "2")));
    match signer.step(Event::Body(balance_page("r", "b"))) {
        Action::Notify(n) => {
            assert!(n.text.contains("用户名：second\n"));
            assert!(n.text.ends_with(" 2"));
        }
        other => panic!("{:?}", other),
    }
}

fn at_delivery() -> V2EXSigner {
    let mut signer = signer();
    signer.step(Event::Start);
    signer.step(Event::Body(daily_page(false, "alice", "7")));
    signer.step(Event::Body(daily_page(false, "alice", "7")));
    signer.step(Event::Body(balance_page("1.00", "100.00")));
    assert_eq!(signer.stage(), Stage::Delivery);
    signer
}

#[test]
fn rejected_notification_does_not_fail_the_run() {
    for status in [400, 401, 403, 429, 500] {
        let mut signer = at_delivery();
        assert_eq!(signer.step(Event::Status(status)), Action::Finish(Ok(())));
        assert_eq!(signer.stage(), Stage::Succeeded);
    }
}

#[test]
fn unreachable_gateway_does_not_fail_the_run() {
    let mut signer = at_delivery();
    assert_eq!(signer.step(Event::Failed), Action::Finish(Ok(())));
    assert_eq!(signer.stage(), Stage::Succeeded);
}

#[test]
fn first_page_timeout_aborts_before_anything_else() {
    let mut signer = signer();
    signer.step(Event::Start);
    assert_eq!(signer.step(Event::Failed), Action::Finish(Err(RunError::Transport)));
    assert_eq!(signer.stage(), Stage::Failed(RunError::Transport));
    let later = vec![
        Event::Body(daily_page(false, "alice", "7")),
        Event::Body(balance_page("1.00", "100.00")),
        Event::Status(200),
        Event::Elapsed,
        Event::Start,
        Event::Failed,
    ];
    for event in later {
        assert_eq!(signer.step(event), Action::Finish(Err(RunError::Transport)));
    }
}

#[test]
fn claim_that_fails_in_transport_aborts() {
    let mut signer = signer();
    signer.step(Event::Start);
    signer.step(Event::Body(daily_page(true, "bob", "1")));
    assert_eq!(signer.step(Event::Failed), Action::Finish(Err(RunError::Transport)));
}

#[test]
fn second_page_that_fails_in_transport_aborts() {
    let mut signer = signer();
    signer.step(Event::Start);
    signer.step(Event::Body(daily_page(false, "alice", "7")));
    assert_eq!(signer.step(Event::Failed), Action::Finish(Err(RunError::Transport)));
}

#[test]
fn balance_page_that_fails_in_transport_aborts() {
    let mut signer = signer();
    signer.step(Event::Start);
    signer.step(Event::Body(daily_page(false, "alice", "7")));
    signer.step(Event::Body(daily_page(false, "alice", "7")));
    assert_eq!(signer.step(Event::Failed), Action::Finish(Err(RunError::Transport)));
    assert_eq!(signer.step(Event::Status(200)), Action::Finish(Err(RunError::Transport)));
}

#[test]
fn event_out_of_turn_ends_the_run() {
    let mut s = signer();
    assert_eq!(s.step(Event::Elapsed), Action::Finish(Err(RunError::OutOfTurn)));
    let mut s = signer();
    assert_eq!(s.step(Event::Failed), Action::Finish(Err(RunError::OutOfTurn)));
    let mut s = signer();
    s.step(Event::Start);
    assert_eq!(s.step(Event::Status(200)), Action::Finish(Err(RunError::OutOfTurn)));
    assert_eq!(s.stage(), Stage::Failed(RunError::OutOfTurn));
    let mut s = signer();
    s.step(Event::Start);
    s.step(Event::Body(daily_page(true, "bob", "1")));
    assert_eq!(s.step(Event::Elapsed), Action::Finish(Err(RunError::OutOfTurn)));
    let mut s = signer();
    s.step(Event::Start);
    s.step(Event::Body(daily_page(true, "bob", "1")));
    s.step(Event::Status(200));
    assert_eq!(s.step(Event::Failed), Action::Finish(Err(RunError::OutOfTurn)));
    let mut s = at_delivery();
    assert_eq!(s.step(Event::Elapsed), Action::Finish(Err(RunError::OutOfTurn)));
}

#[test]
fn finished_run_stays_finished() {
    let mut signer = at_delivery();
    signer.step(Event::Status(200));
    for event in [Event::Start, Event::Failed, Event::Elapsed, Event::Status(500)] {
        assert_eq!(signer.step(event), Action::Finish(Ok(())));
        assert_eq!(signer.stage(), Stage::Succeeded);
    }
}

fn too_long() -> String {
    " ".repeat(MAX_PAGE_BYTES + 1)
}

#[test]
fn first_page_that_is_too_long_ends_the_run() {
    let mut signer = signer();
    signer.step(Event::Start);
    assert_eq!(signer.step(Event::Body(too_long())), Action::Finish(Err(RunError::PageTooLong)));
    assert_eq!(signer.stage(), Stage::Failed(RunError::PageTooLong));
    assert_eq!(
        signer.step(Event::Body(daily_page(false, "alice", "7"))),
        Action::Finish(Err(RunError::PageTooLong))
    );
}

#[test]
fn second_page_that_is_too_long_ends_the_run() {
    let mut signer = signer();
    signer.step(Event::Start);
    signer.step(Event::Body(daily_page(false, "alice", "7")));
    assert_eq!(signer.step(Event::Body(too_long())), Action::Finish(Err(RunError::PageTooLong)));
}

#[test]
fn balance_page_that_is_too_long_ends_the_run() {
    let mut signer = signer();
    signer.step(Event::Start);
    signer.step(Event::Body(daily_page(false, "alice", "7")));
    signer.step(Event::Body(daily_page(false, "alice", "7")));
    assert_eq!(signer.step(Event::Body(too_long())), Action::Finish(Err(RunError::PageTooLong)));
    assert_eq!(signer.step(Event::Status(200)), Action::Finish(Err(RunError::PageTooLong)));
}
