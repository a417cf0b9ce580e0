//! The check-in as a state machine. The machine decides; its driver acts.
//!
//! `V2EXSigner::step` takes what happened (a page arrived, the claim was
//! answered, the pause is over, a request failed) and returns what to do next
//! (fetch a page, claim, pause, notify, finish). The driver performs each order
//! and comes back with its result. `next` is the whole of the machine as a
//! function on mathematical values; `step` computes it.

use crate::client::default_headers;
use crate::client::header_chars;
use crate::client::header_views;
use crate::client::headers_with;
use crate::client::is_success;
use crate::client::is_success_status;
use crate::client::ClientError;
use crate::client::Header;
use crate::config::first_fault;
use crate::config::Config;
use crate::config::ConfigError;
use crate::message::compose_message;
use crate::message::lemma_message_holds_every_field;
use crate::message::message_text;
use crate::message::notification;
use crate::message::posting;
use crate::message::status_text;
use crate::message::ALREADY_DONE;
use crate::message::Notification;
use crate::message::Posting;
use crate::message::Report;
use crate::page::claim_link_in;
use crate::page::field_text;
use crate::page::page_fits;
use crate::page::parsed_document;
use crate::page::SelectorError;
use crate::page::Document;
use crate::text::contains;
use crate::text::opt_string_view;
use crate::text::opt_view;
use vstd::prelude::*;
use vstd::string::StringExecFns;

verus! {

/// The origin of the forum.
pub const BASE_URL: &'static str = "https://www.v2ex.com";

/// The page of the daily mission, which offers the claim and tells the state
/// of the account.
pub const DAILY_URL: &'static str = "https://www.v2ex.com/mission/daily";

/// The page of the balance.
pub const BALANCE_URL: &'static str = "https://www.v2ex.com/balance";

/// The pause after a claim, in milliseconds, before the state is read again.
pub const SETTLE_MILLIS: u64 = 2000;

/// Where the daily page tells the count of days.
pub const DAYS_SELECTOR: &'static str = "#Main > div.box > div:nth-child(3) > span";

/// Where the daily page tells the user name.
pub const USERNAME_SELECTOR: &'static str = "#Top > div > div > div.tools > a:nth-child(2)";

/// Where the balance page tells the balance.
pub const BALANCE_SELECTOR: &'static str = "table.data tr:nth-child(2) > td:nth-child(4)";

/// Where the balance page tells the latest daily reward.
pub const REWARD_SELECTOR: &'static str =
    "table.data tr:nth-child(2) > td:nth-child(3) > span > strong";

/// Why a run ended without a report.
#[derive(Clone, Copy, Debug, PartialEq, Eq, Structural)]
pub enum RunError {
    /// A request that the run cannot do without failed in transport.
    Transport,
    /// The selector of the claim button did not parse.
    Selector,
    /// A page is longer than `MAX_PAGE_BYTES` and was not parsed.
    PageTooLong,
    /// The driver reported something that answers no order of the machine.
    OutOfTurn,
}

/// Where a run stands: what the machine waits for.
#[derive(Clone, Copy, Debug, PartialEq, Eq, Structural)]
pub enum Stage {
    /// Nothing was ordered yet.
    Ready,
    /// The daily page was ordered, to look for the claim.
    FirstPage,
    /// The claim was ordered.
    Claim,
    /// The pause after the claim was ordered.
    Settle,
    /// The daily page was ordered, to read the state of the account.
    SecondPage,
    /// The balance page was ordered.
    Balance,
    /// The notification was ordered.
    Delivery,
    /// The run is over and the report was handed to the gateway.
    Succeeded,
    /// The run is over and was given up.
    Failed(RunError),
}

/// What the driver reports to the machine.
#[derive(Debug, PartialEq, Eq)]
pub enum Event {
    /// The run begins.
    Start,
    /// The page that was ordered arrived; this is its body.
    Body(String),
    /// The request that was ordered was answered with this status code.
    Status(u16),
    /// The pause that was ordered is over.
    Elapsed,
    /// The request that was ordered failed in transport: no answer, or none in
    /// time.
    Failed,
}

/// The mathematical value of an `Event`.
pub enum Happening {
    Start,
    Body(Seq<char>),
    Status(u16),
    Elapsed,
    Failed,
}

impl View for Event {
    type V = Happening;

    open spec fn view(&self) -> Happening {
        match self {
            Event::Start => Happening::Start,
            Event::Body(body) => Happening::Body(body@),
            Event::Status(code) => Happening::Status(*code),
            Event::Elapsed => Happening::Elapsed,
            Event::Failed => Happening::Failed,
        }
    }
}

/// What the machine orders the driver to do.
#[derive(Debug, PartialEq, Eq)]
pub enum Action {
    /// Get the page at `url` and report its body, whatever its status.
    Fetch { url: String },
    /// Get `url` with the header `Referer` set to `referer`, and report the
    /// status of the answer.
    Claim { url: String, referer: String },
    /// Pause for `millis` milliseconds.
    Wait { millis: u64 },
    /// Post the notification and report the status of the answer.
    Notify(Notification),
    /// Stop: the run is over, with this outcome.
    Finish(Result<(), RunError>),
}

/// The mathematical value of an `Action`.
pub enum Order {
    Fetch { url: Seq<char> },
    Claim { url: Seq<char>, referer: Seq<char> },
    Wait { millis: u64 },
    Notify(Posting),
    Finish(Result<(), RunError>),
}

impl View for Action {
    type V = Order;

    open spec fn view(&self) -> Order {
        match self {
            Action::Fetch { url } => Order::Fetch { url: url@ },
            Action::Claim { url, referer } => Order::Claim { url: url@, referer: referer@ },
            Action::Wait { millis } => Order::Wait { millis: *millis },
            Action::Notify(notification) => Order::Notify(notification@),
            Action::Finish(outcome) => Order::Finish(*outcome),
        }
    }
}

/// The mathematical value of a `V2EXSigner`: its three settings, the headers of
/// its requests, the stage, and what the run has found so far.
pub struct SignerState {
    pub cookie: Seq<char>,
    pub headers: Seq<(Seq<char>, Seq<char>)>,
    pub token: Seq<char>,
    pub chat_id: Seq<char>,
    pub stage: Stage,
    /// Whether the claim was made and answered with success.
    pub claimed: bool,
    pub days: Option<Seq<char>>,
    pub username: Option<Seq<char>>,
}

/// The state before a run with the three settings.
pub open spec fn initial_state(
    cookie: Seq<char>,
    token: Seq<char>,
    chat_id: Seq<char>,
) -> SignerState {
    SignerState {
        cookie,
        headers: headers_with(cookie),
        token,
        chat_id,
        stage: Stage::Ready,
        claimed: false,
        days: None,
        username: None,
    }
}

/// `state` at another stage.
pub open spec fn at_stage(state: SignerState, stage: Stage) -> SignerState {
    SignerState { stage, ..state }
}

/// The end of a run that is given up.
pub open spec fn give_up(state: SignerState, error: RunError) -> (SignerState, Order) {
    (at_stage(state, Stage::Failed(error)), Order::Finish(Err(error)))
}

/// What to do where `event` does not bring what `state.stage` waits for: a
/// request that failed in transport ends the run as such, anything else is out
/// of turn.
pub open spec fn unanswered(state: SignerState, event: Happening) -> (SignerState, Order) {
    match event {
        Happening::Failed => give_up(state, RunError::Transport),
        _ => give_up(state, RunError::OutOfTurn),
    }
}

/// After the first daily page: claim where the page offers it, else go on to
/// read the state of the account. A page that is too long to be parsed ends the
/// run.
pub open spec fn after_first_page(state: SignerState, body: Seq<char>) -> (SignerState, Order) {
    if !page_fits(body) {
        give_up(state, RunError::PageTooLong)
    } else {
        match claim_link_in(&parsed_document(body)) {
            Ok(Some(link)) => (
                at_stage(state, Stage::Claim),
                Order::Claim { url: BASE_URL@ + link, referer: DAILY_URL@ },
            ),
            Ok(None) => (at_stage(state, Stage::SecondPage), Order::Fetch { url: DAILY_URL@ }),
            Err(_) => give_up(state, RunError::Selector),
        }
    }
}

/// After the second daily page: keep the count of days and the user name, and
/// go on to the balance. A page that is too long to be parsed ends the run.
pub open spec fn after_second_page(state: SignerState, body: Seq<char>) -> (SignerState, Order) {
    if !page_fits(body) {
        give_up(state, RunError::PageTooLong)
    } else {
        (
            SignerState {
                stage: Stage::Balance,
                days: field_text(&parsed_document(body), DAYS_SELECTOR@),
                username: field_text(&parsed_document(body), USERNAME_SELECTOR@),
                ..state
            },
            Order::Fetch { url: BALANCE_URL@ },
        )
    }
}

/// What the report tells where the balance page has the body `body`.
pub open spec fn report_of(state: SignerState, body: Seq<char>) -> Report {
    Report {
        username: state.username,
        claimed: state.claimed,
        reward: field_text(&parsed_document(body), REWARD_SELECTOR@),
        balance: field_text(&parsed_document(body), BALANCE_SELECTOR@),
        days: state.days,
    }
}

/// After the balance page: send the report. A page that is too long to be
/// parsed ends the run.
pub open spec fn after_balance(state: SignerState, body: Seq<char>) -> (SignerState, Order) {
    if !page_fits(body) {
        give_up(state, RunError::PageTooLong)
    } else {
        (
            at_stage(state, Stage::Delivery),
            Order::Notify(
                posting(state.token, state.chat_id, message_text(report_of(state, body))),
            ),
        )
    }
}

/// The machine: the state and the order that follow `state` on `event`.
pub open spec fn next(state: SignerState, event: Happening) -> (SignerState, Order) {
    match state.stage {
        Stage::Ready => match event {
            Happening::Start => (
                at_stage(state, Stage::FirstPage),
                Order::Fetch { url: DAILY_URL@ },
            ),
            _ => give_up(state, RunError::OutOfTurn),
        },
        Stage::FirstPage => match event {
            Happening::Body(body) => after_first_page(state, body),
            _ => unanswered(state, event),
        },
        Stage::Claim => match event {
            Happening::Status(code) => (
                SignerState {
                    stage: Stage::Settle,
                    claimed: state.claimed || is_success_status(code),
                    ..state
                },
                Order::Wait { millis: SETTLE_MILLIS },
            ),
            _ => unanswered(state, event),
        },
        Stage::Settle => match event {
            Happening::Elapsed => (
                at_stage(state, Stage::SecondPage),
                Order::Fetch { url: DAILY_URL@ },
            ),
            _ => give_up(state, RunError::OutOfTurn),
        },
        Stage::SecondPage => match event {
            Happening::Body(body) => after_second_page(state, body),
            _ => unanswered(state, event),
        },
        Stage::Balance => match event {
            Happening::Body(body) => after_balance(state, body),
            _ => unanswered(state, event),
        },
        Stage::Delivery => match event {
            Happening::Status(_) | Happening::Failed => (
                at_stage(state, Stage::Succeeded),
                Order::Finish(Ok(())),
            ),
            _ => give_up(state, RunError::OutOfTurn),
        },
        Stage::Succeeded => (state, Order::Finish(Ok(()))),
        Stage::Failed(error) => (state, Order::Finish(Err(error))),
    }
}

/// The orders that the machine gives, one for each of `events`, from `state`
/// on.
pub open spec fn orders(state: SignerState, events: Seq<Happening>) -> Seq<Order>
    decreases events.len(),
{
    if events.len() == 0 {
        Seq::empty()
    } else {
        seq![next(state, events.first()).1] + orders(
            next(state, events.first()).0,
            events.drop_first(),
        )
    }
}

/// The state of the machine after `events`, from `state` on.
pub open spec fn state_after(state: SignerState, events: Seq<Happening>) -> SignerState
    decreases events.len(),
{
    if events.len() == 0 {
        state
    } else {
        state_after(next(state, events.first()).0, events.drop_first())
    }
}

/// Whether a run at `stage` has the claim behind it: it was answered, or it
/// was never ordered and will not be.
pub open spec fn claim_is_over(stage: Stage) -> bool {
    match stage {
        Stage::Ready | Stage::FirstPage | Stage::Claim => false,
        _ => true,
    }
}

/// Whether `stage` waits for the answer to a request that the run cannot do
/// without.
pub open spec fn awaits_required(stage: Stage) -> bool {
    match stage {
        Stage::FirstPage | Stage::Claim | Stage::SecondPage | Stage::Balance => true,
        _ => false,
    }
}

/// Why a signer cannot be made.
#[derive(Clone, Copy, Debug, PartialEq, Eq, Structural)]
pub enum InitError {
    /// A setting is missing or blank.
    Config(ConfigError),
    /// The settings are complete, and no client can be made of them.
    Client(ClientError),
}

/// A run of the check-in: its settings, the headers of its requests, and the
/// state of the machine.
#[derive(Debug)]
pub struct V2EXSigner {
    config: Config,
    headers: Vec<Header>,
    stage: Stage,
    claimed: bool,
    days: Option<String>,
    username: Option<String>,
}

impl View for V2EXSigner {
    type V = SignerState;

    closed spec fn view(&self) -> SignerState {
        SignerState {
            cookie: self.config.v2ex_cookie@,
            headers: header_views(self.headers@),
            token: self.config.telegram_bot_token@,
            chat_id: self.config.telegram_chat_id@,
            stage: self.stage,
            claimed: self.claimed,
            days: opt_string_view(self.days),
            username: opt_string_view(self.username),
        }
    }
}

/// A borrowed text for an owned one.
fn borrowed(field: &Option<String>) -> (text: Option<&str>)
    ensures
        opt_view(text) == opt_string_view(*field),
{
    match field {
        Some(text) => Some(text.as_str()),
        None => None,
    }
}

impl V2EXSigner {
    /// What holds of every signer: its settings are complete, its cookie may be
    /// the value of a header, and its headers are those of that cookie.
    #[verifier::type_invariant]
    spec fn well_formed(&self) -> bool {
        &&& self.config.complete()
        &&& header_chars(self.config.v2ex_cookie@)
        &&& header_views(self.headers@) == headers_with(self.config.v2ex_cookie@)
    }

    /// A signer for the three settings as the environment gave them, `None`
    /// for a variable that is not set. The settings are checked first, then the
    /// cookie as the value of a header; nothing is ordered before both passed.
    pub fn new(cookie: Option<String>, token: Option<String>, chat: Option<String>) -> (r: Result<
        V2EXSigner,
        InitError,
    >)
        ensures
            match r {
                Ok(signer) => {
                    &&& first_fault(
                        opt_string_view(cookie),
                        opt_string_view(token),
                        opt_string_view(chat),
                    ) is None
                    &&& header_chars(cookie->0@)
                    &&& signer@ == initial_state(cookie->0@, token->0@, chat->0@)
                },
                Err(InitError::Config(e)) => first_fault(
                    opt_string_view(cookie),
                    opt_string_view(token),
                    opt_string_view(chat),
                ) == Some(e),
                Err(InitError::Client(e)) => {
                    &&& first_fault(
                        opt_string_view(cookie),
                        opt_string_view(token),
                        opt_string_view(chat),
                    ) is None
                    &&& !header_chars(cookie->0@)
                    &&& e == ClientError::InvalidCookie
                },
            },
    {
        let config = match Config::from_values(cookie, token, chat) {
            Ok(config) => config,
            Err(e) => {
                return Err(InitError::Config(e));
            },
        };
        let headers = match default_headers(config.v2ex_cookie.as_str()) {
            Ok(headers) => headers,
            Err(e) => {
                return Err(InitError::Client(e));
            },
        };
        Ok(
            V2EXSigner {
                config,
                headers,
                stage: Stage::Ready,
                claimed: false,
                days: None,
                username: None,
            },
        )
    }

    /// The settings of the run. They are complete and the cookie may be the
    /// value of a header: there is no signer of which this does not hold.
    pub fn config(&self) -> (config: &Config)
        ensures
            config.complete(),
            header_chars(config.v2ex_cookie@),
            self@.cookie == config.v2ex_cookie@,
            self@.headers == headers_with(config.v2ex_cookie@),
            self@.token == config.telegram_bot_token@,
            self@.chat_id == config.telegram_chat_id@,
    {
        proof {
            use_type_invariant(self);
        }
        &self.config
    }

    /// The headers that every request of the run carries.
    pub fn headers(&self) -> (headers: &Vec<Header>)
        ensures
            header_views(headers@) == self@.headers,
    {
        &self.headers
    }

    /// Where the run stands.
    pub fn stage(&self) -> (stage: Stage)
        ensures
            stage == self@.stage,
    {
        self.stage
    }

    /// Ends the run with `error`.
    fn fail(&mut self, error: RunError) -> (action: Action)
        ensures
            (final(self)@, action@) == give_up(old(self)@, error),
    {
        proof {
            use_type_invariant(&*self);
        }
        self.stage = Stage::Failed(error);
        Action::Finish(Err(error))
    }

    /// Ends the run on an event that does not bring what the stage waits for.
    fn reject(&mut self, event: &Event) -> (action: Action)
        ensures
            (final(self)@, action@) == unanswered(old(self)@, event@),
    {
        match event {
            Event::Failed => self.fail(RunError::Transport),
            _ => self.fail(RunError::OutOfTurn),
        }
    }

    /// Orders the daily page.
    fn fetch_daily(&mut self, stage: Stage) -> (action: Action)
        ensures
            final(self)@ == at_stage(old(self)@, stage),
            action@ == (Order::Fetch { url: DAILY_URL@ }),
    {
        proof {
            use_type_invariant(&*self);
        }
        self.stage = stage;
        Action::Fetch { url: String::from_str(DAILY_URL) }
    }

    /// Looks for the claim in the first daily page.
    fn on_first_page(&mut self, body: &str) -> (action: Action)
        ensures
            (final(self)@, action@) == after_first_page(old(self)@, body@),
    {
        proof {
            use_type_invariant(&*self);
        }
        let page = match Document::parse(body) {
            Some(page) => page,
            None => {
                return self.fail(RunError::PageTooLong);
            },
        };
        match page.claim_link() {
            Ok(Some(link)) => {
                let mut url = String::from_str(BASE_URL);
                url.append(link.as_str());
                self.stage = Stage::Claim;
                Action::Claim { url, referer: String::from_str(DAILY_URL) }
            },
            Ok(None) => self.fetch_daily(Stage::SecondPage),
            Err(_) => self.fail(RunError::Selector),
        }
    }

    /// Reads the count of days and the user name from the second daily page.
    fn on_second_page(&mut self, body: &str) -> (action: Action)
        ensures
            (final(self)@, action@) == after_second_page(old(self)@, body@),
    {
        proof {
            use_type_invariant(&*self);
        }
        let page = match Document::parse(body) {
            Some(page) => page,
            None => {
                return self.fail(RunError::PageTooLong);
            },
        };
        self.days = page.parse_selector_text(DAYS_SELECTOR);
        self.username = page.parse_selector_text(USERNAME_SELECTOR);
        self.stage = Stage::Balance;
        Action::Fetch { url: String::from_str(BALANCE_URL) }
    }

    /// Reads the balance and the daily reward from the balance page, and
    /// composes the report.
    fn on_balance(&mut self, body: &str) -> (action: Action)
        ensures
            (final(self)@, action@) == after_balance(old(self)@, body@),
    {
        proof {
            use_type_invariant(&*self);
        }
        let page = match Document::parse(body) {
            Some(page) => page,
            None => {
                return self.fail(RunError::PageTooLong);
            },
        };
        let balance = page.parse_selector_text(BALANCE_SELECTOR);
        let reward = page.parse_selector_text(REWARD_SELECTOR);
        let text = compose_message(
            borrowed(&self.username),
            self.claimed,
            borrowed(&reward),
            borrowed(&balance),
            borrowed(&self.days),
        );
        self.stage = Stage::Delivery;
        Action::Notify(
            notification(
                self.config.telegram_bot_token.as_str(),
                self.config.telegram_chat_id.as_str(),
                text,
            ),
        )
    }

    /// Takes what happened and returns what to do next.
    pub fn step(&mut self, event: Event) -> (action: Action)
        ensures
            (final(self)@, action@) == next(old(self)@, event@),
    {
        proof {
            use_type_invariant(&*self);
        }
        match self.stage {
            Stage::Ready => match event {
                Event::Start => self.fetch_daily(Stage::FirstPage),
                _ => self.fail(RunError::OutOfTurn),
            },
            Stage::FirstPage => match event {
                Event::Body(body) => self.on_first_page(body.as_str()),
                _ => self.reject(&event),
            },
            Stage::Claim => match event {
                Event::Status(code) => {
                    if is_success(code) {
                        self.claimed = true;
                    }
                    self.stage = Stage::Settle;
                    Action::Wait { millis: SETTLE_MILLIS }
                },
                _ => self.reject(&event),
            },
            Stage::Settle => match event {
                Event::Elapsed => self.fetch_daily(Stage::SecondPage),
                _ => self.fail(RunError::OutOfTurn),
            },
            Stage::SecondPage => match event {
                Event::Body(body) => self.on_second_page(body.as_str()),
                _ => self.reject(&event),
            },
            Stage::Balance => match event {
                Event::Body(body) => self.on_balance(body.as_str()),
                _ => self.reject(&event),
            },
            Stage::Delivery => match event {
                Event::Status(_) | Event::Failed => {
                    self.stage = Stage::Succeeded;
                    Action::Finish(Ok(()))
                },
                _ => self.fail(RunError::OutOfTurn),
            },
            Stage::Succeeded => Action::Finish(Ok(())),
            Stage::Failed(error) => Action::Finish(Err(error)),
        }
    }
}

/// The machine gives one order for each event. The first is the order on the
/// first event, and each later one is the order that the machine gives, from
/// the state after the first event on, for the events that follow it.
pub proof fn lemma_orders_one_by_one(state: SignerState, events: Seq<Happening>)
    ensures
        orders(state, events).len() == events.len(),
        events.len() > 0 ==> orders(state, events)[0] == next(state, events.first()).1,
        forall|i: int|
            0 < i < events.len() ==> #[trigger] orders(state, events)[i] == orders(
                next(state, events.first()).0,
                events.drop_first(),
            )[i - 1],
    decreases events.len(),
{
    if events.len() > 0 {
        lemma_orders_one_by_one(next(state, events.first()).0, events.drop_first());
    }
}

/// A run that was given up stays given up: whatever is reported to it, it
/// orders nothing but to stop with the same error, and its state stays as it
/// is.
pub proof fn lemma_failure_is_final(state: SignerState, error: RunError, events: Seq<Happening>)
    requires
        state.stage == Stage::Failed(error),
    ensures
        forall|i: int|
            0 <= i < events.len() ==> #[trigger] orders(state, events)[i] == Order::Finish(
                Err::<(), RunError>(error),
            ),
        state_after(state, events) == state,
    decreases events.len(),
{
    if events.len() > 0 {
        lemma_failure_is_final(state, error, events.drop_first());
        lemma_orders_one_by_one(state, events);
    }
}

/// A request that the run cannot do without, and that fails in transport, ends
/// the run there: from then on the machine orders nothing but to stop with
/// `RunError::Transport`. So after a daily page that did not arrive, no balance
/// is fetched and nothing is sent.
pub proof fn lemma_failed_request_ends_the_run(state: SignerState, events: Seq<Happening>)
    requires
        awaits_required(state.stage),
        events.len() > 0,
        events.first() == Happening::Failed,
    ensures
        forall|i: int|
            0 <= i < events.len() ==> #[trigger] orders(state, events)[i] == Order::Finish(
                Err::<(), RunError>(RunError::Transport),
            ),
{
    lemma_failure_is_final(
        next(state, events.first()).0,
        RunError::Transport,
        events.drop_first(),
    );
    lemma_orders_one_by_one(state, events);
}

/// A page that is too long to be parsed ends the run there: from then on the
/// machine orders nothing but to stop with `RunError::PageTooLong`.
pub proof fn lemma_long_page_ends_the_run(
    state: SignerState,
    body: Seq<char>,
    events: Seq<Happening>,
)
    requires
        state.stage == Stage::FirstPage || state.stage == Stage::SecondPage || state.stage
            == Stage::Balance,
        !page_fits(body),
        events.len() > 0,
        events.first() == Happening::Body(body),
    ensures
        forall|i: int|
            0 <= i < events.len() ==> #[trigger] orders(state, events)[i] == Order::Finish(
                Err::<(), RunError>(RunError::PageTooLong),
            ),
{
    lemma_failure_is_final(
        next(state, events.first()).0,
        RunError::PageTooLong,
        events.drop_first(),
    );
    lemma_orders_one_by_one(state, events);
}

/// Whatever becomes of the notification, the run succeeds: an answer with any
/// status, and a failure in transport, end it alike with `Ok`.
pub proof fn lemma_delivery_cannot_fail_the_run(state: SignerState, event: Happening)
    requires
        state.stage == Stage::Delivery,
        event is Status || event is Failed,
    ensures
        next(state, event) == (
            at_stage(state, Stage::Succeeded),
            Order::Finish(Ok::<(), RunError>(())),
        ),
{
}

/// Once the claim is behind a run, no claim is ordered, what the run holds of
/// the claim stays as it is, and a report tells exactly that.
pub proof fn lemma_claim_stays_over(state: SignerState, events: Seq<Happening>)
    requires
        claim_is_over(state.stage),
    ensures
        claim_is_over(state_after(state, events).stage),
        state_after(state, events).claimed == state.claimed,
        forall|i: int| 0 <= i < events.len() ==> !(#[trigger] orders(state, events)[i] is Claim),
        forall|i: int|
            0 <= i < events.len() ==> (#[trigger] orders(state, events)[i] matches Order::Notify(p)
                ==> contains(p.text, status_text(state.claimed))),
    decreases events.len(),
{
    if events.len() > 0 {
        let step = next(state, events.first());
        lemma_claim_stays_over(step.0, events.drop_first());
        lemma_orders_one_by_one(state, events);
        if step.1 is Notify {
            lemma_message_holds_every_field(report_of(state, events.first()->Body_0));
        }
    }
}

/// A daily page that offers no claim: the claim is skipped. The machine goes
/// straight on to read the state of the account, it never orders a claim, and
/// the report tells that there was nothing to claim.
pub proof fn lemma_no_offer_no_claim(state: SignerState, body: Seq<char>, events: Seq<Happening>)
    requires
        state.stage == Stage::FirstPage,
        !state.claimed,
        page_fits(body),
        claim_link_in(&parsed_document(body)) == Ok::<Option<Seq<char>>, SelectorError>(None),
    ensures
        next(state, Happening::Body(body)) == (
            at_stage(state, Stage::SecondPage),
            Order::Fetch { url: DAILY_URL@ },
        ),
        forall|i: int|
            0 <= i < events.len() + 1 ==> !(#[trigger] orders(
                state,
                seq![Happening::Body(body)] + events,
            )[i] is Claim),
        forall|i: int|
            0 <= i < events.len() + 1 ==> (#[trigger] orders(
                state,
                seq![Happening::Body(body)] + events,
            )[i] matches Order::Notify(p) ==> contains(p.text, ALREADY_DONE@)),
{
    let all = seq![Happening::Body(body)] + events;
    assert(all.drop_first() =~= events);
    lemma_claim_stays_over(next(state, Happening::Body(body)).0, events);
    lemma_orders_one_by_one(state, all);
}

/// The report of a run that read `daily` as the second daily page and `balance`
/// as the balance page.
pub open spec fn report_from(claimed: bool, daily: Seq<char>, balance: Seq<char>) -> Report {
    Report {
        username: field_text(&parsed_document(daily), USERNAME_SELECTOR@),
        claimed,
        reward: field_text(&parsed_document(balance), REWARD_SELECTOR@),
        balance: field_text(&parsed_document(balance), BALANCE_SELECTOR@),
        days: field_text(&parsed_document(daily), DAYS_SELECTOR@),
    }
}

/// The orders of a run are the order on its first event, and then the orders on
/// the rest from the state after it.
proof fn lemma_orders_unfold(state: SignerState, first: Happening, rest: Seq<Happening>)
    ensures
        orders(state, seq![first] + rest) == seq![next(state, first).1] + orders(
            next(state, first).0,
            rest,
        ),
{
    assert((seq![first] + rest).drop_first() =~= rest);
}

/// The whole of a run that finds nothing to claim: the daily page, the daily
/// page again, the balance page, the report, the end. The report tells what the
/// second daily page and the balance page hold, and that nothing was claimed.
pub proof fn lemma_run_without_claim(
    cookie: Seq<char>,
    token: Seq<char>,
    chat_id: Seq<char>,
    first: Seq<char>,
    daily: Seq<char>,
    balance: Seq<char>,
    delivery: Happening,
)
    requires
        page_fits(first),
        page_fits(daily),
        page_fits(balance),
        claim_link_in(&parsed_document(first)) == Ok::<Option<Seq<char>>, SelectorError>(None),
        delivery is Status || delivery is Failed,
    ensures
        orders(
            initial_state(cookie, token, chat_id),
            seq![
                Happening::Start,
                Happening::Body(first),
                Happening::Body(daily),
                Happening::Body(balance),
                delivery,
            ],
        ) == seq![
            Order::Fetch { url: DAILY_URL@ },
            Order::Fetch { url: DAILY_URL@ },
            Order::Fetch { url: BALANCE_URL@ },
            Order::Notify(
                posting(token, chat_id, message_text(report_from(false, daily, balance))),
            ),
            Order::Finish(Ok::<(), RunError>(())),
        ],
{
    let e4 = seq![delivery];
    let e3 = seq![Happening::Body(balance)] + e4;
    let e2 = seq![Happening::Body(daily)] + e3;
    let e1 = seq![Happening::Body(first)] + e2;
    let e0 = seq![Happening::Start] + e1;
    let s0 = initial_state(cookie, token, chat_id);
    let s1 = next(s0, Happening::Start).0;
    let s2 = next(s1, Happening::Body(first)).0;
    let s3 = next(s2, Happening::Body(daily)).0;
    let s4 = next(s3, Happening::Body(balance)).0;
    assert(e4 =~= seq![delivery] + Seq::<Happening>::empty());
    lemma_orders_unfold(s4, delivery, Seq::empty());
    lemma_orders_unfold(s3, Happening::Body(balance), e4);
    lemma_orders_unfold(s2, Happening::Body(daily), e3);
    lemma_orders_unfold(s1, Happening::Body(first), e2);
    lemma_orders_unfold(s0, Happening::Start, e1);
    assert(report_of(s3, balance) == report_from(false, daily, balance));
    assert(e0 =~= seq![
        Happening::Start,
        Happening::Body(first),
        Happening::Body(daily),
        Happening::Body(balance),
        delivery,
    ]);
    assert(orders(s0, e0) =~= seq![
        Order::Fetch { url: DAILY_URL@ },
        Order::Fetch { url: DAILY_URL@ },
        Order::Fetch { url: BALANCE_URL@ },
        Order::Notify(posting(token, chat_id, message_text(report_from(false, daily, balance)))),
        Order::Finish(Ok::<(), RunError>(())),
    ]);
}

/// The whole of a run that finds the claim: the daily page, the claim at the
/// link that the page offers, the pause, the daily page again, the balance
/// page, the report, the end. The claim is told as made where it was answered
/// with success, and the run goes on in the same way where it was not.
pub proof fn lemma_run_with_claim(
    cookie: Seq<char>,
    token: Seq<char>,
    chat_id: Seq<char>,
    first: Seq<char>,
    link: Seq<char>,
    status: u16,
    daily: Seq<char>,
    balance: Seq<char>,
    delivery: Happening,
)
    requires
        page_fits(first),
        page_fits(daily),
        page_fits(balance),
        claim_link_in(&parsed_document(first)) == Ok::<Option<Seq<char>>, SelectorError>(
            Some(link),
        ),
        delivery is Status || delivery is Failed,
    ensures
        orders(
            initial_state(cookie, token, chat_id),
            seq![
                Happening::Start,
                Happening::Body(first),
                Happening::Status(status),
                Happening::Elapsed,
                Happening::Body(daily),
                Happening::Body(balance),
                delivery,
            ],
        ) == seq![
            Order::Fetch { url: DAILY_URL@ },
            Order::Claim { url: BASE_URL@ + link, referer: DAILY_URL@ },
            Order::Wait { millis: SETTLE_MILLIS },
            Order::Fetch { url: DAILY_URL@ },
            Order::Fetch { url: BALANCE_URL@ },
            Order::Notify(
                posting(
                    token,
                    chat_id,
                    message_text(report_from(is_success_status(status), daily, balance)),
                ),
            ),
            Order::Finish(Ok::<(), RunError>(())),
        ],
{
    let claimed = is_success_status(status);
    let e6 = seq![delivery];
    let e5 = seq![Happening::Body(balance)] + e6;
    let e4 = seq![Happening::Body(daily)] + e5;
    let e3 = seq![Happening::Elapsed] + e4;
    let e2 = seq![Happening::Status(status)] + e3;
    let e1 = seq![Happening::Body(first)] + e2;
    let e0 = seq![Happening::Start] + e1;
    let s0 = initial_state(cookie, token, chat_id);
    let s1 = next(s0, Happening::Start).0;
    let s2 = next(s1, Happening::Body(first)).0;
    let s3 = next(s2, Happening::Status(status)).0;
    let s4 = next(s3, Happening::Elapsed).0;
    let s5 = next(s4, Happening::Body(daily)).0;
    let s6 = next(s5, Happening::Body(balance)).0;
    assert(e6 =~= seq![delivery] + Seq::<Happening>::empty());
    lemma_orders_unfold(s6, delivery, Seq::empty());
    lemma_orders_unfold(s5, Happening::Body(balance), e6);
    lemma_orders_unfold(s4, Happening::Body(daily), e5);
    lemma_orders_unfold(s3, Happening::Elapsed, e4);
    lemma_orders_unfold(s2, Happening::Status(status), e3);
    lemma_orders_unfold(s1, Happening::Body(first), e2);
    lemma_orders_unfold(s0, Happening::Start, e1);
    assert(report_of(s5, balance) == report_from(claimed, daily, balance));
    assert(e0 =~= seq![
        Happening::Start,
        Happening::Body(first),
        Happening::Status(status),
        Happening::Elapsed,
        Happening::Body(daily),
        Happening::Body(balance),
        delivery,
    ]);
    assert(orders(s0, e0) =~= seq![
        Order::Fetch { url: DAILY_URL@ },
        Order::Claim { url: BASE_URL@ + link, referer: DAILY_URL@ },
        Order::Wait { millis: SETTLE_MILLIS },
        Order::Fetch { url: DAILY_URL@ },
        Order::Fetch { url: BALANCE_URL@ },
        Order::Notify(posting(token, chat_id, message_text(report_from(claimed, daily, balance)))),
        Order::Finish(Ok::<(), RunError>(())),
    ]);
}

} // verus!
