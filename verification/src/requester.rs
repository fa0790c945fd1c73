//! The configuration of a run, and the run itself as a sequence of decisions.

use vstd::prelude::*;
use crate::cli::MakeConfigArgs;
use crate::course::{
    request_json, response_in, CourseSelectionRequestBody, CourseSelectionResponseBody,
    DecodeError, RequestView, ResponseView,
};
use crate::json::json_text;
use crate::login::{
    form_pairs, login_pairs, LoginFormBody, LoginFormHiddenFields, LoginFormInputFields,
};
use crate::retry::{RetryLoop, RetryStep};
use crate::schedule::{time_left, wait_until, Instant, Wait};

verus! {

/// The local time of the institution, UTC+3, as seconds east of UTC.
pub const TRT_OFFSET_SECONDS: i64 = 3 * 3600;

/// How long before the opening the run settles and logs in: a minute, in
/// nanoseconds.
pub const ONE_MINUTE: i64 = 60_000_000_000;

/// How long after the opening the first request is sent, so that it is never
/// early: a millisecond, in nanoseconds.
pub const ERROR_MARGIN: i64 = 1_000_000;

/// How often the request is submitted.
pub const TRY_COUNT: u64 = 100;

/// Where the course selection request is posted.
pub const COURSE_SELECT_URL: &'static str = "https://obs.itu.edu.tr/api/ders-kayit/v21";

/// Where the login page is fetched.
pub const LOGIN_URL: &'static str = "https://girisv3.itu.edu.tr";

/// Where the token is fetched.
pub const FETCH_JWT_URL: &'static str = "https://obs.itu.edu.tr/ogrenci/auth/jwt";

/// What a run needs to know: who registers, when the selection opens, and
/// which courses to add and to drop.
#[derive(Debug)]
pub struct Config {
    pub username: String,
    pub password: String,
    /// The instant at which the selection opens.
    pub time: Instant,
    pub crn_list: Vec<String>,
    pub scrn_list: Vec<String>,
}

/// The mathematical value of a [`Config`].
pub ghost struct ConfigView {
    pub username: Seq<char>,
    pub password: Seq<char>,
    pub time: Instant,
    pub crn_list: Seq<Seq<char>>,
    pub scrn_list: Seq<Seq<char>>,
}

impl View for Config {
    type V = ConfigView;

    open spec fn view(&self) -> ConfigView {
        ConfigView {
            username: self.username@,
            password: self.password@,
            time: self.time,
            crn_list: self.crn_list.deep_view(),
            scrn_list: self.scrn_list.deep_view(),
        }
    }
}

impl Clone for Config {
    fn clone(&self) -> (r: Self)
        ensures
            r@ == self@,
    {
        let crn_list = self.crn_list.clone();
        let scrn_list = self.scrn_list.clone();
        assert(crn_list.deep_view() =~= self.crn_list.deep_view());
        assert(scrn_list.deep_view() =~= self.scrn_list.deep_view());
        Config {
            username: self.username.clone(),
            password: self.password.clone(),
            time: self.time,
            crn_list,
            scrn_list,
        }
    }
}

impl Config {
    /// A configuration of these parts.
    pub fn new(
        username: String,
        password: String,
        time: Instant,
        crn_list: Vec<String>,
        scrn_list: Vec<String>,
    ) -> (r: Self)
        ensures
            r.username == username,
            r.password == password,
            r.time == time,
            r.crn_list == crn_list,
            r.scrn_list == scrn_list,
    {
        Self { username, password, time, crn_list, scrn_list }
    }

    /// The configuration that the command line asks for. The time given
    /// there is local time that was read as UTC, so the instant meant is
    /// [`TRT_OFFSET_SECONDS`] earlier. There is none where that instant
    /// cannot be written down.
    pub fn from_args(value: MakeConfigArgs) -> (r: Option<Config>)
        ensures
            value.time.secs() - TRT_OFFSET_SECONDS >= i64::MIN <==> r is Some,
            r matches Some(config) ==> {
                &&& config.username == value.username
                &&& config.password == value.password
                &&& config.time.secs() == value.time.secs() - TRT_OFFSET_SECONDS
                &&& config.time.subsec_nanos() == value.time.subsec_nanos()
                &&& config.crn_list == value.crn_list
                &&& config.scrn_list == value.scrn_list
            },
    {
        match value.time.checked_add_seconds(-TRT_OFFSET_SECONDS) {
            Some(time) => Some(
                Config::new(value.username, value.password, time, value.crn_list, value.scrn_list),
            ),
            None => None,
        }
    }
}

/// Where a run stands: what it is waiting for.
#[derive(Clone, Copy, Debug, PartialEq, Eq, Structural)]
pub enum Phase {
    /// Not started.
    Idle,
    /// Waiting for the time, to see how long it is until a minute before the
    /// opening.
    TimingSettle,
    /// Sleeping until a minute before the opening.
    Settling,
    /// Waiting for the login page.
    FetchingLoginPage,
    /// Waiting for the login form to be posted.
    PostingLogin,
    /// Waiting for the first answer of the token endpoint, which is not used.
    PrimingToken,
    /// Waiting for the second answer of the token endpoint: the token.
    FetchingToken,
    /// Waiting for the time, to see how long it is until the opening.
    TimingFire,
    /// Sleeping until the opening.
    Firing,
    /// Waiting for the response to a submission.
    Submitting,
    /// Ended, all attempts made.
    Done,
    /// Ended early.
    Failed,
}

/// Why a run ended early.
#[derive(Clone, Copy, Debug, PartialEq, Eq, Structural)]
pub enum RunError {
    /// A request did not get through.
    Transport,
    /// A response could not be decoded.
    Decode(DecodeError),
    /// The run was told of something that it was not waiting for.
    OutOfTurn,
}

/// What the run is told: what came of the action it asked for.
#[derive(Debug)]
pub enum Event {
    /// The run is to begin.
    Started,
    /// The time is this.
    Clock(Instant),
    /// The sleep is over.
    Woke,
    /// The login page came: the address it came from in the end, and its
    /// text.
    LoginPage { url: String, body: String },
    /// The login form was posted.
    LoginPosted,
    /// The token endpoint answered with this text.
    TokenResponse(String),
    /// The course selection endpoint answered with this body.
    Response(Vec<u8>),
    /// The request did not get through.
    TransportFailed,
}

/// The mathematical value of an [`Event`].
pub ghost enum EventView {
    Started,
    Clock(Instant),
    Woke,
    LoginPage { url: Seq<char>, body: Seq<char> },
    LoginPosted,
    TokenResponse(Seq<char>),
    Response(Seq<u8>),
    TransportFailed,
}

impl View for Event {
    type V = EventView;

    open spec fn view(&self) -> EventView {
        match self {
            Event::Started => EventView::Started,
            Event::Clock(now) => EventView::Clock(*now),
            Event::Woke => EventView::Woke,
            Event::LoginPage { url, body } => EventView::LoginPage { url: url@, body: body@ },
            Event::LoginPosted => EventView::LoginPosted,
            Event::TokenResponse(text) => EventView::TokenResponse(text@),
            Event::Response(body) => EventView::Response(body@),
            Event::TransportFailed => EventView::TransportFailed,
        }
    }
}

/// What the run asks for next.
#[derive(Debug)]
pub enum Action {
    /// Read the time and tell it.
    ReadClock,
    /// Sleep for so many nanoseconds.
    Sleep(u128),
    /// Get the page at [`LOGIN_URL`], following redirections.
    GetLoginPage,
    /// Post the form to `url`, as a URL-encoded form, with `url` as the
    /// referer.
    PostLoginForm { url: String, form: LoginFormBody },
    /// Get [`FETCH_JWT_URL`].
    GetToken,
    /// Post `body` as JSON to [`COURSE_SELECT_URL`], with `token` as the
    /// bearer token.
    Submit { token: String, body: String },
    /// Nothing more: the run is over.
    Finish,
    /// Nothing more: the run has failed.
    Abort(RunError),
}

/// The mathematical value of an [`Action`].
pub ghost enum ActionView {
    ReadClock,
    Sleep(u128),
    GetLoginPage,
    PostLoginForm { url: Seq<char>, form: Seq<(Seq<char>, Seq<char>)> },
    GetToken,
    Submit { token: Seq<char>, body: Seq<char> },
    Finish,
    Abort(RunError),
}

impl View for Action {
    type V = ActionView;

    open spec fn view(&self) -> ActionView {
        match self {
            Action::ReadClock => ActionView::ReadClock,
            Action::Sleep(nanos) => ActionView::Sleep(*nanos),
            Action::GetLoginPage => ActionView::GetLoginPage,
            Action::PostLoginForm { url, form } => ActionView::PostLoginForm {
                url: url@,
                form: form_pairs(*form),
            },
            Action::GetToken => ActionView::GetToken,
            Action::Submit { token, body } => ActionView::Submit { token: token@, body: body@ },
            Action::Finish => ActionView::Finish,
            Action::Abort(error) => ActionView::Abort(*error),
        }
    }
}

/// Something for the user to be told.
#[derive(Clone, Copy, Debug, PartialEq, Eq, Structural)]
pub enum Notice {
    /// So many nanoseconds are left until the opening; negative once it is
    /// past.
    TimeLeft(i128),
    /// The run waits until a minute before the opening.
    WaitingForLastMinute,
    /// Less than a minute is left: the run goes on at once.
    LessThanAMinuteLeft,
    /// The time is to be shown.
    CurrentTime,
    /// The run logs in.
    LoggingIn,
    /// The run has logged in.
    LoggedIn,
    /// The run fetches the token.
    FetchingToken,
    /// The run has the token.
    TokenFetched,
    /// The run waits for the opening.
    WaitingForOpening,
    /// The selection has opened already: the run goes on at once.
    AlreadyOpen,
    /// The run begins to select.
    Selecting,
    /// The request will be submitted so many times.
    Attempts(u64),
    /// The response to this submission, counted from one, has come.
    Attempt(u64),
}

/// One decision of a run.
#[derive(Debug)]
pub struct Step {
    /// What the user is to be told, in this order.
    pub notices: Vec<Notice>,
    /// The response that has come, to be shown after the notices.
    pub report: Option<CourseSelectionResponseBody>,
    /// What is to be done next.
    pub action: Action,
}

/// The mathematical value of a [`Step`].
pub ghost struct StepView {
    pub notices: Seq<Notice>,
    pub report: Option<ResponseView>,
    pub action: ActionView,
}

impl View for Step {
    type V = StepView;

    open spec fn view(&self) -> StepView {
        StepView {
            notices: self.notices@,
            report: match self.report {
                Some(response) => Some(response@),
                None => None,
            },
            action: self.action@,
        }
    }
}

/// A run: its configuration, where it stands, and what it has gathered.
#[derive(Debug)]
pub struct Requester {
    pub config: Config,
    pub phase: Phase,
    /// The bearer token, once it is fetched.
    pub token: String,
    /// The text of the request, once it is built.
    pub request: String,
    /// The count of the submissions.
    pub retry: RetryLoop,
}

/// The mathematical value of a [`Requester`].
pub ghost struct RequesterView {
    pub config: ConfigView,
    pub phase: Phase,
    pub token: Seq<char>,
    pub request: Seq<char>,
    pub retry: RetryLoop,
}

impl View for Requester {
    type V = RequesterView;

    open spec fn view(&self) -> RequesterView {
        RequesterView {
            config: self.config@,
            phase: self.phase,
            token: self.token@,
            request: self.request@,
            retry: self.retry,
        }
    }
}

/// The text of the request that a configuration asks for.
pub open spec fn request_text(config: ConfigView) -> Seq<char> {
    json_text(request_json(RequestView { crn_list: config.crn_list, scrn_list: config.scrn_list }))
}

/// A step that only asks for an action.
pub open spec fn plain_step(action: ActionView) -> StepView {
    StepView { notices: Seq::empty(), report: None, action }
}

/// The end of a run that is told of something it was not waiting for.
pub open spec fn out_of_turn(state: RequesterView) -> (RequesterView, StepView) {
    (
        RequesterView { phase: Phase::Failed, ..state },
        plain_step(ActionView::Abort(RunError::OutOfTurn)),
    )
}

/// The end of a run whose request did not get through.
pub open spec fn transport_failed(state: RequesterView) -> (RequesterView, StepView) {
    (
        RequesterView { phase: Phase::Failed, ..state },
        plain_step(ActionView::Abort(RunError::Transport)),
    )
}

/// The run logs in: it asks for the login page.
pub open spec fn begin_login(state: RequesterView, notices: Seq<Notice>) -> (
    RequesterView,
    StepView,
) {
    (
        RequesterView { phase: Phase::FetchingLoginPage, ..state },
        StepView {
            notices: notices + seq![Notice::CurrentTime, Notice::LoggingIn],
            report: None,
            action: ActionView::GetLoginPage,
        },
    )
}

/// The run begins to select: it builds the request and starts the count, and
/// asks for the first submission if any is allowed.
pub open spec fn begin_selection(state: RequesterView, notices: Seq<Notice>) -> (
    RequesterView,
    StepView,
) {
    let request = request_text(state.config);
    let (retry, decision) = (RetryLoop { attempts: TRY_COUNT, submitted: 0 }).spec_advance();
    let notices = notices + seq![Notice::Selecting, Notice::Attempts(TRY_COUNT)];
    match decision {
        RetryStep::Submit => (
            RequesterView { phase: Phase::Submitting, request, retry, ..state },
            StepView {
                notices,
                report: None,
                action: ActionView::Submit { token: state.token, body: request },
            },
        ),
        RetryStep::Finished => (
            RequesterView { phase: Phase::Done, request, retry, ..state },
            StepView { notices, report: None, action: ActionView::Finish },
        ),
    }
}

/// What a run that stands at `state` does when it is told `event`: where it
/// stands afterwards, and the step it takes.
///
/// The run waits until a minute before the opening, logs in with the form
/// that answers the login page, asks the token endpoint twice and keeps the
/// second answer, waits until just after the opening, and then submits the
/// same request again and again, showing each response, until the count is
/// used up. No response ends it but one that cannot be decoded. A request
/// that does not get through ends it, and so does an event that it was not
/// waiting for.
pub open spec fn next(state: RequesterView, event: EventView) -> (RequesterView, StepView) {
    match (state.phase, event) {
        (Phase::Idle, EventView::Started) => (
            RequesterView { phase: Phase::TimingSettle, ..state },
            plain_step(ActionView::ReadClock),
        ),
        (Phase::TimingSettle, EventView::Clock(now)) => {
            let until = (state.config.time.as_nanos() - now.as_nanos()) as i128;
            let left = time_left(state.config.time, ONE_MINUTE as int, now);
            if left > 0 {
                (
                    RequesterView { phase: Phase::Settling, ..state },
                    StepView {
                        notices: seq![Notice::TimeLeft(until), Notice::WaitingForLastMinute],
                        report: None,
                        action: ActionView::Sleep(left as u128),
                    },
                )
            } else {
                begin_login(state, seq![Notice::TimeLeft(until), Notice::LessThanAMinuteLeft])
            }
        },
        (Phase::Settling, EventView::Woke) => begin_login(state, Seq::empty()),
        (Phase::FetchingLoginPage, EventView::LoginPage { url, body }) => (
            RequesterView { phase: Phase::PostingLogin, ..state },
            plain_step(
                ActionView::PostLoginForm {
                    url,
                    form: login_pairs(body, state.config.username, state.config.password),
                },
            ),
        ),
        (Phase::PostingLogin, EventView::LoginPosted) => (
            RequesterView { phase: Phase::PrimingToken, ..state },
            StepView {
                notices: seq![Notice::LoggedIn, Notice::FetchingToken],
                report: None,
                action: ActionView::GetToken,
            },
        ),
        (Phase::PrimingToken, EventView::TokenResponse(_)) => (
            RequesterView { phase: Phase::FetchingToken, ..state },
            plain_step(ActionView::GetToken),
        ),
        (Phase::FetchingToken, EventView::TokenResponse(token)) => (
            RequesterView { phase: Phase::TimingFire, token, ..state },
            StepView {
                notices: seq![Notice::TokenFetched],
                report: None,
                action: ActionView::ReadClock,
            },
        ),
        (Phase::TimingFire, EventView::Clock(now)) => {
            let until = (state.config.time.as_nanos() - now.as_nanos()) as i128;
            let left = time_left(state.config.time, -ERROR_MARGIN, now);
            if left > 0 {
                (
                    RequesterView { phase: Phase::Firing, ..state },
                    StepView {
                        notices: seq![Notice::TimeLeft(until), Notice::WaitingForOpening],
                        report: None,
                        action: ActionView::Sleep(left as u128),
                    },
                )
            } else {
                begin_selection(state, seq![Notice::TimeLeft(until), Notice::AlreadyOpen])
            }
        },
        (Phase::Firing, EventView::Woke) => begin_selection(state, Seq::empty()),
        (Phase::Submitting, EventView::Response(body)) => match response_in(body) {
            Err(error) => (
                RequesterView { phase: Phase::Failed, ..state },
                plain_step(ActionView::Abort(RunError::Decode(error))),
            ),
            Ok(response) => {
                let (retry, decision) = state.retry.spec_advance();
                let notices = seq![Notice::Attempt(state.retry.submitted)];
                match decision {
                    RetryStep::Submit => (
                        RequesterView { retry, ..state },
                        StepView {
                            notices,
                            report: Some(response),
                            action: ActionView::Submit { token: state.token, body: state.request },
                        },
                    ),
                    RetryStep::Finished => (
                        RequesterView { phase: Phase::Done, retry, ..state },
                        StepView { notices, report: Some(response), action: ActionView::Finish },
                    ),
                }
            },
        },
        (Phase::FetchingLoginPage, EventView::TransportFailed) => transport_failed(state),
        (Phase::PostingLogin, EventView::TransportFailed) => transport_failed(state),
        (Phase::PrimingToken, EventView::TransportFailed) => transport_failed(state),
        (Phase::FetchingToken, EventView::TransportFailed) => transport_failed(state),
        (Phase::Submitting, EventView::TransportFailed) => transport_failed(state),
        _ => out_of_turn(state),
    }
}

/// Where a run stands after it is told the first `n` of these responses, one
/// after the other.
pub open spec fn after_responses(state: RequesterView, bodies: Seq<Seq<u8>>, n: nat) -> RequesterView
    decreases n,
{
    if n == 0 || n > bodies.len() {
        state
    } else {
        next(after_responses(state, bodies, (n - 1) as nat), EventView::Response(bodies[n - 1])).0
    }
}

/// How many submissions a run asks for while it is told the first `n` of
/// these responses.
pub open spec fn submissions_asked(state: RequesterView, bodies: Seq<Seq<u8>>, n: nat) -> nat
    decreases n,
{
    if n == 0 || n > bodies.len() {
        0
    } else {
        let earlier = submissions_asked(state, bodies, (n - 1) as nat);
        let step = next(
            after_responses(state, bodies, (n - 1) as nat),
            EventView::Response(bodies[n - 1]),
        ).1;
        if step.action is Submit {
            earlier + 1
        } else {
            earlier
        }
    }
}

/// While the responses can be decoded, a run that has made `made`
/// submissions and is told `n` responses has made `n` more, as long as the
/// count allows it.
proof fn lemma_responses_counted(state: RequesterView, bodies: Seq<Seq<u8>>, n: nat)
    requires
        state.phase == Phase::Submitting,
        state.retry.submitted <= state.retry.attempts,
        state.retry.submitted + n <= state.retry.attempts,
        n <= bodies.len(),
        forall|i: int| 0 <= i < bodies.len() ==> response_in(#[trigger] bodies[i]) is Ok,
    ensures
        after_responses(state, bodies, n).phase == Phase::Submitting,
        after_responses(state, bodies, n).retry.attempts == state.retry.attempts,
        after_responses(state, bodies, n).retry.submitted == state.retry.submitted + n,
        submissions_asked(state, bodies, n) == n,
    decreases n,
{
    if n > 0 {
        lemma_responses_counted(state, bodies, (n - 1) as nat);
        assert(response_in(bodies[n - 1]) is Ok);
    }
}

/// Once a run begins to select, it submits the request exactly
/// [`TRY_COUNT`] times if every response can be decoded, whatever the
/// responses say: it asks for the first submission at once, for one more
/// after each response but the last, and after the last it is done.
pub proof fn lemma_run_submits_try_count(
    state: RequesterView,
    notices: Seq<Notice>,
    bodies: Seq<Seq<u8>>,
)
    requires
        bodies.len() == TRY_COUNT,
        forall|i: int| 0 <= i < bodies.len() ==> response_in(#[trigger] bodies[i]) is Ok,
    ensures
        begin_selection(state, notices).1.action is Submit,
        1 + submissions_asked(begin_selection(state, notices).0, bodies, TRY_COUNT as nat)
            == TRY_COUNT,
        after_responses(begin_selection(state, notices).0, bodies, TRY_COUNT as nat).phase
            == Phase::Done,
{
    let begun = begin_selection(state, notices).0;
    let before_last = (TRY_COUNT - 1) as nat;
    lemma_responses_counted(begun, bodies, before_last);
    assert(response_in(bodies[TRY_COUNT - 1]) is Ok);
}

impl Requester {
    /// A run for this configuration, not yet started.
    pub fn new(config: Config) -> (r: Self)
        ensures
            r.config == config,
            r.phase == Phase::Idle,
            r.token@ == Seq::<char>::empty(),
            r.request@ == Seq::<char>::empty(),
            r.retry == (RetryLoop { attempts: TRY_COUNT, submitted: 0 }),
    {
        Self {
            config,
            phase: Phase::Idle,
            token: String::new(),
            request: String::new(),
            retry: RetryLoop::new(TRY_COUNT),
        }
    }

    /// From `now` until the opening, in nanoseconds; negative once the
    /// opening is past.
    pub fn until(&self, now: Instant) -> (r: i128)
        ensures
            r == self.config.time.as_nanos() - now.as_nanos(),
    {
        self.config.time.signed_duration_since(now)
    }

    /// The login form that answers a login page for the credentials of a
    /// configuration.
    pub fn build_login_form(document: &str, config: Config) -> (r: LoginFormBody)
        ensures
            form_pairs(r) == login_pairs(document@, config.username@, config.password@),
    {
        let hidden_fields = LoginFormHiddenFields::from_html(document);
        let input_fields = LoginFormInputFields::from_config(config);
        let form = LoginFormBody::new(hidden_fields, input_fields);
        assert(form_pairs(form) =~= login_pairs(document@, config.username@, config.password@));
        form
    }

    /// The text of the course selection request of this run. It depends on
    /// the configuration alone.
    pub fn build_course_selection_request(&self) -> (r: String)
        ensures
            r@ == request_text(self.config@),
    {
        let body = CourseSelectionRequestBody::from_config(self.config.clone());
        body.to_text()
    }

    /// Ends the run early.
    fn fail(&mut self, error: RunError) -> (r: Step)
        ensures
            final(self)@ == (RequesterView { phase: Phase::Failed, ..old(self)@ }),
            r@ == plain_step(ActionView::Abort(error)),
    {
        self.phase = Phase::Failed;
        Step { notices: Vec::new(), report: None, action: Action::Abort(error) }
    }

    /// Asks for the login page.
    fn begin_login(&mut self, notices: Vec<Notice>) -> (r: Step)
        ensures
            (final(self)@, r@) == begin_login(old(self)@, notices@),
    {
        let ghost told = notices@;
        let mut notices = notices;
        notices.push(Notice::CurrentTime);
        notices.push(Notice::LoggingIn);
        self.phase = Phase::FetchingLoginPage;
        let step = Step { notices, report: None, action: Action::GetLoginPage };
        assert(step@.notices =~= begin_login(old(self)@, told).1.notices);
        step
    }

    /// Builds the request, starts the count and asks for the first
    /// submission.
    fn begin_selection(&mut self, notices: Vec<Notice>) -> (r: Step)
        ensures
            (final(self)@, r@) == begin_selection(old(self)@, notices@),
    {
        let ghost told = notices@;
        let mut notices = notices;
        notices.push(Notice::Selecting);
        notices.push(Notice::Attempts(TRY_COUNT));
        self.request = self.build_course_selection_request();
        self.retry = RetryLoop::new(TRY_COUNT);
        let step = match self.retry.advance() {
            RetryStep::Submit => {
                self.phase = Phase::Submitting;
                Step {
                    notices,
                    report: None,
                    action: Action::Submit { token: self.token.clone(), body: self.request.clone() },
                }
            },
            RetryStep::Finished => {
                self.phase = Phase::Done;
                Step { notices, report: None, action: Action::Finish }
            },
        };
        assert(step@.notices =~= begin_selection(old(self)@, told).1.notices);
        step
    }

    /// Takes the next step of the run: told what came of the last action, it
    /// says what the user is to be told and what is to be done next.
    pub fn step(&mut self, event: Event) -> (r: Step)
        ensures
            (final(self)@, r@) == next(old(self)@, event@),
    {
        match event {
            Event::Started => match self.phase {
                Phase::Idle => {
                    self.phase = Phase::TimingSettle;
                    Step { notices: Vec::new(), report: None, action: Action::ReadClock }
                },
                _ => self.fail(RunError::OutOfTurn),
            },
            Event::Clock(now) => match self.phase {
                Phase::TimingSettle => {
                    let until = self.until(now);
                    let mut notices: Vec<Notice> = Vec::new();
                    notices.push(Notice::TimeLeft(until));
                    match wait_until(self.config.time, ONE_MINUTE, now) {
                        Wait::Sleep(nanos) => {
                            notices.push(Notice::WaitingForLastMinute);
                            self.phase = Phase::Settling;
                            let step = Step { notices, report: None, action: Action::Sleep(nanos) };
                            assert(step@.notices =~= next(old(self)@, event@).1.notices);
                            step
                        },
                        Wait::Proceed => {
                            notices.push(Notice::LessThanAMinuteLeft);
                            assert(notices@ =~= seq![
                                Notice::TimeLeft(until),
                                Notice::LessThanAMinuteLeft,
                            ]);
                            self.begin_login(notices)
                        },
                    }
                },
                Phase::TimingFire => {
                    let until = self.until(now);
                    let mut notices: Vec<Notice> = Vec::new();
                    notices.push(Notice::TimeLeft(until));
                    match wait_until(self.config.time, -ERROR_MARGIN, now) {
                        Wait::Sleep(nanos) => {
                            notices.push(Notice::WaitingForOpening);
                            self.phase = Phase::Firing;
                            let step = Step { notices, report: None, action: Action::Sleep(nanos) };
                            assert(step@.notices =~= next(old(self)@, event@).1.notices);
                            step
                        },
                        Wait::Proceed => {
                            notices.push(Notice::AlreadyOpen);
                            assert(notices@ =~= seq![Notice::TimeLeft(until), Notice::AlreadyOpen]);
                            self.begin_selection(notices)
                        },
                    }
                },
                _ => self.fail(RunError::OutOfTurn),
            },
            Event::Woke => match self.phase {
                Phase::Settling => self.begin_login(Vec::new()),
                Phase::Firing => self.begin_selection(Vec::new()),
                _ => self.fail(RunError::OutOfTurn),
            },
            Event::LoginPage { url, body } => match self.phase {
                Phase::FetchingLoginPage => {
                    let form = Requester::build_login_form(body.as_str(), self.config.clone());
                    self.phase = Phase::PostingLogin;
                    Step {
                        notices: Vec::new(),
                        report: None,
                        action: Action::PostLoginForm { url, form },
                    }
                },
                _ => self.fail(RunError::OutOfTurn),
            },
            Event::LoginPosted => match self.phase {
                Phase::PostingLogin => {
                    let mut notices: Vec<Notice> = Vec::new();
                    notices.push(Notice::LoggedIn);
                    notices.push(Notice::FetchingToken);
                    self.phase = Phase::PrimingToken;
                    let step = Step { notices, report: None, action: Action::GetToken };
                    assert(step@.notices =~= next(old(self)@, event@).1.notices);
                    step
                },
                _ => self.fail(RunError::OutOfTurn),
            },
            Event::TokenResponse(text) => match self.phase {
                Phase::PrimingToken => {
                    self.phase = Phase::FetchingToken;
                    Step { notices: Vec::new(), report: None, action: Action::GetToken }
                },
                Phase::FetchingToken => {
                    let mut notices: Vec<Notice> = Vec::new();
                    notices.push(Notice::TokenFetched);
                    self.token = text;
                    self.phase = Phase::TimingFire;
                    let step = Step { notices, report: None, action: Action::ReadClock };
                    assert(step@.notices =~= next(old(self)@, event@).1.notices);
                    step
                },
                _ => self.fail(RunError::OutOfTurn),
            },
            Event::Response(body) => match self.phase {
                Phase::Submitting => match CourseSelectionResponseBody::from_slice(
                    body.as_slice(),
                ) {
                    Err(error) => self.fail(RunError::Decode(error)),
                    Ok(response) => {
                        let mut notices: Vec<Notice> = Vec::new();
                        notices.push(Notice::Attempt(self.retry.submitted));
                        let step = match self.retry.advance() {
                            RetryStep::Submit => Step {
                                notices,
                                report: Some(response),
                                action: Action::Submit {
                                    token: self.token.clone(),
                                    body: self.request.clone(),
                                },
                            },
                            RetryStep::Finished => {
                                self.phase = Phase::Done;
                                Step { notices, report: Some(response), action: Action::Finish }
                            },
                        };
                        assert(step@.notices =~= next(old(self)@, event@).1.notices);
                        step
                    },
                },
                _ => self.fail(RunError::OutOfTurn),
            },
            Event::TransportFailed => match self.phase {
                Phase::FetchingLoginPage
                | Phase::PostingLogin
                | Phase::PrimingToken
                | Phase::FetchingToken
                | Phase::Submitting => self.fail(RunError::Transport),
                _ => self.fail(RunError::OutOfTurn),
            },
        }
    }
}

} // verus!
