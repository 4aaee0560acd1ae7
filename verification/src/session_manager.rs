//! The recording session: which operations are allowed in which state, the
//! throttle on waveform frames, and the verdict of the proxy health check.
//! The application owns the audio stream, the clock and the event bridge, and
//! asks these functions what to do.

use vstd::prelude::*;
use crate::text::{
    concat_str, decimal, occurs_at, replace_all, replace_all_keeps_prefix, replace_all_str, result_view,
};

verus! {

/// Reply to a start request while a session is already recording.
pub const ALREADY_RECORDING: &'static str = "Ya hay una sesión de grabación activa";

/// Reply to a stop request while no session is recording.
pub const NOT_RECORDING: &'static str = "No hay ninguna sesión activa para detener";

/// A waveform frame is sent once more than this many whole milliseconds have
/// passed since the last one was sent (about 60 fps).
pub const WAVEFORM_EMIT_INTERVAL_MS: u64 = 16;

/// Nanoseconds in a millisecond.
pub const NANOS_PER_MILLI: u64 = 1_000_000;

/// Event that carries a waveform frame to the interface.
pub const WAVEFORM_EVENT: &'static str = "waveform_data";

/// Event that warns the interface that the LLM proxy is offline: recording
/// works, but no summary will be made at the end.
pub const PROXY_OFFLINE_EVENT: &'static str = "llm_proxy_offline";

/// Event that carries the session status to the interface.
pub const STATUS_EVENT: &'static str = "session_status";

/// Status announced to the interface when a session starts or stops.
#[derive(Debug, Clone, Copy, PartialEq, Eq, Structural)]
pub enum SessionStatus {
    Recording,
    Idle,
}

/// The text sent as the status event's payload.
pub open spec fn status_name(status: SessionStatus) -> Seq<char> {
    match status {
        SessionStatus::Recording => seq!['r', 'e', 'c', 'o', 'r', 'd', 'i', 'n', 'g'],
        SessionStatus::Idle => seq!['i', 'd', 'l', 'e'],
    }
}

impl SessionStatus {
    /// The payload of the status event: "recording" or "idle".
    pub fn as_str(&self) -> (s: &'static str)
        ensures
            s@ == status_name(*self),
    {
        match self {
            SessionStatus::Recording => {
                proof {
                    reveal_strlit("recording");
                }
                assert("recording"@ =~= status_name(SessionStatus::Recording));
                "recording"
            },
            SessionStatus::Idle => {
                proof {
                    reveal_strlit("idle");
                }
                assert("idle"@ =~= status_name(SessionStatus::Idle));
                "idle"
            },
        }
    }
}

/// State shared by the session commands and the audio callback. `C` is the
/// handle of the open audio stream; a session is recording exactly when it
/// holds one. `last_emit_ns` is the clock reading, in nanoseconds of a
/// monotonic clock, taken when the last waveform frame had been sent.
pub struct SessionState<C> {
    pub audio_capture: Option<C>,
    pub last_emit_ns: u64,
}

/// State after the stream opened for a start request is handed in.
pub open spec fn start_next<C>(s: SessionState<C>, opened: Result<C, String>) -> SessionState<C> {
    match opened {
        Ok(c) if s.audio_capture is None => SessionState {
            audio_capture: Some(c),
            last_emit_ns: s.last_emit_ns,
        },
        _ => s,
    }
}

/// Reply to a start request given the stream-opening outcome.
pub open spec fn start_reply<C>(s: SessionState<C>, opened: Result<C, String>) -> Result<
    SessionStatus,
    Seq<char>,
> {
    if s.audio_capture is Some {
        Err(ALREADY_RECORDING@)
    } else {
        match opened {
            Ok(_) => Ok(SessionStatus::Recording),
            Err(e) => Err(e@),
        }
    }
}

/// State after a stop request.
pub open spec fn stop_next<C>(s: SessionState<C>) -> SessionState<C> {
    SessionState { audio_capture: None, last_emit_ns: s.last_emit_ns }
}

/// Reply to a stop request: the stream to close and the status to announce.
pub open spec fn stop_reply<C>(s: SessionState<C>) -> Result<(C, SessionStatus), Seq<char>> {
    match s.audio_capture {
        Some(c) => Ok((c, SessionStatus::Idle)),
        None => Err(NOT_RECORDING@),
    }
}

/// Time elapsed from the reading `last_ns` to the reading `now_ns`, in whole
/// milliseconds, rounded down; a reading before `last_ns` counts as no time
/// passed.
pub open spec fn elapsed_millis(last_ns: u64, now_ns: u64) -> int {
    if now_ns >= last_ns {
        (now_ns - last_ns) / (NANOS_PER_MILLI as int)
    } else {
        0
    }
}

/// Whether a waveform frame is sent at clock reading `now_ns`: more than the
/// interval, in whole milliseconds, has passed since the last frame was sent.
pub open spec fn frame_due_spec(last_emit_ns: u64, now_ns: u64) -> bool {
    elapsed_millis(last_emit_ns, now_ns) > WAVEFORM_EMIT_INTERVAL_MS
}

impl<C> SessionState<C> {
    /// A session that is not recording, whose frame clock starts at `now_ns`.
    pub fn new(now_ns: u64) -> (s: Self)
        ensures
            s.audio_capture is None,
            s.last_emit_ns == now_ns,
    {
        SessionState { audio_capture: None, last_emit_ns: now_ns }
    }

    /// Whether a session is recording.
    pub fn is_recording(&self) -> (b: bool)
        ensures
            b == self.audio_capture is Some,
    {
        self.audio_capture.is_some()
    }

    /// First step of a start request, before any stream is opened: refused
    /// while a session is recording.
    pub fn request_start(&self) -> (r: Result<(), String>)
        ensures
            r is Ok <==> self.audio_capture is None,
            r matches Err(e) ==> e@ == ALREADY_RECORDING@,
    {
        if self.audio_capture.is_some() {
            Err(String::from_str(ALREADY_RECORDING))
        } else {
            Ok(())
        }
    }

    /// Second step of a start request: takes the outcome of opening the audio
    /// stream. On success the session records with that stream and the
    /// status to announce is returned; an opening error is passed on and
    /// leaves the state as it was. A session that is already recording keeps
    /// its stream and refuses the new one.
    pub fn complete_start(&mut self, opened: Result<C, String>) -> (r: Result<SessionStatus, String>)
        ensures
            *final(self) == start_next(*old(self), opened),
            result_view(r) == start_reply(*old(self), opened),
    {
        if self.audio_capture.is_some() {
            return Err(String::from_str(ALREADY_RECORDING));
        }
        match opened {
            Ok(capture) => {
                self.audio_capture = Some(capture);
                Ok(SessionStatus::Recording)
            },
            Err(e) => Err(e),
        }
    }

    /// Second step of a start request, with the verdict of the proxy health
    /// check made before it. The session starts or not exactly as with
    /// `complete_start`; the verdict never blocks it. When it starts and the
    /// proxy is offline, the verdict's text comes back as the notice to send
    /// with the offline event.
    pub fn complete_start_checked(
        &mut self,
        opened: Result<C, String>,
        proxy_health: Result<(), String>,
    ) -> (r: Result<(SessionStatus, Option<String>), String>)
        ensures
            *final(self) == start_next(*old(self), opened),
            match start_reply(*old(self), opened) {
                Ok(status) => r matches Ok((announced, notice)) && announced == status && match proxy_health {
                    Ok(()) => notice is None,
                    Err(offline) => notice matches Some(n) && n@ == offline@,
                },
                Err(e) => r matches Err(x) && x@ == e,
            },
    {
        match self.complete_start(opened) {
            Ok(status) => match proxy_health {
                Ok(()) => Ok((status, None)),
                Err(offline) => Ok((status, Some(offline))),
            },
            Err(e) => Err(e),
        }
    }

    /// A stop request: hands back the stream to close and the status to
    /// announce, and leaves the session idle; refused when not recording.
    pub fn stop_recording(&mut self) -> (r: Result<(C, SessionStatus), String>)
        ensures
            *final(self) == stop_next(*old(self)),
            result_view(r) == stop_reply(*old(self)),
    {
        match self.audio_capture.take() {
            Some(capture) => Ok((capture, SessionStatus::Idle)),
            None => Err(String::from_str(NOT_RECORDING)),
        }
    }

    /// Called for each audio buffer: whether a waveform frame is due at clock
    /// reading `now_ns`.
    pub fn frame_due(&self, now_ns: u64) -> (due: bool)
        ensures
            due == frame_due_spec(self.last_emit_ns, now_ns),
            now_ns >= self.last_emit_ns ==> (due <==> now_ns - self.last_emit_ns >= 17_000_000),
            now_ns < self.last_emit_ns ==> !due,
    {
        proof {
            frame_due_after_seventeen_millis(self.last_emit_ns, now_ns);
        }
        let elapsed_ns = if now_ns >= self.last_emit_ns {
            now_ns - self.last_emit_ns
        } else {
            0
        };
        elapsed_ns / NANOS_PER_MILLI > WAVEFORM_EMIT_INTERVAL_MS
    }

    /// Records that a frame has been sent, with the clock reading taken once
    /// it was sent; the next frame is due only after the interval counted
    /// from there.
    pub fn record_frame(&mut self, now_ns: u64)
        ensures
            final(self).last_emit_ns == now_ns,
            final(self).audio_capture == old(self).audio_capture,
    {
        self.last_emit_ns = now_ns;
    }
}

/// A frame is due exactly when at least 17 ms (17,000,000 ns) have passed
/// since the last one, however long ago that was; a clock reading earlier
/// than the last frame never makes one due.
pub proof fn frame_due_after_seventeen_millis(last_emit_ns: u64, now_ns: u64)
    ensures
        now_ns >= last_emit_ns ==> (frame_due_spec(last_emit_ns, now_ns) <==> now_ns
            - last_emit_ns >= 17_000_000),
        now_ns < last_emit_ns ==> !frame_due_spec(last_emit_ns, now_ns),
{
    if now_ns >= last_emit_ns {
        let d: int = now_ns - last_emit_ns;
        assert(d / 1_000_000int > 16 <==> d >= 17_000_000) by (nonlinear_arith)
            requires
                d >= 0,
        ;
    }
}

/// Being due only grows with time: once a frame is due at a reading, it is
/// due at every later reading.
pub proof fn frame_due_is_monotone(last_emit_ns: u64, now_ns: u64, later_ns: u64)
    requires
        now_ns <= later_ns,
        frame_due_spec(last_emit_ns, now_ns),
    ensures
        frame_due_spec(last_emit_ns, later_ns),
{
    frame_due_after_seventeen_millis(last_emit_ns, now_ns);
    frame_due_after_seventeen_millis(last_emit_ns, later_ns);
}

/// Frames are spaced: after a frame recorded at `sent_ns`, no frame is due
/// before 17 whole milliseconds have passed.
pub proof fn frames_are_spaced<C>(s: SessionState<C>, sent_ns: u64, now_ns: u64)
    requires
        s.last_emit_ns == sent_ns,
        now_ns < sent_ns + (WAVEFORM_EMIT_INTERVAL_MS + 1) * NANOS_PER_MILLI,
    ensures
        !frame_due_spec(s.last_emit_ns, now_ns),
{
    if now_ns >= sent_ns {
        assert((now_ns - sent_ns) / 1_000_000int <= 16) by (nonlinear_arith)
            requires
                0 <= now_ns - sent_ns < 17_000_000,
        ;
    }
}

/// A started session can be stopped: stopping right after a successful start
/// hands back the very stream that was opened, announces `Idle`, and returns
/// the session to the state it had before the start.
pub proof fn start_then_stop_restores<C>(s: SessionState<C>, capture: C)
    requires
        s.audio_capture is None,
    ensures
        start_reply(s, Ok(capture)) == Ok::<SessionStatus, Seq<char>>(SessionStatus::Recording),
        stop_reply(start_next(s, Ok(capture))) == Ok::<(C, SessionStatus), Seq<char>>(
            (capture, SessionStatus::Idle),
        ),
        stop_next(start_next(s, Ok(capture))) == s,
{
}

/// At most one session records at a time: while recording, a start request
/// is refused whatever stream it brings, and the running stream is kept.
pub proof fn recording_refuses_second_start<C>(s: SessionState<C>, opened: Result<C, String>)
    requires
        s.audio_capture is Some,
    ensures
        start_next(s, opened) == s,
        start_reply(s, opened) == Err::<SessionStatus, Seq<char>>(ALREADY_RECORDING@),
{
}

/// Stopping is idempotent in state and refused the second time: after a
/// stop, a further stop changes nothing and is answered with the not
/// recording error.
pub proof fn second_stop_refused<C>(s: SessionState<C>)
    ensures
        stop_next(stop_next(s)) == stop_next(s),
        stop_reply(stop_next(s)) == Err::<(C, SessionStatus), Seq<char>>(NOT_RECORDING@),
{
}

/// A start or stop request made on the session; a start carries the outcome
/// of opening the audio stream.
pub enum SessionCall<C> {
    Start(Result<C, String>),
    Stop,
}

/// State after a call, and the status it announces when it succeeds.
pub open spec fn apply_call<C>(s: SessionState<C>, call: SessionCall<C>) -> (
    SessionState<C>,
    Option<SessionStatus>,
) {
    match call {
        SessionCall::Start(opened) => (
            start_next(s, opened),
            match start_reply(s, opened) {
                Ok(status) => Some(status),
                Err(_) => None,
            },
        ),
        SessionCall::Stop => (
            stop_next(s),
            match stop_reply(s) {
                Ok((_, status)) => Some(status),
                Err(_) => None,
            },
        ),
    }
}

/// The statuses announced by the successful calls of a sequence, in order.
pub open spec fn announced<C>(s: SessionState<C>, calls: Seq<SessionCall<C>>) -> Seq<SessionStatus>
    decreases calls.len(),
{
    if calls.len() == 0 {
        Seq::empty()
    } else {
        let (next, status) = apply_call(s, calls[0]);
        let rest = announced(next, calls.drop_first());
        match status {
            Some(st) => seq![st] + rest,
            None => rest,
        }
    }
}

/// The status announced by the `i`-th successful call, counted from a
/// session that is idle (`from_idle`) or recording.
pub open spec fn alternating(from_idle: bool, i: int) -> SessionStatus {
    if (i % 2 == 0) == from_idle {
        SessionStatus::Recording
    } else {
        SessionStatus::Idle
    }
}

/// Successful starts and stops alternate: over any sequence of calls, the
/// successful ones announce "recording", "idle", "recording", ... from an
/// idle session (and "idle" first from a recording one); at most one stream
/// is held at any time, since the state holds an optional one.
pub proof fn successful_calls_alternate<C>(s: SessionState<C>, calls: Seq<SessionCall<C>>)
    ensures
        forall|i: int|
            0 <= i < announced(s, calls).len() ==> #[trigger] announced(s, calls)[i]
                == alternating(s.audio_capture is None, i),
    decreases calls.len(),
{
    if calls.len() > 0 {
        let (next, status) = apply_call(s, calls[0]);
        let rest_calls = calls.drop_first();
        successful_calls_alternate(next, rest_calls);
        let rest = announced(next, rest_calls);
        match status {
            Some(st) => {
                assert(next.audio_capture is None == !(s.audio_capture is None));
                assert(st == alternating(s.audio_capture is None, 0));
                assert forall|i: int|
                    0 <= i < announced(s, calls).len() implies #[trigger] announced(s, calls)[i]
                    == alternating(s.audio_capture is None, i) by {
                    if i > 0 {
                        assert(announced(s, calls)[i] == rest[i - 1]);
                        assert(((i - 1) % 2 == 0) == !(i % 2 == 0));
                    }
                }
            },
            None => {
                assert(next == s);
            },
        }
    }
}

/// Path of the chat endpoint in the proxy URL.
pub const CHAT_COMPLETIONS_PATH: &'static str = "/v1/chat/completions";

/// Path of the proxy's health endpoint.
pub const HEALTH_PATH: &'static str = "/health";

/// Health endpoint derived from the proxy URL: every occurrence of the chat
/// path replaced by the health path.
pub fn health_url(llm_proxy_url: &str) -> (url: String)
    ensures
        url@ == replace_all(llm_proxy_url@, CHAT_COMPLETIONS_PATH@, HEALTH_PATH@),
{
    proof {
        reveal_strlit("/v1/chat/completions");
    }
    replace_all_str(llm_proxy_url, CHAT_COMPLETIONS_PATH, HEALTH_PATH)
}

/// A proxy URL made of a base and the chat path, where the chat path
/// starts nowhere inside the base, has its health endpoint at the same base.
pub proof fn health_url_of_chat_endpoint(base: Seq<char>)
    requires
        forall|i: int|
            0 <= i < base.len() ==> !#[trigger] occurs_at(
                base + CHAT_COMPLETIONS_PATH@,
                CHAT_COMPLETIONS_PATH@,
                i,
            ),
    ensures
        replace_all(base + CHAT_COMPLETIONS_PATH@, CHAT_COMPLETIONS_PATH@, HEALTH_PATH@) == base
            + HEALTH_PATH@,
{
    replace_all_keeps_prefix(base, CHAT_COMPLETIONS_PATH@, CHAT_COMPLETIONS_PATH@, HEALTH_PATH@);
    reveal_strlit("/v1/chat/completions");
    let chat = CHAT_COMPLETIONS_PATH@;
    assert(chat.subrange(0, chat.len() as int) =~= chat);
    assert(chat.subrange(chat.len() as int, chat.len() as int) =~= Seq::<char>::empty());
    assert(replace_all(Seq::<char>::empty(), chat, HEALTH_PATH@) == Seq::<char>::empty());
    assert(replace_all(chat, chat, HEALTH_PATH@) == HEALTH_PATH@ + replace_all(
        Seq::<char>::empty(),
        chat,
        HEALTH_PATH@,
    ));
    assert(HEALTH_PATH@ + Seq::<char>::empty() =~= HEALTH_PATH@);
}

/// Reason phrase that `http` writes after the code of a status: its
/// canonical reason, or "<unknown status code>".
pub uninterp spec fn status_reason(code: u16) -> Seq<char>;

/// Text of a status as `http::StatusCode`'s `Display` writes it.
pub open spec fn status_text(code: u16) -> Seq<char> {
    decimal(code as nat) + seq![' '] + status_reason(code)
}

/// Calls `http::StatusCode::from_u16` and formats the status with its
/// `Display`. Claimed: a status exists exactly for codes 100 to 999, and its
/// text is the code in decimal, a space, and the reason phrase named
/// `status_reason`.
#[verifier::external_body]
fn status_code_text(code: u16) -> (text: Option<String>)
    ensures
        text is Some <==> 100 <= code <= 999,
        text matches Some(t) ==> t@ == decimal(code as nat) + seq![' '] + status_reason(code),
{
    match http::StatusCode::from_u16(code) {
        Ok(status) => Some(status.to_string()),
        Err(_) => None,
    }
}

/// First part of the error when the proxy answers with a failure status.
pub const PROXY_STATUS_ERROR: &'static str = "Proxy responde pero con error: ";

/// Start of the error when the proxy cannot be reached.
pub const PROXY_UNREACHABLE_START: &'static str = "No se puede conectar al proxy LLM en ";

/// End of the error when the proxy cannot be reached.
pub const PROXY_UNREACHABLE_END: &'static str = ".\nInicia gemini-proxy-balancer con: uvicorn main:app --port 8000";

/// A status of the 2xx class.
pub open spec fn is_success(code: u16) -> bool {
    200 <= code < 300
}

/// Verdict of the health check: `status` is the status the health endpoint
/// answered with, or `None` when the request failed.
pub open spec fn health_verdict_spec(health_url: Seq<char>, status: Option<u16>) -> Result<(), Seq<char>> {
    match status {
        None => Err(PROXY_UNREACHABLE_START@ + health_url + PROXY_UNREACHABLE_END@),
        Some(code) => if is_success(code) {
            Ok(())
        } else {
            Err(PROXY_STATUS_ERROR@ + status_text(code))
        },
    }
}

/// The proxy counts as healthy exactly when it answers with a status from
/// 200 to 299. Any other answer is the status error text followed by the
/// code in decimal, a space and the reason phrase; no answer at all is an
/// error that names the health URL.
pub proof fn health_verdict_accepts_exactly_2xx(health_url: Seq<char>, code: u16)
    ensures
        health_verdict_spec(health_url, Some(code)) is Ok <==> 200 <= code && code < 300,
        !(200 <= code && code < 300) ==> health_verdict_spec(health_url, Some(code)) == Err::<
            (),
            Seq<char>,
        >(PROXY_STATUS_ERROR@ + decimal(code as nat) + seq![' '] + status_reason(code)),
        health_verdict_spec(health_url, None) matches Err(m) && m == PROXY_UNREACHABLE_START@
            + health_url + PROXY_UNREACHABLE_END@,
{
    if !(200 <= code && code < 300) {
        assert(PROXY_STATUS_ERROR@ + status_text(code) =~= PROXY_STATUS_ERROR@ + decimal(
            code as nat,
        ) + seq![' '] + status_reason(code));
    }
}

/// Decides the health check from what the request to `health_url` brought:
/// success for a 2xx status, otherwise an error that names the status or, if
/// nothing answered, the URL and how to start the proxy.
pub fn health_verdict(health_url: &str, status: Option<u16>) -> (r: Result<(), String>)
    requires
        status matches Some(code) ==> 100 <= code <= 999,
    ensures
        result_view(r) == health_verdict_spec(health_url@, status),
        status matches Some(code) ==> (r is Ok <==> 200 <= code && code < 300),
        status is None ==> r is Err,
{
    proof {
        if let Some(code) = status {
            health_verdict_accepts_exactly_2xx(health_url@, code);
        }
    }
    match status {
        None => {
            let head = concat_str(PROXY_UNREACHABLE_START, health_url);
            Err(concat_str(head.as_str(), PROXY_UNREACHABLE_END))
        },
        Some(code) => {
            if 200 <= code && code < 300 {
                Ok(())
            } else {
                match status_code_text(code) {
                    Some(text) => Err(concat_str(PROXY_STATUS_ERROR, text.as_str())),
                    None => {
                        // Not reached: `requires` keeps the code in range.
                        proof {
                            assert(false);
                        }
                        Err(String::new())
                    },
                }
            }
        },
    }
}

} // verus!
