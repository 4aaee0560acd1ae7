//! Speech-to-text with Deepgram: the address and credentials of the
//! streaming connection, and which transcription messages reach the
//! interface. The socket and its tasks are run by the application.

use vstd::prelude::*;
use crate::config::AppConfig;
use crate::text::concat_str;

verus! {

/// A transcription fragment sent to the interface.
#[derive(Debug, Clone, PartialEq, Eq)]
pub struct SttData {
    pub text: String,
    pub is_final: bool,
}

/// One transcription hypothesis of a Deepgram result.
#[derive(Debug, Clone, PartialEq, Eq)]
pub struct DeepgramAlternative {
    pub transcript: String,
}

/// The channel part of a Deepgram result, best hypothesis first.
#[derive(Debug, Clone, PartialEq, Eq)]
pub struct DeepgramChannel {
    pub alternatives: Vec<DeepgramAlternative>,
}

/// A result message of the Deepgram streaming API, with the fields read.
#[derive(Debug, Clone, PartialEq, Eq)]
pub struct DeepgramResponse {
    pub channel: DeepgramChannel,
    pub is_final: bool,
}

/// Event that carries a transcription fragment to the interface.
pub const STT_EVENT: &'static str = "stt_data";

/// Start of the listen URL, up to the model.
pub const LISTEN_URL_START: &'static str = "wss://api.deepgram.com/v1/listen?model=";

/// Between the model and the language in the listen URL.
pub const LISTEN_URL_LANGUAGE: &'static str = "&language=";

/// Fixed options at the end of the listen URL: formatted text, interim
/// results, 16 kHz linear PCM.
pub const LISTEN_URL_OPTIONS: &'static str = "&smart_format=true&interim_results=true&encoding=linear16&sample_rate=16000";

/// Scheme of the `Authorization` header value.
pub const AUTH_SCHEME: &'static str = "Token ";

/// Event channel capacity between the audio side and the socket sender.
pub const AUDIO_CHANNEL_CAPACITY: usize = 100;

/// The listen URL for a model and a language, before URL parsing.
pub open spec fn listen_url_spec(model: Seq<char>, language: Seq<char>) -> Seq<char> {
    LISTEN_URL_START@ + model + LISTEN_URL_LANGUAGE@ + language + LISTEN_URL_OPTIONS@
}

/// The listen URL is made of four consecutive parts, whatever the model and
/// language: the endpoint up to `model=`, the model, `&language=` followed by
/// the language, and the fixed options.
pub proof fn listen_url_layout(model: Seq<char>, language: Seq<char>)
    ensures
        ({
            let url = listen_url_spec(model, language);
            let a = LISTEN_URL_START@.len() as int;
            let b = a + model.len();
            let c = b + LISTEN_URL_LANGUAGE@.len();
            let d = c + language.len();
            &&& url.len() == d + LISTEN_URL_OPTIONS@.len()
            &&& url.subrange(0, a) == LISTEN_URL_START@
            &&& url.subrange(a, b) == model
            &&& url.subrange(b, c) == LISTEN_URL_LANGUAGE@
            &&& url.subrange(c, d) == language
            &&& url.subrange(d, url.len() as int) == LISTEN_URL_OPTIONS@
        }),
{
    let url = listen_url_spec(model, language);
    let a = LISTEN_URL_START@.len() as int;
    let b = a + model.len();
    let c = b + LISTEN_URL_LANGUAGE@.len();
    let d = c + language.len();
    assert(url.subrange(0, a) =~= LISTEN_URL_START@);
    assert(url.subrange(a, b) =~= model);
    assert(url.subrange(b, c) =~= LISTEN_URL_LANGUAGE@);
    assert(url.subrange(c, d) =~= language);
    assert(url.subrange(d, url.len() as int) =~= LISTEN_URL_OPTIONS@);
}

/// For a given model, different languages give different listen URLs: the
/// language is never dropped from the URL.
pub proof fn listen_url_keeps_language(model: Seq<char>, first: Seq<char>, second: Seq<char>)
    requires
        listen_url_spec(model, first) == listen_url_spec(model, second),
    ensures
        first == second,
{
    listen_url_layout(model, first);
    listen_url_layout(model, second);
    let url = listen_url_spec(model, first);
    let c: int = (LISTEN_URL_START@.len() + model.len() + LISTEN_URL_LANGUAGE@.len()) as int;
    assert(first.len() == second.len());
    assert(first =~= url.subrange(c, c + first.len()));
    assert(second =~= url.subrange(c, c + second.len()));
}

/// Builds the listen URL text for `model` and `language`.
pub fn listen_url(model: &str, language: &str) -> (url: String)
    ensures
        url@ == listen_url_spec(model@, language@),
{
    let mut url = concat_str(LISTEN_URL_START, model);
    url.append(LISTEN_URL_LANGUAGE);
    url.append(language);
    url.append(LISTEN_URL_OPTIONS);
    url
}

/// The `Authorization` header value for an API key.
pub fn authorization_value(api_key: &str) -> (value: String)
    ensures
        value@ == AUTH_SCHEME@ + api_key@,
{
    concat_str(AUTH_SCHEME, api_key)
}

#[verifier::external_type_specification]
#[verifier::external_body]
pub struct ExUrlParseError(url::ParseError);

/// What `url::Url::parse` makes of a text: the URL's serialization when the
/// text is an absolute URL, `None` when it is rejected.
pub uninterp spec fn parsed_url(text: Seq<char>) -> Option<Seq<char>>;

/// Calls `url::Url::parse` and hands back the serialization (`as_str`) of the
/// URL it built. Claimed: the outcome is the one named `parsed_url`; which
/// `ParseError` comes back is not stated.
#[verifier::external_body]
fn parse_url(text: &str) -> (r: Result<String, url::ParseError>)
    ensures
        match r {
            Ok(s) => parsed_url(text@) == Some(s@),
            Err(_) => parsed_url(text@) is None,
        },
{
    match url::Url::parse(text) {
        Ok(parsed) => Ok(String::from(parsed.as_str())),
        Err(e) => Err(e),
    }
}

/// Where and how to open the streaming connection.
#[derive(Debug, Clone, PartialEq, Eq)]
pub struct DeepgramConnection {
    /// The parsed listen URL.
    pub url: String,
    /// The value of the `Authorization` header.
    pub authorization: String,
}

/// Completes the connection settings from the URL parser's outcome: the
/// parsed URL and the authorization built from `api_key`, or the parse error.
pub fn connection_from_parsed(parsed: Result<String, url::ParseError>, api_key: &str) -> (r: Result<
    DeepgramConnection,
    url::ParseError,
>)
    ensures
        match parsed {
            Ok(u) => r matches Ok(c) && c.url@ == u@ && c.authorization@ == AUTH_SCHEME@
                + api_key@,
            Err(e) => r == Err::<DeepgramConnection, url::ParseError>(e),
        },
{
    match parsed {
        Ok(url) => Ok(DeepgramConnection { url, authorization: authorization_value(api_key) }),
        Err(e) => Err(e),
    }
}

/// Settings of the streaming connection for `config`: the listen URL for the
/// configured model and language, parsed, and the token authorization with
/// the configured key. Fails when the URL parser rejects the URL.
pub fn prepare_connection(config: &AppConfig) -> (r: Result<DeepgramConnection, url::ParseError>)
    ensures
        r is Ok <==> parsed_url(listen_url_spec(config.model_stt@, config.language@)) is Some,
        r matches Ok(c) ==> parsed_url(listen_url_spec(config.model_stt@, config.language@))
            == Some(c.url@) && c.authorization@ == AUTH_SCHEME@ + config.deepgram_api_key@,
{
    let text = listen_url(config.model_stt.as_str(), config.language.as_str());
    let parsed = parse_url(text.as_str());
    connection_from_parsed(parsed, config.deepgram_api_key.as_str())
}

/// The fragment a result yields: its best hypothesis, with the result's
/// finality, when there is a hypothesis and it is not empty.
pub open spec fn transcript_update_spec(response: DeepgramResponse) -> Option<(Seq<char>, bool)> {
    let alternatives = response.channel.alternatives@;
    if alternatives.len() > 0 && alternatives[0].transcript@.len() > 0 {
        Some((alternatives[0].transcript@, response.is_final))
    } else {
        None
    }
}

/// A result yields a fragment exactly when its best hypothesis exists and is
/// not empty; the fragment is that hypothesis, unchanged, and is final exactly
/// when the result is final, whatever its text.
pub proof fn forwarded_fragment_keeps_finality(response: DeepgramResponse)
    ensures
        transcript_update_spec(response) is Some <==> response.channel.alternatives@.len() > 0
            && response.channel.alternatives@[0].transcript@.len() > 0,
        transcript_update_spec(response) matches Some((text, is_final)) ==> is_final
            == response.is_final && text == response.channel.alternatives@[0].transcript@,
{
}

/// The fragment to send to the interface for a Deepgram result, if any:
/// results without a hypothesis or with an empty best one are dropped.
pub fn transcript_update(response: &DeepgramResponse) -> (update: Option<SttData>)
    ensures
        match transcript_update_spec(*response) {
            Some((text, is_final)) => update matches Some(d) && d.text@ == text && d.is_final
                == is_final,
            None => update is None,
        },
        update is Some <==> response.channel.alternatives@.len() > 0
            && response.channel.alternatives@[0].transcript@.len() > 0,
        update matches Some(d) ==> d.is_final == response.is_final && d.text@
            == response.channel.alternatives@[0].transcript@,
{
    proof {
        forwarded_fragment_keeps_finality(*response);
    }
    if response.channel.alternatives.len() == 0 {
        return None;
    }
    let best = &response.channel.alternatives[0];
    if best.transcript.as_str().is_empty() {
        None
    } else {
        Some(SttData { text: best.transcript.clone(), is_final: response.is_final })
    }
}

/// What the audio sender learned since its last action.
#[derive(Debug, Clone, PartialEq, Eq)]
pub enum SenderEvent {
    /// A chunk of audio arrived from the channel.
    Chunk(Vec<u8>),
    /// The channel is closed: no more audio will come.
    ChannelClosed,
    /// The last write to the socket succeeded.
    Written,
    /// The last write to the socket failed.
    WriteFailed,
}

/// What the audio sender does next.
#[derive(Debug, Clone, PartialEq, Eq)]
pub enum SenderAction {
    /// Wait for the next chunk from the channel.
    Receive,
    /// Write this chunk as a binary message.
    Send(Vec<u8>),
    /// Write this payload, which is empty, as the binary message that tells
    /// Deepgram the stream is over; its outcome does not matter.
    Close(Vec<u8>),
    /// Stop sending.
    Stop,
}

/// A sender event with its bytes taken by their view.
pub enum SenderEventView {
    Chunk(Seq<u8>),
    ChannelClosed,
    Written,
    WriteFailed,
}

/// A sender action with its bytes taken by their view.
pub enum SenderActionView {
    Receive,
    Send(Seq<u8>),
    Close(Seq<u8>),
    Stop,
}

/// The view of a sender event.
pub open spec fn event_view(event: SenderEvent) -> SenderEventView {
    match event {
        SenderEvent::Chunk(audio) => SenderEventView::Chunk(audio@),
        SenderEvent::ChannelClosed => SenderEventView::ChannelClosed,
        SenderEvent::Written => SenderEventView::Written,
        SenderEvent::WriteFailed => SenderEventView::WriteFailed,
    }
}

/// The view of a sender action.
pub open spec fn action_view(action: SenderAction) -> SenderActionView {
    match action {
        SenderAction::Receive => SenderActionView::Receive,
        SenderAction::Send(audio) => SenderActionView::Send(audio@),
        SenderAction::Close(payload) => SenderActionView::Close(payload@),
        SenderAction::Stop => SenderActionView::Stop,
    }
}

/// One step of the sender: while not closing, a chunk is written unchanged,
/// a good write leads to waiting for the next chunk, and a closed channel or
/// a failed write leads to the one empty end-of-stream message; once closing,
/// the sender stops whatever happens.
pub open spec fn sender_step_spec(closing: bool, event: SenderEventView) -> (bool, SenderActionView) {
    if closing {
        (true, SenderActionView::Stop)
    } else {
        match event {
            SenderEventView::Chunk(audio) => (false, SenderActionView::Send(audio)),
            SenderEventView::Written => (false, SenderActionView::Receive),
            SenderEventView::ChannelClosed | SenderEventView::WriteFailed => (
                true,
                SenderActionView::Close(Seq::empty()),
            ),
        }
    }
}

/// One step of the audio sender. `closing` is false while audio is being
/// forwarded and becomes true once the end-of-stream message is due.
pub fn audio_sender_step(closing: bool, event: SenderEvent) -> (r: (bool, SenderAction))
    ensures
        (r.0, action_view(r.1)) == sender_step_spec(closing, event_view(event)),
{
    if closing {
        return (true, SenderAction::Stop);
    }
    match event {
        SenderEvent::Chunk(audio) => (false, SenderAction::Send(audio)),
        SenderEvent::Written => (false, SenderAction::Receive),
        SenderEvent::ChannelClosed | SenderEvent::WriteFailed => {
            let payload: Vec<u8> = Vec::new();
            assert(payload@ =~= Seq::<u8>::empty());
            (true, SenderAction::Close(payload))
        },
    }
}

/// The payloads written by a run of the sender loop from state `closing`
/// and next action `action`, when the channel still holds the chunks
/// `pending` and then closes, and every write succeeds; `fuel` bounds the
/// number of steps.
pub open spec fn sender_run(
    closing: bool,
    action: SenderActionView,
    pending: Seq<Seq<u8>>,
    fuel: nat,
) -> Seq<Seq<u8>>
    decreases fuel,
{
    if fuel == 0 {
        Seq::empty()
    } else {
        match action {
            SenderActionView::Stop => Seq::empty(),
            SenderActionView::Receive => {
                let event = if pending.len() > 0 {
                    SenderEventView::Chunk(pending[0])
                } else {
                    SenderEventView::ChannelClosed
                };
                let rest = if pending.len() > 0 {
                    pending.drop_first()
                } else {
                    pending
                };
                let next = sender_step_spec(closing, event);
                sender_run(next.0, next.1, rest, (fuel - 1) as nat)
            },
            SenderActionView::Send(payload) => {
                let next = sender_step_spec(closing, SenderEventView::Written);
                seq![payload] + sender_run(next.0, next.1, pending, (fuel - 1) as nat)
            },
            SenderActionView::Close(payload) => {
                let next = sender_step_spec(closing, SenderEventView::Written);
                seq![payload] + sender_run(next.0, next.1, pending, (fuel - 1) as nat)
            },
        }
    }
}

/// A whole run of the sender, started as the client starts it (not closing,
/// waiting for a chunk), when the chunks `chunks` are sent, every write
/// succeeds and the channel then closes: exactly those chunks are written,
/// unchanged and in order, then one empty end-of-stream message, and nothing
/// else; the run ends within `2 * chunks.len() + 3` steps.
pub proof fn sender_writes_chunks_then_close(chunks: Seq<Seq<u8>>, fuel: nat)
    requires
        fuel >= 2 * chunks.len() + 3,
    ensures
        sender_run(false, SenderActionView::Receive, chunks, fuel) == chunks + seq![
            Seq::<u8>::empty(),
        ],
    decreases chunks.len(),
{
    if chunks.len() == 0 {
        let f1 = (fuel - 1) as nat;
        let f2 = (fuel - 2) as nat;
        assert(sender_run(false, SenderActionView::Receive, chunks, fuel) == sender_run(
            true,
            SenderActionView::Close(Seq::empty()),
            chunks,
            f1,
        ));
        assert(sender_run(true, SenderActionView::Stop, chunks, f2) == Seq::<Seq<u8>>::empty());
        assert(sender_run(true, SenderActionView::Close(Seq::empty()), chunks, f1) == seq![
            Seq::<u8>::empty(),
        ] + sender_run(true, SenderActionView::Stop, chunks, f2));
        assert(chunks + seq![Seq::<u8>::empty()] =~= seq![Seq::<u8>::empty()]);
        assert(seq![Seq::<u8>::empty()] + Seq::<Seq<u8>>::empty() =~= seq![Seq::<u8>::empty()]);
    } else {
        let rest = chunks.drop_first();
        let f1 = (fuel - 1) as nat;
        let f2 = (fuel - 2) as nat;
        sender_writes_chunks_then_close(rest, f2);
        assert(sender_run(false, SenderActionView::Receive, chunks, fuel) == sender_run(
            false,
            SenderActionView::Send(chunks[0]),
            rest,
            f1,
        ));
        assert(sender_run(false, SenderActionView::Send(chunks[0]), rest, f1) == seq![chunks[0]]
            + sender_run(false, SenderActionView::Receive, rest, f2));
        assert(seq![chunks[0]] + (rest + seq![Seq::<u8>::empty()]) =~= chunks + seq![
            Seq::<u8>::empty(),
        ]);
    }
}

} // verus!
