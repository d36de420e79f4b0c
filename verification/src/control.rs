//! The exchange with a running mount daemon over its control socket: one JSON
//! object per line, one line back. It is used to freeze a volume:
//! `capture-layer` writes the upper into a blob and returns its digest.

use crate::map::ParamMap;
use crate::outside;
use crate::status::{Progress, Steps};
use crate::text;
use vstd::prelude::*;

verus! {

/// An exchange that failed.
#[derive(Debug)]
pub enum ControlError {
    /// The socket and why it could not be connected to.
    Connect(String, String),
    Io(String),
    NoResponse,
    Protocol(String),
    Remote(String),
}

/// What a [`ControlError`] says.
pub enum ControlErrorView {
    Connect(Seq<char>, Seq<char>),
    Io(Seq<char>),
    NoResponse,
    Protocol(Seq<char>),
    Remote(Seq<char>),
}

impl View for ControlError {
    type V = ControlErrorView;

    open spec fn view(&self) -> ControlErrorView {
        match self {
            ControlError::Connect(s, e) => ControlErrorView::Connect(s@, e@),
            ControlError::Io(e) => ControlErrorView::Io(e@),
            ControlError::NoResponse => ControlErrorView::NoResponse,
            ControlError::Protocol(m) => ControlErrorView::Protocol(m@),
            ControlError::Remote(m) => ControlErrorView::Remote(m@),
        }
    }
}

impl ControlErrorView {
    /// The error as it is reported.
    pub open spec fn text(self) -> Seq<char> {
        match self {
            ControlErrorView::Connect(s, e) => "io connecting to control socket "@ + s + ": "@ + e,
            ControlErrorView::Io(e) => "io: "@ + e,
            ControlErrorView::NoResponse => "daemon closed the connection without responding"@,
            ControlErrorView::Protocol(m) => "malformed response: "@ + m,
            ControlErrorView::Remote(m) => "daemon error: "@ + m,
        }
    }
}

impl ControlError {
    /// The error as it is reported.
    pub fn message(&self) -> (r: String)
        ensures
            r@ == self@.text(),
    {
        match self {
            ControlError::Connect(s, e) => "io connecting to control socket ".to_string().concat(
                s.as_str(),
            ).concat(": ").concat(e.as_str()),
            ControlError::Io(e) => "io: ".to_string().concat(e.as_str()),
            ControlError::NoResponse => "daemon closed the connection without responding".to_string(),
            ControlError::Protocol(m) => "malformed response: ".to_string().concat(m.as_str()),
            ControlError::Remote(m) => "daemon error: ".to_string().concat(m.as_str()),
        }
    }
}

/// What a successful `capture-layer` returns.
#[derive(Debug)]
pub struct CaptureData {
    pub out_path: String,
    /// `sha256:…` of the captured blob.
    pub digest: String,
    pub bytes_compressed: u64,
    pub entries: usize,
}

/// What a [`CaptureData`] says.
#[verifier::ext_equal]
pub struct CaptureDataView {
    pub out_path: Seq<char>,
    pub digest: Seq<char>,
    pub bytes_compressed: u64,
    pub entries: usize,
}

impl View for CaptureData {
    type V = CaptureDataView;

    open spec fn view(&self) -> CaptureDataView {
        CaptureDataView {
            out_path: self.out_path@,
            digest: self.digest@,
            bytes_compressed: self.bytes_compressed,
            entries: self.entries,
        }
    }
}

impl Clone for CaptureData {
    fn clone(&self) -> (r: CaptureData)
        ensures
            r@ == self@,
    {
        CaptureData {
            out_path: self.out_path.clone(),
            digest: self.digest.clone(),
            bytes_compressed: self.bytes_compressed,
            entries: self.entries,
        }
    }
}

/// A decoded response: `{ "ok": true, "data": … }` or
/// `{ "ok": false, "error": "…" }`.
pub struct Envelope<T> {
    pub ok: bool,
    pub data: Option<T>,
    pub error: Option<String>,
}

/// What an [`Envelope`] holds: its data, or the error that it stands for.
pub open spec fn opened<T>(env: Envelope<T>) -> Result<T, ControlErrorView> {
    if !env.ok {
        Err(
            ControlErrorView::Remote(
                match env.error {
                    Some(e) => e@,
                    None => "unspecified error"@,
                },
            ),
        )
    } else {
        match env.data {
            Some(d) => Ok(d),
            None => Err(ControlErrorView::Protocol("ok=true but no data"@)),
        }
    }
}

/// `r` with its error replaced by what the error says.
pub open spec fn control_result<T>(r: Result<T, ControlError>) -> Result<T, ControlErrorView> {
    match r {
        Ok(t) => Ok(t),
        Err(e) => Err(e@),
    }
}

impl<T> Envelope<T> {
    /// The data, or the error that the envelope stands for.
    pub fn open(self) -> (r: Result<T, ControlError>)
        ensures
            control_result(r) == opened(self),
    {
        if !self.ok {
            return Err(
                ControlError::Remote(
                    match self.error {
                        Some(e) => e,
                        None => "unspecified error".to_string(),
                    },
                ),
            );
        }
        match self.data {
            Some(d) => Ok(d),
            None => Err(ControlError::Protocol("ok=true but no data".to_string())),
        }
    }
}

/// What an exchange asks for.
pub enum ControlEffect {
    /// Connect to the daemon.
    Connect { socket: String },
    /// Send these bytes, and flush.
    Send { line: Vec<u8> },
    /// Read one line.
    Receive,
    /// Decode a response from its JSON text.
    Decode { body: String },
}

/// What a [`ControlEffect`] says.
pub enum ControlEffectView {
    Connect { socket: Seq<char> },
    Send { line: Seq<u8> },
    Receive,
    Decode { body: Seq<char> },
}

impl View for ControlEffect {
    type V = ControlEffectView;

    open spec fn view(&self) -> ControlEffectView {
        match self {
            ControlEffect::Connect { socket } => ControlEffectView::Connect { socket: socket@ },
            ControlEffect::Send { line } => ControlEffectView::Send { line: line@ },
            ControlEffect::Receive => ControlEffectView::Receive,
            ControlEffect::Decode { body } => ControlEffectView::Decode { body: body@ },
        }
    }
}

/// What came of a [`ControlEffect`]; errors come in words.
pub enum ControlReply<T> {
    Connected(Result<(), String>),
    Sent(Result<(), String>),
    /// The number of bytes read, and the line.
    Received(Result<(usize, String), String>),
    Decoded(Result<Envelope<T>, String>),
}

/// Where an exchange stands: what it waits for.
pub enum ExchangeAt {
    Connect,
    Send,
    Receive,
    /// Waits for this response text to be decoded.
    Decode(String),
}

/// What an [`ExchangeAt`] says.
pub enum ExchangeAtView {
    Connect,
    Send,
    Receive,
    Decode(Seq<char>),
}

/// One request to a daemon and the response to it.
pub struct Exchange {
    pub socket: String,
    pub line: Vec<u8>,
    pub at: ExchangeAt,
}

/// What an [`Exchange`] says.
#[verifier::ext_equal]
pub struct ExchangeView {
    pub socket: Seq<char>,
    pub line: Seq<u8>,
    pub at: ExchangeAtView,
}

impl View for ExchangeAt {
    type V = ExchangeAtView;

    open spec fn view(&self) -> ExchangeAtView {
        match self {
            ExchangeAt::Connect => ExchangeAtView::Connect,
            ExchangeAt::Send => ExchangeAtView::Send,
            ExchangeAt::Receive => ExchangeAtView::Receive,
            ExchangeAt::Decode(s) => ExchangeAtView::Decode(s@),
        }
    }
}

impl View for Exchange {
    type V = ExchangeView;

    open spec fn view(&self) -> ExchangeView {
        ExchangeView { socket: self.socket@, line: self.line@, at: self.at@ }
    }
}

impl ExchangeView {
    /// What the exchange asks for in this state.
    pub open spec fn effect(self) -> ControlEffectView {
        match self.at {
            ExchangeAtView::Connect => ControlEffectView::Connect { socket: self.socket },
            ExchangeAtView::Send => ControlEffectView::Send { line: self.line },
            ExchangeAtView::Receive => ControlEffectView::Receive,
            ExchangeAtView::Decode(body) => ControlEffectView::Decode { body },
        }
    }

    /// The exchange at another point.
    pub open spec fn to(self, at: ExchangeAtView) -> Progress<ExchangeView, Result<
        CaptureDataView,
        ControlErrorView,
    >> {
        Progress::Next(ExchangeView { at, ..self })
    }
}

impl Steps for ExchangeView {
    type Reply = ControlReply<CaptureData>;

    type Out = Result<CaptureDataView, ControlErrorView>;

    /// How the exchange goes on. A reply that the state does not wait for
    /// changes nothing.
    open spec fn resume(self, reply: ControlReply<CaptureData>) -> Progress<
        ExchangeView,
        Result<CaptureDataView, ControlErrorView>,
    > {
        match (self.at, reply) {
            (ExchangeAtView::Connect, ControlReply::Connected(r)) => match r {
                Ok(_) => self.to(ExchangeAtView::Send),
                Err(e) => Progress::Done(Err(ControlErrorView::Connect(self.socket, e@))),
            },
            (ExchangeAtView::Send, ControlReply::Sent(r)) => match r {
                Ok(_) => self.to(ExchangeAtView::Receive),
                Err(e) => Progress::Done(Err(ControlErrorView::Io(e@))),
            },
            (ExchangeAtView::Receive, ControlReply::Received(r)) => match r {
                Ok((n, line)) => if n == 0 {
                    Progress::Done(Err(ControlErrorView::NoResponse))
                } else {
                    self.to(ExchangeAtView::Decode(text::trimmed(line@)))
                },
                Err(e) => Progress::Done(Err(ControlErrorView::Io(e@))),
            },
            (ExchangeAtView::Decode(body), ControlReply::Decoded(r)) => match r {
                Ok(env) => Progress::Done(
                    match opened(env) {
                        Ok(data) => Ok(data@),
                        Err(e) => Err(e),
                    },
                ),
                Err(e) => Progress::Done(
                    Err(ControlErrorView::Protocol(e@ + ": "@ + body)),
                ),
            },
            _ => Progress::Next(self),
        }
    }
}

/// `p` with what it holds replaced by what that says.
pub open spec fn exchange_progress(
    p: Progress<Exchange, Result<CaptureData, ControlError>>,
) -> Progress<ExchangeView, Result<CaptureDataView, ControlErrorView>> {
    match p {
        Progress::Next(m) => Progress::Next(m@),
        Progress::Done(Ok(data)) => Progress::Done(Ok(data@)),
        Progress::Done(Err(e)) => Progress::Done(Err(e@)),
    }
}

impl Exchange {
    /// What the exchange asks for in this state.
    pub fn effect(&self) -> (r: ControlEffect)
        ensures
            r@ == self@.effect(),
    {
        match &self.at {
            ExchangeAt::Connect => ControlEffect::Connect { socket: self.socket.clone() },
            ExchangeAt::Send => ControlEffect::Send { line: self.line.clone() },
            ExchangeAt::Receive => ControlEffect::Receive,
            ExchangeAt::Decode(body) => ControlEffect::Decode { body: body.clone() },
        }
    }

    /// How the exchange goes on. A reply that the state does not wait for
    /// changes nothing.
    pub fn resume(self, reply: ControlReply<CaptureData>) -> (r: Progress<
        Exchange,
        Result<CaptureData, ControlError>,
    >)
        ensures
            exchange_progress(r) == self@.resume(reply),
    {
        let Exchange { socket, line, at } = self;
        match (at, reply) {
            (ExchangeAt::Connect, ControlReply::Connected(r)) => match r {
                Ok(_) => Progress::Next(Exchange { socket, line, at: ExchangeAt::Send }),
                Err(e) => Progress::Done(Err(ControlError::Connect(socket, e))),
            },
            (ExchangeAt::Send, ControlReply::Sent(r)) => match r {
                Ok(_) => Progress::Next(Exchange { socket, line, at: ExchangeAt::Receive }),
                Err(e) => Progress::Done(Err(ControlError::Io(e))),
            },
            (ExchangeAt::Receive, ControlReply::Received(r)) => match r {
                Ok((n, got)) => if n == 0 {
                    Progress::Done(Err(ControlError::NoResponse))
                } else {
                    let body = text::trim(got.as_str()).to_string();
                    Progress::Next(Exchange { socket, line, at: ExchangeAt::Decode(body) })
                },
                Err(e) => Progress::Done(Err(ControlError::Io(e))),
            },
            (ExchangeAt::Decode(body), ControlReply::Decoded(r)) => match r {
                Ok(env) => Progress::Done(env.open()),
                Err(e) => Progress::Done(
                    Err(ControlError::Protocol(e.concat(": ").concat(body.as_str()))),
                ),
            },
            (at, _) => Progress::Next(Exchange { socket, line, at }),
        }
    }
}

/// The request that freezes an upper into `out_path`.
pub open spec fn capture_request(out_path: Seq<char>) -> Map<Seq<char>, Seq<char>> {
    Map::<Seq<char>, Seq<char>>::empty().insert("cmd"@, "capture-layer"@).insert(
        "out_path"@,
        out_path,
    )
}

/// The client of the control socket.
#[derive(Debug, Default)]
pub struct SocketControl;

impl SocketControl {
    /// The line that asks the daemon to freeze the upper into `out_path`: a
    /// JSON object and the line feed that ends it, with no other line feed.
    pub fn capture_line(&self, out_path: &str) -> (r: Vec<u8>)
        ensures
            r@ == outside::json_of(capture_request(out_path@)).push(10u8),
            outside::map_of_json(r@.drop_last()) == Some(capture_request(out_path@)),
            !r@.drop_last().contains(10u8),
    {
        let mut request = ParamMap::new();
        request.insert("cmd".to_string(), "capture-layer".to_string());
        request.insert("out_path".to_string(), out_path.to_string());
        let mut line = request.encode();
        let ghost json = line@;
        line.push(10);
        assert(line@.drop_last() =~= json);
        line
    }

    /// Begins the exchange that freezes the upper behind `socket` into
    /// `out_path`.
    pub fn capture(&self, socket: &str, out_path: &str) -> (r: Exchange)
        ensures
            r@ == (ExchangeView {
                socket: socket@,
                line: outside::json_of(capture_request(out_path@)).push(10u8),
                at: ExchangeAtView::Connect,
            }),
    {
        Exchange {
            socket: socket.to_string(),
            line: self.capture_line(out_path),
            at: ExchangeAt::Connect,
        }
    }
}

/// A capture succeeds only where the daemon says so: the data come out of a
/// decoded response that is marked `ok`.
pub proof fn law_capture_needs_ok(m: ExchangeView, reply: ControlReply<CaptureData>)
    ensures
        m.resume(reply) matches Progress::Done(Ok(data)) ==> {
            &&& reply matches ControlReply::Decoded(Ok(env))
            &&& env.ok
            &&& env.data is Some
            &&& env.data->Some_0@ == data
        },
{
}

/// A capture is asked for with a request of two entries: the command, and the
/// file that the upper is to be frozen into.
pub proof fn law_capture_request(out_path: Seq<char>)
    ensures
        ({
            let q = capture_request(out_path);
            &&& q.contains_key("cmd"@)
            &&& q["cmd"@] == "capture-layer"@
            &&& q.contains_key("out_path"@)
            &&& q["out_path"@] == out_path
            &&& forall|k: Seq<char>| #[trigger]
                q.contains_key(k) ==> k == "cmd"@ || k == "out_path"@
        }),
{
    reveal_strlit("cmd");
    reveal_strlit("out_path");
    assert("cmd"@.len() != "out_path"@.len());
}

/// An exchange connects to its socket, sends its line, reads one line back, and
/// has it decoded without the white space around it. It comes to the data of a
/// response that is marked `ok`, and to an error otherwise: one that tells apart a
/// socket that cannot be connected to, a failed transfer, a daemon that says
/// nothing, a text that cannot be decoded, a response without data, and an error
/// of the daemon, with its words where it gives any.
pub proof fn law_exchange_outcomes(
    m: ExchangeView,
    e: String,
    n: usize,
    line: String,
    env: Envelope<CaptureData>,
)
    requires
        m.at is Connect,
    ensures
        ({
            let io = Progress::<ExchangeView, _>::Done(
                Err::<CaptureDataView, _>(ControlErrorView::Io(e@)),
            );
            let ok = ControlReply::<CaptureData>::Connected(Ok(()));
            &&& m.effect() == (ControlEffectView::Connect { socket: m.socket })
            &&& m.resume(ControlReply::Connected(Err(e))) == Progress::<ExchangeView, _>::Done(
                Err::<CaptureDataView, _>(ControlErrorView::Connect(m.socket, e@)),
            )
            &&& m.resume(ok) matches Progress::Next(s)
            &&& s.effect() == (ControlEffectView::Send { line: m.line })
            &&& s.resume(ControlReply::Sent(Err(e))) == io
            &&& s.resume(ControlReply::Sent(Ok(()))) matches Progress::Next(r)
            &&& r.effect() is Receive
            &&& r.resume(ControlReply::Received(Err(e))) == io
            &&& r.resume(ControlReply::Received(Ok((0usize, line)))) == Progress::<
                ExchangeView,
                _,
            >::Done(Err::<CaptureDataView, _>(ControlErrorView::NoResponse))
            &&& n > 0 ==> {
                &&& r.resume(ControlReply::Received(Ok((n, line)))) matches Progress::Next(d)
                &&& d.effect() == (ControlEffectView::Decode { body: text::trimmed(line@) })
                &&& d.resume(ControlReply::Decoded(Err(e))) == Progress::<ExchangeView, _>::Done(
                    Err::<CaptureDataView, _>(
                        ControlErrorView::Protocol(e@ + ": "@ + text::trimmed(line@)),
                    ),
                )
                &&& env.ok ==> (env.data matches Some(data) ==> d.resume(
                    ControlReply::Decoded(Ok(env)),
                ) == Progress::<ExchangeView, _>::Done(Ok::<_, ControlErrorView>(data@)))
                &&& env.ok && env.data is None ==> d.resume(ControlReply::Decoded(Ok(env)))
                    == Progress::<ExchangeView, _>::Done(
                    Err::<CaptureDataView, _>(ControlErrorView::Protocol("ok=true but no data"@)),
                )
                &&& !env.ok && env.error is None ==> d.resume(ControlReply::Decoded(Ok(env)))
                    == Progress::<ExchangeView, _>::Done(
                    Err::<CaptureDataView, _>(ControlErrorView::Remote("unspecified error"@)),
                )
                &&& !env.ok ==> (env.error matches Some(x) ==> d.resume(
                    ControlReply::Decoded(Ok(env)),
                ) == Progress::<ExchangeView, _>::Done(
                    Err::<CaptureDataView, _>(ControlErrorView::Remote(x@)),
                ))
            }
        }),
{
}

/// What a response of any kind stands for.
pub proof fn law_opened<T>(env: Envelope<T>)
    ensures
        env.ok ==> (env.data matches Some(d) ==> opened(env) == Ok::<_, ControlErrorView>(d)),
        env.ok && env.data is None ==> opened(env) == Err::<T, _>(
            ControlErrorView::Protocol("ok=true but no data"@),
        ),
        !env.ok ==> (env.error matches Some(e) ==> opened(env) == Err::<T, _>(
            ControlErrorView::Remote(e@),
        )),
        !env.ok && env.error is None ==> opened(env) == Err::<T, _>(
            ControlErrorView::Remote("unspecified error"@),
        ),
{
}

/// What a failed exchange is reported as.
pub proof fn law_control_error_texts(a: Seq<char>, b: Seq<char>)
    ensures
        ControlErrorView::Connect(a, b).text() == "io connecting to control socket "@ + a + ": "@
            + b,
        ControlErrorView::Io(a).text() == "io: "@ + a,
        ControlErrorView::NoResponse.text()
            == "daemon closed the connection without responding"@,
        ControlErrorView::Protocol(a).text() == "malformed response: "@ + a,
        ControlErrorView::Remote(a).text() == "daemon error: "@ + a,
{
}

/// A reply that an exchange does not wait for changes nothing.
pub proof fn law_exchange_ignores_strays(m: ExchangeView, reply: ControlReply<CaptureData>)
    requires
        m.effect() is Connect ==> !(reply is Connected),
        m.effect() is Send ==> !(reply is Sent),
        m.effect() is Receive ==> !(reply is Received),
        m.effect() is Decode ==> !(reply is Decoded),
    ensures
        m.resume(reply) == Progress::<_, Result<CaptureDataView, ControlErrorView>>::Next(m),
{
}

/// What the operations of an exchange come to. A capture is asked for behind the
/// socket with one line: the JSON text of the request, and a line feed.
pub proof fn law_exchange_operations(
    c: &SocketControl,
    socket: &str,
    out_path: &str,
    line: Vec<u8>,
    m: Exchange,
    reply: ControlReply<CaptureData>,
    e: ControlEffect,
    p: Progress<Exchange, Result<CaptureData, ControlError>>,
)
    ensures
        call_ensures(SocketControl::capture_line, (c, out_path), line) ==> {
            &&& line@.len() > 0
            &&& line@.last() == 10
            &&& !line@.drop_last().contains(10u8)
            &&& line@.drop_last() == outside::json_of(capture_request(out_path@))
            &&& outside::map_of_json(line@.drop_last()) == Some(capture_request(out_path@))
        },
        call_ensures(SocketControl::capture, (c, socket, out_path), m) ==> {
            &&& m@.effect() == (ControlEffectView::Connect { socket: socket@ })
            &&& m@.at is Connect
            &&& m@.line == outside::json_of(capture_request(out_path@)).push(10u8)
        },
        call_ensures(Exchange::effect, (&m,), e) ==> e@ == m@.effect(),
        call_ensures(Exchange::resume, (m, reply), p) ==> m@.resume(reply) == (match p {
            Progress::Next(n) => Progress::Next(n@),
            Progress::Done(Ok(data)) => Progress::Done(Ok(data@)),
            Progress::Done(Err(x)) => Progress::Done(Err(x@)),
        }),
{
    assert(outside::json_of(capture_request(out_path@)).push(10u8).drop_last()
        =~= outside::json_of(capture_request(out_path@)));
}

/// What a failed exchange is reported as, by its operation.
pub proof fn law_control_error_message(e: &ControlError, s: String)
    requires
        call_ensures(ControlError::message, (e,), s),
    ensures
        s@ == e@.text(),
{
}

/// Opening a response comes to what it stands for.
pub proof fn law_open_operation<T>(env: Envelope<T>, r: Result<T, ControlError>)
    requires
        call_ensures(Envelope::<T>::open, (env,), r),
    ensures
        r matches Ok(d) ==> opened(env) == Ok::<_, ControlErrorView>(d),
        r matches Err(e) ==> opened(env) == Err::<T, _>(e@),
{
}

} // verus!
