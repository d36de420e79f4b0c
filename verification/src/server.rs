//! Serving: the socket is made ready, the services of the role are served on
//! it, and it is removed at the end.

use crate::driver::Role;
use crate::status::{run, Progress, Steps};
use crate::text;
use vstd::prelude::*;

verus! {

/// The path of an endpoint: what comes after `unix://`, or a bare path.
pub open spec fn path_of(endpoint: Seq<char>) -> Seq<char> {
    if "unix://"@.is_prefix_of(endpoint) {
        endpoint.skip("unix://"@.len() as int)
    } else {
        endpoint
    }
}

/// The path of an endpoint: `unix:///csi/csi.sock`, `unix://relative.sock`, or a
/// bare path.
pub fn endpoint_path(endpoint: &str) -> (r: String)
    ensures
        r@ == path_of(endpoint@),
{
    proof {
        reveal_strlit("unix://");
    }
    if text::starts_with(endpoint, "unix://") {
        text::after(endpoint, 7)
    } else {
        endpoint.to_string()
    }
}

/// What a step of serving asks for.
pub enum ServeEffect {
    /// Make the directory that the socket is in and those above it.
    CreateParent { path: String },
    /// Find out what is at the path.
    Inspect { path: String },
    RemoveFile { path: String },
    /// Listen on the path.
    Bind { path: String },
    /// Serve the identity service, and these two where they are wanted, until
    /// the process is told to stop.
    Serve { controller: bool, node: bool },
}

/// What a [`ServeEffect`] says.
pub enum ServeEffectView {
    CreateParent { path: Seq<char> },
    Inspect { path: Seq<char> },
    RemoveFile { path: Seq<char> },
    Bind { path: Seq<char> },
    Serve { controller: bool, node: bool },
}

impl View for ServeEffect {
    type V = ServeEffectView;

    open spec fn view(&self) -> ServeEffectView {
        match self {
            ServeEffect::CreateParent { path } => ServeEffectView::CreateParent { path: path@ },
            ServeEffect::Inspect { path } => ServeEffectView::Inspect { path: path@ },
            ServeEffect::RemoveFile { path } => ServeEffectView::RemoveFile { path: path@ },
            ServeEffect::Bind { path } => ServeEffectView::Bind { path: path@ },
            ServeEffect::Serve { controller, node } => ServeEffectView::Serve {
                controller: *controller,
                node: *node,
            },
        }
    }
}

/// What is at a path.
pub enum Found {
    Something,
    Nothing,
    /// It cannot be told, for this reason.
    Unknown(String),
}

/// What came of a [`ServeEffect`]; errors come in words.
pub enum ServeReply {
    /// Of the steps that only succeed or fail.
    Done(Result<(), String>),
    /// Of [`ServeEffect::Inspect`].
    Found(Found),
}

/// Where a [`Serving`] stands: what it waits for.
#[derive(Debug, Clone, Copy, PartialEq, Eq, Structural)]
pub enum ServingAt {
    MakeDir,
    Inspect,
    /// Waits for a stale socket to be removed, which would be in the way.
    RemoveStale,
    Bind,
    Serve,
    Clean,
}

/// Serves the services of a role on an endpoint.
pub struct Serving {
    pub path: String,
    pub role: Role,
    pub at: ServingAt,
}

/// What a [`Serving`] says.
#[verifier::ext_equal]
pub struct ServingView {
    pub path: Seq<char>,
    pub role: Role,
    pub at: ServingAt,
}

impl View for Serving {
    type V = ServingView;

    open spec fn view(&self) -> ServingView {
        ServingView { path: self.path@, role: self.role, at: self.at }
    }
}

/// `r` with its error replaced by what the error says.
pub open spec fn words_result(r: Result<(), String>) -> Result<(), Seq<char>> {
    match r {
        Ok(_) => Ok(()),
        Err(e) => Err(e@),
    }
}

impl ServingView {
    /// What serving asks for in this state.
    pub open spec fn effect(self) -> ServeEffectView {
        match self.at {
            ServingAt::MakeDir => ServeEffectView::CreateParent { path: self.path },
            ServingAt::Inspect => ServeEffectView::Inspect { path: self.path },
            ServingAt::RemoveStale => ServeEffectView::RemoveFile { path: self.path },
            ServingAt::Bind => ServeEffectView::Bind { path: self.path },
            ServingAt::Serve => ServeEffectView::Serve {
                controller: self.role == Role::Controller || self.role == Role::All,
                node: self.role == Role::Node || self.role == Role::All,
            },
            ServingAt::Clean => ServeEffectView::RemoveFile { path: self.path },
        }
    }

    /// Serving at another point.
    pub open spec fn to(self, at: ServingAt) -> Progress<ServingView, Result<(), Seq<char>>> {
        Progress::Next(ServingView { at, ..self })
    }

    /// Serving at another point if a step went well.
    pub open spec fn after(self, r: Result<(), String>, at: ServingAt) -> Progress<
        ServingView,
        Result<(), Seq<char>>,
    > {
        match r {
            Ok(_) => self.to(at),
            Err(e) => Progress::Done(Err(e@)),
        }
    }
}

impl Steps for ServingView {
    type Reply = ServeReply;

    type Out = Result<(), Seq<char>>;

    /// How serving goes on. A reply that the state does not wait for changes
    /// nothing. Removing the socket at the end does not have to succeed.
    open spec fn resume(self, reply: ServeReply) -> Progress<ServingView, Result<(), Seq<char>>> {
        match (self.at, reply) {
            (ServingAt::MakeDir, ServeReply::Done(r)) => self.after(r, ServingAt::Inspect),
            (ServingAt::Inspect, ServeReply::Found(f)) => match f {
                Found::Something => self.to(ServingAt::RemoveStale),
                Found::Nothing => self.to(ServingAt::Bind),
                Found::Unknown(e) => Progress::Done(Err(e@)),
            },
            (ServingAt::RemoveStale, ServeReply::Done(r)) => self.after(r, ServingAt::Bind),
            (ServingAt::Bind, ServeReply::Done(r)) => self.after(r, ServingAt::Serve),
            (ServingAt::Serve, ServeReply::Done(r)) => self.after(r, ServingAt::Clean),
            (ServingAt::Clean, ServeReply::Done(_)) => Progress::Done(Ok(())),
            _ => Progress::Next(self),
        }
    }
}

/// `p` with what it holds replaced by what that says.
pub open spec fn serving_progress(p: Progress<Serving, Result<(), String>>) -> Progress<
    ServingView,
    Result<(), Seq<char>>,
> {
    match p {
        Progress::Next(m) => Progress::Next(m@),
        Progress::Done(r) => Progress::Done(words_result(r)),
    }
}

/// Begins to serve the services of a role on an endpoint.
pub fn serve(endpoint: &str, role: Role) -> (r: Serving)
    ensures
        r@ == (ServingView { path: path_of(endpoint@), role, at: ServingAt::MakeDir }),
{
    Serving { path: endpoint_path(endpoint), role, at: ServingAt::MakeDir }
}

impl Serving {
    /// What serving asks for in this state.
    pub fn effect(&self) -> (r: ServeEffect)
        ensures
            r@ == self@.effect(),
    {
        match self.at {
            ServingAt::MakeDir => ServeEffect::CreateParent { path: self.path.clone() },
            ServingAt::Inspect => ServeEffect::Inspect { path: self.path.clone() },
            ServingAt::RemoveStale => ServeEffect::RemoveFile { path: self.path.clone() },
            ServingAt::Bind => ServeEffect::Bind { path: self.path.clone() },
            ServingAt::Serve => ServeEffect::Serve {
                controller: self.role.serves_controller(),
                node: self.role.serves_node(),
            },
            ServingAt::Clean => ServeEffect::RemoveFile { path: self.path.clone() },
        }
    }

    /// Serving at another point if a step went well.
    fn after(self, r: Result<(), String>, at: ServingAt) -> (p: Progress<
        Serving,
        Result<(), String>,
    >)
        ensures
            serving_progress(p) == self@.after(r, at),
    {
        match r {
            Ok(_) => Progress::Next(Serving { path: self.path, role: self.role, at }),
            Err(e) => Progress::Done(Err(e)),
        }
    }

    /// How serving goes on. A reply that the state does not wait for changes
    /// nothing.
    pub fn resume(self, reply: ServeReply) -> (r: Progress<Serving, Result<(), String>>)
        ensures
            serving_progress(r) == self@.resume(reply),
    {
        match (self.at, reply) {
            (ServingAt::MakeDir, ServeReply::Done(r)) => self.after(r, ServingAt::Inspect),
            (ServingAt::Inspect, ServeReply::Found(f)) => match f {
                Found::Something => self.after(Ok(()), ServingAt::RemoveStale),
                Found::Nothing => self.after(Ok(()), ServingAt::Bind),
                Found::Unknown(e) => Progress::Done(Err(e)),
            },
            (ServingAt::RemoveStale, ServeReply::Done(r)) => self.after(r, ServingAt::Bind),
            (ServingAt::Bind, ServeReply::Done(r)) => self.after(r, ServingAt::Serve),
            (ServingAt::Serve, ServeReply::Done(r)) => self.after(r, ServingAt::Clean),
            (ServingAt::Clean, ServeReply::Done(_)) => Progress::Done(Ok(())),
            _ => Progress::Next(self),
        }
    }
}

/// Whether the replies show that nothing is left at the path: nothing was
/// there, or it was removed.
pub open spec fn cleared(m: ServingView, replies: Seq<ServeReply>) -> bool {
    exists|i: int|
        0 <= i < replies.len() && clears(run(m, #[trigger] replies.take(i)), replies[i])
}

/// Whether a reply shows that nothing is left at the path.
pub open spec fn clears(
    p: Progress<ServingView, Result<(), Seq<char>>>,
    reply: ServeReply,
) -> bool {
    match p {
        Progress::Next(k) => match (k.at, reply) {
            (ServingAt::Inspect, ServeReply::Found(Found::Nothing)) => true,
            (ServingAt::RemoveStale, ServeReply::Done(Ok(_))) => true,
            _ => false,
        },
        Progress::Done(_) => false,
    }
}

proof fn lemma_serving_reached(m: ServingView, replies: Seq<ServeReply>)
    requires
        m.at == ServingAt::MakeDir,
    ensures
        run(m, replies) matches Progress::Next(k) ==> {
            &&& k == ServingView { at: k.at, ..m }
            &&& k.at == ServingAt::Bind || k.at == ServingAt::Serve || k.at == ServingAt::Clean
                ==> cleared(m, replies)
        },
    decreases replies.len(),
{
    if replies.len() > 0 {
        let d = replies.drop_last();
        lemma_serving_reached(m, d);
        if cleared(m, d) {
            let i = choose|i: int| 0 <= i < d.len() && clears(run(m, #[trigger] d.take(i)), d[i]);
            assert(replies.take(i) =~= d.take(i));
        }
        if clears(run(m, d), replies.last()) {
            assert(replies.take(replies.len() - 1) =~= d);
        }
    }
}

/// A socket left over from an earlier run is never in the way: the path is
/// bound only when nothing is left at it.
pub proof fn law_binds_a_free_path(endpoint: Seq<char>, role: Role, replies: Seq<ServeReply>)
    ensures
        ({
            let m = ServingView { path: path_of(endpoint), role, at: ServingAt::MakeDir };
            run(m, replies) matches Progress::Next(k) ==> (k.effect() is Bind ==> cleared(
                m,
                replies,
            ))
        }),
{
    lemma_serving_reached(
        ServingView { path: path_of(endpoint), role, at: ServingAt::MakeDir },
        replies,
    );
}

/// An endpoint may be written with or without `unix://`, unless the path itself
/// begins so.
pub proof fn law_scheme_is_optional(path: Seq<char>)
    requires
        !"unix://"@.is_prefix_of(path),
    ensures
        path_of("unix://"@ + path) == path,
        path_of(path) == path,
{
    let full = "unix://"@ + path;
    assert(full.subrange(0, "unix://"@.len() as int) =~= "unix://"@);
    assert(full.skip("unix://"@.len() as int) =~= path);
}

/// How serving goes. The directory of the endpoint's socket is made, what is left
/// at the path is looked for and removed, the path is bound, the services of the
/// role are served, and the socket is removed. Any step that fails ends serving
/// with its error, but for the last.
pub proof fn law_serving_outcomes(
    endpoint: Seq<char>,
    role: Role,
    e: String,
    removed: Result<(), String>,
)
    ensures
        ({
            let path = path_of(endpoint);
            let m = ServingView { path, role, at: ServingAt::MakeDir };
            let ok = ServeReply::Done(Ok(()));
            let fault = ServeReply::Done(Err(e));
            let failed = Progress::<ServingView, _>::Done(Err::<(), _>(e@));
            &&& m.effect() == (ServeEffectView::CreateParent { path })
            &&& m.resume(fault) == failed
            &&& m.resume(ok) matches Progress::Next(i)
            &&& i.effect() == (ServeEffectView::Inspect { path })
            &&& i.resume(ServeReply::Found(Found::Unknown(e))) == failed
            &&& i.resume(ServeReply::Found(Found::Something)) matches Progress::Next(s)
            &&& s.effect() == (ServeEffectView::RemoveFile { path })
            &&& s.resume(fault) == failed
            &&& i.resume(ServeReply::Found(Found::Nothing)) matches Progress::Next(b)
            &&& s.resume(ok) == i.resume(ServeReply::Found(Found::Nothing))
            &&& b.effect() == (ServeEffectView::Bind { path })
            &&& b.resume(fault) == failed
            &&& b.resume(ok) matches Progress::Next(v)
            &&& v.effect() == (ServeEffectView::Serve {
                controller: role != Role::Node,
                node: role != Role::Controller,
            })
            &&& v.resume(fault) == failed
            &&& v.resume(ok) matches Progress::Next(c)
            &&& c.effect() == (ServeEffectView::RemoveFile { path })
            &&& c.resume(ServeReply::Done(removed)) == Progress::<ServingView, _>::Done(
                Ok::<(), Seq<char>>(()),
            )
        }),
{
}

/// A reply that serving does not wait for changes nothing.
pub proof fn law_serving_ignores_strays(m: ServingView, reply: ServeReply)
    requires
        m.effect() is Inspect <==> !(reply is Found),
    ensures
        m.resume(reply) == Progress::<_, Result<(), Seq<char>>>::Next(m),
{
}

/// What the operations of serving come to.
pub proof fn law_serving_operations(
    endpoint: &str,
    role: Role,
    path: String,
    m: Serving,
    reply: ServeReply,
    e: ServeEffect,
    p: Progress<Serving, Result<(), String>>,
)
    ensures
        call_ensures(endpoint_path, (endpoint,), path) ==> path@ == path_of(endpoint@),
        call_ensures(serve, (endpoint, role), m) ==> {
            &&& m@.path == path_of(endpoint@)
            &&& m@.role == role
            &&& m@.at == ServingAt::MakeDir
        },
        call_ensures(Serving::effect, (&m,), e) ==> e@ == m@.effect(),
        call_ensures(Serving::resume, (m, reply), p) ==> m@.resume(reply) == (match p {
            Progress::Next(n) => Progress::Next(n@),
            Progress::Done(Ok(_)) => Progress::Done(Ok(())),
            Progress::Done(Err(x)) => Progress::Done(Err(x@)),
        }),
{
}

/// `unix://` is taken off the front of an endpoint once, whatever follows it.
pub proof fn law_scheme_is_taken_off_once(path: Seq<char>)
    ensures
        path_of("unix://"@ + path) == path,
{
    let full = "unix://"@ + path;
    assert(full.subrange(0, "unix://"@.len() as int) =~= "unix://"@);
    assert(full.skip("unix://"@.len() as int) =~= path);
}

} // verus!
