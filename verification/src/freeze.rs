//! Freezing a volume: its upper is captured, and pushed as a new revision. The
//! node does so at unpublish, the controller for a snapshot.

use crate::control::{CaptureData, ControlError, ControlErrorView};
use crate::effect::{Effect, EffectView, Reply};
use crate::registry::{RegistryError, RegistryErrorView};
use crate::status::{run, Progress, Steps};
use vstd::prelude::*;

verus! {

/// A freeze that failed.
#[derive(Debug)]
pub enum FreezeError {
    Capture(ControlError),
    Push(RegistryError),
}

/// What a [`FreezeError`] says.
pub enum FreezeErrorView {
    Capture(ControlErrorView),
    Push(RegistryErrorView),
}

impl View for FreezeError {
    type V = FreezeErrorView;

    open spec fn view(&self) -> FreezeErrorView {
        match self {
            FreezeError::Capture(e) => FreezeErrorView::Capture(e@),
            FreezeError::Push(e) => FreezeErrorView::Push(e@),
        }
    }
}

impl FreezeErrorView {
    /// The error as it is reported.
    pub open spec fn text(self) -> Seq<char> {
        match self {
            FreezeErrorView::Capture(e) => "capture: "@ + e.text(),
            FreezeErrorView::Push(e) => "push: "@ + e.text(),
        }
    }
}

impl FreezeError {
    /// The error as it is reported.
    pub fn message(&self) -> (r: String)
        ensures
            r@ == self@.text(),
    {
        match self {
            FreezeError::Capture(e) => "capture: ".to_string().concat(e.message().as_str()),
            FreezeError::Push(e) => "push: ".to_string().concat(e.message().as_str()),
        }
    }
}

/// Where a [`Freeze`] stands: what it waits for.
pub enum FreezeAt {
    MakeDir,
    Capture,
    /// Waits for what was captured to be pushed: its digest and size.
    Push(String, u64),
    /// Waits for the staged file to be removed, once this was pushed.
    Clean(String),
}

/// What a [`FreezeAt`] says.
pub enum FreezeAtView {
    MakeDir,
    Capture,
    Push(Seq<char>, u64),
    Clean(Seq<char>),
}

impl View for FreezeAt {
    type V = FreezeAtView;

    open spec fn view(&self) -> FreezeAtView {
        match self {
            FreezeAt::MakeDir => FreezeAtView::MakeDir,
            FreezeAt::Capture => FreezeAtView::Capture,
            FreezeAt::Push(digest, size) => FreezeAtView::Push(digest@, *size),
            FreezeAt::Clean(pushed) => FreezeAtView::Clean(pushed@),
        }
    }
}

/// Captures an upper and pushes it as a new revision.
pub struct Freeze {
    pub socket: String,
    pub staging: String,
    pub target_ref: String,
    pub at: FreezeAt,
}

/// What a [`Freeze`] says.
#[verifier::ext_equal]
pub struct FreezeView {
    pub socket: Seq<char>,
    pub staging: Seq<char>,
    pub target_ref: Seq<char>,
    pub at: FreezeAtView,
}

impl View for Freeze {
    type V = FreezeView;

    open spec fn view(&self) -> FreezeView {
        FreezeView {
            socket: self.socket@,
            staging: self.staging@,
            target_ref: self.target_ref@,
            at: self.at@,
        }
    }
}

/// `r` with what it holds replaced by what that says.
pub open spec fn freeze_result(r: Result<String, FreezeError>) -> Result<
    Seq<char>,
    FreezeErrorView,
> {
    match r {
        Ok(s) => Ok(s@),
        Err(e) => Err(e@),
    }
}

impl FreezeView {
    /// What the freeze asks for in this state.
    pub open spec fn effect(self) -> EffectView {
        match self.at {
            FreezeAtView::MakeDir => EffectView::CreateParent { path: self.staging },
            FreezeAtView::Capture => EffectView::Capture {
                socket: self.socket,
                out_path: self.staging,
            },
            FreezeAtView::Push(layer_digest, layer_size) => EffectView::Push {
                target_ref: self.target_ref,
                blob_path: self.staging,
                layer_digest,
                layer_size,
            },
            FreezeAtView::Clean(_) => EffectView::RemoveFile { path: self.staging },
        }
    }

    /// The freeze at another point.
    pub open spec fn to(self, at: FreezeAtView) -> Progress<
        FreezeView,
        Result<Seq<char>, FreezeErrorView>,
    > {
        Progress::Next(FreezeView { at, ..self })
    }
}

impl Steps for FreezeView {
    type Reply = Reply;

    type Out = Result<Seq<char>, FreezeErrorView>;

    /// How the freeze goes on. A reply that the state does not wait for changes
    /// nothing. Neither making the directory nor removing the staged file has
    /// to succeed.
    open spec fn resume(self, reply: Reply) -> Progress<
        FreezeView,
        Result<Seq<char>, FreezeErrorView>,
    > {
        match (self.at, reply) {
            (FreezeAtView::MakeDir, Reply::Done(_)) => self.to(FreezeAtView::Capture),
            (FreezeAtView::Capture, Reply::Captured(r)) => match r {
                Ok(data) => self.to(FreezeAtView::Push(data.digest@, data.bytes_compressed)),
                Err(e) => Progress::Done(Err(FreezeErrorView::Capture(e@))),
            },
            (FreezeAtView::Push(_, _), Reply::Pushed(r)) => match r {
                Ok(pushed) => self.to(FreezeAtView::Clean(pushed@)),
                Err(e) => Progress::Done(Err(FreezeErrorView::Push(e@))),
            },
            (FreezeAtView::Clean(pushed), Reply::Done(_)) => Progress::Done(Ok(pushed)),
            _ => Progress::Next(self),
        }
    }
}

/// `p` with what it holds replaced by what that says.
pub open spec fn freeze_progress(p: Progress<Freeze, Result<String, FreezeError>>) -> Progress<
    FreezeView,
    Result<Seq<char>, FreezeErrorView>,
> {
    match p {
        Progress::Next(m) => Progress::Next(m@),
        Progress::Done(r) => Progress::Done(freeze_result(r)),
    }
}

/// How freezing begins.
pub open spec fn freeze_start(
    socket: Seq<char>,
    staging: Seq<char>,
    target_ref: Seq<char>,
) -> FreezeView {
    FreezeView { socket, staging, target_ref, at: FreezeAtView::MakeDir }
}

/// Begins to capture the upper behind `socket` into `staging` and to push it to
/// `target_ref`. In the end there is the reference of the revision, which can
/// be used as a seed.
pub fn freeze_and_push(socket: &str, staging: &str, target_ref: &str) -> (r: Freeze)
    ensures
        r@ == freeze_start(socket@, staging@, target_ref@),
{
    Freeze {
        socket: socket.to_string(),
        staging: staging.to_string(),
        target_ref: target_ref.to_string(),
        at: FreezeAt::MakeDir,
    }
}

impl Freeze {
    /// What the freeze asks for in this state.
    pub fn effect(&self) -> (r: Effect)
        ensures
            r@ == self@.effect(),
    {
        match &self.at {
            FreezeAt::MakeDir => Effect::CreateParent { path: self.staging.clone() },
            FreezeAt::Capture => Effect::Capture {
                socket: self.socket.clone(),
                out_path: self.staging.clone(),
            },
            FreezeAt::Push(layer_digest, layer_size) => Effect::Push {
                target_ref: self.target_ref.clone(),
                blob_path: self.staging.clone(),
                layer_digest: layer_digest.clone(),
                layer_size: *layer_size,
            },
            FreezeAt::Clean(_) => Effect::RemoveFile { path: self.staging.clone() },
        }
    }

    /// How the freeze goes on. A reply that the state does not wait for changes
    /// nothing.
    pub fn resume(self, reply: Reply) -> (r: Progress<Freeze, Result<String, FreezeError>>)
        ensures
            freeze_progress(r) == self@.resume(reply),
    {
        let Freeze { socket, staging, target_ref, at } = self;
        let at = match (at, reply) {
            (FreezeAt::MakeDir, Reply::Done(_)) => FreezeAt::Capture,
            (FreezeAt::Capture, Reply::Captured(r)) => match r {
                Ok(data) => FreezeAt::Push(data.digest, data.bytes_compressed),
                Err(e) => {
                    return Progress::Done(Err(FreezeError::Capture(e)));
                },
            },
            (FreezeAt::Push(_, _), Reply::Pushed(r)) => match r {
                Ok(pushed) => FreezeAt::Clean(pushed),
                Err(e) => {
                    return Progress::Done(Err(FreezeError::Push(e)));
                },
            },
            (FreezeAt::Clean(pushed), Reply::Done(_)) => {
                return Progress::Done(Ok(pushed));
            },
            (at, _) => at,
        };
        Progress::Next(Freeze { socket, staging, target_ref, at })
    }
}

// ---- laws ----------------------------------------------------------------

/// Whether one of the replies is a capture with this digest and size.
pub open spec fn captured(replies: Seq<Reply>, digest: Seq<char>, size: u64) -> bool {
    exists|i: int|
        0 <= i < replies.len() && (#[trigger] replies[i] matches Reply::Captured(Ok(data))
            && data.digest@ == digest && data.bytes_compressed == size)
}

/// Whether one of the replies is a push that came to this reference.
pub open spec fn pushed(replies: Seq<Reply>, reference: Seq<char>) -> bool {
    exists|i: int|
        0 <= i < replies.len() && (#[trigger] replies[i] matches Reply::Pushed(Ok(s)) && s@
            == reference)
}

proof fn lemma_freeze_reached(m: FreezeView, replies: Seq<Reply>)
    requires
        m.at is MakeDir,
    ensures
        run(m, replies) matches Progress::Next(k) ==> {
            &&& k == FreezeView { at: k.at, ..m }
            &&& k.at matches FreezeAtView::Push(digest, size) ==> captured(replies, digest, size)
            &&& k.at matches FreezeAtView::Clean(reference) ==> pushed(replies, reference)
        },
        run(m, replies) matches Progress::Done(Ok(reference)) ==> pushed(replies, reference),
    decreases replies.len(),
{
    if replies.len() > 0 {
        let d = replies.drop_last();
        lemma_freeze_reached(m, d);
        assert(replies[replies.len() - 1] == replies.last());
        assert forall|digest: Seq<char>, size: u64| captured(d, digest, size) implies captured(
            replies,
            digest,
            size,
        ) by {
            let i = choose|i: int|
                0 <= i < d.len() && (#[trigger] d[i] matches Reply::Captured(Ok(data))
                    && data.digest@ == digest && data.bytes_compressed == size);
            assert(replies[i] == d[i]);
        }
        assert forall|reference: Seq<char>| pushed(d, reference) implies pushed(
            replies,
            reference,
        ) by {
            let i = choose|i: int|
                0 <= i < d.len() && (#[trigger] d[i] matches Reply::Pushed(Ok(s)) && s@
                    == reference);
            assert(replies[i] == d[i]);
        }
    }
}

/// What a freeze pushes is the staged file, under the digest and size that the
/// capture reported, to the target.
pub proof fn law_pushes_what_was_captured(
    socket: Seq<char>,
    staging: Seq<char>,
    target_ref: Seq<char>,
    replies: Seq<Reply>,
)
    ensures
        run(freeze_start(socket, staging, target_ref), replies) matches Progress::Next(k) ==> (
        k.effect() matches EffectView::Push {
            target_ref: to,
            blob_path,
            layer_digest,
            layer_size,
        } ==> {
            &&& to == target_ref
            &&& blob_path == staging
            &&& captured(replies, layer_digest, layer_size)
        }),
{
    lemma_freeze_reached(freeze_start(socket, staging, target_ref), replies);
}

/// A freeze succeeds only with a reference that a push came to.
pub proof fn law_frozen_was_pushed(
    socket: Seq<char>,
    staging: Seq<char>,
    target_ref: Seq<char>,
    replies: Seq<Reply>,
)
    ensures
        run(freeze_start(socket, staging, target_ref), replies) matches Progress::Done(
            Ok(reference),
        ) ==> pushed(replies, reference),
{
    lemma_freeze_reached(freeze_start(socket, staging, target_ref), replies);
}

/// How a freeze goes: the directory of the staged file is made, the upper behind
/// the socket is captured into the file, the file is pushed to the target under
/// the digest and size of the capture, and removed. It comes to the reference of
/// the push. The directory and the removal may fail; a failed capture or push ends
/// the freeze with its error.
pub proof fn law_freeze_outcomes(
    socket: Seq<char>,
    staging: Seq<char>,
    target_ref: Seq<char>,
    made: Result<(), String>,
    data: CaptureData,
    pushed: String,
    removed: Result<(), String>,
    c: ControlError,
    p: RegistryError,
)
    ensures
        ({
            let m = freeze_start(socket, staging, target_ref);
            &&& m.effect() == (EffectView::CreateParent { path: staging })
            &&& m.resume(Reply::Done(made)) matches Progress::Next(a)
            &&& a.effect() == (EffectView::Capture { socket, out_path: staging })
            &&& a.resume(Reply::Captured(Err(c))) == Progress::<FreezeView, _>::Done(
                Err::<Seq<char>, _>(FreezeErrorView::Capture(c@)),
            )
            &&& a.resume(Reply::Captured(Ok(data))) matches Progress::Next(b)
            &&& b.effect() == (EffectView::Push {
                target_ref,
                blob_path: staging,
                layer_digest: data.digest@,
                layer_size: data.bytes_compressed,
            })
            &&& b.resume(Reply::Pushed(Err(p))) == Progress::<FreezeView, _>::Done(
                Err::<Seq<char>, _>(FreezeErrorView::Push(p@)),
            )
            &&& b.resume(Reply::Pushed(Ok(pushed))) matches Progress::Next(d)
            &&& d.effect() == (EffectView::RemoveFile { path: staging })
            &&& d.resume(Reply::Done(removed)) == Progress::<FreezeView, _>::Done(
                Ok::<_, FreezeErrorView>(pushed@),
            )
        }),
{
}

/// What a failed freeze is reported as.
pub proof fn law_freeze_error_texts(c: ControlErrorView, p: RegistryErrorView)
    ensures
        FreezeErrorView::Capture(c).text() == "capture: "@ + c.text(),
        FreezeErrorView::Push(p).text() == "push: "@ + p.text(),
{
}

/// A reply that a freeze does not wait for changes nothing.
pub proof fn law_freeze_ignores_strays(m: FreezeView, reply: Reply)
    requires
        m.effect() is CreateParent || m.effect() is RemoveFile ==> !(reply is Done),
        m.effect() is Capture ==> !(reply is Captured),
        m.effect() is Push ==> !(reply is Pushed),
    ensures
        m.resume(reply) == Progress::<_, Result<Seq<char>, FreezeErrorView>>::Next(m),
{
}

/// What the operations of a freeze come to.
pub proof fn law_freeze_operations(
    socket: &str,
    staging: &str,
    target_ref: &str,
    m: Freeze,
    reply: Reply,
    e: Effect,
    p: Progress<Freeze, Result<String, FreezeError>>,
    x: &FreezeError,
    s: String,
)
    ensures
        call_ensures(freeze_and_push, (socket, staging, target_ref), m) ==> m@ == freeze_start(
            socket@,
            staging@,
            target_ref@,
        ),
        call_ensures(Freeze::effect, (&m,), e) ==> e@ == m@.effect(),
        call_ensures(Freeze::resume, (m, reply), p) ==> m@.resume(reply) == (match p {
            Progress::Next(n) => Progress::Next(n@),
            Progress::Done(Ok(r)) => Progress::Done(Ok(r@)),
            Progress::Done(Err(r)) => Progress::Done(Err(r@)),
        }),
        call_ensures(FreezeError::message, (x,), s) ==> s@ == x@.text(),
{
}

} // verus!
