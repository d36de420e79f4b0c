//! The node service: the mount side of the driver. Staging does nothing;
//! publishing pulls the seeds and mounts, unpublishing freezes the volume where
//! that is asked for, then unmounts.

use crate::control::{CaptureData, ControlError};
use crate::driver::{Config, ConfigView};
use crate::effect::{Effect, EffectView, Reply};
use crate::freeze::{freeze_and_push, freeze_start, Freeze, FreezeView};
use crate::map::ParamMap;
use crate::mount::{MountError, MountSpec, MountSpecView};
use crate::outside;
use crate::params::{
    lookup, params_of, AccessMode, Lifecycle, PvcParams, PvcParamsView, VOLUME_NAME,
};
use crate::registry::{
    has_tag_and_digest, law_capture_repo_is_the_seeds, law_tagged_repo_is_a_reference, lemma_name,
    reference_of, ReferenceView, RegistryError, RegistryErrorView,
};
use crate::status::{lemma_run_push, run, Code, Progress, Status, StatusView, Steps};
use crate::text;
use vstd::prelude::*;

verus! {

// ---- tags ----------------------------------------------------------------

/// Whether a character may stand in a tag.
pub open spec fn is_tag_char(c: char) -> bool {
    'a' <= c <= 'z' || 'A' <= c <= 'Z' || '0' <= c <= '9' || c == '_' || c == '.' || c == '-'
}

/// The character that stands for `c` in a tag.
pub open spec fn tag_char(c: char) -> char {
    if is_tag_char(c) {
        c
    } else {
        '-'
    }
}

/// The first `n` characters, or all of a shorter text.
pub open spec fn cut(s: Seq<char>, n: int) -> Seq<char> {
    if s.len() <= n {
        s
    } else {
        s.take(n)
    }
}

/// The tag that stands for a name: other characters become `-`, no more than
/// 128 are kept, and the empty name becomes `rev`.
pub open spec fn sanitized(s: Seq<char>) -> Seq<char> {
    if s.len() == 0 {
        "rev"@
    } else {
        cut(s, 128).map_values(|c: char| tag_char(c))
    }
}

fn to_tag_char(c: char) -> (r: char)
    ensures
        r == tag_char(c),
{
    if ('a' <= c && c <= 'z') || ('A' <= c && c <= 'Z') || ('0' <= c && c <= '9') || c == '_' || c
        == '.' || c == '-' {
        c
    } else {
        '-'
    }
}

/// Reduces a name to a tag.
pub fn sanitize_tag(s: &str) -> (r: String)
    ensures
        r@ == sanitized(s@),
{
    let mut out = String::new();
    let mut kept: usize = 0;
    for c in it: s.chars()
        invariant
            it.seq() == s@,
            kept <= 128,
            kept == cut(s@.take(it.index()), 128).len(),
            out@ == cut(s@.take(it.index()), 128).map_values(|c: char| tag_char(c)),
    {
        let ghost was = s@.take(it.index());
        assert(s@.take(it.index() + 1) =~= was.push(c));
        if kept < 128 {
            out.push(to_tag_char(c));
            kept = kept + 1;
        }
        assert(out@ =~= cut(was.push(c), 128).map_values(|c: char| tag_char(c)));
    }
    assert(s@.take(s@.len() as int) =~= s@);
    if out.as_str().is_empty() {
        return "rev".to_string();
    }
    out
}

// ---- requests ------------------------------------------------------------

/// What `NodePublishVolume` is asked.
pub struct NodePublishVolumeRequest {
    pub volume_id: String,
    pub target_path: String,
    pub volume_context: ParamMap,
    pub readonly: bool,
}

/// What a [`NodePublishVolumeRequest`] says.
#[verifier::ext_equal]
pub struct NodePublishVolumeRequestView {
    pub volume_id: Seq<char>,
    pub target_path: Seq<char>,
    pub volume_context: Map<Seq<char>, Seq<char>>,
    pub readonly: bool,
}

impl View for NodePublishVolumeRequest {
    type V = NodePublishVolumeRequestView;

    open spec fn view(&self) -> NodePublishVolumeRequestView {
        NodePublishVolumeRequestView {
            volume_id: self.volume_id@,
            target_path: self.target_path@,
            volume_context: self.volume_context@,
            readonly: self.readonly,
        }
    }
}

/// What `NodeUnpublishVolume` is asked.
pub struct NodeUnpublishVolumeRequest {
    pub volume_id: String,
    pub target_path: String,
}

/// What a [`NodeUnpublishVolumeRequest`] says.
#[verifier::ext_equal]
pub struct NodeUnpublishVolumeRequestView {
    pub volume_id: Seq<char>,
    pub target_path: Seq<char>,
}

impl View for NodeUnpublishVolumeRequest {
    type V = NodeUnpublishVolumeRequestView;

    open spec fn view(&self) -> NodeUnpublishVolumeRequestView {
        NodeUnpublishVolumeRequestView { volume_id: self.volume_id@, target_path: self.target_path@ }
    }
}

/// What `NodeGetInfo` answers.
pub struct NodeGetInfoResponse {
    pub node_id: String,
    /// 0 sets no limit.
    pub max_volumes_per_node: i64,
}

/// An RPC of the node service that it may advertise.
#[derive(Debug, Clone, Copy, PartialEq, Eq, Structural)]
pub enum NodeRpc {
    StageUnstageVolume,
}

/// The mode that a volume is mounted in: `ro` where the publish is read-only,
/// else the parameter, else `empty` without seeds and `rwo` with.
pub open spec fn effective_mode(params: PvcParamsView, readonly: bool) -> AccessMode {
    if readonly {
        AccessMode::Ro
    } else {
        match params.access_mode {
            Some(mode) => mode,
            None => if params.seeds.len() == 0 {
                AccessMode::Empty
            } else {
                AccessMode::Rwo
            },
        }
    }
}

/// The mode that a volume is mounted in.
pub fn effective_access_mode(params: &PvcParams, readonly: bool) -> (r: AccessMode)
    ensures
        r == effective_mode(params@, readonly),
{
    if readonly {
        return AccessMode::Ro;
    }
    match params.access_mode {
        Some(mode) => mode,
        None => if params.seeds.len() == 0 {
            AccessMode::Empty
        } else {
            AccessMode::Rwo
        },
    }
}

/// The logical name of a volume: the one in its context, else its id.
pub open spec fn volume_name(ctx: Map<Seq<char>, Seq<char>>, volume_id: Seq<char>) -> Seq<char> {
    match lookup(ctx, VOLUME_NAME@) {
        Some(name) => name,
        None => volume_id,
    }
}

fn name_of(ctx: &ParamMap, volume_id: &str) -> (r: String)
    ensures
        r@ == volume_name(ctx@, volume_id@),
{
    match ctx.get(VOLUME_NAME) {
        Some(name) => name.clone(),
        None => volume_id.to_string(),
    }
}

/// `r` with its error replaced by what the error says.
pub open spec fn status_result(r: Result<(), Status>) -> Result<(), StatusView> {
    match r {
        Ok(_) => Ok(()),
        Err(e) => Err(e@),
    }
}

// ---- publishing ----------------------------------------------------------

/// Where a [`Publish`] stands: what it waits for.
#[derive(Debug, Clone, Copy, PartialEq, Eq, Structural)]
pub enum PublishAt {
    /// Waits for the next seed to be pulled.
    Pull,
    MakeUpper,
    MakeTarget,
    Mount,
    MakeStateDir,
    WriteState,
}

/// Publishes a volume: pulls its seeds, mounts it, and records the context for
/// the time when it is unpublished.
pub struct Publish {
    cfg: Config,
    req: NodePublishVolumeRequest,
    params: PvcParams,
    /// How many seeds are pulled.
    pulled: usize,
    /// The files of their layers.
    blobs: Vec<String>,
    at: PublishAt,
}

/// What a [`Publish`] says.
#[verifier::ext_equal]
pub struct PublishView {
    pub cfg: ConfigView,
    pub req: NodePublishVolumeRequestView,
    pub params: PvcParamsView,
    pub pulled: nat,
    pub blobs: Seq<Seq<char>>,
    pub at: PublishAt,
}

impl View for Publish {
    type V = PublishView;

    closed spec fn view(&self) -> PublishView {
        PublishView {
            cfg: self.cfg@,
            req: self.req@,
            params: self.params@,
            pulled: self.pulled as nat,
            blobs: self.blobs.deep_view(),
            at: self.at,
        }
    }
}

impl PublishView {
    /// The mount that this publish comes to.
    pub open spec fn spec_of_mount(self) -> MountSpecView {
        MountSpecView {
            name: volume_name(self.req.volume_context, self.req.volume_id),
            target: self.req.target_path,
            upper: self.cfg.upper_dir(self.req.volume_id),
            control_socket: self.cfg.control_socket(self.req.volume_id),
            access_mode: effective_mode(self.params, self.req.readonly),
            lifecycle: match self.params.lifecycle {
                Some(l) => l,
                None => Lifecycle::Persistent,
            },
            owner: self.params.owner,
            lower_blobs: self.blobs,
        }
    }

    /// What the publish asks for in this state.
    pub open spec fn effect(self) -> EffectView {
        match self.at {
            PublishAt::Pull => EffectView::Pull {
                seed: self.params.seeds[self.pulled as int],
                dir: self.cfg.lowers_dir(self.req.volume_id),
            },
            PublishAt::MakeUpper => EffectView::CreateDir {
                path: self.cfg.upper_dir(self.req.volume_id),
            },
            PublishAt::MakeTarget => EffectView::CreateDir { path: self.req.target_path },
            PublishAt::Mount => EffectView::Mount { spec: self.spec_of_mount() },
            PublishAt::MakeStateDir => EffectView::CreateParent {
                path: self.cfg.state_path(self.req.volume_id),
            },
            PublishAt::WriteState => EffectView::WriteFile {
                path: self.cfg.state_path(self.req.volume_id),
                bytes: outside::json_of(self.req.volume_context),
            },
        }
    }

    /// The publish at another point.
    pub open spec fn to(self, at: PublishAt) -> Progress<PublishView, Result<(), StatusView>> {
        Progress::Next(PublishView { at, ..self })
    }

    /// On to the next seed, or past them.
    pub open spec fn next(self) -> Progress<PublishView, Result<(), StatusView>> {
        if self.pulled < self.params.seeds.len() {
            self.to(PublishAt::Pull)
        } else {
            self.to(PublishAt::MakeUpper)
        }
    }

    /// The publish fails.
    pub open spec fn fail(self, status: StatusView) -> Progress<
        PublishView,
        Result<(), StatusView>,
    > {
        Progress::Done(Err(status))
    }
}

impl Steps for PublishView {
    type Reply = Reply;

    type Out = Result<(), StatusView>;

    /// How the publish goes on. A reply that the state does not wait for
    /// changes nothing. Once the volume is mounted, the publish succeeds
    /// whether or not the context can be recorded.
    open spec fn resume(self, reply: Reply) -> Progress<PublishView, Result<(), StatusView>> {
        match (self.at, reply) {
            (PublishAt::Pull, Reply::Pulled(r)) => match r {
                Err(e) => self.fail(
                    StatusView::failed_precondition(
                        "seed "@ + self.params.seeds[self.pulled as int] + ": "@ + e@.text(),
                    ),
                ),
                Ok(l) => (PublishView {
                    pulled: self.pulled + 1,
                    blobs: self.blobs + l.deep_view(),
                    ..self
                }).next(),
            },
            (PublishAt::MakeUpper, Reply::Done(r)) => match r {
                Err(e) => self.fail(StatusView::internal("create upper: "@ + e@)),
                Ok(_) => self.to(PublishAt::MakeTarget),
            },
            (PublishAt::MakeTarget, Reply::Done(r)) => match r {
                Err(e) => self.fail(StatusView::internal("create target: "@ + e@)),
                Ok(_) => self.to(PublishAt::Mount),
            },
            (PublishAt::Mount, Reply::Mounted(r)) => match r {
                Err(e) => self.fail(StatusView::internal("rspacefs-mount: "@ + e@.text())),
                Ok(_) => self.to(PublishAt::MakeStateDir),
            },
            (PublishAt::MakeStateDir, Reply::Done(r)) => match r {
                Err(_) => Progress::Done(Ok(())),
                Ok(_) => self.to(PublishAt::WriteState),
            },
            (PublishAt::WriteState, Reply::Done(_)) => Progress::Done(Ok(())),
            _ => Progress::Next(self),
        }
    }
}

/// `p` with what it holds replaced by what that says.
pub open spec fn publish_progress(p: Progress<Publish, Result<(), Status>>) -> Progress<
    PublishView,
    Result<(), StatusView>,
> {
    match p {
        Progress::Next(m) => Progress::Next(m@),
        Progress::Done(r) => Progress::Done(status_result(r)),
    }
}

/// How publishing begins.
pub open spec fn publish_start(cfg: ConfigView, req: NodePublishVolumeRequestView) -> Progress<
    PublishView,
    Result<(), StatusView>,
> {
    if req.volume_id.len() == 0 {
        Progress::Done(Err(StatusView::invalid_argument("volume_id is required"@)))
    } else if req.target_path.len() == 0 {
        Progress::Done(Err(StatusView::invalid_argument("target_path is required"@)))
    } else {
        match params_of(req.volume_context) {
            Err(e) => Progress::Done(Err(StatusView::invalid_argument(e.text()))),
            Ok(params) => (PublishView {
                cfg,
                req,
                params,
                pulled: 0,
                blobs: seq![],
                at: PublishAt::Pull,
            }).next(),
        }
    }
}

impl Publish {
    #[verifier::type_invariant]
    spec fn wf(self) -> bool {
        self.at == PublishAt::Pull ==> self.pulled < self.params.seeds@.len()
    }

    /// The mount that this publish comes to.
    pub fn mount_spec(&self) -> (r: MountSpec)
        ensures
            r@ == self@.spec_of_mount(),
    {
        MountSpec {
            name: name_of(&self.req.volume_context, self.req.volume_id.as_str()),
            target: self.req.target_path.clone(),
            upper: self.cfg.upper_dir(self.req.volume_id.as_str()),
            control_socket: self.cfg.control_socket(self.req.volume_id.as_str()),
            access_mode: effective_access_mode(&self.params, self.req.readonly),
            lifecycle: match self.params.lifecycle {
                Some(l) => l,
                None => Lifecycle::Persistent,
            },
            owner: self.params.owner.clone(),
            lower_blobs: text::clone_texts(&self.blobs),
        }
    }

    /// What the publish asks for in this state. What is recorded reads back as
    /// the volume context.
    pub fn effect(&self) -> (r: Effect)
        ensures
            r@ == self@.effect(),
            r matches Effect::WriteFile { bytes, .. } ==> outside::map_of_json(bytes@) == Some(
                self@.req.volume_context,
            ),
    {
        proof {
            use_type_invariant(self);
        }
        match self.at {
            PublishAt::Pull => Effect::Pull {
                seed: self.params.seeds[self.pulled].clone(),
                dir: self.cfg.lowers_dir(self.req.volume_id.as_str()),
            },
            PublishAt::MakeUpper => Effect::CreateDir {
                path: self.cfg.upper_dir(self.req.volume_id.as_str()),
            },
            PublishAt::MakeTarget => Effect::CreateDir { path: self.req.target_path.clone() },
            PublishAt::Mount => Effect::Mount { spec: self.mount_spec() },
            PublishAt::MakeStateDir => Effect::CreateParent {
                path: self.cfg.state_path(self.req.volume_id.as_str()),
            },
            PublishAt::WriteState => Effect::WriteFile {
                path: self.cfg.state_path(self.req.volume_id.as_str()),
                bytes: self.req.volume_context.encode(),
            },
        }
    }

    /// How the publish goes on. A reply that the state does not wait for
    /// changes nothing.
    pub fn resume(self, reply: Reply) -> (r: Progress<Publish, Result<(), Status>>)
        ensures
            publish_progress(r) == self@.resume(reply),
    {
        proof {
            use_type_invariant(&self);
        }
        let Publish { cfg, req, params, pulled, blobs, at } = self;
        let at = match (at, reply) {
            (PublishAt::Pull, Reply::Pulled(r)) => match r {
                Err(e) => {
                    let message = "seed ".to_string().concat(params.seeds[pulled].as_str()).concat(
                        ": ",
                    ).concat(e.message().as_str());
                    return Progress::Done(Err(Status::failed_precondition(message.as_str())));
                },
                Ok(l) => {
                    let blobs = text::extend_texts(blobs, &l);
                    let seeds: usize = params.seeds.len();
                    let pulled: usize = pulled + 1;
                    let at = if pulled < seeds {
                        PublishAt::Pull
                    } else {
                        PublishAt::MakeUpper
                    };
                    return Progress::Next(Publish { cfg, req, params, pulled, blobs, at });
                },
            },
            (PublishAt::MakeUpper, Reply::Done(r)) => match r {
                Err(e) => {
                    let message = "create upper: ".to_string().concat(e.as_str());
                    return Progress::Done(Err(Status::internal(message.as_str())));
                },
                Ok(_) => PublishAt::MakeTarget,
            },
            (PublishAt::MakeTarget, Reply::Done(r)) => match r {
                Err(e) => {
                    let message = "create target: ".to_string().concat(e.as_str());
                    return Progress::Done(Err(Status::internal(message.as_str())));
                },
                Ok(_) => PublishAt::Mount,
            },
            (PublishAt::Mount, Reply::Mounted(r)) => match r {
                Err(e) => {
                    let message = "rspacefs-mount: ".to_string().concat(e.message().as_str());
                    return Progress::Done(Err(Status::internal(message.as_str())));
                },
                Ok(_) => PublishAt::MakeStateDir,
            },
            (PublishAt::MakeStateDir, Reply::Done(r)) => match r {
                Err(_) => {
                    return Progress::Done(Ok(()));
                },
                Ok(_) => PublishAt::WriteState,
            },
            (PublishAt::WriteState, Reply::Done(_)) => {
                return Progress::Done(Ok(()));
            },
            (at, _) => at,
        };
        Progress::Next(Publish { cfg, req, params, pulled, blobs, at })
    }
}

/// The node service.
#[derive(Debug)]
pub struct NodeService {
    pub cfg: Config,
}

impl NodeService {
    /// The service on a node with this configuration.
    pub fn new(cfg: Config) -> (r: NodeService)
        ensures
            r.cfg@ == cfg@,
    {
        NodeService { cfg }
    }

    /// This node's name; there is no limit on its volumes.
    pub fn node_get_info(&self) -> (r: NodeGetInfoResponse)
        ensures
            r.node_id@ == self.cfg@.node_id,
            r.max_volumes_per_node == 0,
    {
        NodeGetInfoResponse { node_id: self.cfg.node_id.clone(), max_volumes_per_node: 0 }
    }

    /// The RPCs that the node service advertises.
    pub fn node_get_capabilities(&self) -> (r: Vec<NodeRpc>)
        ensures
            r@ == seq![NodeRpc::StageUnstageVolume],
    {
        let r = vec![NodeRpc::StageUnstageVolume];
        assert(r@ =~= seq![NodeRpc::StageUnstageVolume]);
        r
    }

    /// There is no device to stage.
    pub fn node_stage_volume(&self) -> (r: Result<(), Status>)
        ensures
            r is Ok,
    {
        Ok(())
    }

    /// There is no device to unstage.
    pub fn node_unstage_volume(&self) -> (r: Result<(), Status>)
        ensures
            r is Ok,
    {
        Ok(())
    }

    /// Not offered.
    pub fn node_get_volume_stats(&self) -> (r: Result<(), Status>)
        ensures
            status_result(r) == Err::<(), StatusView>(
                StatusView::unimplemented("GET_VOLUME_STATS is not advertised"@),
            ),
    {
        Err(Status::unimplemented("GET_VOLUME_STATS is not advertised"))
    }

    /// Not offered.
    pub fn node_expand_volume(&self) -> (r: Result<(), Status>)
        ensures
            status_result(r) == Err::<(), StatusView>(
                StatusView::unimplemented("EXPAND_VOLUME is not advertised"@),
            ),
    {
        Err(Status::unimplemented("EXPAND_VOLUME is not advertised"))
    }

    /// Begins to publish a volume.
    pub fn node_publish_volume(&self, req: NodePublishVolumeRequest) -> (r: Progress<
        Publish,
        Result<(), Status>,
    >)
        ensures
            publish_progress(r) == publish_start(self.cfg@, req@),
    {
        if req.volume_id.as_str().is_empty() {
            return Progress::Done(Err(Status::invalid_argument("volume_id is required")));
        }
        if req.target_path.as_str().is_empty() {
            return Progress::Done(Err(Status::invalid_argument("target_path is required")));
        }
        let params = match PvcParams::parse(&req.volume_context) {
            Ok(params) => params,
            Err(e) => {
                return Progress::Done(Err(Status::invalid_argument(e.message().as_str())));
            },
        };
        let at = if params.seeds.len() > 0 {
            PublishAt::Pull
        } else {
            PublishAt::MakeUpper
        };
        let m = Publish {
            cfg: self.cfg.clone(),
            req,
            params,
            pulled: 0,
            blobs: Vec::new(),
            at,
        };
        assert(m@.blobs =~= seq![]);
        Progress::Next(m)
    }
}

// ---- unpublishing --------------------------------------------------------

/// Where an [`Unpublish`] stands: what it waits for.
pub enum UnpublishAt {
    /// Waits for the recorded context.
    Load,
    Freeze(Freeze),
    Unmount,
    RemoveTarget,
    RemoveState,
}

/// What an [`UnpublishAt`] says.
pub enum UnpublishAtView {
    Load,
    Freeze(FreezeView),
    Unmount,
    RemoveTarget,
    RemoveState,
}

impl View for UnpublishAt {
    type V = UnpublishAtView;

    open spec fn view(&self) -> UnpublishAtView {
        match self {
            UnpublishAt::Load => UnpublishAtView::Load,
            UnpublishAt::Freeze(m) => UnpublishAtView::Freeze(m@),
            UnpublishAt::Unmount => UnpublishAtView::Unmount,
            UnpublishAt::RemoveTarget => UnpublishAtView::RemoveTarget,
            UnpublishAt::RemoveState => UnpublishAtView::RemoveState,
        }
    }
}

/// Unpublishes a volume: freezes it where its recorded context asks for that,
/// which takes the live mount, then unmounts and cleans up.
pub struct Unpublish {
    pub cfg: Config,
    pub req: NodeUnpublishVolumeRequest,
    pub at: UnpublishAt,
}

/// What an [`Unpublish`] says.
#[verifier::ext_equal]
pub struct UnpublishView {
    pub cfg: ConfigView,
    pub req: NodeUnpublishVolumeRequestView,
    pub at: UnpublishAtView,
}

impl View for Unpublish {
    type V = UnpublishView;

    open spec fn view(&self) -> UnpublishView {
        UnpublishView { cfg: self.cfg@, req: self.req@, at: self.at@ }
    }
}

/// The freeze of a volume that is unpublished: of its upper, to the tag made of
/// its name in the repository for captures, which must be known.
pub open spec fn unpublish_freeze(
    cfg: ConfigView,
    volume_id: Seq<char>,
    ctx: Map<Seq<char>, Seq<char>>,
    params: PvcParamsView,
) -> Result<FreezeView, StatusView> {
    match params.repo() {
        None => Err(
            StatusView::failed_precondition(
                "captureOnDelete set but no captureRepo and no seed to derive one from"@,
            ),
        ),
        Some(repo) => Ok(
            freeze_start(
                cfg.control_socket(volume_id),
                cfg.capture_staging(volume_id),
                repo + ":"@ + sanitized(volume_name(ctx, volume_id)),
            ),
        ),
    }
}

/// Whether a recorded context asks for a freeze.
pub open spec fn wants_capture(ctx: Option<Map<Seq<char>, Seq<char>>>) -> bool {
    match ctx {
        Some(c) => params_of(c) is Ok && params_of(c)->Ok_0.capture_on_delete,
        None => false,
    }
}

impl UnpublishView {
    /// What the unpublish asks for in this state.
    pub open spec fn effect(self) -> EffectView {
        match self.at {
            UnpublishAtView::Load => EffectView::ReadFile {
                path: self.cfg.state_path(self.req.volume_id),
            },
            UnpublishAtView::Freeze(m) => m.effect(),
            UnpublishAtView::Unmount => EffectView::Unmount { target: self.req.target_path },
            UnpublishAtView::RemoveTarget => EffectView::RemoveDir { path: self.req.target_path },
            UnpublishAtView::RemoveState => EffectView::RemoveFile {
                path: self.cfg.state_path(self.req.volume_id),
            },
        }
    }

    /// The unpublish at another point.
    pub open spec fn to(self, at: UnpublishAtView) -> Progress<
        UnpublishView,
        Result<(), StatusView>,
    > {
        Progress::Next(UnpublishView { at, ..self })
    }

    /// How the unpublish goes on with the recorded context, if there is one.
    pub open spec fn with_context(self, ctx: Option<Map<Seq<char>, Seq<char>>>) -> Progress<
        UnpublishView,
        Result<(), StatusView>,
    > {
        if wants_capture(ctx) {
            match unpublish_freeze(
                self.cfg,
                self.req.volume_id,
                ctx->Some_0,
                params_of(ctx->Some_0)->Ok_0,
            ) {
                Ok(m) => self.to(UnpublishAtView::Freeze(m)),
                Err(e) => Progress::Done(Err(e)),
            }
        } else {
            self.to(UnpublishAtView::Unmount)
        }
    }
}

impl Steps for UnpublishView {
    type Reply = Reply;

    type Out = Result<(), StatusView>;

    /// How the unpublish goes on. A reply that the state does not wait for
    /// changes nothing. Once the volume is unmounted, the unpublish succeeds
    /// whether or not it can be cleaned up after.
    open spec fn resume(self, reply: Reply) -> Progress<UnpublishView, Result<(), StatusView>> {
        match (self.at, reply) {
            (UnpublishAtView::Load, Reply::Contents(c)) => self.with_context(
                match c {
                    Some(bytes) => outside::map_of_json(bytes@),
                    None => None,
                },
            ),
            (UnpublishAtView::Freeze(m), _) => match m.resume(reply) {
                Progress::Next(k) => self.to(UnpublishAtView::Freeze(k)),
                Progress::Done(Ok(_)) => self.to(UnpublishAtView::Unmount),
                Progress::Done(Err(e)) => Progress::Done(
                    Err(StatusView::internal("capture-on-delete: "@ + e.text())),
                ),
            },
            (UnpublishAtView::Unmount, Reply::Mounted(r)) => match r {
                Err(e) => Progress::Done(Err(StatusView::internal("unmount: "@ + e@.text()))),
                Ok(_) => self.to(UnpublishAtView::RemoveTarget),
            },
            (UnpublishAtView::RemoveTarget, Reply::Done(_)) => self.to(
                UnpublishAtView::RemoveState,
            ),
            (UnpublishAtView::RemoveState, Reply::Done(_)) => Progress::Done(Ok(())),
            _ => Progress::Next(self),
        }
    }
}

/// `p` with what it holds replaced by what that says.
pub open spec fn unpublish_progress(p: Progress<Unpublish, Result<(), Status>>) -> Progress<
    UnpublishView,
    Result<(), StatusView>,
> {
    match p {
        Progress::Next(m) => Progress::Next(m@),
        Progress::Done(r) => Progress::Done(status_result(r)),
    }
}

/// How unpublishing begins.
pub open spec fn unpublish_start(cfg: ConfigView, req: NodeUnpublishVolumeRequestView) -> Progress<
    UnpublishView,
    Result<(), StatusView>,
> {
    if req.volume_id.len() == 0 {
        Progress::Done(Err(StatusView::invalid_argument("volume_id is required"@)))
    } else if req.target_path.len() == 0 {
        Progress::Done(Err(StatusView::invalid_argument("target_path is required"@)))
    } else {
        Progress::Next(UnpublishView { cfg, req, at: UnpublishAtView::Load })
    }
}

/// Begins the freeze of a volume that is unpublished.
pub fn freeze_on_unpublish(cfg: &Config, volume_id: &str, ctx: &ParamMap, params: &PvcParams) -> (r:
    Result<Freeze, Status>)
    ensures
        match r {
            Ok(m) => unpublish_freeze(cfg@, volume_id@, ctx@, params@) == Ok::<_, StatusView>(m@),
            Err(e) => unpublish_freeze(cfg@, volume_id@, ctx@, params@) == Err::<FreezeView, _>(e@),
        },
{
    let repo = match params.resolved_capture_repo() {
        Some(repo) => repo,
        None => {
            return Err(
                Status::failed_precondition(
                    "captureOnDelete set but no captureRepo and no seed to derive one from",
                ),
            );
        },
    };
    let tag = sanitize_tag(name_of(ctx, volume_id).as_str());
    let target_ref = repo.concat(":").concat(tag.as_str());
    Ok(
        freeze_and_push(
            cfg.control_socket(volume_id).as_str(),
            cfg.capture_staging(volume_id).as_str(),
            target_ref.as_str(),
        ),
    )
}

impl Unpublish {
    /// What the unpublish asks for in this state.
    pub fn effect(&self) -> (r: Effect)
        ensures
            r@ == self@.effect(),
    {
        match &self.at {
            UnpublishAt::Load => Effect::ReadFile {
                path: self.cfg.state_path(self.req.volume_id.as_str()),
            },
            UnpublishAt::Freeze(m) => m.effect(),
            UnpublishAt::Unmount => Effect::Unmount { target: self.req.target_path.clone() },
            UnpublishAt::RemoveTarget => Effect::RemoveDir { path: self.req.target_path.clone() },
            UnpublishAt::RemoveState => Effect::RemoveFile {
                path: self.cfg.state_path(self.req.volume_id.as_str()),
            },
        }
    }

    /// How the unpublish goes on with the recorded context, if there is one.
    pub fn with_context(self, ctx: Option<ParamMap>) -> (r: Progress<Unpublish, Result<(), Status>>)
        ensures
            unpublish_progress(r) == self@.with_context(
                match ctx {
                    Some(c) => Some(c@),
                    None => None,
                },
            ),
    {
        let Unpublish { cfg, req, at: _ } = self;
        if let Some(c) = ctx {
            if let Ok(params) = PvcParams::parse(&c) {
                if params.capture_on_delete {
                    return match freeze_on_unpublish(&cfg, req.volume_id.as_str(), &c, &params) {
                        Ok(m) => Progress::Next(Unpublish { cfg, req, at: UnpublishAt::Freeze(m) }),
                        Err(e) => Progress::Done(Err(e)),
                    };
                }
            }
        }
        Progress::Next(Unpublish { cfg, req, at: UnpublishAt::Unmount })
    }

    /// How the unpublish goes on. A reply that the state does not wait for
    /// changes nothing.
    pub fn resume(self, reply: Reply) -> (r: Progress<Unpublish, Result<(), Status>>)
        ensures
            unpublish_progress(r) == self@.resume(reply),
    {
        let Unpublish { cfg, req, at } = self;
        let at = match (at, reply) {
            (UnpublishAt::Load, Reply::Contents(c)) => {
                let ctx = match c {
                    Some(bytes) => ParamMap::decode(bytes.as_slice()),
                    None => None,
                };
                return (Unpublish { cfg, req, at: UnpublishAt::Load }).with_context(ctx);
            },
            (UnpublishAt::Freeze(m), reply) => match m.resume(reply) {
                Progress::Next(k) => UnpublishAt::Freeze(k),
                Progress::Done(Ok(_)) => UnpublishAt::Unmount,
                Progress::Done(Err(e)) => {
                    let message = "capture-on-delete: ".to_string().concat(e.message().as_str());
                    return Progress::Done(Err(Status::internal(message.as_str())));
                },
            },
            (UnpublishAt::Unmount, Reply::Mounted(r)) => match r {
                Err(e) => {
                    let message = "unmount: ".to_string().concat(e.message().as_str());
                    return Progress::Done(Err(Status::internal(message.as_str())));
                },
                Ok(_) => UnpublishAt::RemoveTarget,
            },
            (UnpublishAt::RemoveTarget, Reply::Done(_)) => UnpublishAt::RemoveState,
            (UnpublishAt::RemoveState, Reply::Done(_)) => {
                return Progress::Done(Ok(()));
            },
            (at, _) => at,
        };
        Progress::Next(Unpublish { cfg, req, at })
    }
}

impl NodeService {
    /// Begins to unpublish a volume.
    pub fn node_unpublish_volume(&self, req: NodeUnpublishVolumeRequest) -> (r: Progress<
        Unpublish,
        Result<(), Status>,
    >)
        ensures
            unpublish_progress(r) == unpublish_start(self.cfg@, req@),
    {
        if req.volume_id.as_str().is_empty() {
            return Progress::Done(Err(Status::invalid_argument("volume_id is required")));
        }
        if req.target_path.as_str().is_empty() {
            return Progress::Done(Err(Status::invalid_argument("target_path is required")));
        }
        Progress::Next(Unpublish { cfg: self.cfg.clone(), req, at: UnpublishAt::Load })
    }
}

// ---- laws ----------------------------------------------------------------

/// A tag holds 1 to 128 characters, each of which may stand in one.
pub proof fn law_tag_is_valid(s: Seq<char>)
    ensures
        1 <= sanitized(s).len() <= 128,
        forall|i: int| 0 <= i < sanitized(s).len() ==> is_tag_char(#[trigger] sanitized(s)[i]),
{
    reveal_strlit("rev");
}

/// A name that is a tag already stands for itself.
pub proof fn law_tag_is_kept(s: Seq<char>)
    requires
        1 <= s.len() <= 128,
        forall|i: int| 0 <= i < s.len() ==> is_tag_char(#[trigger] s[i]),
    ensures
        sanitized(s) == s,
{
    assert(sanitized(s) =~= s);
}

/// Making a tag of a tag changes nothing.
pub proof fn law_sanitizing_twice(s: Seq<char>)
    ensures
        sanitized(sanitized(s)) == sanitized(s),
{
    law_tag_is_valid(s);
    law_tag_is_kept(sanitized(s));
}

/// A read-only publish is mounted `ro`, whatever the parameters say.
pub proof fn law_readonly_is_ro(params: PvcParamsView)
    ensures
        effective_mode(params, true) == AccessMode::Ro,
{
}

/// The pulls that succeeded: each seed with the files of its layers, in order.
pub open spec fn pulls(m: PublishView, replies: Seq<Reply>) -> Seq<(Seq<char>, Seq<Seq<char>>)>
    decreases replies.len(),
{
    if replies.len() == 0 {
        seq![]
    } else {
        let before = pulls(m, replies.drop_last());
        match run(m, replies.drop_last()) {
            Progress::Done(_) => before,
            Progress::Next(k) => match (k.effect(), replies.last()) {
                (EffectView::Pull { seed, .. }, Reply::Pulled(Ok(l))) => before.push(
                    (seed, l.deep_view()),
                ),
                _ => before,
            },
        }
    }
}

/// All files of a list of pulls, in order.
pub open spec fn all_blobs(l: Seq<(Seq<char>, Seq<Seq<char>>)>) -> Seq<Seq<char>>
    decreases l.len(),
{
    if l.len() == 0 {
        seq![]
    } else {
        all_blobs(l.drop_last()) + l.last().1
    }
}

/// Whether one of the replies is a mount or an unmount that succeeded.
pub open spec fn mounted(replies: Seq<Reply>) -> bool {
    exists|i: int| 0 <= i < replies.len() && #[trigger] replies[i] matches Reply::Mounted(Ok(_))
}

proof fn lemma_mounted_on(replies: Seq<Reply>)
    requires
        replies.len() > 0,
        mounted(replies.drop_last()) || replies.last() matches Reply::Mounted(Ok(_)),
    ensures
        mounted(replies),
{
    let d = replies.drop_last();
    if mounted(d) {
        let i = choose|i: int| 0 <= i < d.len() && #[trigger] d[i] matches Reply::Mounted(Ok(_));
        assert(replies[i] == d[i]);
    } else {
        assert(replies[replies.len() - 1] == replies.last());
    }
}

proof fn lemma_publish_reached(m: PublishView, replies: Seq<Reply>)
    requires
        m.pulled == 0,
        m.blobs.len() == 0,
        m.next() == Progress::<_, Result<(), StatusView>>::Next(m),
    ensures
        run(m, replies) matches Progress::Next(k) ==> {
            let l = pulls(m, replies);
            &&& k == PublishView { pulled: k.pulled, blobs: k.blobs, at: k.at, ..m }
            &&& k.pulled == l.len()
            &&& k.blobs == all_blobs(l)
            &&& forall|i: int| 0 <= i < l.len() ==> (#[trigger] l[i]).0 == m.params.seeds[i]
            &&& k.at == PublishAt::Pull ==> k.pulled < m.params.seeds.len()
            &&& k.at != PublishAt::Pull ==> k.pulled == m.params.seeds.len()
            &&& k.at == PublishAt::MakeStateDir || k.at == PublishAt::WriteState ==> mounted(
                replies,
            )
        },
        run(m, replies) matches Progress::Done(Ok(_)) ==> mounted(replies),
    decreases replies.len(),
{
    if replies.len() == 0 {
        assert(m.blobs =~= seq![]);
    } else {
        let d = replies.drop_last();
        lemma_publish_reached(m, d);
        if mounted(d) || replies.last() matches Reply::Mounted(Ok(_)) {
            lemma_mounted_on(replies);
        }
        if let Progress::Next(k) = run(m, d) {
            if k.at == PublishAt::Pull {
                if let Reply::Pulled(Ok(l)) = replies.last() {
                    let e = (k.params.seeds[k.pulled as int], l.deep_view());
                    assert(pulls(m, replies) == pulls(m, d).push(e));
                    assert(pulls(m, d).push(e).drop_last() =~= pulls(m, d));
                }
            }
        }
    }
}

/// A volume is mounted only when every seed is pulled; its lower layers are
/// those of the seeds, by seed and then top first, and nothing else.
pub proof fn law_mounts_the_pulled_seeds(
    cfg: ConfigView,
    req: NodePublishVolumeRequestView,
    replies: Seq<Reply>,
)
    ensures
        publish_start(cfg, req) matches Progress::Next(m) ==> (run(m, replies) matches Progress::Next(
            k,
        ) ==> (k.effect() matches EffectView::Mount { spec } ==> {
            let l = pulls(m, replies);
            &&& l.len() == params_of(req.volume_context)->Ok_0.seeds.len()
            &&& forall|i: int|
                0 <= i < l.len() ==> (#[trigger] l[i]).0 == params_of(
                    req.volume_context,
                )->Ok_0.seeds[i]
            &&& spec.lower_blobs == all_blobs(l)
        })),
{
    if let Progress::Next(m) = publish_start(cfg, req) {
        lemma_publish_reached(m, replies);
    }
}

/// Every mount that a publish asks for is at the target that the request
/// names, with the volume's own upper directory and control socket, and `ro`
/// where the request is read-only.
pub proof fn law_mounts_as_requested(
    cfg: ConfigView,
    req: NodePublishVolumeRequestView,
    replies: Seq<Reply>,
)
    ensures
        publish_start(cfg, req) matches Progress::Next(m) ==> (run(m, replies) matches Progress::Next(
            k,
        ) ==> (k.effect() matches EffectView::Mount { spec } ==> {
            &&& spec.target == req.target_path
            &&& spec.upper == cfg.upper_dir(req.volume_id)
            &&& spec.control_socket == cfg.control_socket(req.volume_id)
            &&& req.readonly ==> spec.access_mode == AccessMode::Ro
        })),
{
    if let Progress::Next(m) = publish_start(cfg, req) {
        lemma_publish_reached(m, replies);
    }
}

/// A publish succeeds only when the volume was mounted.
pub proof fn law_published_is_mounted(
    cfg: ConfigView,
    req: NodePublishVolumeRequestView,
    replies: Seq<Reply>,
)
    ensures
        publish_start(cfg, req) matches Progress::Next(m) ==> (run(m, replies) matches Progress::Done(
            Ok(_),
        ) ==> mounted(replies)),
{
    if let Progress::Next(m) = publish_start(cfg, req) {
        lemma_publish_reached(m, replies);
    }
}

/// Unpublishing reads the record that publishing the same volume wrote, and
/// goes by the context that was published with.
pub proof fn law_unpublish_reads_what_publish_wrote(
    p: PublishView,
    u: UnpublishView,
    bytes: Vec<u8>,
)
    requires
        p.at == PublishAt::WriteState,
        u.at is Load,
        u.cfg == p.cfg,
        u.req.volume_id == p.req.volume_id,
        bytes@ == p.effect()->WriteFile_bytes,
        outside::map_of_json(bytes@) == Some(p.req.volume_context),
    ensures
        u.effect() == (EffectView::ReadFile { path: p.effect()->WriteFile_path }),
        u.resume(Reply::Contents(Some(bytes))) == u.with_context(Some(p.req.volume_context)),
{
}

/// Whether one of the replies is a push that succeeded.
pub open spec fn was_pushed(replies: Seq<Reply>) -> bool {
    exists|i: int| 0 <= i < replies.len() && #[trigger] replies[i] matches Reply::Pushed(Ok(_))
}

proof fn lemma_pushed_on(replies: Seq<Reply>)
    requires
        replies.len() > 0,
        was_pushed(replies.drop_last()) || replies.last() matches Reply::Pushed(Ok(_)),
    ensures
        was_pushed(replies),
{
    let d = replies.drop_last();
    if was_pushed(d) {
        let i = choose|i: int| 0 <= i < d.len() && #[trigger] d[i] matches Reply::Pushed(Ok(_));
        assert(replies[i] == d[i]);
    } else {
        assert(replies[replies.len() - 1] == replies.last());
    }
}

proof fn lemma_unpublish_freezing(m: UnpublishView, replies: Seq<Reply>)
    requires
        m.at is Freeze,
        m.at->Freeze_0.at is MakeDir,
    ensures
        run(m, replies) matches Progress::Next(k) ==> {
            ||| k.at is Freeze && (k.at->Freeze_0.at is Clean ==> was_pushed(replies))
            ||| !(k.at is Load) && was_pushed(replies)
        },
        run(m, replies) matches Progress::Done(Ok(_)) ==> was_pushed(replies),
    decreases replies.len(),
{
    if replies.len() > 0 {
        let d = replies.drop_last();
        lemma_unpublish_freezing(m, d);
        if was_pushed(d) || replies.last() matches Reply::Pushed(Ok(_)) {
            lemma_pushed_on(replies);
        }
    }
}

/// A volume whose recorded context asks for a freeze is not unmounted, and its
/// record is not removed, before its upper was pushed; and it is not
/// unpublished without.
pub proof fn law_captures_before_unmount(
    m: UnpublishView,
    ctx: Option<Map<Seq<char>, Seq<char>>>,
    replies: Seq<Reply>,
)
    requires
        wants_capture(ctx),
    ensures
        m.with_context(ctx) matches Progress::Next(k) ==> {
            &&& run(k, replies) matches Progress::Next(n) ==> (n.at is Unmount || n.at is RemoveTarget
                || n.at is RemoveState ==> was_pushed(replies))
            &&& run(k, replies) matches Progress::Done(Ok(_)) ==> was_pushed(replies)
        },
{
    if let Progress::Next(k) = m.with_context(ctx) {
        lemma_unpublish_freezing(k, replies);
    }
}

proof fn lemma_unpublish_plain(m: UnpublishView, replies: Seq<Reply>)
    requires
        m.at is Unmount,
    ensures
        run(m, replies) matches Progress::Next(k) ==> !(k.at is Load) && !(k.at is Freeze) && (
        !(k.at is Unmount) ==> mounted(replies)),
        run(m, replies) matches Progress::Done(Ok(_)) ==> mounted(replies),
    decreases replies.len(),
{
    if replies.len() > 0 {
        let d = replies.drop_last();
        lemma_unpublish_plain(m, d);
        if mounted(d) || replies.last() matches Reply::Mounted(Ok(_)) {
            lemma_mounted_on(replies);
        }
    }
}

/// A volume whose recorded context does not ask for a freeze, or has none, is
/// neither captured nor pushed when it is unpublished.
pub proof fn law_no_capture_unless_asked(
    m: UnpublishView,
    ctx: Option<Map<Seq<char>, Seq<char>>>,
    replies: Seq<Reply>,
)
    requires
        !wants_capture(ctx),
    ensures
        m.with_context(ctx) matches Progress::Next(k) && (run(k, replies) matches Progress::Next(n)
            ==> !(n.effect() is Capture) && !(n.effect() is Push)),
{
    if let Progress::Next(k) = m.with_context(ctx) {
        lemma_unpublish_plain(k, replies);
    }
}

proof fn lemma_unpublish_reached(m: UnpublishView, replies: Seq<Reply>)
    requires
        m.at is Load,
    ensures
        run(m, replies) matches Progress::Next(k) ==> k.at is Load || k.at is Freeze || k.at is Unmount
            || mounted(replies),
        run(m, replies) matches Progress::Done(Ok(_)) ==> mounted(replies),
    decreases replies.len(),
{
    if replies.len() > 0 {
        let d = replies.drop_last();
        lemma_unpublish_reached(m, d);
        if mounted(d) || replies.last() matches Reply::Mounted(Ok(_)) {
            lemma_mounted_on(replies);
        }
    }
}

/// An unpublish succeeds only when the volume was unmounted.
pub proof fn law_unpublished_is_unmounted(
    cfg: ConfigView,
    req: NodeUnpublishVolumeRequestView,
    replies: Seq<Reply>,
)
    ensures
        unpublish_start(cfg, req) matches Progress::Next(m) ==> (run(m, replies) matches Progress::Done(
            Ok(_),
        ) ==> mounted(replies)),
{
    if let Progress::Next(m) = unpublish_start(cfg, req) {
        lemma_unpublish_reached(m, replies);
    }
}

/// The reference that a freeze at unpublish is pushed to is the tag made of the
/// volume's name in the repository for captures, if that names its registry.
pub proof fn law_freeze_target_is_a_reference(
    cfg: ConfigView,
    volume_id: Seq<char>,
    ctx: Map<Seq<char>, Seq<char>>,
    params: PvcParamsView,
)
    requires
        params.repo() is Some,
        !params.repo()->Some_0.contains('@'),
        0 < text::first_pos(params.repo()->Some_0, '/') < params.repo()->Some_0.len() - 1,
    ensures
        unpublish_freeze(cfg, volume_id, ctx, params) matches Ok(m) && reference_of(m.target_ref)
            == Ok::<_, RegistryErrorView>(
            ReferenceView {
                registry: params.repo()->Some_0.take(text::first_pos(params.repo()->Some_0, '/')),
                repository: params.repo()->Some_0.skip(
                    text::first_pos(params.repo()->Some_0, '/') + 1,
                ),
                reference: sanitized(volume_name(ctx, volume_id)),
            },
        ),
{
    let tag = sanitized(volume_name(ctx, volume_id));
    law_tag_is_valid(volume_name(ctx, volume_id));
    reveal_strlit(":");
    assert(":"@ =~= seq![':']);
    law_tagged_repo_is_a_reference(params.repo()->Some_0, tag);
}

/// A volume that names no repository for captures, but has a seed, is frozen
/// into the repository of its first seed.
pub proof fn law_freezes_beside_the_seed(
    cfg: ConfigView,
    volume_id: Seq<char>,
    ctx: Map<Seq<char>, Seq<char>>,
    params: PvcParamsView,
)
    requires
        params.capture_repo is None,
        params.seeds.len() > 0,
        reference_of(params.seeds[0]) is Ok,
        !has_tag_and_digest(params.seeds[0]),
    ensures
        unpublish_freeze(cfg, volume_id, ctx, params) matches Ok(m) && reference_of(m.target_ref)
            == Ok::<_, RegistryErrorView>(
            ReferenceView {
                reference: sanitized(volume_name(ctx, volume_id)),
                ..reference_of(params.seeds[0])->Ok_0
            },
        ),
{
    let seed = params.seeds[0];
    lemma_name(seed);
    law_capture_repo_is_the_seeds(seed);
    law_freeze_target_is_a_reference(cfg, volume_id, ctx, params);
}

proof fn lemma_pulls_succeed(m: PublishView, pulled: Seq<Reply>, n: int)
    requires
        m.pulled == 0,
        m.next() == Progress::<_, Result<(), StatusView>>::Next(m),
        pulled.len() == m.params.seeds.len(),
        forall|i: int| 0 <= i < pulled.len() ==> #[trigger] pulled[i] matches Reply::Pulled(Ok(_)),
        0 <= n <= pulled.len(),
    ensures
        run(m, pulled.take(n)) matches Progress::Next(k) && k.pulled == n && k.params == m.params
            && k.at == (if n < pulled.len() {
            PublishAt::Pull
        } else {
            PublishAt::MakeUpper
        }),
    decreases n,
{
    if n == 0 {
        assert(pulled.take(0) =~= seq![]);
    } else {
        lemma_pulls_succeed(m, pulled, n - 1);
        assert(pulled.take(n) =~= pulled.take(n - 1).push(pulled[n - 1]));
        lemma_run_push(m, pulled.take(n - 1), pulled[n - 1]);
    }
}

/// A publish that is begun succeeds when every seed can be pulled, both
/// directories can be made and the volume can be mounted, whatever comes of
/// recording its context.
pub proof fn law_publish_succeeds(
    cfg: ConfigView,
    req: NodePublishVolumeRequestView,
    m: PublishView,
    pulled: Seq<Reply>,
    recorded: Result<(), String>,
)
    requires
        publish_start(cfg, req) == Progress::<_, Result<(), StatusView>>::Next(m),
        pulled.len() == m.params.seeds.len(),
        forall|i: int| 0 <= i < pulled.len() ==> #[trigger] pulled[i] matches Reply::Pulled(Ok(_)),
    ensures
        run(
            m,
            pulled.push(Reply::Done(Ok(()))).push(Reply::Done(Ok(()))).push(
                Reply::Mounted(Ok(())),
            ).push(Reply::Done(Ok(()))).push(Reply::Done(recorded)),
        ) == Progress::<PublishView, _>::Done(Ok::<(), StatusView>(())),
{
    let a = pulled.push(Reply::Done(Ok(())));
    let b = a.push(Reply::Done(Ok(())));
    let c = b.push(Reply::Mounted(Ok(())));
    let d = c.push(Reply::Done(Ok(())));
    lemma_pulls_succeed(m, pulled, pulled.len() as int);
    assert(pulled.take(pulled.len() as int) =~= pulled);
    lemma_run_push(m, pulled, Reply::Done(Ok(())));
    lemma_run_push(m, a, Reply::Done(Ok(())));
    lemma_run_push(m, b, Reply::Mounted(Ok(())));
    lemma_run_push(m, c, Reply::Done(Ok(())));
    lemma_run_push(m, d, Reply::Done(recorded));
}

/// Unpublishing a volume whose record asks for a freeze captures its upper,
/// pushes what was captured to the target, and then unmounts: when these
/// succeed so does the unpublish, whatever comes of the rest.
pub proof fn law_unpublish_freezes_and_unmounts(
    m: UnpublishView,
    ctx: Map<Seq<char>, Seq<char>>,
    made: Result<(), String>,
    data: CaptureData,
    pushed: String,
    cleaned: Result<(), String>,
)
    requires
        wants_capture(Some(ctx)),
        params_of(ctx)->Ok_0.repo() is Some,
    ensures
        m.with_context(Some(ctx)) matches Progress::Next(k) && ({
            let none = Seq::<Reply>::empty();
            let a = none.push(Reply::Done(made));
            let b = a.push(Reply::Captured(Ok(data)));
            let c = b.push(Reply::Pushed(Ok(pushed)));
            let d = c.push(Reply::Done(cleaned));
            let e = d.push(Reply::Mounted(Ok(())));
            let f = e.push(Reply::Done(cleaned)).push(Reply::Done(cleaned));
            &&& run(k, a) matches Progress::Next(n) && n.effect() == (EffectView::Capture {
                socket: m.cfg.control_socket(m.req.volume_id),
                out_path: m.cfg.capture_staging(m.req.volume_id),
            })
            &&& run(k, b) matches Progress::Next(n) && n.effect() == (EffectView::Push {
                target_ref: params_of(ctx)->Ok_0.repo()->Some_0 + ":"@ + sanitized(
                    volume_name(ctx, m.req.volume_id),
                ),
                blob_path: m.cfg.capture_staging(m.req.volume_id),
                layer_digest: data.digest@,
                layer_size: data.bytes_compressed,
            })
            &&& run(k, c) matches Progress::Next(n) && n.effect() == (EffectView::RemoveFile {
                path: m.cfg.capture_staging(m.req.volume_id),
            })
            &&& run(k, d) matches Progress::Next(n) && n.effect() == (EffectView::Unmount {
                target: m.req.target_path,
            })
            &&& run(k, f) == Progress::<UnpublishView, _>::Done(Ok::<(), StatusView>(()))
        }),
{
    if let Progress::Next(k) = m.with_context(Some(ctx)) {
        let none = Seq::<Reply>::empty();
        let a = none.push(Reply::Done(made));
        let b = a.push(Reply::Captured(Ok(data)));
        let c = b.push(Reply::Pushed(Ok(pushed)));
        let d = c.push(Reply::Done(cleaned));
        let e = d.push(Reply::Mounted(Ok(())));
        lemma_run_push(k, none, Reply::Done(made));
        lemma_run_push(k, a, Reply::Captured(Ok(data)));
        lemma_run_push(k, b, Reply::Pushed(Ok(pushed)));
        lemma_run_push(k, c, Reply::Done(cleaned));
        lemma_run_push(k, d, Reply::Mounted(Ok(())));
        lemma_run_push(k, e, Reply::Done(cleaned));
        lemma_run_push(k, e.push(Reply::Done(cleaned)), Reply::Done(cleaned));
    }
}

// ---- what is asked for, and what comes of the answers --------------------

/// A tag is made of a name character by character: ASCII letters and digits, `_`,
/// `.` and `-` stay, anything else becomes `-`, and what comes behind the first
/// 128 characters is dropped. The empty name becomes `rev`.
pub proof fn law_tag_characters(s: Seq<char>)
    ensures
        sanitized(Seq::<char>::empty()) == "rev"@,
        s.len() > 0 ==> sanitized(s).len() == (if s.len() < 128 {
            s.len() as int
        } else {
            128
        }),
        forall|i: int|
            0 <= i < s.len() && i < 128 ==> #[trigger] sanitized(s)[i] == ({
                let c = s[i] as int;
                if 48 <= c <= 57 || 65 <= c <= 90 || 97 <= c <= 122 || c == 95 || c == 46 || c == 45 {
                    s[i]
                } else {
                    '-'
                }
            }),
{
}

/// The mode that a volume is mounted in, by what the request and the parameters
/// say.
pub proof fn law_effective_mode(params: PvcParamsView)
    ensures
        effective_mode(params, true) == AccessMode::Ro,
        params.access_mode matches Some(mode) ==> effective_mode(params, false) == mode,
        params.access_mode is None && params.seeds.len() == 0 ==> effective_mode(params, false)
            == AccessMode::Empty,
        params.access_mode is None && params.seeds.len() > 0 ==> effective_mode(params, false)
            == AccessMode::Rwo,
{
}

/// A volume is called what its context says, and by its id where that says
/// nothing.
pub proof fn law_volume_name(ctx: Map<Seq<char>, Seq<char>>, volume_id: Seq<char>)
    ensures
        ctx.contains_key("rspacefs.csi.g8.io/volumeName"@) ==> volume_name(ctx, volume_id)
            == ctx["rspacefs.csi.g8.io/volumeName"@],
        !ctx.contains_key("rspacefs.csi.g8.io/volumeName"@) ==> volume_name(ctx, volume_id)
            == volume_id,
{
}

/// A publish is refused at the start if and only if it names no volume or no
/// target, or has a context that cannot be parsed. Otherwise it is begun: with the
/// pull of the first seed into the volume's directory for lower layers, or, where
/// there is none, with the upper directory.
pub proof fn law_publish_begins(cfg: ConfigView, req: NodePublishVolumeRequestView)
    ensures
        req.volume_id.len() == 0 ==> publish_start(cfg, req) == Progress::<PublishView, _>::Done(
            Err::<(), _>(
                StatusView { code: Code::InvalidArgument, message: "volume_id is required"@ },
            ),
        ),
        req.volume_id.len() > 0 && req.target_path.len() == 0 ==> publish_start(cfg, req)
            == Progress::<PublishView, _>::Done(
            Err::<(), _>(
                StatusView { code: Code::InvalidArgument, message: "target_path is required"@ },
            ),
        ),
        req.volume_id.len() > 0 && req.target_path.len() > 0 ==> match params_of(
            req.volume_context,
        ) {
            Err(e) => publish_start(cfg, req) == Progress::<PublishView, _>::Done(
                Err::<(), _>(StatusView { code: Code::InvalidArgument, message: e.text() }),
            ),
            Ok(params) => {
                &&& publish_start(cfg, req) matches Progress::Next(m)
                &&& m.effect() == (if params.seeds.len() > 0 {
                    EffectView::Pull {
                        seed: params.seeds[0],
                        dir: cfg.lowers_dir(req.volume_id),
                    }
                } else {
                    EffectView::CreateDir { path: cfg.upper_dir(req.volume_id) }
                })
            },
        },
{
}

/// The files that pulls came to, one behind the other.
pub open spec fn pulled_files(replies: Seq<Reply>) -> Seq<Seq<char>>
    decreases replies.len(),
{
    if replies.len() == 0 {
        seq![]
    } else {
        pulled_files(replies.drop_last()) + (match replies.last() {
            Reply::Pulled(Ok(l)) => l.deep_view(),
            _ => seq![],
        })
    }
}

proof fn lemma_pulled(
    cfg: ConfigView,
    req: NodePublishVolumeRequestView,
    m: PublishView,
    pulled: Seq<Reply>,
    n: int,
)
    requires
        publish_start(cfg, req) == Progress::<_, Result<(), StatusView>>::Next(m),
        pulled.len() == m.params.seeds.len(),
        forall|i: int| 0 <= i < pulled.len() ==> #[trigger] pulled[i] matches Reply::Pulled(Ok(_)),
        0 <= n <= pulled.len(),
    ensures
        run(m, pulled.take(n)) == Progress::<_, Result<(), StatusView>>::Next(
            PublishView {
                pulled: n as nat,
                blobs: pulled_files(pulled.take(n)),
                at: if n < pulled.len() {
                    PublishAt::Pull
                } else {
                    PublishAt::MakeUpper
                },
                ..m
            },
        ),
    decreases n,
{
    if n == 0 {
        assert(pulled.take(0) =~= seq![]);
        assert(m.blobs =~= pulled_files(pulled.take(0)));
    } else {
        lemma_pulled(cfg, req, m, pulled, n - 1);
        assert(pulled.take(n) =~= pulled.take(n - 1).push(pulled[n - 1]));
        assert(pulled.take(n).drop_last() =~= pulled.take(n - 1));
        lemma_run_push(m, pulled.take(n - 1), pulled[n - 1]);
    }
}

/// The seeds of a volume are pulled in their order, each as it is written, into
/// the volume's directory for lower layers; one that cannot be pulled ends the
/// publish with an error that names it.
pub proof fn law_seeds_are_pulled_in_order(
    cfg: ConfigView,
    req: NodePublishVolumeRequestView,
    m: PublishView,
    pulled: Seq<Reply>,
    n: int,
    e: RegistryError,
)
    requires
        publish_start(cfg, req) == Progress::<_, Result<(), StatusView>>::Next(m),
        pulled.len() == params_of(req.volume_context)->Ok_0.seeds.len(),
        forall|i: int| 0 <= i < pulled.len() ==> #[trigger] pulled[i] matches Reply::Pulled(Ok(_)),
        0 <= n < pulled.len(),
    ensures
        ({
            let seed = params_of(req.volume_context)->Ok_0.seeds[n];
            &&& run(m, pulled.take(n)) matches Progress::Next(k)
            &&& k.effect() == (EffectView::Pull { seed, dir: cfg.lowers_dir(req.volume_id) })
            &&& k.resume(Reply::Pulled(Err(e))) == Progress::<PublishView, _>::Done(
                Err::<(), _>(
                    StatusView {
                        code: Code::FailedPrecondition,
                        message: "seed "@ + seed + ": "@ + e@.text(),
                    },
                ),
            )
        }),
{
    lemma_pulled(cfg, req, m, pulled, n);
}

/// When its seeds are pulled, a volume's upper directory and its target are made,
/// and it is mounted as its request and its parameters say, on all the files that
/// the pulls came to, in order. Then its context is recorded, which may fail; any
/// other step that fails ends the publish with an error that names it.
pub proof fn law_publish_outcomes(
    cfg: ConfigView,
    req: NodePublishVolumeRequestView,
    m: PublishView,
    pulled: Seq<Reply>,
    e: String,
    x: MountError,
    recorded: Result<(), String>,
)
    requires
        publish_start(cfg, req) == Progress::<_, Result<(), StatusView>>::Next(m),
        pulled.len() == params_of(req.volume_context)->Ok_0.seeds.len(),
        forall|i: int| 0 <= i < pulled.len() ==> #[trigger] pulled[i] matches Reply::Pulled(Ok(_)),
    ensures
        ({
            let params = params_of(req.volume_context)->Ok_0;
            let id = req.volume_id;
            let ok = Reply::Done(Ok(()));
            let done = Progress::<PublishView, _>::Done(Ok::<(), StatusView>(()));
            &&& run(m, pulled) matches Progress::Next(a)
            &&& a.effect() == (EffectView::CreateDir { path: cfg.upper_dir(id) })
            &&& a.resume(Reply::Done(Err(e))) == Progress::<PublishView, _>::Done(
                Err::<(), _>(
                    StatusView { code: Code::Internal, message: "create upper: "@ + e@ },
                ),
            )
            &&& a.resume(ok) matches Progress::Next(b)
            &&& b.effect() == (EffectView::CreateDir { path: req.target_path })
            &&& b.resume(Reply::Done(Err(e))) == Progress::<PublishView, _>::Done(
                Err::<(), _>(
                    StatusView { code: Code::Internal, message: "create target: "@ + e@ },
                ),
            )
            &&& b.resume(ok) matches Progress::Next(c)
            &&& c.effect() matches EffectView::Mount { spec }
            &&& spec.name == volume_name(req.volume_context, id)
            &&& spec.target == req.target_path
            &&& spec.upper == cfg.upper_dir(id)
            &&& spec.control_socket == cfg.control_socket(id)
            &&& spec.access_mode == effective_mode(params, req.readonly)
            &&& params.lifecycle matches Some(l) ==> spec.lifecycle == l
            &&& params.lifecycle is None ==> spec.lifecycle == Lifecycle::Persistent
            &&& spec.owner == params.owner
            &&& spec.lower_blobs == pulled_files(pulled)
            &&& c.resume(Reply::Mounted(Err(x))) == Progress::<PublishView, _>::Done(
                Err::<(), _>(
                    StatusView {
                        code: Code::Internal,
                        message: "rspacefs-mount: "@ + x@.text(),
                    },
                ),
            )
            &&& c.resume(Reply::Mounted(Ok(()))) matches Progress::Next(d)
            &&& d.effect() == (EffectView::CreateParent { path: cfg.state_path(id) })
            &&& d.resume(Reply::Done(Err(e))) == done
            &&& d.resume(ok) matches Progress::Next(f)
            &&& f.effect() == (EffectView::WriteFile {
                path: cfg.state_path(id),
                bytes: outside::json_of(req.volume_context),
            })
            &&& f.resume(Reply::Done(recorded)) == done
        }),
{
    let n = pulled.len() as int;
    lemma_pulled(cfg, req, m, pulled, n);
    assert(pulled.take(n) =~= pulled);
}

/// An unpublish is refused at the start if and only if it names no volume or no
/// target; otherwise it begins with the record of the volume.
pub proof fn law_unpublish_begins(cfg: ConfigView, req: NodeUnpublishVolumeRequestView)
    ensures
        req.volume_id.len() == 0 ==> unpublish_start(cfg, req) == Progress::<
            UnpublishView,
            _,
        >::Done(
            Err::<(), _>(
                StatusView { code: Code::InvalidArgument, message: "volume_id is required"@ },
            ),
        ),
        req.volume_id.len() > 0 && req.target_path.len() == 0 ==> unpublish_start(cfg, req)
            == Progress::<UnpublishView, _>::Done(
            Err::<(), _>(
                StatusView { code: Code::InvalidArgument, message: "target_path is required"@ },
            ),
        ),
        req.volume_id.len() > 0 && req.target_path.len() > 0 ==> (unpublish_start(
            cfg,
            req,
        ) matches Progress::Next(m) && m.effect() == (EffectView::ReadFile {
            path: cfg.state_path(req.volume_id),
        })),
{
}

/// Whether an unpublish goes on with unmounting the target.
pub open spec fn unmounts(
    p: Progress<UnpublishView, Result<(), StatusView>>,
    target: Seq<char>,
) -> bool {
    p matches Progress::Next(k) && k.effect() == (EffectView::Unmount { target })
}

/// How an unpublish goes, by the record of the volume. It is unmounted at once
/// where there is no record, or one that cannot be read or parsed, or that does
/// not ask for a freeze. Where a freeze is asked for and there is no repository for
/// it, the unpublish fails; else it is begun.
pub proof fn law_unpublish_goes_by_the_record(
    cfg: ConfigView,
    req: NodeUnpublishVolumeRequestView,
    m: UnpublishView,
    bytes: Vec<u8>,
)
    requires
        unpublish_start(cfg, req) == Progress::<_, Result<(), StatusView>>::Next(m),
    ensures
        ({
            let read = m.resume(Reply::Contents(Some(bytes)));
            &&& unmounts(m.resume(Reply::Contents(None)), req.target_path)
            &&& match outside::map_of_json(bytes@) {
                None => unmounts(read, req.target_path),
                Some(ctx) => match params_of(ctx) {
                    Err(_) => unmounts(read, req.target_path),
                    Ok(params) => {
                        &&& !params.capture_on_delete ==> unmounts(read, req.target_path)
                        &&& params.capture_on_delete && params.repo() is None ==> read
                            == Progress::<UnpublishView, _>::Done(
                            Err::<(), _>(
                                StatusView {
                                    code: Code::FailedPrecondition,
                                    message:
                                        "captureOnDelete set but no captureRepo and no seed to derive one from"@,
                                },
                            ),
                        )
                        &&& params.capture_on_delete && params.repo() is Some ==> (
                        read matches Progress::Next(k) && k.effect() == (EffectView::CreateParent {
                            path: cfg.capture_staging(req.volume_id),
                        }))
                    },
                },
            }
        }),
{
}

/// A freeze at unpublish that fails leaves the volume mounted, and fails the
/// unpublish.
pub proof fn law_failed_freeze_fails_the_unpublish(
    m: UnpublishView,
    ctx: Map<Seq<char>, Seq<char>>,
    made: Result<(), String>,
    data: CaptureData,
    c: ControlError,
    p: RegistryError,
)
    requires
        wants_capture(Some(ctx)),
        params_of(ctx)->Ok_0.repo() is Some,
    ensures
        ({
            &&& m.with_context(Some(ctx)) matches Progress::Next(k)
            &&& k.resume(Reply::Done(made)) matches Progress::Next(a)
            &&& a.resume(Reply::Captured(Err(c))) == Progress::<UnpublishView, _>::Done(
                Err::<(), _>(
                    StatusView {
                        code: Code::Internal,
                        message: "capture-on-delete: "@ + ("capture: "@ + c@.text()),
                    },
                ),
            )
            &&& a.resume(Reply::Captured(Ok(data))) matches Progress::Next(b)
            &&& b.resume(Reply::Pushed(Err(p))) == Progress::<UnpublishView, _>::Done(
                Err::<(), _>(
                    StatusView {
                        code: Code::Internal,
                        message: "capture-on-delete: "@ + ("push: "@ + p@.text()),
                    },
                ),
            )
        }),
{
}

/// A recorded context asks for a freeze when its parameters parse and say so.
pub proof fn law_wants_capture(ctx: Map<Seq<char>, Seq<char>>)
    ensures
        wants_capture(Some(ctx)) <==> (params_of(ctx) matches Ok(params)
            && params.capture_on_delete),
        !wants_capture(None),
{
}

/// When a volume is unmounted, its target and its record are removed, which may
/// fail; a volume that cannot be unmounted fails the unpublish.
pub proof fn law_unmount_outcomes(
    k: UnpublishView,
    x: MountError,
    removed: Result<(), String>,
    forgotten: Result<(), String>,
)
    requires
        k.effect() is Unmount,
    ensures
        ({
            &&& k.effect() == (EffectView::Unmount { target: k.req.target_path })
            &&& k.resume(Reply::Mounted(Err(x))) == Progress::<UnpublishView, _>::Done(
                Err::<(), _>(
                    StatusView { code: Code::Internal, message: "unmount: "@ + x@.text() },
                ),
            )
            &&& k.resume(Reply::Mounted(Ok(()))) matches Progress::Next(a)
            &&& a.effect() == (EffectView::RemoveDir { path: k.req.target_path })
            &&& a.resume(Reply::Done(removed)) matches Progress::Next(b)
            &&& b.effect() == (EffectView::RemoveFile { path: k.cfg.state_path(k.req.volume_id) })
            &&& b.resume(Reply::Done(forgotten)) == Progress::<UnpublishView, _>::Done(
                Ok::<(), StatusView>(()),
            )
        }),
{
}

/// Whether a reply is of the kind that comes of what was asked for.
pub open spec fn answers(effect: EffectView, reply: Reply) -> bool {
    match effect {
        EffectView::Resolve { .. } => reply is Resolved,
        EffectView::Pull { .. } => reply is Pulled,
        EffectView::Push { .. } => reply is Pushed,
        EffectView::Capture { .. } => reply is Captured,
        EffectView::ReadFile { .. } => reply is Contents,
        EffectView::Probe { .. } => reply is Present,
        EffectView::Mount { .. } => reply is Mounted,
        EffectView::Unmount { .. } => reply is Mounted,
        EffectView::Clock => reply is Time,
        _ => reply is Done,
    }
}

/// A reply that a publish or an unpublish does not wait for changes nothing.
pub proof fn law_node_ignores_strays(p: PublishView, u: UnpublishView, reply: Reply)
    ensures
        !answers(p.effect(), reply) ==> p.resume(reply) == Progress::<
            _,
            Result<(), StatusView>,
        >::Next(p),
        !answers(u.effect(), reply) ==> u.resume(reply) == Progress::<
            _,
            Result<(), StatusView>,
        >::Next(u),
{
}

/// What the operations of publishing come to. What is recorded reads back as the
/// volume's context.
pub proof fn law_publish_operations(
    svc: &NodeService,
    req: NodePublishVolumeRequest,
    p: Progress<Publish, Result<(), Status>>,
    m: Publish,
    reply: Reply,
    e: Effect,
    spec: MountSpec,
)
    ensures
        call_ensures(NodeService::node_publish_volume, (svc, req), p) ==> publish_start(
            svc.cfg@,
            req@,
        ) == (match p {
            Progress::Next(n) => Progress::Next(n@),
            Progress::Done(Ok(_)) => Progress::Done(Ok(())),
            Progress::Done(Err(x)) => Progress::Done(Err(x@)),
        }),
        call_ensures(Publish::effect, (&m,), e) ==> e@ == m@.effect(),
        call_ensures(Publish::effect, (&m,), e) ==> (e matches Effect::WriteFile { bytes, .. }
            ==> outside::map_of_json(bytes@) == Some(m@.req.volume_context)),
        call_ensures(Publish::resume, (m, reply), p) ==> m@.resume(reply) == (match p {
            Progress::Next(n) => Progress::Next(n@),
            Progress::Done(Ok(_)) => Progress::Done(Ok(())),
            Progress::Done(Err(x)) => Progress::Done(Err(x@)),
        }),
        call_ensures(Publish::mount_spec, (&m,), spec) ==> spec@ == m@.spec_of_mount(),
{
}

/// What the operations of unpublishing come to.
pub proof fn law_unpublish_operations(
    svc: &NodeService,
    req: NodeUnpublishVolumeRequest,
    p: Progress<Unpublish, Result<(), Status>>,
    m: Unpublish,
    reply: Reply,
    e: Effect,
    ctx: Option<ParamMap>,
)
    ensures
        call_ensures(NodeService::node_unpublish_volume, (svc, req), p) ==> unpublish_start(
            svc.cfg@,
            req@,
        ) == (match p {
            Progress::Next(n) => Progress::Next(n@),
            Progress::Done(Ok(_)) => Progress::Done(Ok(())),
            Progress::Done(Err(x)) => Progress::Done(Err(x@)),
        }),
        call_ensures(Unpublish::effect, (&m,), e) ==> e@ == m@.effect(),
        call_ensures(Unpublish::resume, (m, reply), p) ==> m@.resume(reply) == (match p {
            Progress::Next(n) => Progress::Next(n@),
            Progress::Done(Ok(_)) => Progress::Done(Ok(())),
            Progress::Done(Err(x)) => Progress::Done(Err(x@)),
        }),
        call_ensures(Unpublish::with_context, (m, ctx), p) ==> m@.with_context(
            match ctx {
                Some(c) => Some(c@),
                None => None,
            },
        ) == (match p {
            Progress::Next(n) => Progress::Next(n@),
            Progress::Done(Ok(_)) => Progress::Done(Ok(())),
            Progress::Done(Err(x)) => Progress::Done(Err(x@)),
        }),
{
}

/// What the other operations of a node come to: it tells its name and sets no
/// limit, offers staging, which does nothing, and refuses what it does not offer.
pub proof fn law_node_operations(
    svc: &NodeService,
    info: NodeGetInfoResponse,
    rpcs: Vec<NodeRpc>,
    r: Result<(), Status>,
    s: &str,
    tag: String,
    params: &PvcParams,
    readonly: bool,
    mode: AccessMode,
)
    ensures
        call_ensures(NodeService::node_get_info, (svc,), info) ==> info.node_id@
            == svc.cfg.node_id@ && info.max_volumes_per_node == 0,
        call_ensures(NodeService::node_get_capabilities, (svc,), rpcs) ==> rpcs@.len() == 1
            && rpcs@[0] == NodeRpc::StageUnstageVolume,
        call_ensures(NodeService::node_stage_volume, (svc,), r) ==> r is Ok,
        call_ensures(NodeService::node_unstage_volume, (svc,), r) ==> r is Ok,
        call_ensures(NodeService::node_get_volume_stats, (svc,), r) ==> (r matches Err(e) && e@
            == StatusView {
            code: Code::Unimplemented,
            message: "GET_VOLUME_STATS is not advertised"@,
        }),
        call_ensures(NodeService::node_expand_volume, (svc,), r) ==> (r matches Err(e) && e@
            == StatusView {
            code: Code::Unimplemented,
            message: "EXPAND_VOLUME is not advertised"@,
        }),
        call_ensures(sanitize_tag, (s,), tag) ==> tag@ == sanitized(s@),
        call_ensures(effective_access_mode, (params, readonly), mode) ==> mode == effective_mode(
            params@,
            readonly,
        ),
{
}

/// A volume that is unpublished is frozen through its own control socket and
/// staging file, to the tag made of its name in the repository for captures; where
/// there is none, it is refused.
pub proof fn law_unpublish_freeze(
    cfg: ConfigView,
    id: Seq<char>,
    ctx: Map<Seq<char>, Seq<char>>,
    params: PvcParamsView,
)
    ensures
        params.repo() matches Some(repo) ==> (unpublish_freeze(cfg, id, ctx, params) matches Ok(m)
            && m.socket == cfg.control_socket(id) && m.staging == cfg.capture_staging(id)
            && m.target_ref == repo + ":"@ + sanitized(volume_name(ctx, id)) && m.at is MakeDir),
        params.repo() is None ==> (unpublish_freeze(cfg, id, ctx, params) matches Err(e) && e.code
            == Code::FailedPrecondition && e.message
            == "captureOnDelete set but no captureRepo and no seed to derive one from"@),
{
}

/// What freezing at unpublish comes to, and what a service is made with.
pub proof fn law_freeze_on_unpublish(
    cfg: &Config,
    id: &str,
    ctx: &ParamMap,
    params: &PvcParams,
    r: Result<Freeze, Status>,
    made_with: Config,
    svc: NodeService,
)
    ensures
        call_ensures(freeze_on_unpublish, (cfg, id, ctx, params), r) ==> unpublish_freeze(
            cfg@,
            id@,
            ctx@,
            params@,
        ) == (match r {
            Ok(m) => Ok(m@),
            Err(e) => Err(e@),
        }),
        call_ensures(NodeService::new, (made_with,), svc) ==> svc.cfg@ == made_with@,
{
}

} // verus!
