//! The controller service: the data-artifact side of the driver. Creating a
//! volume checks its seeds; a snapshot freezes a live volume into a new
//! revision; deleting releases nothing, for there is no state on this side.
//!
//! A snapshot takes the volume's control socket, which is on the node that
//! hosts the volume: elsewhere it is refused.

use crate::control::{CaptureData, ControlError};
use crate::driver::{Config, ConfigView};
use crate::effect::{Effect, EffectView, Reply};
use crate::freeze::{freeze_and_push, freeze_start, pushed, Freeze, FreezeAtView, FreezeView};
use crate::map::ParamMap;
use crate::node::{answers, law_tag_is_valid, sanitize_tag, sanitized, status_result, volume_name};
use crate::params::{
    law_context_reads_back, law_parsed_seeds_are_items, lemma_keys_differ,
    law_unknown_key_is_ignored, lookup, params_of, ParamErrorView, PvcParams, PvcParamsView,
    CAPTURE_REPO, VOLUME_NAME,
};
use crate::registry::{
    law_tagged_repo_is_a_reference, reference_of, ReferenceView, RegistryError, RegistryErrorView,
};
use crate::status::{lemma_run_push, run, Code, Progress, Status, StatusView, Steps};
use crate::text;
use vstd::prelude::*;

verus! {

/// An RPC of the controller service that it may advertise.
#[derive(Debug, Clone, Copy, PartialEq, Eq, Structural)]
pub enum ControllerRpc {
    CreateDeleteVolume,
    CreateDeleteSnapshot,
}

// ---- creating a volume ---------------------------------------------------

/// What a volume is to be filled from.
#[derive(Debug)]
pub enum VolumeContentSource {
    /// A snapshot, by its id.
    Snapshot(String),
    /// Another volume, by its id.
    Volume(String),
    /// A source of no kind.
    Unset,
}

/// What a [`VolumeContentSource`] says.
pub enum VolumeContentSourceView {
    Snapshot(Seq<char>),
    Volume(Seq<char>),
    Unset,
}

impl View for VolumeContentSource {
    type V = VolumeContentSourceView;

    open spec fn view(&self) -> VolumeContentSourceView {
        match self {
            VolumeContentSource::Snapshot(id) => VolumeContentSourceView::Snapshot(id@),
            VolumeContentSource::Volume(id) => VolumeContentSourceView::Volume(id@),
            VolumeContentSource::Unset => VolumeContentSourceView::Unset,
        }
    }
}

impl DeepView for VolumeContentSource {
    type V = VolumeContentSourceView;

    open spec fn deep_view(&self) -> VolumeContentSourceView {
        self@
    }
}

/// How large a volume is to be.
#[derive(Debug, Clone, Copy)]
pub struct CapacityRange {
    pub required_bytes: i64,
    pub limit_bytes: i64,
}

/// What `CreateVolume` is asked.
pub struct CreateVolumeRequest {
    pub name: String,
    pub capacity_range: Option<CapacityRange>,
    /// How many capabilities the request states.
    pub volume_capabilities: usize,
    pub parameters: ParamMap,
    pub volume_content_source: Option<VolumeContentSource>,
}

/// What a [`CreateVolumeRequest`] says.
#[verifier::ext_equal]
pub struct CreateVolumeRequestView {
    pub name: Seq<char>,
    pub capacity_range: Option<CapacityRange>,
    pub volume_capabilities: usize,
    pub parameters: Map<Seq<char>, Seq<char>>,
    pub volume_content_source: Option<VolumeContentSourceView>,
}

impl View for CreateVolumeRequest {
    type V = CreateVolumeRequestView;

    open spec fn view(&self) -> CreateVolumeRequestView {
        CreateVolumeRequestView {
            name: self.name@,
            capacity_range: self.capacity_range,
            volume_capabilities: self.volume_capabilities,
            parameters: self.parameters@,
            volume_content_source: self.volume_content_source.deep_view(),
        }
    }
}

/// A volume that was created.
pub struct Volume {
    pub capacity_bytes: i64,
    pub volume_id: String,
    pub volume_context: ParamMap,
    pub content_source: Option<VolumeContentSource>,
}

/// What a [`Volume`] says.
#[verifier::ext_equal]
pub struct VolumeView {
    pub capacity_bytes: i64,
    pub volume_id: Seq<char>,
    pub volume_context: Map<Seq<char>, Seq<char>>,
    pub content_source: Option<VolumeContentSourceView>,
}

impl View for Volume {
    type V = VolumeView;

    open spec fn view(&self) -> VolumeView {
        VolumeView {
            capacity_bytes: self.capacity_bytes,
            volume_id: self.volume_id@,
            volume_context: self.volume_context@,
            content_source: self.content_source.deep_view(),
        }
    }
}

/// The larger bound of a capacity range; 0 where there is none.
pub open spec fn capacity_of(range: Option<CapacityRange>) -> i64 {
    match range {
        Some(c) => if c.required_bytes >= c.limit_bytes {
            c.required_bytes
        } else {
            c.limit_bytes
        },
        None => 0,
    }
}

/// The parameters with the seed that the content source adds: a snapshot is a
/// further lower layer.
pub open spec fn with_source(
    params: PvcParamsView,
    source: Option<VolumeContentSourceView>,
) -> PvcParamsView {
    match source {
        Some(VolumeContentSourceView::Snapshot(id)) => PvcParamsView {
            seeds: params.seeds.push(id),
            ..params
        },
        _ => params,
    }
}

/// The volume that a request comes to: its id is its name, and its context
/// states its parameters and its name.
pub open spec fn volume_of(req: CreateVolumeRequestView, params: PvcParamsView) -> VolumeView {
    VolumeView {
        capacity_bytes: capacity_of(req.capacity_range),
        volume_id: req.name,
        volume_context: params.context().insert(VOLUME_NAME@, req.name),
        content_source: req.volume_content_source,
    }
}

/// Creates a volume: checks each of its seeds in turn.
pub struct CreateVolume {
    req: CreateVolumeRequest,
    params: PvcParams,
    /// How many seeds are checked.
    checked: usize,
}

/// What a [`CreateVolume`] says.
#[verifier::ext_equal]
pub struct CreateVolumeView {
    pub req: CreateVolumeRequestView,
    pub params: PvcParamsView,
    pub checked: nat,
}

impl View for CreateVolume {
    type V = CreateVolumeView;

    closed spec fn view(&self) -> CreateVolumeView {
        CreateVolumeView { req: self.req@, params: self.params@, checked: self.checked as nat }
    }
}

/// `r` with what it holds replaced by what that says.
pub open spec fn volume_result(r: Result<Volume, Status>) -> Result<VolumeView, StatusView> {
    match r {
        Ok(v) => Ok(v@),
        Err(e) => Err(e@),
    }
}

impl CreateVolumeView {
    /// What the creation asks for in this state.
    pub open spec fn effect(self) -> EffectView {
        EffectView::Resolve { seed: self.params.seeds[self.checked as int] }
    }

    /// On to the next seed; past the last one, the volume is there.
    pub open spec fn next(self) -> Progress<CreateVolumeView, Result<VolumeView, StatusView>> {
        if self.checked < self.params.seeds.len() {
            Progress::Next(self)
        } else {
            Progress::Done(Ok(volume_of(self.req, self.params)))
        }
    }
}

impl Steps for CreateVolumeView {
    type Reply = Reply;

    type Out = Result<VolumeView, StatusView>;

    /// How the creation goes on. A reply that the state does not wait for
    /// changes nothing.
    open spec fn resume(self, reply: Reply) -> Progress<
        CreateVolumeView,
        Result<VolumeView, StatusView>,
    > {
        match reply {
            Reply::Resolved(Err(e)) => Progress::Done(
                Err(
                    StatusView::failed_precondition(
                        "seed "@ + self.params.seeds[self.checked as int] + ": "@ + e@.text(),
                    ),
                ),
            ),
            Reply::Resolved(Ok(_)) => (CreateVolumeView {
                checked: self.checked + 1,
                ..self
            }).next(),
            _ => Progress::Next(self),
        }
    }
}

/// `p` with what it holds replaced by what that says.
pub open spec fn create_progress(p: Progress<CreateVolume, Result<Volume, Status>>) -> Progress<
    CreateVolumeView,
    Result<VolumeView, StatusView>,
> {
    match p {
        Progress::Next(m) => Progress::Next(m@),
        Progress::Done(r) => Progress::Done(volume_result(r)),
    }
}

/// How creating a volume begins.
pub open spec fn create_start(req: CreateVolumeRequestView) -> Progress<
    CreateVolumeView,
    Result<VolumeView, StatusView>,
> {
    if req.name.len() == 0 {
        Progress::Done(Err(StatusView::invalid_argument("name is required"@)))
    } else if req.volume_capabilities == 0 {
        Progress::Done(Err(StatusView::invalid_argument("volume_capabilities is required"@)))
    } else {
        match params_of(req.parameters) {
            Err(e) => Progress::Done(Err(StatusView::invalid_argument(e.text()))),
            Ok(params) => (CreateVolumeView {
                req,
                params: with_source(params, req.volume_content_source),
                checked: 0,
            }).next(),
        }
    }
}

/// The larger bound of a capacity range; 0 where there is none.
pub fn capacity_bytes(range: Option<CapacityRange>) -> (r: i64)
    ensures
        r == capacity_of(range),
{
    match range {
        Some(c) => if c.required_bytes >= c.limit_bytes {
            c.required_bytes
        } else {
            c.limit_bytes
        },
        None => 0,
    }
}

fn created(req: CreateVolumeRequest, params: &PvcParams) -> (r: Volume)
    ensures
        r@ == volume_of(req@, params@),
{
    let CreateVolumeRequest {
        name,
        capacity_range,
        volume_capabilities: _,
        parameters: _,
        volume_content_source,
    } = req;
    let mut volume_context = params.to_volume_context();
    volume_context.insert(VOLUME_NAME.to_string(), name.clone());
    Volume {
        capacity_bytes: capacity_bytes(capacity_range),
        volume_id: name,
        volume_context,
        content_source: volume_content_source,
    }
}

impl CreateVolume {
    #[verifier::type_invariant]
    spec fn wf(self) -> bool {
        self.checked < self.params.seeds@.len()
    }

    /// What the creation asks for in this state.
    pub fn effect(&self) -> (r: Effect)
        ensures
            r@ == self@.effect(),
    {
        proof {
            use_type_invariant(self);
        }
        Effect::Resolve { seed: self.params.seeds[self.checked].clone() }
    }

    /// How the creation goes on. A reply that the state does not wait for
    /// changes nothing.
    pub fn resume(self, reply: Reply) -> (r: Progress<CreateVolume, Result<Volume, Status>>)
        ensures
            create_progress(r) == self@.resume(reply),
    {
        proof {
            use_type_invariant(&self);
        }
        let CreateVolume { req, params, checked } = self;
        match reply {
            Reply::Resolved(Err(e)) => {
                let message = "seed ".to_string().concat(params.seeds[checked].as_str()).concat(
                    ": ",
                ).concat(e.message().as_str());
                Progress::Done(Err(Status::failed_precondition(message.as_str())))
            },
            Reply::Resolved(Ok(_)) => {
                let seeds: usize = params.seeds.len();
                let checked: usize = checked + 1;
                if checked < seeds {
                    Progress::Next(CreateVolume { req, params, checked })
                } else {
                    Progress::Done(Ok(created(req, &params)))
                }
            },
            _ => Progress::Next(CreateVolume { req, params, checked }),
        }
    }
}

// ---- snapshots -----------------------------------------------------------

/// What `CreateSnapshot` is asked.
pub struct CreateSnapshotRequest {
    pub source_volume_id: String,
    pub name: String,
    pub parameters: ParamMap,
}

/// What a [`CreateSnapshotRequest`] says.
#[verifier::ext_equal]
pub struct CreateSnapshotRequestView {
    pub source_volume_id: Seq<char>,
    pub name: Seq<char>,
    pub parameters: Map<Seq<char>, Seq<char>>,
}

impl View for CreateSnapshotRequest {
    type V = CreateSnapshotRequestView;

    open spec fn view(&self) -> CreateSnapshotRequestView {
        CreateSnapshotRequestView {
            source_volume_id: self.source_volume_id@,
            name: self.name@,
            parameters: self.parameters@,
        }
    }
}

/// A point in time, as seconds and nanoseconds since 1970.
#[derive(Debug, Clone, Copy, PartialEq, Eq, Structural)]
pub struct Timestamp {
    pub seconds: i64,
    pub nanos: i32,
}

/// The point in time that a clock shows.
pub open spec fn timestamp_of(seconds: u64, nanos: u32) -> Timestamp {
    Timestamp { seconds: seconds as i64, nanos: nanos as i32 }
}

/// A snapshot that was taken.
pub struct Snapshot {
    pub size_bytes: i64,
    pub snapshot_id: String,
    pub source_volume_id: String,
    pub creation_time: Timestamp,
    pub ready_to_use: bool,
    pub group_snapshot_id: String,
}

/// What a [`Snapshot`] says.
#[verifier::ext_equal]
pub struct SnapshotView {
    pub size_bytes: i64,
    pub snapshot_id: Seq<char>,
    pub source_volume_id: Seq<char>,
    pub creation_time: Timestamp,
    pub ready_to_use: bool,
    pub group_snapshot_id: Seq<char>,
}

impl View for Snapshot {
    type V = SnapshotView;

    open spec fn view(&self) -> SnapshotView {
        SnapshotView {
            size_bytes: self.size_bytes,
            snapshot_id: self.snapshot_id@,
            source_volume_id: self.source_volume_id@,
            creation_time: self.creation_time,
            ready_to_use: self.ready_to_use,
            group_snapshot_id: self.group_snapshot_id@,
        }
    }
}

/// The repository that a snapshot goes to: the parameter, else `pvcs/<volume>`
/// in the configured registry, if there is one.
pub open spec fn snapshot_repo(
    cfg: ConfigView,
    params: Map<Seq<char>, Seq<char>>,
    source_volume_id: Seq<char>,
) -> Option<Seq<char>> {
    match lookup(params, CAPTURE_REPO@) {
        Some(repo) => Some(repo),
        None => match cfg.capture_registry {
            Some(registry) => Some(registry + "/pvcs/"@ + source_volume_id),
            None => None,
        },
    }
}

/// Where a snapshot is pushed to: the tag made of its name in its repository,
/// which must be known.
pub open spec fn target_of(
    cfg: ConfigView,
    params: Map<Seq<char>, Seq<char>>,
    source_volume_id: Seq<char>,
    name: Seq<char>,
) -> Result<Seq<char>, StatusView> {
    match snapshot_repo(cfg, params, source_volume_id) {
        Some(repo) => Ok(repo + ":"@ + sanitized(name)),
        None => Err(
            StatusView::failed_precondition(
                "no captureRepo parameter and no --capture-registry configured"@,
            ),
        ),
    }
}

/// Where a [`CreateSnapshot`] stands: what it waits for.
pub enum SnapshotAt {
    /// Waits to learn whether the volume's control socket is there.
    Probe,
    Freeze(Freeze),
    /// Waits for the time, once this was pushed.
    Stamp(String),
}

/// What a [`SnapshotAt`] says.
pub enum SnapshotAtView {
    Probe,
    Freeze(FreezeView),
    Stamp(Seq<char>),
}

impl View for SnapshotAt {
    type V = SnapshotAtView;

    open spec fn view(&self) -> SnapshotAtView {
        match self {
            SnapshotAt::Probe => SnapshotAtView::Probe,
            SnapshotAt::Freeze(m) => SnapshotAtView::Freeze(m@),
            SnapshotAt::Stamp(id) => SnapshotAtView::Stamp(id@),
        }
    }
}

/// Takes a snapshot of a volume that is mounted on this host.
pub struct CreateSnapshot {
    pub cfg: Config,
    pub source_volume_id: String,
    pub target_ref: String,
    pub at: SnapshotAt,
}

/// What a [`CreateSnapshot`] says.
#[verifier::ext_equal]
pub struct CreateSnapshotView {
    pub cfg: ConfigView,
    pub source_volume_id: Seq<char>,
    pub target_ref: Seq<char>,
    pub at: SnapshotAtView,
}

impl View for CreateSnapshot {
    type V = CreateSnapshotView;

    open spec fn view(&self) -> CreateSnapshotView {
        CreateSnapshotView {
            cfg: self.cfg@,
            source_volume_id: self.source_volume_id@,
            target_ref: self.target_ref@,
            at: self.at@,
        }
    }
}

/// `r` with what it holds replaced by what that says.
pub open spec fn snapshot_result(r: Result<Snapshot, Status>) -> Result<SnapshotView, StatusView> {
    match r {
        Ok(s) => Ok(s@),
        Err(e) => Err(e@),
    }
}

impl CreateSnapshotView {
    /// What the snapshot asks for in this state.
    pub open spec fn effect(self) -> EffectView {
        match self.at {
            SnapshotAtView::Probe => EffectView::Probe {
                path: self.cfg.control_socket(self.source_volume_id),
            },
            SnapshotAtView::Freeze(m) => m.effect(),
            SnapshotAtView::Stamp(_) => EffectView::Clock,
        }
    }

    /// The snapshot at another point.
    pub open spec fn to(self, at: SnapshotAtView) -> Progress<
        CreateSnapshotView,
        Result<SnapshotView, StatusView>,
    > {
        Progress::Next(CreateSnapshotView { at, ..self })
    }
}

impl Steps for CreateSnapshotView {
    type Reply = Reply;

    type Out = Result<SnapshotView, StatusView>;

    /// How the snapshot goes on. A reply that the state does not wait for
    /// changes nothing.
    open spec fn resume(self, reply: Reply) -> Progress<
        CreateSnapshotView,
        Result<SnapshotView, StatusView>,
    > {
        match (self.at, reply) {
            (SnapshotAtView::Probe, Reply::Present(present)) => if present {
                self.to(
                    SnapshotAtView::Freeze(
                        freeze_start(
                            self.cfg.control_socket(self.source_volume_id),
                            self.cfg.capture_staging(self.source_volume_id),
                            self.target_ref,
                        ),
                    ),
                )
            } else {
                Progress::Done(
                    Err(
                        StatusView::failed_precondition(
                            "volume "@ + self.source_volume_id
                                + " is not mounted on this host; take the snapshot from the node hosting it"@,
                        ),
                    ),
                )
            },
            (SnapshotAtView::Freeze(m), _) => match m.resume(reply) {
                Progress::Next(k) => self.to(SnapshotAtView::Freeze(k)),
                Progress::Done(Ok(id)) => self.to(SnapshotAtView::Stamp(id)),
                Progress::Done(Err(e)) => Progress::Done(
                    Err(StatusView::internal("snapshot: "@ + e.text())),
                ),
            },
            (SnapshotAtView::Stamp(snapshot_id), Reply::Time { seconds, nanos }) => Progress::Done(
                Ok(
                    SnapshotView {
                        size_bytes: 0,
                        snapshot_id,
                        source_volume_id: self.source_volume_id,
                        creation_time: timestamp_of(seconds, nanos),
                        ready_to_use: true,
                        group_snapshot_id: ""@,
                    },
                ),
            ),
            _ => Progress::Next(self),
        }
    }
}

/// `p` with what it holds replaced by what that says.
pub open spec fn snapshot_progress(
    p: Progress<CreateSnapshot, Result<Snapshot, Status>>,
) -> Progress<CreateSnapshotView, Result<SnapshotView, StatusView>> {
    match p {
        Progress::Next(m) => Progress::Next(m@),
        Progress::Done(r) => Progress::Done(snapshot_result(r)),
    }
}

/// How taking a snapshot begins.
pub open spec fn snapshot_start(cfg: ConfigView, req: CreateSnapshotRequestView) -> Progress<
    CreateSnapshotView,
    Result<SnapshotView, StatusView>,
> {
    if req.source_volume_id.len() == 0 {
        Progress::Done(Err(StatusView::invalid_argument("source_volume_id is required"@)))
    } else if req.name.len() == 0 {
        Progress::Done(Err(StatusView::invalid_argument("name is required"@)))
    } else {
        match target_of(cfg, req.parameters, req.source_volume_id, req.name) {
            Err(e) => Progress::Done(Err(e)),
            Ok(target_ref) => Progress::Next(
                CreateSnapshotView {
                    cfg,
                    source_volume_id: req.source_volume_id,
                    target_ref,
                    at: SnapshotAtView::Probe,
                },
            ),
        }
    }
}

/// The point in time that a clock shows.
pub fn timestamp(seconds: u64, nanos: u32) -> (r: Timestamp)
    ensures
        r == timestamp_of(seconds, nanos),
{
    Timestamp { seconds: seconds as i64, nanos: nanos as i32 }
}

impl CreateSnapshot {
    /// What the snapshot asks for in this state.
    pub fn effect(&self) -> (r: Effect)
        ensures
            r@ == self@.effect(),
    {
        match &self.at {
            SnapshotAt::Probe => Effect::Probe {
                path: self.cfg.control_socket(self.source_volume_id.as_str()),
            },
            SnapshotAt::Freeze(m) => m.effect(),
            SnapshotAt::Stamp(_) => Effect::Clock,
        }
    }

    /// How the snapshot goes on. A reply that the state does not wait for
    /// changes nothing.
    pub fn resume(self, reply: Reply) -> (r: Progress<CreateSnapshot, Result<Snapshot, Status>>)
        ensures
            snapshot_progress(r) == self@.resume(reply),
    {
        let CreateSnapshot { cfg, source_volume_id, target_ref, at } = self;
        let at = match (at, reply) {
            (SnapshotAt::Probe, Reply::Present(present)) => {
                if !present {
                    let message = "volume ".to_string().concat(source_volume_id.as_str()).concat(
                        " is not mounted on this host; take the snapshot from the node hosting it",
                    );
                    return Progress::Done(Err(Status::failed_precondition(message.as_str())));
                }
                SnapshotAt::Freeze(
                    freeze_and_push(
                        cfg.control_socket(source_volume_id.as_str()).as_str(),
                        cfg.capture_staging(source_volume_id.as_str()).as_str(),
                        target_ref.as_str(),
                    ),
                )
            },
            (SnapshotAt::Freeze(m), reply) => match m.resume(reply) {
                Progress::Next(k) => SnapshotAt::Freeze(k),
                Progress::Done(Ok(id)) => SnapshotAt::Stamp(id),
                Progress::Done(Err(e)) => {
                    let message = "snapshot: ".to_string().concat(e.message().as_str());
                    return Progress::Done(Err(Status::internal(message.as_str())));
                },
            },
            (SnapshotAt::Stamp(snapshot_id), Reply::Time { seconds, nanos }) => {
                let snapshot = Snapshot {
                    size_bytes: 0,
                    snapshot_id,
                    source_volume_id,
                    creation_time: timestamp(seconds, nanos),
                    ready_to_use: true,
                    group_snapshot_id: "".to_string(),
                };
                return Progress::Done(Ok(snapshot));
            },
            (at, _) => at,
        };
        Progress::Next(CreateSnapshot { cfg, source_volume_id, target_ref, at })
    }
}

// ---- the service ---------------------------------------------------------

/// What `ValidateVolumeCapabilities` confirms: all that it was given.
pub struct Confirmed<C> {
    pub volume_context: ParamMap,
    pub volume_capabilities: Vec<C>,
    pub parameters: ParamMap,
    pub mutable_parameters: ParamMap,
    pub message: String,
}

/// The controller service.
#[derive(Debug)]
pub struct ControllerService {
    pub cfg: Config,
}

impl ControllerService {
    /// The service with this configuration.
    pub fn new(cfg: Config) -> (r: ControllerService)
        ensures
            r.cfg@ == cfg@,
    {
        ControllerService { cfg }
    }

    /// The RPCs that the controller service advertises.
    pub fn controller_get_capabilities(&self) -> (r: Vec<ControllerRpc>)
        ensures
            r@ == seq![ControllerRpc::CreateDeleteVolume, ControllerRpc::CreateDeleteSnapshot],
    {
        let r = vec![ControllerRpc::CreateDeleteVolume, ControllerRpc::CreateDeleteSnapshot];
        assert(r@ =~= seq![ControllerRpc::CreateDeleteVolume, ControllerRpc::CreateDeleteSnapshot]);
        r
    }

    /// Begins to create a volume.
    pub fn create_volume(&self, req: CreateVolumeRequest) -> (r: Progress<
        CreateVolume,
        Result<Volume, Status>,
    >)
        ensures
            create_progress(r) == create_start(req@),
    {
        if req.name.as_str().is_empty() {
            return Progress::Done(Err(Status::invalid_argument("name is required")));
        }
        if req.volume_capabilities == 0 {
            return Progress::Done(Err(Status::invalid_argument("volume_capabilities is required")));
        }
        let mut params = match PvcParams::parse(&req.parameters) {
            Ok(params) => params,
            Err(e) => {
                return Progress::Done(Err(Status::invalid_argument(e.message().as_str())));
            },
        };
        let ghost parsed = params@;
        if let Some(VolumeContentSource::Snapshot(id)) = &req.volume_content_source {
            params.seeds.push(id.clone());
            assert(params@.seeds =~= parsed.seeds.push(id@));
        }
        assert(params@ == with_source(parsed, req@.volume_content_source));
        if params.seeds.len() > 0 {
            Progress::Next(CreateVolume { req, params, checked: 0 })
        } else {
            Progress::Done(Ok(created(req, &params)))
        }
    }

    /// Deletes a volume: there is nothing to release on this side.
    pub fn delete_volume(&self, volume_id: &str) -> (r: Result<(), Status>)
        ensures
            status_result(r) == (if volume_id@.len() == 0 {
                Err(StatusView::invalid_argument("volume_id is required"@))
            } else {
                Ok(())
            }),
    {
        if volume_id.is_empty() {
            return Err(Status::invalid_argument("volume_id is required"));
        }
        Ok(())
    }

    /// Where a snapshot is pushed to.
    pub fn snapshot_target(&self, params: &ParamMap, source_volume_id: &str, name: &str) -> (r:
        Result<String, Status>)
        ensures
            match r {
                Ok(s) => target_of(self.cfg@, params@, source_volume_id@, name@) == Ok::<
                    _,
                    StatusView,
                >(s@),
                Err(e) => target_of(self.cfg@, params@, source_volume_id@, name@) == Err::<
                    Seq<char>,
                    _,
                >(e@),
            },
    {
        let repo = match params.get(CAPTURE_REPO) {
            Some(repo) => repo.clone(),
            None => match &self.cfg.capture_registry {
                Some(registry) => registry.clone().concat("/pvcs/").concat(source_volume_id),
                None => {
                    return Err(
                        Status::failed_precondition(
                            "no captureRepo parameter and no --capture-registry configured",
                        ),
                    );
                },
            },
        };
        Ok(repo.concat(":").concat(sanitize_tag(name).as_str()))
    }

    /// Begins to take a snapshot.
    pub fn create_snapshot(&self, req: CreateSnapshotRequest) -> (r: Progress<
        CreateSnapshot,
        Result<Snapshot, Status>,
    >)
        ensures
            snapshot_progress(r) == snapshot_start(self.cfg@, req@),
    {
        if req.source_volume_id.as_str().is_empty() {
            return Progress::Done(Err(Status::invalid_argument("source_volume_id is required")));
        }
        if req.name.as_str().is_empty() {
            return Progress::Done(Err(Status::invalid_argument("name is required")));
        }
        match self.snapshot_target(
            &req.parameters,
            req.source_volume_id.as_str(),
            req.name.as_str(),
        ) {
            Err(e) => Progress::Done(Err(e)),
            Ok(target_ref) => Progress::Next(
                CreateSnapshot {
                    cfg: self.cfg.clone(),
                    source_volume_id: req.source_volume_id,
                    target_ref,
                    at: SnapshotAt::Probe,
                },
            ),
        }
    }

    /// Deletes a snapshot: the registry reclaims what nothing refers to.
    pub fn delete_snapshot(&self, snapshot_id: &str) -> (r: Result<(), Status>)
        ensures
            status_result(r) == (if snapshot_id@.len() == 0 {
                Err(StatusView::invalid_argument("snapshot_id is required"@))
            } else {
                Ok(())
            }),
    {
        if snapshot_id.is_empty() {
            return Err(Status::invalid_argument("snapshot_id is required"));
        }
        Ok(())
    }

    /// Confirms the capabilities of a volume as they were given.
    pub fn validate_volume_capabilities<C>(
        &self,
        volume_id: &str,
        volume_context: ParamMap,
        volume_capabilities: Vec<C>,
        parameters: ParamMap,
    ) -> (r: Result<Confirmed<C>, Status>)
        ensures
            match r {
                Ok(c) => {
                    &&& volume_id@.len() > 0
                    &&& c.volume_context@ == volume_context@
                    &&& c.volume_capabilities@ == volume_capabilities@
                    &&& c.parameters@ == parameters@
                    &&& c.mutable_parameters@ == Map::<Seq<char>, Seq<char>>::empty()
                    &&& c.message@ == ""@
                },
                Err(e) => volume_id@.len() == 0 && e@ == StatusView::invalid_argument(
                    "volume_id is required"@,
                ),
            },
    {
        if volume_id.is_empty() {
            return Err(Status::invalid_argument("volume_id is required"));
        }
        Ok(
            Confirmed {
                volume_context,
                volume_capabilities,
                parameters,
                mutable_parameters: ParamMap::new(),
                message: "".to_string(),
            },
        )
    }

    /// Not offered: there is no attach step.
    pub fn controller_publish_volume(&self) -> (r: Result<(), Status>)
        ensures
            status_result(r) == Err::<(), _>(
                StatusView::unimplemented(
                    "rspacefs has no attach step; PUBLISH_UNPUBLISH_VOLUME is not advertised"@,
                ),
            ),
    {
        Err(
            Status::unimplemented(
                "rspacefs has no attach step; PUBLISH_UNPUBLISH_VOLUME is not advertised",
            ),
        )
    }

    /// Not offered.
    pub fn controller_unpublish_volume(&self) -> (r: Result<(), Status>)
        ensures
            status_result(r) == Err::<(), _>(StatusView::unimplemented("not supported"@)),
    {
        Err(Status::unimplemented("not supported"))
    }

    /// Not offered.
    pub fn list_volumes(&self) -> (r: Result<(), Status>)
        ensures
            status_result(r) == Err::<(), _>(
                StatusView::unimplemented("LIST_VOLUMES is not advertised"@),
            ),
    {
        Err(Status::unimplemented("LIST_VOLUMES is not advertised"))
    }

    /// Not offered.
    pub fn get_capacity(&self) -> (r: Result<(), Status>)
        ensures
            status_result(r) == Err::<(), _>(
                StatusView::unimplemented("GET_CAPACITY is not advertised"@),
            ),
    {
        Err(Status::unimplemented("GET_CAPACITY is not advertised"))
    }

    /// Not offered.
    pub fn list_snapshots(&self) -> (r: Result<(), Status>)
        ensures
            status_result(r) == Err::<(), _>(
                StatusView::unimplemented("LIST_SNAPSHOTS is not advertised"@),
            ),
    {
        Err(Status::unimplemented("LIST_SNAPSHOTS is not advertised"))
    }

    /// Not offered.
    pub fn controller_expand_volume(&self) -> (r: Result<(), Status>)
        ensures
            status_result(r) == Err::<(), _>(
                StatusView::unimplemented("EXPAND_VOLUME is not advertised"@),
            ),
    {
        Err(Status::unimplemented("EXPAND_VOLUME is not advertised"))
    }

    /// Not offered.
    pub fn controller_get_volume(&self) -> (r: Result<(), Status>)
        ensures
            status_result(r) == Err::<(), _>(
                StatusView::unimplemented("GET_VOLUME is not advertised"@),
            ),
    {
        Err(Status::unimplemented("GET_VOLUME is not advertised"))
    }

    /// Not offered.
    pub fn controller_modify_volume(&self) -> (r: Result<(), Status>)
        ensures
            status_result(r) == Err::<(), _>(
                StatusView::unimplemented("MODIFY_VOLUME is not advertised"@),
            ),
    {
        Err(Status::unimplemented("MODIFY_VOLUME is not advertised"))
    }
}

// ---- laws ----------------------------------------------------------------

/// The seeds that were found to be there, in order.
pub open spec fn resolved(m: CreateVolumeView, replies: Seq<Reply>) -> Seq<Seq<char>>
    decreases replies.len(),
{
    if replies.len() == 0 {
        seq![]
    } else {
        let before = resolved(m, replies.drop_last());
        match run(m, replies.drop_last()) {
            Progress::Done(_) => before,
            Progress::Next(k) => match (k.effect(), replies.last()) {
                (EffectView::Resolve { seed }, Reply::Resolved(Ok(_))) => before.push(seed),
                _ => before,
            },
        }
    }
}

proof fn lemma_create_reached(m: CreateVolumeView, replies: Seq<Reply>)
    requires
        m.checked == 0,
        m.params.seeds.len() > 0,
    ensures
        run(m, replies) matches Progress::Next(k) ==> {
            &&& k == CreateVolumeView { checked: k.checked, ..m }
            &&& k.checked < m.params.seeds.len()
            &&& resolved(m, replies) == m.params.seeds.take(k.checked as int)
        },
        run(m, replies) matches Progress::Done(Ok(v)) ==> {
            &&& v == volume_of(m.req, m.params)
            &&& resolved(m, replies) == m.params.seeds
        },
    decreases replies.len(),
{
    let seeds = m.params.seeds;
    if replies.len() == 0 {
        assert(seeds.take(0) =~= seq![]);
    } else {
        let d = replies.drop_last();
        lemma_create_reached(m, d);
        if let Progress::Next(k) = run(m, d) {
            assert(seeds.take(k.checked as int).push(seeds[k.checked as int]) =~= seeds.take(
                k.checked + 1int,
            ));
            assert(seeds.take(seeds.len() as int) =~= seeds);
        }
    }
}

/// A volume is created only when each of its seeds was found to be there, and
/// then it is the one that the request asks for.
pub proof fn law_created_seeds_are_there(req: CreateVolumeRequestView, replies: Seq<Reply>)
    ensures
        create_start(req) matches Progress::Next(m) ==> (run(m, replies) matches Progress::Done(
            Ok(v),
        ) ==> {
            &&& resolved(m, replies) == m.params.seeds
            &&& m.params == with_source(
                params_of(req.parameters)->Ok_0,
                req.volume_content_source,
            )
            &&& v == volume_of(req, m.params)
        }),
{
    if let Progress::Next(m) = create_start(req) {
        lemma_create_reached(m, replies);
    }
}

/// Whether a content source is one whose id a seed list can carry: a snapshot
/// whose id is not blank and holds no separator, or no snapshot.
pub open spec fn source_carries(source: Option<VolumeContentSourceView>) -> bool {
    match source {
        Some(VolumeContentSourceView::Snapshot(id)) => text::is_item(id),
        _ => true,
    }
}

/// The node reads from the context of a created volume the parameters that the
/// controller checked, the snapshot that it was seeded from included, and the
/// volume's name.
pub proof fn law_context_replays_the_volume(
    req: CreateVolumeRequestView,
    params: PvcParamsView,
)
    requires
        params_of(req.parameters) == Ok::<_, ParamErrorView>(params),
        source_carries(req.volume_content_source),
    ensures
        ({
            let all = with_source(params, req.volume_content_source);
            let v = volume_of(req, all);
            &&& params_of(v.volume_context) == Ok::<_, ParamErrorView>(all)
            &&& volume_name(v.volume_context, v.volume_id) == req.name
        }),
{
    let all = with_source(params, req.volume_content_source);
    law_parsed_seeds_are_items(req.parameters);
    assert(all.carries()) by {
        assert forall|i: int| 0 <= i < all.seeds.len() implies text::is_item(
            #[trigger] all.seeds[i],
        ) by {
            if i < params.seeds.len() {
                assert(all.seeds[i] == params.seeds[i]);
            }
        }
    }
    law_context_reads_back(all);
    lemma_keys_differ();
    law_unknown_key_is_ignored(all.context(), VOLUME_NAME@, req.name);
}

/// A volume made from a snapshot has that snapshot as its last seed.
pub proof fn law_snapshot_source_is_a_seed(req: CreateVolumeRequestView, id: Seq<char>)
    requires
        req.volume_content_source == Some(VolumeContentSourceView::Snapshot(id)),
    ensures
        create_start(req) matches Progress::Next(m) ==> m.params.seeds == params_of(
            req.parameters,
        )->Ok_0.seeds.push(id),
        create_start(req) matches Progress::Done(r) ==> r is Err,
{
}

/// Whether one of the replies says that the control socket is there.
pub open spec fn socket_seen(replies: Seq<Reply>) -> bool {
    exists|i: int| 0 <= i < replies.len() && #[trigger] replies[i] matches Reply::Present(true)
}

proof fn lemma_snapshot_reached(m: CreateSnapshotView, replies: Seq<Reply>)
    requires
        m.at is Probe,
    ensures
        run(m, replies) matches Progress::Next(k) ==> {
            &&& k == CreateSnapshotView { at: k.at, ..m }
            &&& !(k.at is Probe) ==> socket_seen(replies)
            &&& k.at matches SnapshotAtView::Freeze(f) ==> (f.at matches FreezeAtView::Clean(id)
                ==> pushed(replies, id))
            &&& k.at matches SnapshotAtView::Stamp(id) ==> pushed(replies, id)
        },
        run(m, replies) matches Progress::Done(Ok(s)) ==> {
            &&& socket_seen(replies)
            &&& pushed(replies, s.snapshot_id)
            &&& s.source_volume_id == m.source_volume_id
            &&& s.ready_to_use
        },
    decreases replies.len(),
{
    if replies.len() > 0 {
        let d = replies.drop_last();
        lemma_snapshot_reached(m, d);
        assert(replies[replies.len() - 1] == replies.last());
        if socket_seen(d) {
            let i = choose|i: int|
                0 <= i < d.len() && #[trigger] d[i] matches Reply::Present(true);
            assert(replies[i] == d[i]);
        }
        assert forall|id: Seq<char>| pushed(d, id) implies pushed(replies, id) by {
            let i = choose|i: int|
                0 <= i < d.len() && (#[trigger] d[i] matches Reply::Pushed(Ok(s)) && s@ == id);
            assert(replies[i] == d[i]);
        }
    }
}

/// A volume that is not mounted on this host is refused, and nothing of it is
/// captured or pushed.
pub proof fn law_snapshot_needs_the_live_mount(
    cfg: ConfigView,
    req: CreateSnapshotRequestView,
    replies: Seq<Reply>,
)
    ensures
        snapshot_start(cfg, req) matches Progress::Next(m) ==> {
            &&& m.resume(Reply::Present(false)) matches Progress::Done(Err(e)) && e.code
                == Code::FailedPrecondition
            &&& run(m, replies) matches Progress::Next(k) ==> (k.effect() is Capture
                || k.effect() is Push ==> socket_seen(replies))
        },
{
    if let Progress::Next(m) = snapshot_start(cfg, req) {
        lemma_snapshot_reached(m, replies);
    }
}

/// The id of a snapshot is the reference that its push came to; it is a
/// snapshot of the volume that was asked for, ready to use.
pub proof fn law_snapshot_is_what_was_pushed(
    cfg: ConfigView,
    req: CreateSnapshotRequestView,
    replies: Seq<Reply>,
)
    ensures
        snapshot_start(cfg, req) matches Progress::Next(m) ==> (run(m, replies) matches Progress::Done(
            Ok(s),
        ) ==> {
            &&& pushed(replies, s.snapshot_id)
            &&& s.source_volume_id == req.source_volume_id
            &&& s.ready_to_use
        }),
{
    if let Progress::Next(m) = snapshot_start(cfg, req) {
        lemma_snapshot_reached(m, replies);
    }
}

/// The reference that a snapshot is pushed to is the tag made of its name in its
/// repository, if that names its registry.
pub proof fn law_snapshot_target_is_a_reference(
    cfg: ConfigView,
    params: Map<Seq<char>, Seq<char>>,
    source_volume_id: Seq<char>,
    name: Seq<char>,
    repo: Seq<char>,
)
    requires
        snapshot_repo(cfg, params, source_volume_id) == Some(repo),
        !repo.contains('@'),
        0 < text::first_pos(repo, '/') < repo.len() - 1,
    ensures
        target_of(cfg, params, source_volume_id, name) matches Ok(target) && reference_of(target)
            == Ok::<_, RegistryErrorView>(
            ReferenceView {
                registry: repo.take(text::first_pos(repo, '/')),
                repository: repo.skip(text::first_pos(repo, '/') + 1),
                reference: sanitized(name),
            },
        ),
{
    law_tag_is_valid(name);
    reveal_strlit(":");
    assert(":"@ =~= seq![':']);
    law_tagged_repo_is_a_reference(repo, sanitized(name));
}

proof fn lemma_checks_succeed(m: CreateVolumeView, found: Seq<Reply>, n: int)
    requires
        m.checked == 0,
        found.len() == m.params.seeds.len(),
        forall|i: int| 0 <= i < found.len() ==> #[trigger] found[i] matches Reply::Resolved(Ok(_)),
        0 <= n < found.len(),
    ensures
        run(m, found.take(n)) == Progress::<_, Result<VolumeView, StatusView>>::Next(
            CreateVolumeView { checked: n as nat, ..m },
        ),
    decreases n,
{
    if n == 0 {
        assert(found.take(0) =~= seq![]);
    } else {
        lemma_checks_succeed(m, found, n - 1);
        assert(found.take(n) =~= found.take(n - 1).push(found[n - 1]));
        lemma_run_push(m, found.take(n - 1), found[n - 1]);
    }
}

/// A creation that is begun succeeds when every seed is found to be there.
pub proof fn law_create_succeeds(
    req: CreateVolumeRequestView,
    m: CreateVolumeView,
    found: Seq<Reply>,
)
    requires
        create_start(req) == Progress::<_, Result<VolumeView, StatusView>>::Next(m),
        found.len() == m.params.seeds.len(),
        forall|i: int| 0 <= i < found.len() ==> #[trigger] found[i] matches Reply::Resolved(Ok(_)),
    ensures
        run(m, found) == Progress::<CreateVolumeView, _>::Done(
            Ok::<_, StatusView>(volume_of(req, m.params)),
        ),
{
    let n = found.len() - 1;
    lemma_checks_succeed(m, found, n);
    assert(found =~= found.take(n).push(found[n]));
    lemma_run_push(m, found.take(n), found[n]);
}

/// A snapshot that is begun succeeds when the control socket is there and the
/// upper can be captured and pushed, whatever comes of the rest.
pub proof fn law_snapshot_succeeds(
    cfg: ConfigView,
    req: CreateSnapshotRequestView,
    m: CreateSnapshotView,
    made: Result<(), String>,
    data: CaptureData,
    reference: String,
    seconds: u64,
    nanos: u32,
)
    requires
        snapshot_start(cfg, req) == Progress::<_, Result<SnapshotView, StatusView>>::Next(m),
    ensures
        run(
            m,
            Seq::<Reply>::empty().push(Reply::Present(true)).push(Reply::Done(made)).push(
                Reply::Captured(Ok(data)),
            ).push(Reply::Pushed(Ok(reference))).push(Reply::Done(made)).push(
                Reply::Time { seconds, nanos },
            ),
        ) matches Progress::Done(Ok(s)) && s.snapshot_id == reference@ && s.source_volume_id
            == req.source_volume_id && s.creation_time == timestamp_of(seconds, nanos),
{
    let none = Seq::<Reply>::empty();
    let a = none.push(Reply::Present(true));
    let b = a.push(Reply::Done(made));
    let c = b.push(Reply::Captured(Ok(data)));
    let d = c.push(Reply::Pushed(Ok(reference)));
    let e = d.push(Reply::Done(made));
    lemma_run_push(m, none, Reply::Present(true));
    lemma_run_push(m, a, Reply::Done(made));
    lemma_run_push(m, b, Reply::Captured(Ok(data)));
    lemma_run_push(m, c, Reply::Pushed(Ok(reference)));
    lemma_run_push(m, d, Reply::Done(made));
    lemma_run_push(m, e, Reply::Time { seconds, nanos });
}

// ---- what is asked for, and what comes of the answers --------------------

/// The capacity of a volume is the larger of the two bounds that it is asked for
/// with, and 0 where none are given.
pub proof fn law_capacity(range: CapacityRange)
    ensures
        capacity_of(Some(range)) >= range.required_bytes,
        capacity_of(Some(range)) >= range.limit_bytes,
        capacity_of(Some(range)) == range.required_bytes || capacity_of(Some(range))
            == range.limit_bytes,
        capacity_of(None) == 0,
{
}

/// The snapshot that a volume is made from is a further seed behind those of the
/// parameters; another source adds nothing, and no source changes anything else.
pub proof fn law_content_source(
    params: PvcParamsView,
    source: Option<VolumeContentSourceView>,
)
    ensures
        ({
            let all = with_source(params, source);
            &&& source matches Some(VolumeContentSourceView::Snapshot(id)) ==> all.seeds.len()
                == params.seeds.len() + 1 && all.seeds.last() == id && all.seeds.drop_last()
                == params.seeds
            &&& !(source matches Some(VolumeContentSourceView::Snapshot(_))) ==> all.seeds
                == params.seeds
            &&& all.access_mode == params.access_mode
            &&& all.lifecycle == params.lifecycle
            &&& all.owner == params.owner
            &&& all.capture_on_delete == params.capture_on_delete
            &&& all.capture_repo == params.capture_repo
        }),
{
    if let Some(VolumeContentSourceView::Snapshot(id)) = source {
        assert(params.seeds.push(id).drop_last() =~= params.seeds);
    }
}

/// A volume is known by the name that was asked for. Its context states its
/// parameters and its name, and nothing else; its content source is the one that
/// was asked for.
pub proof fn law_created_volume(req: CreateVolumeRequestView, params: PvcParamsView)
    ensures
        ({
            let v = volume_of(req, params);
            let key = "rspacefs.csi.g8.io/volumeName"@;
            &&& v.volume_id == req.name
            &&& v.content_source == req.volume_content_source
            &&& v.capacity_bytes == capacity_of(req.capacity_range)
            &&& v.volume_context.contains_key(key)
            &&& v.volume_context[key] == req.name
            &&& forall|k: Seq<char>|
                k != key ==> (#[trigger] v.volume_context.contains_key(k)
                    <==> params.context().contains_key(k))
            &&& forall|k: Seq<char>|
                k != key && params.context().contains_key(k) ==> #[trigger] v.volume_context[k]
                    == params.context()[k]
        }),
{
}

/// A request is refused at the start if and only if it has no name, states no
/// capability, or has parameters that cannot be parsed. Otherwise a volume without
/// seeds, neither from the parameters nor from a snapshot, is there at once; one
/// with seeds is created by checking them, from the first.
pub proof fn law_create_begins(req: CreateVolumeRequestView)
    ensures
        req.name.len() == 0 ==> create_start(req) == Progress::<CreateVolumeView, _>::Done(
            Err::<VolumeView, _>(
                StatusView { code: Code::InvalidArgument, message: "name is required"@ },
            ),
        ),
        req.name.len() > 0 && req.volume_capabilities == 0 ==> create_start(req) == Progress::<
            CreateVolumeView,
            _,
        >::Done(
            Err::<VolumeView, _>(
                StatusView {
                    code: Code::InvalidArgument,
                    message: "volume_capabilities is required"@,
                },
            ),
        ),
        req.name.len() > 0 && req.volume_capabilities > 0 ==> match params_of(req.parameters) {
            Err(e) => create_start(req) == Progress::<CreateVolumeView, _>::Done(
                Err::<VolumeView, _>(
                    StatusView { code: Code::InvalidArgument, message: e.text() },
                ),
            ),
            Ok(params) => {
                let snapshot = req.volume_content_source matches Some(
                    VolumeContentSourceView::Snapshot(_),
                );
                &&& !(create_start(req) matches Progress::Done(Err(_)))
                &&& params.seeds.len() == 0 && !snapshot ==> create_start(req) == Progress::<
                    CreateVolumeView,
                    _,
                >::Done(Ok::<_, StatusView>(volume_of(req, params)))
                &&& params.seeds.len() > 0 ==> (create_start(req) matches Progress::Next(m)
                    && m.effect() == (EffectView::Resolve { seed: params.seeds[0] }))
                &&& params.seeds.len() == 0 ==> (req.volume_content_source matches Some(
                    VolumeContentSourceView::Snapshot(id),
                ) ==> (create_start(req) matches Progress::Next(m) && m.effect() == (
                EffectView::Resolve { seed: id })))
            },
        },
{
}

/// The seeds of a volume are checked in their order, each as it is written. One
/// that is not there ends the creation with an error that names it; when all are
/// there, the volume is.
pub proof fn law_seeds_are_checked_in_order(
    req: CreateVolumeRequestView,
    params: PvcParamsView,
    found: Seq<Reply>,
    n: int,
    e: RegistryError,
)
    requires
        req.name.len() > 0,
        req.volume_capabilities > 0,
        params_of(req.parameters) == Ok::<_, ParamErrorView>(params),
        found.len() == with_source(params, req.volume_content_source).seeds.len(),
        forall|i: int| 0 <= i < found.len() ==> #[trigger] found[i] matches Reply::Resolved(Ok(_)),
        0 <= n < found.len(),
    ensures
        ({
            let all = with_source(params, req.volume_content_source);
            &&& create_start(req) matches Progress::Next(m)
            &&& run(m, found.take(n)) matches Progress::Next(k)
            &&& k.effect() == (EffectView::Resolve { seed: all.seeds[n] })
            &&& k.resume(Reply::Resolved(Err(e))) == Progress::<CreateVolumeView, _>::Done(
                Err::<VolumeView, _>(
                    StatusView {
                        code: Code::FailedPrecondition,
                        message: "seed "@ + all.seeds[n] + ": "@ + e@.text(),
                    },
                ),
            )
            &&& run(m, found) == Progress::<CreateVolumeView, _>::Done(
                Ok::<_, StatusView>(volume_of(req, all)),
            )
        }),
{
    let m = create_start(req)->Next_0;
    lemma_checks_succeed(m, found, n);
    law_create_succeeds(req, m, found);
}

/// Snapshots go to the repository that their parameters name, whatever is
/// configured; without one to `pvcs/<volume>` in the configured registry; and
/// nowhere without either.
pub proof fn law_snapshot_repo(
    cfg: ConfigView,
    params: Map<Seq<char>, Seq<char>>,
    id: Seq<char>,
)
    ensures
        params.contains_key("captureRepo"@) ==> snapshot_repo(cfg, params, id) == Some(
            params["captureRepo"@],
        ),
        !params.contains_key("captureRepo"@) ==> (cfg.capture_registry matches Some(registry)
            ==> snapshot_repo(cfg, params, id) == Some(registry + "/pvcs/"@ + id)),
        !params.contains_key("captureRepo"@) && cfg.capture_registry is None ==> snapshot_repo(
            cfg,
            params,
            id,
        ) is None,
{
}

/// A snapshot is refused at the start if and only if its request has no volume or
/// no name, or there is no repository for it. Otherwise it is begun, by looking for
/// the volume's control socket, and its target is the tag made of its name in the
/// repository.
pub proof fn law_snapshot_begins(cfg: ConfigView, req: CreateSnapshotRequestView)
    ensures
        ({
            let params = req.parameters;
            let id = req.source_volume_id;
            let start = snapshot_start(cfg, req);
            let given = params.contains_key("captureRepo"@);
            let asked = id.len() > 0 && req.name.len() > 0;
            &&& id.len() == 0 ==> start == Progress::<CreateSnapshotView, _>::Done(
                Err::<SnapshotView, _>(
                    StatusView {
                        code: Code::InvalidArgument,
                        message: "source_volume_id is required"@,
                    },
                ),
            )
            &&& id.len() > 0 && req.name.len() == 0 ==> start == Progress::<
                CreateSnapshotView,
                _,
            >::Done(
                Err::<SnapshotView, _>(
                    StatusView { code: Code::InvalidArgument, message: "name is required"@ },
                ),
            )
            &&& asked && !given && cfg.capture_registry is None ==> start == Progress::<
                CreateSnapshotView,
                _,
            >::Done(
                Err::<SnapshotView, _>(
                    StatusView {
                        code: Code::FailedPrecondition,
                        message: "no captureRepo parameter and no --capture-registry configured"@,
                    },
                ),
            )
            &&& asked && given ==> (start matches Progress::Next(m) && m.target_ref
                == params["captureRepo"@] + ":"@ + sanitized(req.name))
            &&& asked && !given ==> (cfg.capture_registry matches Some(registry) ==> (
            start matches Progress::Next(m) && m.target_ref == registry + "/pvcs/"@ + id + ":"@
                + sanitized(req.name)))
            &&& start matches Progress::Next(m) ==> m.effect() == (EffectView::Probe {
                path: cfg.control_socket(id),
            })
        }),
{
}

/// How a snapshot that is begun goes. A volume whose control socket is not there
/// is refused; otherwise its upper is captured into its staging file, and pushed
/// from there to the target. A failed capture or push fails the snapshot; when
/// both succeed, the snapshot is the pushed revision, ready to use, of the time
/// that the clock shows then.
pub proof fn law_snapshot_outcomes(
    cfg: ConfigView,
    req: CreateSnapshotRequestView,
    m: CreateSnapshotView,
    done: Result<(), String>,
    data: CaptureData,
    reference: String,
    c: ControlError,
    p: RegistryError,
    seconds: u64,
    nanos: u32,
)
    requires
        snapshot_start(cfg, req) == Progress::<_, Result<SnapshotView, StatusView>>::Next(m),
    ensures
        ({
            let staging = cfg.capture_staging(req.source_volume_id);
            &&& m.resume(Reply::Present(false)) == Progress::<CreateSnapshotView, _>::Done(
                Err::<SnapshotView, _>(
                    StatusView {
                        code: Code::FailedPrecondition,
                        message: "volume "@ + req.source_volume_id
                            + " is not mounted on this host; take the snapshot from the node hosting it"@,
                    },
                ),
            )
            &&& m.resume(Reply::Present(true)) matches Progress::Next(a)
            &&& a.effect() == (EffectView::CreateParent { path: staging })
            &&& a.resume(Reply::Done(done)) matches Progress::Next(b)
            &&& b.effect() == (EffectView::Capture {
                socket: cfg.control_socket(req.source_volume_id),
                out_path: staging,
            })
            &&& b.resume(Reply::Captured(Err(c))) == Progress::<CreateSnapshotView, _>::Done(
                Err::<SnapshotView, _>(
                    StatusView {
                        code: Code::Internal,
                        message: "snapshot: "@ + ("capture: "@ + c@.text()),
                    },
                ),
            )
            &&& b.resume(Reply::Captured(Ok(data))) matches Progress::Next(d)
            &&& d.effect() == (EffectView::Push {
                target_ref: m.target_ref,
                blob_path: staging,
                layer_digest: data.digest@,
                layer_size: data.bytes_compressed,
            })
            &&& d.resume(Reply::Pushed(Err(p))) == Progress::<CreateSnapshotView, _>::Done(
                Err::<SnapshotView, _>(
                    StatusView {
                        code: Code::Internal,
                        message: "snapshot: "@ + ("push: "@ + p@.text()),
                    },
                ),
            )
            &&& d.resume(Reply::Pushed(Ok(reference))) matches Progress::Next(f)
            &&& f.effect() == (EffectView::RemoveFile { path: staging })
            &&& f.resume(Reply::Done(done)) matches Progress::Next(g)
            &&& g.effect() is Clock
            &&& g.resume(Reply::Time { seconds, nanos }) matches Progress::Done(Ok(s))
            &&& s.snapshot_id == reference@
            &&& s.source_volume_id == req.source_volume_id
            &&& s.ready_to_use
            &&& s.size_bytes == 0
            &&& s.group_snapshot_id.len() == 0
            &&& s.creation_time == timestamp_of(seconds, nanos)
        }),
{
    reveal_strlit("");
}

/// A snapshot's time is the clock's, second for second and nanosecond for
/// nanosecond.
pub proof fn law_timestamp(seconds: u64, nanos: u32)
    requires
        seconds <= i64::MAX,
        nanos <= i32::MAX,
    ensures
        timestamp_of(seconds, nanos).seconds == seconds,
        timestamp_of(seconds, nanos).nanos == nanos,
{
}

/// A reply that a creation or a snapshot does not wait for changes nothing.
pub proof fn law_controller_ignores_strays(
    v: CreateVolumeView,
    s: CreateSnapshotView,
    reply: Reply,
)
    ensures
        !answers(v.effect(), reply) ==> v.resume(reply) == Progress::<
            _,
            Result<VolumeView, StatusView>,
        >::Next(v),
        !answers(s.effect(), reply) ==> s.resume(reply) == Progress::<
            _,
            Result<SnapshotView, StatusView>,
        >::Next(s),
{
}

/// What the operations of creating a volume come to.
pub proof fn law_create_operations(
    svc: &ControllerService,
    req: CreateVolumeRequest,
    p: Progress<CreateVolume, Result<Volume, Status>>,
    m: CreateVolume,
    reply: Reply,
    e: Effect,
)
    ensures
        call_ensures(ControllerService::create_volume, (svc, req), p) ==> create_start(req@) == (
        match p {
            Progress::Next(n) => Progress::Next(n@),
            Progress::Done(Ok(v)) => Progress::Done(Ok(v@)),
            Progress::Done(Err(x)) => Progress::Done(Err(x@)),
        }),
        call_ensures(CreateVolume::effect, (&m,), e) ==> e@ == m@.effect(),
        call_ensures(CreateVolume::resume, (m, reply), p) ==> m@.resume(reply) == (match p {
            Progress::Next(n) => Progress::Next(n@),
            Progress::Done(Ok(v)) => Progress::Done(Ok(v@)),
            Progress::Done(Err(x)) => Progress::Done(Err(x@)),
        }),
{
}

/// A request with a name, a capability and parameters that parse, but without
/// seeds and without a snapshot, is answered at once with its volume.
pub proof fn law_volume_without_seeds_is_created(
    svc: &ControllerService,
    req: CreateVolumeRequest,
    p: Progress<CreateVolume, Result<Volume, Status>>,
)
    requires
        call_ensures(ControllerService::create_volume, (svc, req), p),
        req.name@.len() > 0,
        req.volume_capabilities > 0,
        params_of(req.parameters@) is Ok,
        params_of(req.parameters@)->Ok_0.seeds.len() == 0,
        !(req.volume_content_source matches Some(VolumeContentSource::Snapshot(_))),
    ensures
        p matches Progress::Done(Ok(v)) && v.volume_id@ == req.name@ && v@.content_source
            == req@.volume_content_source,
{
    law_create_begins(req@);
}

/// What the operations of taking a snapshot come to.
pub proof fn law_snapshot_operations(
    svc: &ControllerService,
    req: CreateSnapshotRequest,
    p: Progress<CreateSnapshot, Result<Snapshot, Status>>,
    m: CreateSnapshot,
    reply: Reply,
    e: Effect,
)
    ensures
        call_ensures(ControllerService::create_snapshot, (svc, req), p) ==> snapshot_start(
            svc.cfg@,
            req@,
        ) == (match p {
            Progress::Next(n) => Progress::Next(n@),
            Progress::Done(Ok(s)) => Progress::Done(Ok(s@)),
            Progress::Done(Err(x)) => Progress::Done(Err(x@)),
        }),
        call_ensures(CreateSnapshot::effect, (&m,), e) ==> e@ == m@.effect(),
        call_ensures(CreateSnapshot::resume, (m, reply), p) ==> m@.resume(reply) == (match p {
            Progress::Next(n) => Progress::Next(n@),
            Progress::Done(Ok(s)) => Progress::Done(Ok(s@)),
            Progress::Done(Err(x)) => Progress::Done(Err(x@)),
        }),
{
}

/// Where a snapshot is pushed to, by its parameters: the repository that they
/// name is used whatever is configured.
pub proof fn law_snapshot_target(
    svc: &ControllerService,
    params: &ParamMap,
    id: &str,
    name: &str,
    r: Result<String, Status>,
)
    requires
        call_ensures(ControllerService::snapshot_target, (svc, params, id, name), r),
    ensures
        params@.contains_key("captureRepo"@) ==> (r matches Ok(s) && s@ == params@["captureRepo"@]
            + ":"@ + sanitized(name@)),
        !params@.contains_key("captureRepo"@) ==> match svc.cfg@.capture_registry {
            Some(registry) => r matches Ok(s) && s@ == registry + "/pvcs/"@ + id@ + ":"@
                + sanitized(name@),
            None => r matches Err(e) && e@.code == Code::FailedPrecondition && e@.message
                == "no captureRepo parameter and no --capture-registry configured"@,
        },
{
}

/// Deleting a volume or a snapshot fails if and only if none is named, and says
/// so; nothing else is checked.
pub proof fn law_deletions(svc: &ControllerService, id: &str, r: Result<(), Status>)
    ensures
        call_ensures(ControllerService::delete_volume, (svc, id), r) ==> {
            &&& r is Ok <==> id@.len() > 0
            &&& r matches Err(e) ==> e@ == StatusView {
                code: Code::InvalidArgument,
                message: "volume_id is required"@,
            }
        },
        call_ensures(ControllerService::delete_snapshot, (svc, id), r) ==> {
            &&& r is Ok <==> id@.len() > 0
            &&& r matches Err(e) ==> e@ == StatusView {
                code: Code::InvalidArgument,
                message: "snapshot_id is required"@,
            }
        },
{
}

/// The capabilities of a named volume are confirmed as they were given.
pub proof fn law_validated_capabilities<C>(
    svc: &ControllerService,
    id: &str,
    context: ParamMap,
    capabilities: Vec<C>,
    parameters: ParamMap,
    r: Result<Confirmed<C>, Status>,
)
    requires
        call_ensures(
            ControllerService::validate_volume_capabilities::<C>,
            (svc, id, context, capabilities, parameters),
            r,
        ),
    ensures
        r is Ok <==> id@.len() > 0,
        r matches Ok(c) ==> c.volume_context@ == context@ && c.volume_capabilities@
            == capabilities@ && c.parameters@ == parameters@ && c.message@.len() == 0,
        r matches Ok(c) ==> c.mutable_parameters@ =~= Map::<Seq<char>, Seq<char>>::empty(),
        r matches Err(e) ==> e@ == (StatusView {
            code: Code::InvalidArgument,
            message: "volume_id is required"@,
        }),
{
    reveal_strlit("");
}

/// The controller offers to create and delete volumes and snapshots, and refuses
/// what it does not offer.
pub proof fn law_offered_operations(
    svc: &ControllerService,
    rpcs: Vec<ControllerRpc>,
    r: Result<(), Status>,
)
    ensures
        call_ensures(ControllerService::controller_get_capabilities, (svc,), rpcs) ==> rpcs@.len()
            == 2 && rpcs@[0] == ControllerRpc::CreateDeleteVolume && rpcs@[1]
            == ControllerRpc::CreateDeleteSnapshot,
        call_ensures(ControllerService::controller_publish_volume, (svc,), r) ==> (
        r matches Err(e) && e@ == StatusView {
            code: Code::Unimplemented,
            message: "rspacefs has no attach step; PUBLISH_UNPUBLISH_VOLUME is not advertised"@,
        }),
        call_ensures(ControllerService::controller_unpublish_volume, (svc,), r) ==> (
        r matches Err(e) && e@ == StatusView {
            code: Code::Unimplemented,
            message: "not supported"@,
        }),
        call_ensures(ControllerService::list_volumes, (svc,), r) ==> (r matches Err(e) && e@
            == StatusView {
            code: Code::Unimplemented,
            message: "LIST_VOLUMES is not advertised"@,
        }),
        call_ensures(ControllerService::get_capacity, (svc,), r) ==> (r matches Err(e) && e@
            == StatusView {
            code: Code::Unimplemented,
            message: "GET_CAPACITY is not advertised"@,
        }),
        call_ensures(ControllerService::list_snapshots, (svc,), r) ==> (r matches Err(e) && e@
            == StatusView {
            code: Code::Unimplemented,
            message: "LIST_SNAPSHOTS is not advertised"@,
        }),
        call_ensures(ControllerService::controller_expand_volume, (svc,), r) ==> (
        r matches Err(e) && e@ == StatusView {
            code: Code::Unimplemented,
            message: "EXPAND_VOLUME is not advertised"@,
        }),
        call_ensures(ControllerService::controller_get_volume, (svc,), r) ==> (
        r matches Err(e) && e@ == StatusView {
            code: Code::Unimplemented,
            message: "GET_VOLUME is not advertised"@,
        }),
        call_ensures(ControllerService::controller_modify_volume, (svc,), r) ==> (
        r matches Err(e) && e@ == StatusView {
            code: Code::Unimplemented,
            message: "MODIFY_VOLUME is not advertised"@,
        }),
{
}

/// What a service is made with, and what its smaller operations come to.
pub proof fn law_controller_operations(
    cfg: Config,
    svc: ControllerService,
    range: Option<CapacityRange>,
    n: i64,
    seconds: u64,
    nanos: u32,
    t: Timestamp,
)
    ensures
        call_ensures(ControllerService::new, (cfg,), svc) ==> svc.cfg@ == cfg@,
        call_ensures(capacity_bytes, (range,), n) ==> n == capacity_of(range),
        call_ensures(timestamp, (seconds, nanos), t) ==> t == timestamp_of(seconds, nanos),
{
}

} // verus!
