//! The services, run against an in-memory world: no registry, mount or daemon.

use std::collections::{HashMap, HashSet};

use rspacefs_csi::client::{LayerRef, LAYER_ZSTD};
use rspacefs_csi::control::{CaptureData, ControlError};
use rspacefs_csi::controller::{
    capacity_bytes, timestamp, CapacityRange, ControllerRpc, ControllerService,
    CreateSnapshotRequest, CreateVolumeRequest, Snapshot, Volume, VolumeContentSource,
};
use rspacefs_csi::driver::Config;
use rspacefs_csi::effect::{Effect, Reply};
use rspacefs_csi::freeze::{freeze_and_push, FreezeError};
use rspacefs_csi::map::ParamMap;
use rspacefs_csi::mount::{MountError, MountSpec};
use rspacefs_csi::node::{
    effective_access_mode, sanitize_tag, NodePublishVolumeRequest, NodeRpc, NodeService,
    NodeUnpublishVolumeRequest,
};
use rspacefs_csi::params::{AccessMode, Lifecycle, PvcParams, VOLUME_NAME};
use rspacefs_csi::registry::{Reference, RegistryError};
use rspacefs_csi::status::{Code, Progress, Status};

#[derive(Default)]
struct World {
    mounts: Vec<MountSpec>,
    unmounts: Vec<String>,
    resolved: Vec<String>,
    pulled: Vec<String>,
    pushed: Vec<(String, String)>,
    captures: Vec<String>,
    dirs: HashSet<String>,
    files: HashMap<String, Vec<u8>>,
    log: Vec<String>,
    no_such_seed: bool,
    no_mount: bool,
    no_unmount: bool,
    no_capture: bool,
    no_push: bool,
    no_dir: Option<String>,
}

impl World {
    fn answer(&mut self, effect: Effect) -> Reply {
        match effect {
            Effect::Resolve { seed } => {
                self.resolved.push(seed.clone());
                if self.no_such_seed {
                    return Reply::Resolved(Err(RegistryError::NoLayers(seed)));
                }
                Reply::Resolved(Ok(vec![LayerRef {
                    media_type: LAYER_ZSTD.into(),
                    digest: "sha256:aaaa".into(),
                    size: 4,
                }]))
            }
            Effect::Pull { seed, dir } => {
                self.log.push(format!("pull {seed}"));
                self.pulled.push(seed.clone());
                if self.no_such_seed {
                    return Reply::Pulled(Err(RegistryError::NoLayers(seed)));
                }
                let path = format!("{dir}/{}.blob", seed.replace(['/', ':', '@'], "-"));
                self.dirs.insert(dir);
                self.files.insert(path.clone(), b"blob".to_vec());
                Reply::Pulled(Ok(vec![path]))
            }
            Effect::Push {
                target_ref,
                layer_digest,
                ..
            } => {
                self.log.push(format!("push {target_ref}"));
                if self.no_push {
                    return Reply::Pushed(Err(RegistryError::Status("http://r/v2".into(), 500)));
                }
                self.pushed
                    .push((target_ref.clone(), layer_digest.clone()));
                Reply::Pushed(Ok(format!("{target_ref}@{layer_digest}")))
            }
            Effect::Capture { out_path, .. } => {
                self.log.push("capture".into());
                if self.no_capture {
                    return Reply::Captured(Err(ControlError::NoResponse));
                }
                self.captures.push(out_path.clone());
                self.files.insert(out_path.clone(), b"tar!".to_vec());
                Reply::Captured(Ok(CaptureData {
                    out_path,
                    digest: "sha256:cafe".into(),
                    bytes_compressed: 4,
                    entries: 1,
                }))
            }
            Effect::CreateDir { path } => {
                if self.no_dir.as_deref() == Some(path.as_str()) {
                    return Reply::Done(Err("read-only file system".into()));
                }
                self.dirs.insert(path);
                Reply::Done(Ok(()))
            }
            Effect::CreateParent { path } => {
                let dir = path.rsplit_once('/').unwrap().0;
                if self.no_dir.as_deref() == Some(dir) {
                    return Reply::Done(Err("read-only file system".into()));
                }
                self.dirs.insert(dir.to_string());
                Reply::Done(Ok(()))
            }
            Effect::ReadFile { path } => Reply::Contents(self.files.get(&path).cloned()),
            Effect::WriteFile { path, bytes } => {
                self.files.insert(path, bytes);
                Reply::Done(Ok(()))
            }
            Effect::RemoveFile { path } => Reply::Done(match self.files.remove(&path) {
                Some(_) => Ok(()),
                None => Err("no such file".into()),
            }),
            Effect::RemoveDir { path } => Reply::Done(if self.dirs.remove(&path) {
                Ok(())
            } else {
                Err("no such directory".into())
            }),
            Effect::Probe { path } => Reply::Present(self.files.contains_key(&path)),
            Effect::Mount { spec } => {
                self.log.push("mount".into());
                if self.no_mount {
                    return Reply::Mounted(Err(MountError::Io("not found".into())));
                }
                self.mounts.push(spec);
                Reply::Mounted(Ok(()))
            }
            Effect::Unmount { target } => {
                self.log.push("unmount".into());
                if self.no_unmount {
                    return Reply::Mounted(Err(MountError::UnmountFailed(target)));
                }
                self.unmounts.push(target);
                Reply::Mounted(Ok(()))
            }
            Effect::Clock => Reply::Time {
                seconds: 1_700_000_000,
                nanos: 5,
            },
        }
    }

    fn publish(&mut self, svc: &NodeService, req: NodePublishVolumeRequest) -> Result<(), Status> {
        let mut p = svc.node_publish_volume(req);
        loop {
            p = match p {
                Progress::Next(m) => {
                    let reply = self.answer(m.effect());
                    m.resume(reply)
                }
                Progress::Done(r) => return r,
            };
        }
    }

    fn unpublish(
        &mut self,
        svc: &NodeService,
        req: NodeUnpublishVolumeRequest,
    ) -> Result<(), Status> {
        let mut p = svc.node_unpublish_volume(req);
        loop {
            p = match p {
                Progress::Next(m) => {
                    let reply = self.answer(m.effect());
                    m.resume(reply)
                }
                Progress::Done(r) => return r,
            };
        }
    }

    fn create_volume(
        &mut self,
        svc: &ControllerService,
        req: CreateVolumeRequest,
    ) -> Result<Volume, Status> {
        let mut p = svc.create_volume(req);
        loop {
            p = match p {
                Progress::Next(m) => {
                    let reply = self.answer(m.effect());
                    m.resume(reply)
                }
                Progress::Done(r) => return r,
            };
        }
    }

    fn create_snapshot(
        &mut self,
        svc: &ControllerService,
        req: CreateSnapshotRequest,
    ) -> Result<Snapshot, Status> {
        let mut p = svc.create_snapshot(req);
        loop {
            p = match p {
                Progress::Next(m) => {
                    let reply = self.answer(m.effect());
                    m.resume(reply)
                }
                Progress::Done(r) => return r,
            };
        }
    }
}

const DATA: &str = "/tmp/csi/data";
const TARGET: &str = "/tmp/csi/target";

fn cfg() -> Config {
    Config {
        node_id: "node-a".into(),
        data_dir: DATA.into(),
        capture_registry: Some("qregistry.local".into()),
    }
}

fn map(entries: &[(&str, &str)]) -> ParamMap {
    let mut m = ParamMap::new();
    for (k, v) in entries {
        m.insert(k.to_string(), v.to_string());
    }
    m
}

fn publish_req(volume_id: &str, ctx: &[(&str, &str)], readonly: bool) -> NodePublishVolumeRequest {
    NodePublishVolumeRequest {
        volume_id: volume_id.into(),
        target_path: TARGET.into(),
        volume_context: map(ctx),
        readonly,
    }
}

fn unpublish_req(volume_id: &str) -> NodeUnpublishVolumeRequest {
    NodeUnpublishVolumeRequest {
        volume_id: volume_id.into(),
        target_path: TARGET.into(),
    }
}

fn volume_req(name: &str, params: &[(&str, &str)]) -> CreateVolumeRequest {
    CreateVolumeRequest {
        name: name.into(),
        capacity_range: None,
        volume_capabilities: 1,
        parameters: map(params),
        volume_content_source: None,
    }
}

fn text(m: &ParamMap, key: &str) -> Option<String> {
    m.get(key).cloned()
}

// ---- tags -------------------------------------------------------------------

#[test]
fn sanitize_tag_rules() {
    assert_eq!(sanitize_tag("db-data"), "db-data");
    assert_eq!(sanitize_tag("weird/name space"), "weird-name-space");
    assert_eq!(sanitize_tag(""), "rev");
}

#[test]
fn long_and_foreign_names_become_tags() {
    let long = "x".repeat(200);
    assert_eq!(sanitize_tag(&long), "x".repeat(128));
    assert_eq!(sanitize_tag(&"x".repeat(128)), "x".repeat(128));
    assert_eq!(sanitize_tag("Größe.1_b"), "Gr--e.1_b");
    let once = sanitize_tag("a b/c:d@e");
    assert_eq!(once, "a-b-c-d-e");
    assert_eq!(sanitize_tag(&once), once);
    let wide = "ü".repeat(130);
    assert_eq!(sanitize_tag(&wide), "-".repeat(128));
}

// ---- node publish / unpublish ----------------------------------------------

#[test]
fn node_publish_pulls_and_mounts() {
    let svc = NodeService::new(cfg());
    let mut w = World::default();
    w.publish(
        &svc,
        publish_req(
            "vol-1",
            &[
                ("seed", "qregistry.local/pvcs/db:rev1"),
                ("accessMode", "rwo"),
                ("owner", "1000:1000"),
                (VOLUME_NAME, "db"),
            ],
            false,
        ),
    )
    .unwrap();

    assert_eq!(w.pulled.as_slice(), &["qregistry.local/pvcs/db:rev1"]);
    assert_eq!(w.mounts.len(), 1);
    let spec = &w.mounts[0];
    assert_eq!(spec.name, "db");
    assert_eq!(spec.access_mode, AccessMode::Rwo);
    assert_eq!(spec.owner.as_deref(), Some("1000:1000"));
    assert_eq!(spec.lower_blobs.len(), 1);
    assert!(w.dirs.contains(TARGET), "target dir created");
}

#[test]
fn node_publish_readonly_forces_ro_mode() {
    let svc = NodeService::new(cfg());
    let mut w = World::default();
    w.publish(
        &svc,
        publish_req("vol-1", &[("seed", "qregistry.local/pvcs/db:rev1")], true),
    )
    .unwrap();
    assert_eq!(w.mounts[0].access_mode, AccessMode::Ro);
}

#[test]
fn node_unpublish_captures_when_requested() {
    let svc = NodeService::new(cfg());
    let mut w = World::default();
    // Publish with captureOnDelete so the state file records it.
    w.publish(
        &svc,
        publish_req(
            "vol-1",
            &[
                ("seed", "qregistry.local/pvcs/db:rev1"),
                ("captureOnDelete", "true"),
                (VOLUME_NAME, "db"),
            ],
            false,
        ),
    )
    .unwrap();
    // The live daemon's control socket.
    w.files
        .insert(format!("{DATA}/volumes/vol-1/control.sock"), vec![]);

    w.unpublish(&svc, unpublish_req("vol-1")).unwrap();

    assert_eq!(w.captures.len(), 1, "captured on unpublish");
    assert_eq!(w.pushed.len(), 1);
    assert_eq!(
        w.pushed[0].0, "qregistry.local/pvcs/db:db",
        "pushed to derived repo:tag"
    );
    assert_eq!(w.pushed[0].1, "sha256:cafe");
    assert_eq!(w.unmounts.len(), 1, "unmounted after capture");
    let order: Vec<&str> = w.log.iter().map(|s| s.as_str()).collect();
    assert_eq!(
        order,
        [
            "pull qregistry.local/pvcs/db:rev1",
            "mount",
            "capture",
            "push qregistry.local/pvcs/db:db",
            "unmount"
        ]
    );
    // The staged blob, the record and the target are cleaned up.
    assert!(!w
        .files
        .contains_key(&format!("{DATA}/volumes/vol-1/capture.tar.zst")));
    assert!(!w
        .files
        .contains_key(&format!("{DATA}/volumes/vol-1/publish.json")));
    assert!(!w.dirs.contains(TARGET));
}

#[test]
fn node_unpublish_without_capture_flag_skips_freeze() {
    let svc = NodeService::new(cfg());
    let mut w = World::default();
    w.publish(
        &svc,
        publish_req("vol-2", &[("seed", "qregistry.local/pvcs/db:rev1")], false),
    )
    .unwrap();
    w.unpublish(&svc, unpublish_req("vol-2")).unwrap();

    assert!(w.captures.is_empty());
    assert!(w.pushed.is_empty());
    assert_eq!(w.unmounts.len(), 1);
}

#[test]
fn publish_mounts_the_seeds_in_order() {
    let svc = NodeService::new(cfg());
    let mut w = World::default();
    w.publish(
        &svc,
        publish_req("v", &[("seed", "r.io/a:1, r.io/b:2\nr.io/c")], false),
    )
    .unwrap();
    assert_eq!(w.pulled, ["r.io/a:1", "r.io/b:2", "r.io/c"]);
    let spec = &w.mounts[0];
    assert_eq!(
        spec.lower_blobs,
        [
            "/tmp/csi/data/volumes/v/lowers/r.io-a-1.blob",
            "/tmp/csi/data/volumes/v/lowers/r.io-b-2.blob",
            "/tmp/csi/data/volumes/v/lowers/r.io-c.blob",
        ]
    );
    assert_eq!(spec.name, "v");
    assert_eq!(spec.target, TARGET);
    assert_eq!(spec.upper, "/tmp/csi/data/volumes/v/upper");
    assert_eq!(spec.control_socket, "/tmp/csi/data/volumes/v/control.sock");
    assert_eq!(spec.access_mode, AccessMode::Rwo);
    assert_eq!(spec.lifecycle, Lifecycle::Persistent);
    assert_eq!(spec.owner, None);
}

#[test]
fn seedless_publish_mounts_empty() {
    let svc = NodeService::new(cfg());
    let mut w = World::default();
    w.publish(&svc, publish_req("v", &[("lifecycle", "ephemeral")], false))
        .unwrap();
    assert!(w.pulled.is_empty());
    assert_eq!(w.mounts[0].access_mode, AccessMode::Empty);
    assert_eq!(w.mounts[0].lifecycle, Lifecycle::Ephemeral);
    assert!(w.mounts[0].lower_blobs.is_empty());
}

#[test]
fn access_mode_is_read_only_first_then_the_parameter() {
    let p = PvcParams::parse(&map(&[("accessMode", "rwx")])).unwrap();
    assert_eq!(effective_access_mode(&p, true), AccessMode::Ro);
    assert_eq!(effective_access_mode(&p, false), AccessMode::Rwx);
    let none = PvcParams::default();
    assert_eq!(effective_access_mode(&none, false), AccessMode::Empty);
}

fn refused(r: Result<(), Status>) -> (Code, String) {
    let e = r.unwrap_err();
    (e.code, e.message)
}

#[test]
fn publish_refuses_bad_requests() {
    let svc = NodeService::new(cfg());
    let mut w = World::default();
    assert_eq!(
        refused(w.publish(&svc, publish_req("", &[], false))),
        (Code::InvalidArgument, "volume_id is required".into())
    );
    let mut req = publish_req("v", &[], false);
    req.target_path = String::new();
    assert_eq!(
        refused(w.publish(&svc, req)),
        (Code::InvalidArgument, "target_path is required".into())
    );
    assert_eq!(
        refused(w.publish(&svc, publish_req("v", &[("lifecycle", "for\tever")], false))),
        (
            Code::InvalidArgument,
            "invalid lifecycle \"for\\tever\": expected persistent|ephemeral|ephemeral-then-persistent"
                .into()
        )
    );
    assert!(w.log.is_empty());
}

#[test]
fn publish_fails_where_a_step_fails() {
    let svc = NodeService::new(cfg());
    let ctx = [("seed", "r.io/a:1")];

    let mut w = World {
        no_such_seed: true,
        ..World::default()
    };
    assert_eq!(
        refused(w.publish(&svc, publish_req("v", &ctx, false))),
        (
            Code::FailedPrecondition,
            "seed r.io/a:1: seed r.io/a:1 has no pullable layers".into()
        )
    );
    assert!(w.mounts.is_empty());

    let mut w = World {
        no_dir: Some("/tmp/csi/data/volumes/v/upper".into()),
        ..World::default()
    };
    assert_eq!(
        refused(w.publish(&svc, publish_req("v", &ctx, false))),
        (
            Code::Internal,
            "create upper: read-only file system".into()
        )
    );

    let mut w = World {
        no_dir: Some(TARGET.into()),
        ..World::default()
    };
    assert_eq!(
        refused(w.publish(&svc, publish_req("v", &ctx, false))),
        (
            Code::Internal,
            "create target: read-only file system".into()
        )
    );

    let mut w = World {
        no_mount: true,
        ..World::default()
    };
    assert_eq!(
        refused(w.publish(&svc, publish_req("v", &ctx, false))),
        (Code::Internal, "rspacefs-mount: io: not found".into())
    );
}

#[test]
fn publish_succeeds_without_a_record() {
    let svc = NodeService::new(cfg());
    let mut w = World {
        no_dir: Some("/tmp/csi/data/volumes/v".into()),
        ..World::default()
    };
    w.publish(&svc, publish_req("v", &[("captureOnDelete", "1")], false))
        .unwrap();
    assert_eq!(w.mounts.len(), 1);
    // No record, no capture.
    w.unpublish(&svc, unpublish_req("v")).unwrap();
    assert!(w.captures.is_empty());
}

#[test]
fn a_reply_out_of_turn_changes_nothing() {
    let svc = NodeService::new(cfg());
    let mut w = World::default();
    let p = svc.node_publish_volume(publish_req("v", &[("seed", "r.io/a")], false));
    let Progress::Next(m) = p else {
        panic!("a publish with a seed pulls first");
    };
    let Progress::Next(m) = m.resume(Reply::Mounted(Ok(()))) else {
        panic!("not over");
    };
    assert!(matches!(m.effect(), Effect::Pull { .. }));
    let reply = w.answer(m.effect());
    let Progress::Next(m) = m.resume(reply) else {
        panic!("not over");
    };
    assert!(matches!(m.effect(), Effect::CreateDir { .. }));
}

#[test]
fn unpublish_refuses_bad_requests() {
    let svc = NodeService::new(cfg());
    let mut w = World::default();
    assert_eq!(
        refused(w.unpublish(&svc, unpublish_req(""))),
        (Code::InvalidArgument, "volume_id is required".into())
    );
    let mut req = unpublish_req("v");
    req.target_path = String::new();
    assert_eq!(
        refused(w.unpublish(&svc, req)),
        (Code::InvalidArgument, "target_path is required".into())
    );
}

#[test]
fn unpublish_needs_a_repository_to_capture_to() {
    let svc = NodeService::new(cfg());
    let mut w = World::default();
    w.publish(&svc, publish_req("v", &[("captureOnDelete", "TRUE")], false))
        .unwrap();
    assert_eq!(
        refused(w.unpublish(&svc, unpublish_req("v"))),
        (
            Code::FailedPrecondition,
            "captureOnDelete set but no captureRepo and no seed to derive one from".into()
        )
    );
    assert!(w.unmounts.is_empty());
}

#[test]
fn unpublish_stops_where_the_freeze_fails() {
    let svc = NodeService::new(cfg());
    let ctx = [("captureOnDelete", "true"), ("captureRepo", "r.io/snaps")];

    let mut w = World {
        no_capture: true,
        ..World::default()
    };
    w.publish(&svc, publish_req("v", &ctx, false)).unwrap();
    assert_eq!(
        refused(w.unpublish(&svc, unpublish_req("v"))),
        (
            Code::Internal,
            "capture-on-delete: capture: daemon closed the connection without responding".into()
        )
    );
    assert!(w.unmounts.is_empty());

    let mut w = World {
        no_push: true,
        ..World::default()
    };
    w.publish(&svc, publish_req("v", &ctx, false)).unwrap();
    assert_eq!(
        refused(w.unpublish(&svc, unpublish_req("v"))),
        (
            Code::Internal,
            "capture-on-delete: push: registry http://r/v2 returned 500 Internal Server Error"
                .into()
        )
    );
    assert!(w.unmounts.is_empty());

    let mut w = World {
        no_unmount: true,
        ..World::default()
    };
    w.publish(&svc, publish_req("v", &ctx, false)).unwrap();
    assert_eq!(
        refused(w.unpublish(&svc, unpublish_req("v"))),
        (
            Code::Internal,
            "unmount: could not unmount /tmp/csi/target".into()
        )
    );
    assert_eq!(w.pushed[0].0, "r.io/snaps:v");
    // The record is kept for the next attempt.
    assert!(w
        .files
        .contains_key(&format!("{DATA}/volumes/v/publish.json")));
}

#[test]
fn unpublish_ignores_a_record_that_it_cannot_use() {
    let svc = NodeService::new(cfg());
    let records: [&[u8]; 3] = [
        b"not json",
        br#"{"captureOnDelete":true}"#,
        br#"{"captureOnDelete":"true","accessMode":"bogus"}"#,
    ];
    for record in records {
        let mut w = World::default();
        w.files
            .insert(format!("{DATA}/volumes/v/publish.json"), record.to_vec());
        w.unpublish(&svc, unpublish_req("v")).unwrap();
        assert!(w.captures.is_empty());
        assert_eq!(w.unmounts.len(), 1);
    }
}

#[test]
fn node_describes_itself() {
    let svc = NodeService::new(cfg());
    let info = svc.node_get_info();
    assert_eq!(info.node_id, "node-a");
    assert_eq!(info.max_volumes_per_node, 0);
    assert_eq!(svc.node_get_capabilities(), [NodeRpc::StageUnstageVolume]);
    assert!(svc.node_stage_volume().is_ok());
    assert!(svc.node_unstage_volume().is_ok());
    assert_eq!(
        refused(svc.node_get_volume_stats()),
        (
            Code::Unimplemented,
            "GET_VOLUME_STATS is not advertised".into()
        )
    );
    assert_eq!(
        refused(svc.node_expand_volume()),
        (
            Code::Unimplemented,
            "EXPAND_VOLUME is not advertised".into()
        )
    );
}

// ---- freeze -----------------------------------------------------------------

#[test]
fn freeze_pushes_what_was_captured() {
    let mut w = World::default();
    let mut p = Progress::Next(freeze_and_push("/s.sock", "/d/cap.tar.zst", "r.io/db:t"));
    let result = loop {
        p = match p {
            Progress::Next(m) => {
                if let Effect::Push {
                    blob_path,
                    layer_size,
                    ..
                } = m.effect()
                {
                    assert_eq!(blob_path, "/d/cap.tar.zst");
                    assert_eq!(layer_size, 4);
                }
                let reply = w.answer(m.effect());
                m.resume(reply)
            }
            Progress::Done(r) => break r,
        };
    };
    assert_eq!(result.unwrap(), "r.io/db:t@sha256:cafe");
    assert_eq!(w.captures, ["/d/cap.tar.zst"]);
    assert!(w.dirs.contains("/d"));
    assert!(w.files.is_empty());
}

#[test]
fn freeze_errors_say_which_half_failed() {
    let e = FreezeError::Capture(ControlError::Remote("busy".into()));
    assert_eq!(e.message(), "capture: daemon error: busy");
    let e = FreezeError::Push(RegistryError::Http("refused".into()));
    assert_eq!(e.message(), "push: http: refused");
}

// ---- controller -------------------------------------------------------------

#[test]
fn create_volume_validates_seed_and_passes_context() {
    let svc = ControllerService::new(cfg());
    let mut w = World::default();
    let vol = w
        .create_volume(
            &svc,
            volume_req(
                "db",
                &[
                    ("seed", "qregistry.local/pvcs/db:rev1"),
                    ("accessMode", "rwo"),
                ],
            ),
        )
        .unwrap();
    assert_eq!(vol.volume_id, "db");
    assert_eq!(text(&vol.volume_context, VOLUME_NAME).as_deref(), Some("db"));
    assert_eq!(
        text(&vol.volume_context, "seed").as_deref(),
        Some("qregistry.local/pvcs/db:rev1")
    );
    assert_eq!(w.resolved, ["qregistry.local/pvcs/db:rev1"]);
}

#[test]
fn create_volume_from_snapshot_adds_seed() {
    let svc = ControllerService::new(cfg());
    let mut w = World::default();
    let snap = "qregistry.local/pvcs/db@sha256:cafe";
    let mut req = volume_req("db-clone", &[]);
    req.volume_content_source = Some(VolumeContentSource::Snapshot(snap.into()));
    let vol = w.create_volume(&svc, req).unwrap();
    // The snapshot ref was validated as a seed and threaded into the context.
    assert!(w.pulled.is_empty(), "controller resolves, node pulls");
    assert_eq!(text(&vol.volume_context, "seed").as_deref(), Some(snap));
    assert_eq!(w.resolved, [snap]);
    assert!(matches!(
        vol.content_source,
        Some(VolumeContentSource::Snapshot(id)) if id == snap
    ));
}

#[test]
fn created_context_replays_at_the_node() {
    let svc = ControllerService::new(cfg());
    let mut w = World::default();
    let mut req = volume_req(
        "db",
        &[
            ("seed", "r.io/a:1 r.io/b:2"),
            ("accessMode", "ReadOnly"),
            ("lifecycle", "EphemeralThenPersistent"),
            ("owner", "7:7"),
            ("captureOnDelete", "True"),
            ("captureRepo", "r.io/snaps"),
            ("csi.storage.k8s.io/pvc/name", "ignored"),
        ],
    );
    req.volume_content_source = Some(VolumeContentSource::Snapshot("r.io/s@sha256:1".into()));
    req.capacity_range = Some(CapacityRange {
        required_bytes: 5,
        limit_bytes: 9,
    });
    let vol = w.create_volume(&svc, req).unwrap();
    assert_eq!(vol.capacity_bytes, 9);
    assert_eq!(
        text(&vol.volume_context, "seed").as_deref(),
        Some("r.io/a:1,r.io/b:2,r.io/s@sha256:1")
    );
    let node = NodeService::new(cfg());
    w.publish(
        &node,
        NodePublishVolumeRequest {
            volume_id: vol.volume_id,
            target_path: TARGET.into(),
            volume_context: vol.volume_context,
            readonly: false,
        },
    )
    .unwrap();
    assert_eq!(w.pulled, ["r.io/a:1", "r.io/b:2", "r.io/s@sha256:1"]);
    let spec = &w.mounts[0];
    assert_eq!(spec.name, "db");
    assert_eq!(spec.access_mode, AccessMode::Ro);
    assert_eq!(spec.lifecycle, Lifecycle::EphemeralThenPersistent);
    assert_eq!(spec.owner.as_deref(), Some("7:7"));
}

#[test]
fn create_volume_refuses_bad_requests() {
    let svc = ControllerService::new(cfg());
    let mut w = World::default();
    let e = w.create_volume(&svc, volume_req("", &[])).err().unwrap();
    assert_eq!(e.code, Code::InvalidArgument);
    assert_eq!(e.message, "name is required");
    let mut req = volume_req("v", &[]);
    req.volume_capabilities = 0;
    let e = w.create_volume(&svc, req).err().unwrap();
    assert_eq!(e.code, Code::InvalidArgument);
    assert_eq!(e.message, "volume_capabilities is required");
    let e = w
        .create_volume(&svc, volume_req("v", &[("accessMode", "rw")]))
        .err()
        .unwrap();
    assert_eq!(e.code, Code::InvalidArgument);
    assert_eq!(
        e.message,
        "invalid accessMode \"rw\": expected empty|ro|rwo|rwx"
    );
    w.no_such_seed = true;
    let e = w
        .create_volume(&svc, volume_req("v", &[("seed", "r.io/a")]))
        .err()
        .unwrap();
    assert_eq!(e.code, Code::FailedPrecondition);
    assert_eq!(
        e.message,
        "seed r.io/a: seed r.io/a has no pullable layers"
    );
}

#[test]
fn capacity_is_the_larger_bound() {
    let range = |required_bytes, limit_bytes| {
        Some(CapacityRange {
            required_bytes,
            limit_bytes,
        })
    };
    assert_eq!(capacity_bytes(None), 0);
    assert_eq!(capacity_bytes(range(3, 0)), 3);
    assert_eq!(capacity_bytes(range(3, 8)), 8);
    assert_eq!(capacity_bytes(range(-3, -8)), -3);
}

fn snapshot_req(params: &[(&str, &str)]) -> CreateSnapshotRequest {
    CreateSnapshotRequest {
        source_volume_id: "vol-x".into(),
        name: "snap1".into(),
        parameters: map(params),
    }
}

#[test]
fn create_snapshot_requires_live_socket() {
    let svc = ControllerService::new(cfg());
    let mut w = World::default();
    // No control socket for the source volume: FailedPrecondition.
    let err = w
        .create_snapshot(&svc, snapshot_req(&[]))
        .err()
        .unwrap();
    assert_eq!(err.code, Code::FailedPrecondition);
    assert_eq!(
        err.message,
        "volume vol-x is not mounted on this host; take the snapshot from the node hosting it"
    );
    assert!(w.captures.is_empty() && w.pushed.is_empty());
}

#[test]
fn create_snapshot_pushes_a_revision() {
    let svc = ControllerService::new(cfg());
    let mut w = World::default();
    w.files
        .insert(format!("{DATA}/volumes/vol-x/control.sock"), vec![]);
    let s = w.create_snapshot(&svc, snapshot_req(&[])).unwrap();
    assert_eq!(s.snapshot_id, "qregistry.local/pvcs/vol-x:snap1@sha256:cafe");
    assert_eq!(s.source_volume_id, "vol-x");
    assert_eq!(s.size_bytes, 0);
    assert_eq!(s.creation_time.seconds, 1_700_000_000);
    assert_eq!(s.creation_time.nanos, 5);
    assert!(s.ready_to_use);
    assert_eq!(s.group_snapshot_id, "");
    let target = Reference::parse(&w.pushed[0].0).unwrap();
    assert_eq!(target.registry, "qregistry.local");
    assert_eq!(target.repository, "pvcs/vol-x");
    assert_eq!(target.reference, "snap1");

    let s = w
        .create_snapshot(&svc, snapshot_req(&[("captureRepo", "r.io/team/snaps")]))
        .unwrap();
    assert_eq!(s.snapshot_id, "r.io/team/snaps:snap1@sha256:cafe");

    w.no_push = true;
    let e = w
        .create_snapshot(&svc, snapshot_req(&[]))
        .err()
        .unwrap();
    assert_eq!(e.code, Code::Internal);
    assert_eq!(
        e.message,
        "snapshot: push: registry http://r/v2 returned 500 Internal Server Error"
    );
}

#[test]
fn create_snapshot_refuses_bad_requests() {
    let mut w = World::default();
    let svc = ControllerService::new(Config {
        capture_registry: None,
        ..cfg()
    });
    let e = w
        .create_snapshot(&svc, snapshot_req(&[]))
        .err()
        .unwrap();
    assert_eq!(e.code, Code::FailedPrecondition);
    assert_eq!(
        e.message,
        "no captureRepo parameter and no --capture-registry configured"
    );
    let mut req = snapshot_req(&[]);
    req.name = String::new();
    let e = w.create_snapshot(&svc, req).err().unwrap();
    assert_eq!((e.code, e.message.as_str()), (Code::InvalidArgument, "name is required"));
    let mut req = snapshot_req(&[]);
    req.source_volume_id = String::new();
    let e = w.create_snapshot(&svc, req).err().unwrap();
    assert_eq!(
        (e.code, e.message.as_str()),
        (Code::InvalidArgument, "source_volume_id is required")
    );
}

#[test]
fn timestamps_are_signed() {
    let t = timestamp(1_700_000_000, 999_999_999);
    assert_eq!((t.seconds, t.nanos), (1_700_000_000, 999_999_999));
}

#[test]
fn deleting_needs_an_id() {
    let svc = ControllerService::new(cfg());
    assert!(svc.delete_volume("db").is_ok());
    assert_eq!(
        refused(svc.delete_volume("")),
        (Code::InvalidArgument, "volume_id is required".into())
    );
    assert!(svc.delete_snapshot("r.io/db@sha256:1").is_ok());
    assert_eq!(
        refused(svc.delete_snapshot("")),
        (Code::InvalidArgument, "snapshot_id is required".into())
    );
}

#[test]
fn capabilities_are_confirmed_as_given() {
    let svc = ControllerService::new(cfg());
    let c = svc
        .validate_volume_capabilities("v", map(&[("a", "1")]), vec![3, 4], map(&[("b", "2")]))
        .ok()
        .unwrap();
    assert_eq!(text(&c.volume_context, "a").as_deref(), Some("1"));
    assert_eq!(c.volume_capabilities, [3, 4]);
    assert_eq!(text(&c.parameters, "b").as_deref(), Some("2"));
    assert!(c.mutable_parameters.entries().is_empty());
    assert_eq!(c.message, "");
    let e = svc
        .validate_volume_capabilities("", map(&[]), vec![0], map(&[]))
        .err()
        .unwrap();
    assert_eq!(e.message, "volume_id is required");
}

#[test]
fn controller_offers_volumes_and_snapshots_only() {
    let svc = ControllerService::new(cfg());
    assert_eq!(
        svc.controller_get_capabilities(),
        [
            ControllerRpc::CreateDeleteVolume,
            ControllerRpc::CreateDeleteSnapshot
        ]
    );
    let answers = [
        (
            svc.controller_publish_volume(),
            "rspacefs has no attach step; PUBLISH_UNPUBLISH_VOLUME is not advertised",
        ),
        (svc.controller_unpublish_volume(), "not supported"),
        (svc.list_volumes(), "LIST_VOLUMES is not advertised"),
        (svc.get_capacity(), "GET_CAPACITY is not advertised"),
        (svc.list_snapshots(), "LIST_SNAPSHOTS is not advertised"),
        (svc.controller_expand_volume(), "EXPAND_VOLUME is not advertised"),
        (svc.controller_get_volume(), "GET_VOLUME is not advertised"),
        (svc.controller_modify_volume(), "MODIFY_VOLUME is not advertised"),
    ];
    for (answer, message) in answers {
        assert_eq!(refused(answer), (Code::Unimplemented, message.to_string()));
    }
}
