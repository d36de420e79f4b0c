//! References, and the client run against an in-memory registry.

use std::collections::HashMap;

use rspacefs_csi::client::{
    blob_file, partial_file, sha256_digest, BlobHasher, HttpRequest, HttpResponse, LayerRef,
    Method, OciClient, OutManifest, RegistryEffect, RegistryReply, WireManifest, EMPTY_CONFIG,
    EMPTY_CONFIG_DIGEST, LAYER_ZSTD, MANIFEST, MANIFEST_ACCEPT, PVC_ARTIFACT_TYPE,
};
use rspacefs_csi::push::build_manifest;
use rspacefs_csi::registry::{Reference, RegistryError};
use rspacefs_csi::status::Progress;
use serde_json::Value;
use sha2::{Digest, Sha256};

// ---- references -------------------------------------------------------------

#[test]
fn reference_parse_variants() {
    let r = Reference::parse("qregistry.local/pvcs/db:rev1").unwrap();
    assert_eq!(r.registry, "qregistry.local");
    assert_eq!(r.repository, "pvcs/db");
    assert_eq!(r.reference, "rev1");

    let d = format!("sha256:{}", "a".repeat(64));
    let r = Reference::parse(&format!("qregistry.local/pvcs/db@{d}")).unwrap();
    assert_eq!(r.repository, "pvcs/db");
    assert_eq!(r.reference, d);

    let r = Reference::parse("reg.local:5000/team/app").unwrap();
    assert_eq!(r.registry, "reg.local:5000");
    assert_eq!(r.reference, "latest");

    assert!(Reference::parse("no-registry-host").is_err());
}

#[test]
fn reference_errors_name_the_reference() {
    let e = Reference::parse("db").unwrap_err();
    assert_eq!(
        e.message(),
        "invalid reference \"db\": missing registry host (expected registry/repo)"
    );
    for s in ["/db", "r.io/", "r.io/db:", "r.io/db@", "/@x"] {
        let e = Reference::parse(s).unwrap_err();
        assert_eq!(
            e.message(),
            format!("invalid reference {s:?}: empty registry, repository, or reference")
        );
    }
}

#[test]
fn canonical_form_is_a_reference() {
    let r = Reference::parse("r.io:5000/a/b:tag").unwrap();
    let c = r.canonical("sha256:12");
    assert_eq!(c, "r.io:5000/a/b@sha256:12");
    let back = Reference::parse(&c).unwrap();
    assert_eq!(back.registry, r.registry);
    assert_eq!(back.repository, r.repository);
    assert_eq!(back.reference, "sha256:12");
}

#[test]
fn every_error_has_its_words() {
    let cases = [
        (RegistryError::Http("timed out".into()), "http: timed out"),
        (RegistryError::Io("disk full".into()), "io: disk full"),
        (
            RegistryError::Status("https://r/v2/x".into(), 404),
            "registry https://r/v2/x returned 404 Not Found",
        ),
        (
            RegistryError::DigestMismatch {
                reference: "db".into(),
                expected: "sha256:1".into(),
                got: "sha256:2".into(),
            },
            "digest mismatch for db: expected sha256:1, got sha256:2",
        ),
        (
            RegistryError::NoLayers("db".into()),
            "seed db has no pullable layers",
        ),
        (
            RegistryError::BadResponse("db".into(), "eof".into()),
            "bad response from db: eof",
        ),
    ];
    for (e, words) in cases {
        assert_eq!(e.message(), words);
    }
}

// ---- URLs, paths and digests ------------------------------------------------

fn client() -> OciClient {
    OciClient::new("https".into(), false)
}

#[test]
fn urls_follow_the_distribution_api() {
    let c = client();
    let r = Reference::parse("r.io/a/b:t").unwrap();
    assert_eq!(c.manifest_url(&r), "https://r.io/v2/a/b/manifests/t");
    assert_eq!(
        c.blob_url(&r, "sha256:1"),
        "https://r.io/v2/a/b/blobs/sha256:1"
    );
    assert_eq!(
        c.uploads_url("r.io", "a/b"),
        "https://r.io/v2/a/b/blobs/uploads/"
    );
    assert_eq!(c.user_agent(), "rspacefs-csi/0.1.0");
}

#[test]
fn upload_locations_are_absolute_or_of_the_registry() {
    let c = client();
    assert_eq!(
        c.resolve_location("r.io", "/v2/u/1", "sha256:1"),
        "https://r.io/v2/u/1?digest=sha256:1"
    );
    assert_eq!(
        c.resolve_location("r.io", "/v2/u/1?state=x", "sha256:1"),
        "https://r.io/v2/u/1?state=x&digest=sha256:1"
    );
    assert_eq!(
        c.resolve_location("r.io", "http://other/u", "sha256:1"),
        "http://other/u?digest=sha256:1"
    );
    assert_eq!(
        c.resolve_location("r.io", "https://other/u?a", "sha256:1"),
        "https://other/u?a&digest=sha256:1"
    );
}

#[test]
fn blobs_are_kept_under_their_digest() {
    assert_eq!(blob_file("/d", "sha256:ab"), "/d/sha256-ab.blob");
    assert_eq!(blob_file("/d/", "x"), "/d/x.blob");
    assert_eq!(blob_file("/d", "/x"), "/d//x.blob");
    assert_eq!(
        partial_file("/d/sha256-ab.blob"),
        "/d/sha256-ab.blob.partial"
    );
    assert_eq!(partial_file("/d/.blob"), "/d/.blob.blob.partial");
}

#[test]
fn digests_are_those_of_sha256() {
    assert_eq!(sha256_digest(b"{}"), EMPTY_CONFIG_DIGEST);
    let data = b"rspacefs-pvc-data-artifact-roundtrip";
    let expected = format!("sha256:{}", hex::encode(Sha256::digest(data)));
    assert_eq!(sha256_digest(data), expected);
    let mut h = BlobHasher::new();
    for piece in data.chunks(7) {
        let (next, taken) = h.update(piece);
        assert!(taken);
        h = next;
    }
    assert_eq!(h.finish(), expected);
    assert_eq!(
        BlobHasher::new().finish(),
        "sha256:e3b0c44298fc1c149afbf4c8996fb92427ae41e4649b934ca495991b7852b855"
    );
}

fn layer(digest: &str) -> LayerRef {
    LayerRef {
        media_type: LAYER_ZSTD.into(),
        digest: digest.into(),
        size: 4,
    }
}

#[test]
fn layers_come_top_first() {
    let c = client();
    let r = Reference::parse("r.io/db:t").unwrap();
    let m = WireManifest {
        layers: vec![layer("base"), layer("mid"), layer("top")],
        manifests: 0,
    };
    let l = c.parse_layers(&r, Ok(m)).unwrap();
    let digests: Vec<&str> = l.iter().map(|l| l.digest.as_str()).collect();
    assert_eq!(digests, ["top", "mid", "base"]);
    assert_eq!(l[0].media_type, LAYER_ZSTD);
    assert_eq!(l[0].size, 4);

    let index = WireManifest {
        layers: vec![layer("base")],
        manifests: 2,
    };
    assert_eq!(
        c.parse_layers(&r, Ok(index)).unwrap_err().message(),
        "bad response from db: seed is a multi-arch index; a PVC data artifact must be a single manifest"
    );
    let empty = WireManifest {
        layers: vec![],
        manifests: 0,
    };
    assert_eq!(
        c.parse_layers(&r, Ok(empty)).unwrap_err().message(),
        "seed db has no pullable layers"
    );
    assert_eq!(
        c.parse_layers(&r, Err("expected value".into()))
            .unwrap_err()
            .message(),
        "bad response from db: expected value"
    );
}

#[test]
fn revision_manifest_marks_an_artifact() {
    let m = build_manifest("rev1", "sha256:cafe", 9);
    assert_eq!(m.schema_version, 2);
    assert_eq!(m.media_type, MANIFEST);
    assert_eq!(m.artifact_type, PVC_ARTIFACT_TYPE);
    assert_eq!(m.config.media_type, EMPTY_CONFIG);
    assert_eq!(m.config.digest, EMPTY_CONFIG_DIGEST);
    assert_eq!(m.config.size, 2);
    assert_eq!(m.layers.len(), 1);
    assert_eq!(m.layers[0].media_type, LAYER_ZSTD);
    assert_eq!(m.layers[0].digest, "sha256:cafe");
    assert_eq!(m.layers[0].size, 9);
    assert_eq!(
        m.annotations.get("org.opencontainers.image.title").unwrap(),
        "rev1"
    );
    assert_eq!(m.annotations.get("io.g8.rspacefs.pvc").unwrap(), "true");
    assert_eq!(m.annotations.entries().len(), 2);
}

// ---- an in-memory registry --------------------------------------------------

#[derive(Default)]
struct World {
    files: HashMap<String, Vec<u8>>,
    blobs: HashMap<String, Vec<u8>>,
    manifests: HashMap<String, Vec<u8>>,
    requests: Vec<(Method, String)>,
    body: Vec<Vec<u8>>,
    open: String,
    /// Status to answer uploads with instead of taking them.
    refuse: Option<u16>,
    no_location: bool,
    report_digest: Option<String>,
    chunk_error: bool,
}

fn response(status: u16) -> HttpResponse {
    HttpResponse {
        status,
        location: None,
        digest: None,
        body: vec![],
    }
}

fn descriptor(d: &LayerRef) -> Value {
    let mut o = serde_json::Map::new();
    o.insert("mediaType".into(), Value::from(d.media_type.as_str()));
    o.insert("digest".into(), Value::from(d.digest.as_str()));
    o.insert("size".into(), Value::from(d.size));
    Value::Object(o)
}

fn encode(m: &OutManifest) -> Vec<u8> {
    let mut o = serde_json::Map::new();
    o.insert("schemaVersion".into(), Value::from(m.schema_version));
    o.insert("mediaType".into(), Value::from(m.media_type.as_str()));
    o.insert("artifactType".into(), Value::from(m.artifact_type.as_str()));
    o.insert("config".into(), descriptor(&m.config));
    o.insert(
        "layers".into(),
        Value::Array(m.layers.iter().map(descriptor).collect()),
    );
    serde_json::to_vec(&Value::Object(o)).unwrap()
}

fn decode(body: &[u8]) -> Result<WireManifest, String> {
    let v: Value = serde_json::from_slice(body).map_err(|e| e.to_string())?;
    let list = |key: &str| v[key].as_array().cloned().unwrap_or_default();
    Ok(WireManifest {
        layers: list("layers")
            .iter()
            .map(|l| LayerRef {
                media_type: l["mediaType"].as_str().unwrap().into(),
                digest: l["digest"].as_str().unwrap().into(),
                size: l["size"].as_u64().unwrap_or(0),
            })
            .collect(),
        manifests: list("manifests").len(),
    })
}

impl World {
    fn http(&mut self, q: HttpRequest) -> HttpResponse {
        self.requests.push((q.method, q.url.clone()));
        let last = |url: &str| url.rsplit('/').next().unwrap().to_string();
        match q.method {
            Method::Head => response(if self.blobs.contains_key(&last(&q.url)) {
                200
            } else {
                404
            }),
            Method::Post => {
                let mut r = response(self.refuse.unwrap_or(202));
                if !self.no_location {
                    r.location = Some("/v2/upload/1".into());
                }
                r
            }
            Method::Put if q.url.contains("/manifests/") => {
                assert_eq!(q.content_type.as_deref(), Some(MANIFEST));
                self.manifests.insert(last(&q.url), q.body);
                let mut r = response(201);
                r.digest = self.report_digest.clone();
                r
            }
            Method::Put => {
                assert_eq!(q.content_type.as_deref(), Some("application/octet-stream"));
                let digest = q.url.split("digest=").nth(1).unwrap().to_string();
                assert_eq!(digest, format!("sha256:{}", hex::encode(Sha256::digest(&q.body))));
                self.blobs.insert(digest, q.body);
                response(201)
            }
            Method::Get => {
                assert_eq!(q.accept.as_deref(), Some(MANIFEST_ACCEPT));
                match self.manifests.get(&last(&q.url)) {
                    Some(body) => HttpResponse {
                        body: body.clone(),
                        ..response(200)
                    },
                    None => response(404),
                }
            }
        }
    }

    fn answer(&mut self, effect: RegistryEffect) -> RegistryReply {
        match effect {
            RegistryEffect::Http(q) => RegistryReply::Http(Ok(self.http(q))),
            RegistryEffect::DecodeManifest { body } => RegistryReply::Manifest(decode(&body)),
            RegistryEffect::EncodeManifest(m) => RegistryReply::Encoded(Ok(encode(&m))),
            RegistryEffect::ReadFile { path } => {
                RegistryReply::Contents(self.files.get(&path).cloned().ok_or("no such file".into()))
            }
            RegistryEffect::CreateDir { .. } => RegistryReply::Done(Ok(())),
            RegistryEffect::Probe { path } => {
                RegistryReply::Present(self.files.contains_key(&path))
            }
            RegistryEffect::OpenBlob { url } => {
                self.requests.push((Method::Get, url.clone()));
                let digest = url.rsplit('/').next().unwrap();
                match self.blobs.get(digest) {
                    Some(blob) => {
                        self.body = blob.chunks(5).rev().map(|c| c.to_vec()).collect();
                        RegistryReply::Opened(Ok(200))
                    }
                    None => RegistryReply::Opened(Ok(404)),
                }
            }
            RegistryEffect::CreateFile { path } => {
                self.files.insert(path.clone(), vec![]);
                self.open = path;
                RegistryReply::Done(Ok(()))
            }
            RegistryEffect::NextChunk => RegistryReply::Chunk(if self.chunk_error {
                Err("connection reset".into())
            } else {
                Ok(self.body.pop())
            }),
            RegistryEffect::WriteChunk { bytes } => {
                self.files.get_mut(&self.open).unwrap().extend(bytes);
                RegistryReply::Done(Ok(()))
            }
            RegistryEffect::Flush => RegistryReply::Done(Ok(())),
            RegistryEffect::RemoveFile { path } => {
                self.files.remove(&path);
                RegistryReply::Done(Ok(()))
            }
            RegistryEffect::Rename { from, to } => {
                let data = self.files.remove(&from).unwrap();
                self.files.insert(to, data);
                RegistryReply::Done(Ok(()))
            }
        }
    }

    fn push(&mut self, target: &str, path: &str, digest: &str, size: u64) -> Result<String, RegistryError> {
        let mut p = client().push_revision(target, path, digest, size);
        loop {
            p = match p {
                Progress::Next(m) => {
                    let reply = self.answer(m.effect());
                    m.resume(reply)
                }
                Progress::Done(r) => return r,
            };
        }
    }

    fn resolve(&mut self, seed: &str) -> Result<Vec<LayerRef>, RegistryError> {
        let mut p = client().resolve(seed);
        loop {
            p = match p {
                Progress::Next(m) => {
                    let reply = self.answer(m.effect());
                    m.resume(reply)
                }
                Progress::Done(r) => return r,
            };
        }
    }

    fn pull(&mut self, seed: &str, dir: &str) -> Result<Vec<String>, RegistryError> {
        let mut p = client().pull_layers(seed, dir);
        loop {
            p = match p {
                Progress::Next(m) => {
                    let reply = self.answer(m.effect());
                    m.resume(reply)
                }
                Progress::Done(r) => return r,
            };
        }
    }
}

#[test]
fn registry_roundtrip() {
    let mut w = World::default();
    let payload = b"rspacefs-pvc-data-artifact-roundtrip";
    w.files
        .insert("/tmp/layer.tar.zst".into(), payload.to_vec());
    let digest = format!("sha256:{}", hex::encode(Sha256::digest(payload)));

    let host = "localhost:5000";
    let target = format!("{host}/pvcs/csitest:rev1");
    let pushed = w
        .push(&target, "/tmp/layer.tar.zst", &digest, payload.len() as u64)
        .expect("push_revision");
    assert!(pushed.contains("@sha256:"), "canonical ref: {pushed}");
    let published = format!("sha256:{}", hex::encode(Sha256::digest(&w.manifests["rev1"])));
    assert_eq!(pushed, format!("{host}/pvcs/csitest@{published}"));

    let layers = w.resolve(&target).expect("resolve");
    assert_eq!(layers.len(), 1);
    assert_eq!(layers[0].digest, digest);

    let pulled = w.pull(&target, "/tmp").expect("pull");
    assert_eq!(pulled.len(), 1);
    let got = &w.files[&pulled[0]];
    assert_eq!(got, payload, "pulled bytes match pushed (digest-verified)");
    assert!(!w.files.keys().any(|k| k.ends_with(".partial")));
}

#[test]
fn blobs_that_are_there_are_not_sent_again() {
    let mut w = World::default();
    w.files.insert("/l".into(), b"data".to_vec());
    let digest = sha256_digest(b"data");
    w.push("r.io/db:1", "/l", &digest, 4).unwrap();
    let first = w.requests.len();
    assert_eq!(first, 7);
    w.push("r.io/db:2", "/l", &digest, 4).unwrap();
    let methods: Vec<Method> = w.requests[first..].iter().map(|(m, _)| *m).collect();
    assert_eq!(methods, [Method::Head, Method::Head, Method::Put]);

    w.pull("r.io/db:2", "/lowers").unwrap();
    let before = w.requests.len();
    let again = w.pull("r.io/db:1", "/lowers").unwrap();
    assert_eq!(again, [blob_file("/lowers", &digest)]);
    // Only the manifest was fetched.
    assert_eq!(w.requests.len(), before + 1);
}

#[test]
fn every_layer_is_pulled_digest_verified() {
    let mut w = World::default();
    let bodies: [&[u8]; 3] = [b"base layer", b"middle", b"top of the stack"];
    let mut layers: Vec<LayerRef> = bodies.iter().map(|b| layer(&sha256_digest(b))).collect();
    layers.push(layer(&sha256_digest(bodies[0])));
    let mut m = build_manifest("t", "sha256:0", 0);
    m.layers = layers;
    w.manifests.insert("t".into(), encode(&m));
    for body in bodies {
        w.blobs.insert(sha256_digest(body), body.to_vec());
    }
    // The middle layer is there already.
    let kept = blob_file("/lowers", &sha256_digest(bodies[1]));
    w.files.insert(kept.clone(), bodies[1].to_vec());

    let pulled = w.pull("r.io/db:t", "/lowers").unwrap();
    let expected = [bodies[0], bodies[2], bodies[1], bodies[0]];
    assert_eq!(pulled.len(), expected.len());
    for (path, body) in pulled.iter().zip(expected) {
        assert_eq!(path, &blob_file("/lowers", &sha256_digest(body)));
        assert_eq!(w.files[path], body);
    }
    assert_eq!(pulled[2], kept);
    // The manifest, and each of the two missing blobs once.
    assert_eq!(w.requests.len(), 3);
}

#[test]
fn the_reported_digest_is_preferred() {
    let mut w = World {
        report_digest: Some("sha256:feed".into()),
        ..World::default()
    };
    w.files.insert("/l".into(), b"data".to_vec());
    let pushed = w.push("r.io/db:1", "/l", &sha256_digest(b"data"), 4).unwrap();
    assert_eq!(pushed, "r.io/db@sha256:feed");
    assert_eq!(Reference::parse(&pushed).unwrap().reference, "sha256:feed");
}

#[test]
fn pushes_fail_where_a_step_fails() {
    let mut w = World::default();
    assert_eq!(
        w.push("r.io/db:1", "/l", "sha256:1", 4).unwrap_err().message(),
        "io: no such file"
    );
    w.files.insert("/l".into(), b"data".to_vec());
    assert_eq!(
        w.push("r.io/db:1", "/l", "sha256:1", 1203).unwrap_err().message(),
        "bad response from db: captured blob size 4 != reported 1203"
    );
    assert_eq!(w.requests.len(), 0);
    assert!(matches!(
        w.push("db", "/l", "sha256:1", 4),
        Err(RegistryError::BadReference(_, _))
    ));
    w.refuse = Some(201);
    assert_eq!(
        w.push("r.io/db:1", "/l", "sha256:1", 4).unwrap_err().message(),
        "registry https://r.io/v2/db/blobs/uploads/ returned 201 Created"
    );
    w.refuse = None;
    w.no_location = true;
    assert_eq!(
        w.push("r.io/db:1", "/l", "sha256:1", 4).unwrap_err().message(),
        "bad response from db: upload POST had no Location"
    );
    assert!(w.manifests.is_empty());
}

#[test]
fn a_blob_with_another_digest_is_removed() {
    let mut w = World::default();
    let m = build_manifest("t", "sha256:00", 4);
    w.manifests.insert("t".into(), encode(&m));
    w.blobs.insert("sha256:00".into(), b"tampered".to_vec());
    let e = w.pull("r.io/db:t", "/lowers").unwrap_err();
    assert_eq!(
        e.message(),
        format!(
            "digest mismatch for db: expected sha256:00, got {}",
            sha256_digest(b"tampered")
        )
    );
    assert!(w.files.is_empty());
}

#[test]
fn the_case_of_a_digest_does_not_matter() {
    let mut w = World::default();
    let digest = sha256_digest(b"data").to_uppercase();
    w.manifests
        .insert("t".into(), encode(&build_manifest("t", &digest, 4)));
    w.blobs.insert(digest.clone(), b"data".to_vec());
    let pulled = w.pull("r.io/db:t", "/lowers").unwrap();
    assert_eq!(w.files[&pulled[0]], b"data");
}

#[test]
fn pulls_fail_where_a_step_fails() {
    let mut w = World::default();
    assert_eq!(
        w.pull("r.io/db:t", "/d").unwrap_err().message(),
        "registry https://r.io/v2/db/manifests/t returned 404 Not Found"
    );
    assert_eq!(
        w.resolve("r.io/db:t").unwrap_err().message(),
        "registry https://r.io/v2/db/manifests/t returned 404 Not Found"
    );
    assert!(matches!(
        w.pull("db", "/d"),
        Err(RegistryError::BadReference(_, _))
    ));
    w.manifests
        .insert("t".into(), encode(&build_manifest("t", "sha256:1", 4)));
    assert_eq!(
        w.pull("r.io/db:t", "/d").unwrap_err().message(),
        "registry https://r.io/v2/db/blobs/sha256:1 returned 404 Not Found"
    );
    w.blobs.insert("sha256:1".into(), vec![1]);
    w.chunk_error = true;
    assert_eq!(
        w.pull("r.io/db:t", "/d").unwrap_err().message(),
        "http: connection reset"
    );
}
