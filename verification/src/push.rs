//! Pushing a captured layer as a new revision: the layer, the empty config that
//! marks an artifact, and the manifest that names both.

use crate::client::{
    bare, bare_request, blob_url, digest_text, empty_config, is_success, law_blob_url, law_success,
    layers_of, manifest_url, put, put_request, revision_manifest, sha256_digest, success, upload_url, uploads_url,
    HttpResponse, LayerRef, LayerRefView, Method, OciClient, OutManifest, RegistryEffect, RegistryEffectView,
    RegistryReply, WireManifest, EMPTY_CONFIG, EMPTY_CONFIG_DIGEST, HASH_LIMIT, LAYER_ZSTD,
    MANIFEST, OCTET_STREAM, PVC_ARTIFACT_TYPE,
};
use crate::map::ParamMap;
use crate::outside::{hex_text, sha256_of};
use crate::pull::{unit_result, waited_for};
use crate::registry::{
    law_canonical_is_a_reference, reference_of, Reference, ReferenceView, RegistryError,
    RegistryErrorView,
};
use crate::status::{lemma_run_push, run, Progress, Steps};
use crate::text;
use vstd::prelude::*;

verus! {

// ---- one blob ------------------------------------------------------------

/// Where a [`PushBlob`] stands: what it waits for.
pub enum PushBlobAt {
    /// Waits to learn whether the registry has the blob.
    Head,
    /// Waits for an upload session.
    Start,
    /// Waits for an upload to this URL.
    Upload(String),
}

/// What a [`PushBlobAt`] says.
pub enum PushBlobAtView {
    Head,
    Start,
    Upload(Seq<char>),
}

impl View for PushBlobAt {
    type V = PushBlobAtView;

    open spec fn view(&self) -> PushBlobAtView {
        match self {
            PushBlobAt::Head => PushBlobAtView::Head,
            PushBlobAt::Start => PushBlobAtView::Start,
            PushBlobAt::Upload(url) => PushBlobAtView::Upload(url@),
        }
    }
}

/// Uploads a blob, unless the registry has it already.
pub struct PushBlob {
    pub client: OciClient,
    pub reference: Reference,
    pub digest: String,
    pub bytes: Vec<u8>,
    pub at: PushBlobAt,
}

/// What a [`PushBlob`] says.
#[verifier::ext_equal]
pub struct PushBlobView {
    pub scheme: Seq<char>,
    pub reference: ReferenceView,
    pub digest: Seq<char>,
    pub bytes: Seq<u8>,
    pub at: PushBlobAtView,
}

impl View for PushBlob {
    type V = PushBlobView;

    open spec fn view(&self) -> PushBlobView {
        PushBlobView {
            scheme: self.client.scheme@,
            reference: self.reference@,
            digest: self.digest@,
            bytes: self.bytes@,
            at: self.at@,
        }
    }
}

impl PushBlobView {
    /// What the upload asks for in this state.
    pub open spec fn effect(self) -> RegistryEffectView {
        RegistryEffectView::Http(
            match self.at {
                PushBlobAtView::Head => bare(
                    Method::Head,
                    blob_url(self.scheme, self.reference, self.digest),
                ),
                PushBlobAtView::Start => bare(
                    Method::Post,
                    uploads_url(self.scheme, self.reference.registry, self.reference.repository),
                ),
                PushBlobAtView::Upload(url) => put(url, OCTET_STREAM@, self.bytes),
            },
        )
    }

    /// The upload at another point.
    pub open spec fn to(self, at: PushBlobAtView) -> Progress<
        PushBlobView,
        Result<(), RegistryErrorView>,
    > {
        Progress::Next(PushBlobView { at, ..self })
    }
}

impl Steps for PushBlobView {
    type Reply = RegistryReply;

    type Out = Result<(), RegistryErrorView>;

    /// How the upload goes on. A reply that the state does not wait for changes
    /// nothing.
    open spec fn resume(self, reply: RegistryReply) -> Progress<
        PushBlobView,
        Result<(), RegistryErrorView>,
    > {
        match (self.at, reply) {
            (_, RegistryReply::Http(Err(e))) => Progress::Done(Err(RegistryErrorView::Http(e@))),
            (PushBlobAtView::Head, RegistryReply::Http(Ok(resp))) => if is_success(resp.status) {
                Progress::Done(Ok(()))
            } else {
                self.to(PushBlobAtView::Start)
            },
            (PushBlobAtView::Start, RegistryReply::Http(Ok(resp))) => if resp.status != 202 {
                Progress::Done(
                    Err(
                        RegistryErrorView::Status(
                            uploads_url(
                                self.scheme,
                                self.reference.registry,
                                self.reference.repository,
                            ),
                            resp.status,
                        ),
                    ),
                )
            } else {
                match resp.location {
                    None => Progress::Done(
                        Err(
                            RegistryErrorView::BadResponse(
                                self.reference.repository,
                                "upload POST had no Location"@,
                            ),
                        ),
                    ),
                    Some(location) => self.to(
                        PushBlobAtView::Upload(
                            upload_url(
                                self.scheme,
                                self.reference.registry,
                                location@,
                                self.digest,
                            ),
                        ),
                    ),
                }
            },
            (PushBlobAtView::Upload(url), RegistryReply::Http(Ok(resp))) => if is_success(
                resp.status,
            ) {
                Progress::Done(Ok(()))
            } else {
                Progress::Done(Err(RegistryErrorView::Status(url, resp.status)))
            },
            _ => Progress::Next(self),
        }
    }
}

/// `p` with what it holds replaced by what that says.
pub open spec fn push_blob_progress(p: Progress<PushBlob, Result<(), RegistryError>>) -> Progress<
    PushBlobView,
    Result<(), RegistryErrorView>,
> {
    match p {
        Progress::Next(m) => Progress::Next(m@),
        Progress::Done(r) => Progress::Done(unit_result(r)),
    }
}

impl PushBlob {
    /// What the upload asks for in this state.
    pub fn effect(&self) -> (r: RegistryEffect)
        ensures
            r@ == self@.effect(),
    {
        let request = match &self.at {
            PushBlobAt::Head => bare_request(
                Method::Head,
                self.client.blob_url(&self.reference, self.digest.as_str()),
            ),
            PushBlobAt::Start => bare_request(
                Method::Post,
                self.client.uploads_url(
                    self.reference.registry.as_str(),
                    self.reference.repository.as_str(),
                ),
            ),
            PushBlobAt::Upload(url) => put_request(url.clone(), OCTET_STREAM, self.bytes.clone()),
        };
        RegistryEffect::Http(request)
    }

    /// How the upload goes on. A reply that the state does not wait for changes
    /// nothing.
    pub fn resume(self, reply: RegistryReply) -> (r: Progress<PushBlob, Result<(), RegistryError>>)
        ensures
            push_blob_progress(r) == self@.resume(reply),
    {
        let PushBlob { client, reference, digest, bytes, at } = self;
        let resp = match reply {
            RegistryReply::Http(Ok(resp)) => resp,
            RegistryReply::Http(Err(e)) => {
                return Progress::Done(Err(RegistryError::Http(e)));
            },
            _ => {
                return Progress::Next(PushBlob { client, reference, digest, bytes, at });
            },
        };
        match at {
            PushBlobAt::Head => if success(resp.status) {
                Progress::Done(Ok(()))
            } else {
                Progress::Next(PushBlob { client, reference, digest, bytes, at: PushBlobAt::Start })
            },
            PushBlobAt::Start => {
                if resp.status != 202 {
                    let url = client.uploads_url(
                        reference.registry.as_str(),
                        reference.repository.as_str(),
                    );
                    return Progress::Done(Err(RegistryError::Status(url, resp.status)));
                }
                match resp.location {
                    None => Progress::Done(
                        Err(
                            RegistryError::BadResponse(
                                reference.repository,
                                "upload POST had no Location".to_string(),
                            ),
                        ),
                    ),
                    Some(location) => {
                        let url = client.resolve_location(
                            reference.registry.as_str(),
                            location.as_str(),
                            digest.as_str(),
                        );
                        let at = PushBlobAt::Upload(url);
                        Progress::Next(PushBlob { client, reference, digest, bytes, at })
                    },
                }
            },
            PushBlobAt::Upload(url) => if success(resp.status) {
                Progress::Done(Ok(()))
            } else {
                Progress::Done(Err(RegistryError::Status(url, resp.status)))
            },
        }
    }
}

impl OciClient {
    /// Begins to upload a blob.
    pub fn push_blob(&self, reference: &Reference, digest: &str, bytes: Vec<u8>) -> (r: PushBlob)
        ensures
            r@ == (PushBlobView {
                scheme: self.scheme@,
                reference: reference@,
                digest: digest@,
                bytes: bytes@,
                at: PushBlobAtView::Head,
            }),
    {
        PushBlob {
            client: self.clone(),
            reference: reference.clone(),
            digest: digest.to_string(),
            bytes,
            at: PushBlobAt::Head,
        }
    }
}

// ---- a revision ----------------------------------------------------------

/// The manifest of a captured revision.
pub fn build_manifest(tag: &str, layer_digest: &str, layer_size: u64) -> (r: OutManifest)
    ensures
        r@ == revision_manifest(tag@, layer_digest@, layer_size),
{
    let mut annotations = ParamMap::new();
    annotations.insert("org.opencontainers.image.title".to_string(), tag.to_string());
    annotations.insert("io.g8.rspacefs.pvc".to_string(), "true".to_string());
    let layer = LayerRef {
        media_type: LAYER_ZSTD.to_string(),
        digest: layer_digest.to_string(),
        size: layer_size,
    };
    let mut layers: Vec<LayerRef> = Vec::new();
    layers.push(layer);
    let r = OutManifest {
        schema_version: 2,
        media_type: MANIFEST.to_string(),
        artifact_type: PVC_ARTIFACT_TYPE.to_string(),
        config: LayerRef {
            media_type: EMPTY_CONFIG.to_string(),
            digest: EMPTY_CONFIG_DIGEST.to_string(),
            size: 2,
        },
        layers,
        annotations,
    };
    assert(r@ =~= revision_manifest(tag@, layer_digest@, layer_size));
    r
}

/// Where a [`PushRevision`] stands: what it waits for.
pub enum PushAt {
    Read,
    Layer(PushBlob),
    Config(PushBlob),
    Encode,
    /// Waits for this manifest, with this digest, to be published.
    Publish(Vec<u8>, String),
}

/// What a [`PushAt`] says.
pub enum PushAtView {
    Read,
    Layer(PushBlobView),
    Config(PushBlobView),
    Encode,
    Publish(Seq<u8>, Seq<char>),
}

impl View for PushAt {
    type V = PushAtView;

    open spec fn view(&self) -> PushAtView {
        match self {
            PushAt::Read => PushAtView::Read,
            PushAt::Layer(m) => PushAtView::Layer(m@),
            PushAt::Config(m) => PushAtView::Config(m@),
            PushAt::Encode => PushAtView::Encode,
            PushAt::Publish(bytes, digest) => PushAtView::Publish(bytes@, digest@),
        }
    }
}

/// Pushes a captured layer as a new revision.
pub struct PushRevision {
    pub client: OciClient,
    pub reference: Reference,
    pub blob_path: String,
    pub layer_digest: String,
    pub layer_size: u64,
    pub at: PushAt,
}

/// What a [`PushRevision`] says.
#[verifier::ext_equal]
pub struct PushRevisionView {
    pub scheme: Seq<char>,
    pub reference: ReferenceView,
    pub blob_path: Seq<char>,
    pub layer_digest: Seq<char>,
    pub layer_size: u64,
    pub at: PushAtView,
}

impl View for PushRevision {
    type V = PushRevisionView;

    open spec fn view(&self) -> PushRevisionView {
        PushRevisionView {
            scheme: self.client.scheme@,
            reference: self.reference@,
            blob_path: self.blob_path@,
            layer_digest: self.layer_digest@,
            layer_size: self.layer_size,
            at: self.at@,
        }
    }
}

/// `r` with what it holds replaced by what that says.
pub open spec fn text_result(r: Result<String, RegistryError>) -> Result<
    Seq<char>,
    RegistryErrorView,
> {
    match r {
        Ok(s) => Ok(s@),
        Err(e) => Err(e@),
    }
}

impl PushRevisionView {
    /// What the push asks for in this state.
    pub open spec fn effect(self) -> RegistryEffectView {
        match self.at {
            PushAtView::Read => RegistryEffectView::ReadFile { path: self.blob_path },
            PushAtView::Layer(m) => m.effect(),
            PushAtView::Config(m) => m.effect(),
            PushAtView::Encode => RegistryEffectView::EncodeManifest(
                revision_manifest(self.reference.reference, self.layer_digest, self.layer_size),
            ),
            PushAtView::Publish(bytes, _) => RegistryEffectView::Http(
                put(manifest_url(self.scheme, self.reference), MANIFEST@, bytes),
            ),
        }
    }

    /// The push at another point.
    pub open spec fn to(self, at: PushAtView) -> Progress<
        PushRevisionView,
        Result<Seq<char>, RegistryErrorView>,
    > {
        Progress::Next(PushRevisionView { at, ..self })
    }

    /// The upload of a blob of this revision.
    pub open spec fn blob(self, digest: Seq<char>, bytes: Seq<u8>) -> PushBlobView {
        PushBlobView {
            scheme: self.scheme,
            reference: self.reference,
            digest,
            bytes,
            at: PushBlobAtView::Head,
        }
    }

    /// Gives up.
    pub open spec fn fail(self, e: RegistryErrorView) -> Progress<
        PushRevisionView,
        Result<Seq<char>, RegistryErrorView>,
    > {
        Progress::Done(Err(e))
    }
}

impl Steps for PushRevisionView {
    type Reply = RegistryReply;

    type Out = Result<Seq<char>, RegistryErrorView>;

    /// How the push goes on. A reply that the state does not wait for changes
    /// nothing.
    open spec fn resume(self, reply: RegistryReply) -> Progress<
        PushRevisionView,
        Result<Seq<char>, RegistryErrorView>,
    > {
        match (self.at, reply) {
            (PushAtView::Read, RegistryReply::Contents(r)) => match r {
                Err(e) => self.fail(RegistryErrorView::Io(e@)),
                Ok(bytes) => if bytes@.len() != self.layer_size {
                    self.fail(
                        RegistryErrorView::BadResponse(
                            self.reference.repository,
                            "captured blob size "@ + text::decimal(bytes@.len()) + " != reported "@
                                + text::decimal(self.layer_size as nat),
                        ),
                    )
                } else {
                    self.to(PushAtView::Layer(self.blob(self.layer_digest, bytes@)))
                },
            },
            (PushAtView::Layer(m), _) => match m.resume(reply) {
                Progress::Next(k) => self.to(PushAtView::Layer(k)),
                Progress::Done(Err(e)) => self.fail(e),
                Progress::Done(Ok(_)) => self.to(
                    PushAtView::Config(self.blob(EMPTY_CONFIG_DIGEST@, empty_config())),
                ),
            },
            (PushAtView::Config(m), _) => match m.resume(reply) {
                Progress::Next(k) => self.to(PushAtView::Config(k)),
                Progress::Done(Err(e)) => self.fail(e),
                Progress::Done(Ok(_)) => self.to(PushAtView::Encode),
            },
            (PushAtView::Encode, RegistryReply::Encoded(r)) => match r {
                Err(e) => self.fail(RegistryErrorView::BadResponse(self.reference.repository, e@)),
                Ok(bytes) => if bytes@.len() < HASH_LIMIT {
                    self.to(PushAtView::Publish(bytes@, digest_text(sha256_of(bytes@))))
                } else {
                    self.fail(
                        RegistryErrorView::BadResponse(
                            self.reference.repository,
                            "manifest is too large"@,
                        ),
                    )
                },
            },
            (PushAtView::Publish(_, digest), RegistryReply::Http(r)) => match r {
                Err(e) => self.fail(RegistryErrorView::Http(e@)),
                Ok(resp) => if is_success(resp.status) {
                    Progress::Done(
                        Ok(
                            self.reference.canonical(
                                match resp.digest {
                                    Some(reported) => reported@,
                                    None => digest,
                                },
                            ),
                        ),
                    )
                } else {
                    self.fail(
                        RegistryErrorView::Status(
                            manifest_url(self.scheme, self.reference),
                            resp.status,
                        ),
                    )
                },
            },
            _ => Progress::Next(self),
        }
    }
}

/// `p` with what it holds replaced by what that says.
pub open spec fn push_progress(p: Progress<PushRevision, Result<String, RegistryError>>) -> Progress<
    PushRevisionView,
    Result<Seq<char>, RegistryErrorView>,
> {
    match p {
        Progress::Next(m) => Progress::Next(m@),
        Progress::Done(r) => Progress::Done(text_result(r)),
    }
}

/// How pushing a revision begins.
pub open spec fn push_start(
    scheme: Seq<char>,
    target_ref: Seq<char>,
    blob_path: Seq<char>,
    layer_digest: Seq<char>,
    layer_size: u64,
) -> Progress<PushRevisionView, Result<Seq<char>, RegistryErrorView>> {
    match reference_of(target_ref) {
        Ok(reference) => Progress::Next(
            PushRevisionView {
                scheme,
                reference,
                blob_path,
                layer_digest,
                layer_size,
                at: PushAtView::Read,
            },
        ),
        Err(e) => Progress::Done(Err(e)),
    }
}

impl PushRevision {
    /// What the push asks for in this state.
    pub fn effect(&self) -> (r: RegistryEffect)
        ensures
            r@ == self@.effect(),
    {
        match &self.at {
            PushAt::Read => RegistryEffect::ReadFile { path: self.blob_path.clone() },
            PushAt::Layer(m) => m.effect(),
            PushAt::Config(m) => m.effect(),
            PushAt::Encode => RegistryEffect::EncodeManifest(
                build_manifest(
                    self.reference.reference.as_str(),
                    self.layer_digest.as_str(),
                    self.layer_size,
                ),
            ),
            PushAt::Publish(bytes, _) => RegistryEffect::Http(
                put_request(self.client.manifest_url(&self.reference), MANIFEST, bytes.clone()),
            ),
        }
    }

    /// How the push goes on. A reply that the state does not wait for changes
    /// nothing.
    pub fn resume(self, reply: RegistryReply) -> (r: Progress<
        PushRevision,
        Result<String, RegistryError>,
    >)
        ensures
            push_progress(r) == self@.resume(reply),
    {
        let PushRevision { client, reference, blob_path, layer_digest, layer_size, at } = self;
        let at = match (at, reply) {
            (PushAt::Read, RegistryReply::Contents(r)) => match r {
                Err(e) => {
                    return Progress::Done(Err(RegistryError::Io(e)));
                },
                Ok(bytes) => {
                    if bytes.len() as u64 != layer_size {
                        let found = text::to_decimal(bytes.len() as u64);
                        let reported = text::to_decimal(layer_size);
                        return Progress::Done(
                            Err(
                                RegistryError::BadResponse(
                                    reference.repository,
                                    "captured blob size ".to_string().concat(found.as_str()).concat(
                                        " != reported ",
                                    ).concat(reported.as_str()),
                                ),
                            ),
                        );
                    }
                    PushAt::Layer(client.push_blob(&reference, layer_digest.as_str(), bytes))
                },
            },
            (PushAt::Layer(m), reply) => match m.resume(reply) {
                Progress::Next(k) => PushAt::Layer(k),
                Progress::Done(Err(e)) => {
                    return Progress::Done(Err(e));
                },
                Progress::Done(Ok(_)) => {
                    let config: Vec<u8> = vec![123, 125];
                    assert(config@ =~= empty_config());
                    PushAt::Config(client.push_blob(&reference, EMPTY_CONFIG_DIGEST, config))
                },
            },
            (PushAt::Config(m), reply) => match m.resume(reply) {
                Progress::Next(k) => PushAt::Config(k),
                Progress::Done(Err(e)) => {
                    return Progress::Done(Err(e));
                },
                Progress::Done(Ok(_)) => PushAt::Encode,
            },
            (PushAt::Encode, RegistryReply::Encoded(r)) => match r {
                Err(e) => {
                    return Progress::Done(Err(RegistryError::BadResponse(reference.repository, e)));
                },
                Ok(bytes) => {
                    if bytes.len() as u64 >= HASH_LIMIT {
                        return Progress::Done(
                            Err(
                                RegistryError::BadResponse(
                                    reference.repository,
                                    "manifest is too large".to_string(),
                                ),
                            ),
                        );
                    }
                    let digest = sha256_digest(bytes.as_slice());
                    PushAt::Publish(bytes, digest)
                },
            },
            (PushAt::Publish(bytes, digest), RegistryReply::Http(r)) => match r {
                Err(e) => {
                    return Progress::Done(Err(RegistryError::Http(e)));
                },
                Ok(resp) => {
                    if !success(resp.status) {
                        return Progress::Done(
                            Err(RegistryError::Status(client.manifest_url(&reference), resp.status)),
                        );
                    }
                    let digest = match resp.digest {
                        Some(reported) => reported,
                        None => digest,
                    };
                    return Progress::Done(Ok(reference.canonical(digest.as_str())));
                },
            },
            (at, _) => at,
        };
        Progress::Next(
            PushRevision { client, reference, blob_path, layer_digest, layer_size, at },
        )
    }
}

impl OciClient {
    /// Begins to push a captured layer as a new revision at `target_ref`.
    pub fn push_revision(
        &self,
        target_ref: &str,
        blob_path: &str,
        layer_digest: &str,
        layer_size: u64,
    ) -> (r: Progress<PushRevision, Result<String, RegistryError>>)
        ensures
            push_progress(r) == push_start(
                self.scheme@,
                target_ref@,
                blob_path@,
                layer_digest@,
                layer_size,
            ),
    {
        match Reference::parse(target_ref) {
            Ok(reference) => Progress::Next(
                PushRevision {
                    client: self.clone(),
                    reference,
                    blob_path: blob_path.to_string(),
                    layer_digest: layer_digest.to_string(),
                    layer_size,
                    at: PushAt::Read,
                },
            ),
            Err(e) => Progress::Done(Err(e)),
        }
    }
}

// ---- laws ----------------------------------------------------------------

/// Whether one of the replies ended the upload of a blob well: the registry has
/// the blob named `digest`.
pub open spec fn uploaded(
    m: PushRevisionView,
    replies: Seq<RegistryReply>,
    digest: Seq<char>,
) -> bool {
    exists|i: int|
        0 <= i < replies.len() && upload_ends(run(m, #[trigger] replies.take(i)), replies[i], digest)
}

/// Whether `reply` ends the upload of the blob named `digest` well.
pub open spec fn upload_ends(
    p: Progress<PushRevisionView, Result<Seq<char>, RegistryErrorView>>,
    reply: RegistryReply,
    digest: Seq<char>,
) -> bool {
    match p {
        Progress::Next(k) => match k.at {
            PushAtView::Layer(b) | PushAtView::Config(b) => b.digest == digest && b.resume(reply)
                == Progress::<PushBlobView, _>::Done(Ok::<(), RegistryErrorView>(())),
            _ => false,
        },
        Progress::Done(_) => false,
    }
}

impl PushRevisionView {
    /// What holds in every state of a push that began as `m` and got these
    /// replies.
    spec fn reached(self, m: PushRevisionView, replies: Seq<RegistryReply>) -> bool {
        &&& self.scheme == m.scheme
        &&& self.reference == m.reference
        &&& self.layer_digest == m.layer_digest
        &&& self.layer_size == m.layer_size
        &&& match self.at {
            PushAtView::Read => true,
            PushAtView::Layer(b) => b.digest == m.layer_digest && b.bytes.len() == m.layer_size,
            PushAtView::Config(b) => {
                &&& b.digest == EMPTY_CONFIG_DIGEST@
                &&& b.bytes == empty_config()
                &&& uploaded(m, replies, m.layer_digest)
            },
            PushAtView::Encode => {
                &&& uploaded(m, replies, m.layer_digest)
                &&& uploaded(m, replies, EMPTY_CONFIG_DIGEST@)
            },
            PushAtView::Publish(bytes, digest) => {
                &&& digest == digest_text(sha256_of(bytes))
                &&& uploaded(m, replies, m.layer_digest)
                &&& uploaded(m, replies, EMPTY_CONFIG_DIGEST@)
            },
        }
    }
}

proof fn lemma_uploaded_on(m: PushRevisionView, replies: Seq<RegistryReply>, digest: Seq<char>)
    requires
        replies.len() > 0,
        uploaded(m, replies.drop_last(), digest) || upload_ends(
            run(m, replies.drop_last()),
            replies.last(),
            digest,
        ),
    ensures
        uploaded(m, replies, digest),
{
    let d = replies.drop_last();
    if uploaded(m, d, digest) {
        let i = choose|i: int|
            0 <= i < d.len() && upload_ends(run(m, #[trigger] d.take(i)), d[i], digest);
        assert(replies.take(i) =~= d.take(i));
    } else {
        assert(replies.take(replies.len() - 1) =~= d);
    }
}

proof fn lemma_push_reached(m: PushRevisionView, replies: Seq<RegistryReply>)
    requires
        m.at is Read,
    ensures
        run(m, replies) matches Progress::Next(k) ==> k.reached(m, replies),
        run(m, replies) matches Progress::Done(Ok(s)) ==> {
            &&& uploaded(m, replies, m.layer_digest)
            &&& uploaded(m, replies, EMPTY_CONFIG_DIGEST@)
            &&& exists|digest: Seq<char>| s == #[trigger] m.reference.canonical(digest)
        },
    decreases replies.len(),
{
    if replies.len() > 0 {
        let d = replies.drop_last();
        lemma_push_reached(m, d);
        if uploaded(m, d, m.layer_digest) || upload_ends(run(m, d), replies.last(), m.layer_digest) {
            lemma_uploaded_on(m, replies, m.layer_digest);
        }
        if uploaded(m, d, EMPTY_CONFIG_DIGEST@) || upload_ends(
            run(m, d),
            replies.last(),
            EMPTY_CONFIG_DIGEST@,
        ) {
            lemma_uploaded_on(m, replies, EMPTY_CONFIG_DIGEST@);
        }
    }
}

/// The manifest is published only when the registry has the layer and the
/// config that it names.
pub proof fn law_manifest_comes_after_its_blobs(
    scheme: Seq<char>,
    target_ref: Seq<char>,
    blob_path: Seq<char>,
    layer_digest: Seq<char>,
    layer_size: u64,
    replies: Seq<RegistryReply>,
)
    ensures
        push_start(scheme, target_ref, blob_path, layer_digest, layer_size) matches Progress::Next(
            m,
        ) ==> (run(m, replies) matches Progress::Next(k) ==> (k.at is Publish ==> {
            &&& uploaded(m, replies, layer_digest)
            &&& uploaded(m, replies, EMPTY_CONFIG_DIGEST@)
        })),
{
    if let Progress::Next(m) = push_start(
        scheme,
        target_ref,
        blob_path,
        layer_digest,
        layer_size,
    ) {
        lemma_push_reached(m, replies);
    }
}

/// A layer is uploaded only if the captured file is as long as the capture
/// reported, and under the digest that it reported.
pub proof fn law_truncated_layer_is_not_pushed(
    scheme: Seq<char>,
    target_ref: Seq<char>,
    blob_path: Seq<char>,
    layer_digest: Seq<char>,
    layer_size: u64,
    replies: Seq<RegistryReply>,
)
    ensures
        push_start(scheme, target_ref, blob_path, layer_digest, layer_size) matches Progress::Next(
            m,
        ) ==> (run(m, replies) matches Progress::Next(k) ==> (k.at matches PushAtView::Layer(b) ==> {
            &&& b.bytes.len() == layer_size
            &&& b.digest == layer_digest
        })),
{
    if let Progress::Next(m) = push_start(
        scheme,
        target_ref,
        blob_path,
        layer_digest,
        layer_size,
    ) {
        lemma_push_reached(m, replies);
    }
}

/// A push that succeeds returns `registry/repository@digest` for the repository
/// that it was sent to. Unless the registry reports an empty digest, that is a
/// reference, and can be used as a seed.
pub proof fn law_pushed_is_a_seed(
    scheme: Seq<char>,
    target_ref: Seq<char>,
    blob_path: Seq<char>,
    layer_digest: Seq<char>,
    layer_size: u64,
    replies: Seq<RegistryReply>,
)
    ensures
        push_start(scheme, target_ref, blob_path, layer_digest, layer_size) matches Progress::Next(
            m,
        ) ==> (run(m, replies) matches Progress::Done(Ok(s)) ==> exists|digest: Seq<char>| {
            &&& s == #[trigger] m.reference.canonical(digest)
            &&& digest.len() > 0 ==> reference_of(s) == Ok::<_, RegistryErrorView>(
                ReferenceView { reference: digest, ..m.reference },
            )
        }),
{
    if let Progress::Next(m) = push_start(
        scheme,
        target_ref,
        blob_path,
        layer_digest,
        layer_size,
    ) {
        lemma_push_reached(m, replies);
        if let Progress::Done(Ok(s)) = run(m, replies) {
            let digest = choose|digest: Seq<char>| s == #[trigger] m.reference.canonical(digest);
            if digest.len() > 0 {
                law_canonical_is_a_reference(target_ref, digest);
            }
        }
    }
}

/// A registry that serves the published manifest resolves the revision to the
/// pushed layer alone.
pub proof fn law_pushed_revision_resolves_to_its_layer(
    repository: Seq<char>,
    tag: Seq<char>,
    layer_digest: Seq<char>,
    layer_size: u64,
    served: WireManifest,
)
    requires
        served.layers.deep_view() == revision_manifest(tag, layer_digest, layer_size).layers,
        served.manifests == 0,
    ensures
        layers_of(repository, Ok(served)) == Ok::<_, RegistryErrorView>(
            seq![
                LayerRefView { media_type: LAYER_ZSTD@, digest: layer_digest, size: layer_size },
            ],
        ),
{
    let l = revision_manifest(tag, layer_digest, layer_size).layers;
    assert(l.reverse() =~= l);
}

/// A blob that the registry has already is not uploaded: the first answer ends
/// the upload.
pub proof fn law_known_blob_is_not_uploaded(m: PushBlobView, resp: HttpResponse)
    requires
        m.at is Head,
        is_success(resp.status),
    ensures
        m.resume(RegistryReply::Http(Ok(resp))) == Progress::<PushBlobView, _>::Done(
            Ok::<(), RegistryErrorView>(()),
        ),
{
}

/// The answers of a registry that has not got a blob and takes it.
pub open spec fn takes_a_blob(
    head: HttpResponse,
    session: HttpResponse,
    upload: HttpResponse,
) -> bool {
    &&& !is_success(head.status)
    &&& session.status == 202
    &&& session.location is Some
    &&& is_success(upload.status)
}

/// A push that is begun succeeds when the captured file is as long as reported
/// and the registry takes both blobs and the manifest.
pub proof fn law_push_succeeds(
    m: PushRevisionView,
    layer: Vec<u8>,
    head: HttpResponse,
    session: HttpResponse,
    upload: HttpResponse,
    manifest: Vec<u8>,
    published: HttpResponse,
)
    requires
        m.at is Read,
        layer@.len() == m.layer_size,
        takes_a_blob(head, session, upload),
        manifest@.len() < HASH_LIMIT,
        is_success(published.status),
    ensures
        run(
            m,
            Seq::<RegistryReply>::empty().push(RegistryReply::Contents(Ok(layer))).push(
                RegistryReply::Http(Ok(head)),
            ).push(RegistryReply::Http(Ok(session))).push(RegistryReply::Http(Ok(upload))).push(
                RegistryReply::Http(Ok(head)),
            ).push(RegistryReply::Http(Ok(session))).push(RegistryReply::Http(Ok(upload))).push(
                RegistryReply::Encoded(Ok(manifest)),
            ).push(RegistryReply::Http(Ok(published))),
        ) == Progress::<PushRevisionView, _>::Done(
            Ok::<_, RegistryErrorView>(
                m.reference.canonical(
                    match published.digest {
                        Some(reported) => reported@,
                        None => digest_text(sha256_of(manifest@)),
                    },
                ),
            ),
        ),
{
    let head = RegistryReply::Http(Ok(head));
    let session = RegistryReply::Http(Ok(session));
    let upload = RegistryReply::Http(Ok(upload));
    let a = Seq::<RegistryReply>::empty();
    let b = a.push(RegistryReply::Contents(Ok(layer)));
    let c = b.push(head).push(session);
    let d = c.push(upload);
    let e = d.push(head).push(session);
    let f = e.push(upload);
    lemma_run_push(m, a, RegistryReply::Contents(Ok(layer)));
    lemma_run_push(m, b, head);
    lemma_run_push(m, b.push(head), session);
    lemma_run_push(m, c, upload);
    lemma_run_push(m, d, head);
    lemma_run_push(m, d.push(head), session);
    lemma_run_push(m, e, upload);
    lemma_run_push(m, f, RegistryReply::Encoded(Ok(manifest)));
    lemma_run_push(
        m,
        f.push(RegistryReply::Encoded(Ok(manifest))),
        RegistryReply::Http(Ok(published)),
    );
}

// ---- what is asked for, and what comes of the answers --------------------

/// How the upload of a blob goes, by the requests that are sent. The registry is
/// asked for the blob; where it has not got it, an upload is begun, and the whole
/// of the blob is put where the answer says. An error of a request, an upload that
/// is not begun with 202 or has no `Location`, and a blob that is not taken are
/// reported.
pub proof fn law_upload_outcomes(
    b: PushBlobView,
    e: String,
    head: HttpResponse,
    session: HttpResponse,
    upload: HttpResponse,
)
    requires
        b.at is Head,
    ensures
        ({
            let blobs = b.scheme + "://"@ + b.reference.registry + "/v2/"@ + b.reference.repository
                + "/blobs/"@;
            let http = Progress::<PushBlobView, _>::Done(
                Err::<(), _>(RegistryErrorView::Http(e@)),
            );
            let done = Progress::<PushBlobView, _>::Done(Ok::<(), RegistryErrorView>(()));
            &&& b.effect() matches RegistryEffectView::Http(h)
            &&& h.method == Method::Head
            &&& h.url == blobs + b.digest
            &&& h.accept is None
            &&& h.content_type is None
            &&& h.body.len() == 0
            &&& b.resume(RegistryReply::Http(Err(e))) == http
            &&& head.status / 100 == 2 ==> b.resume(RegistryReply::Http(Ok(head))) == done
            &&& head.status / 100 != 2 ==> {
                &&& b.resume(RegistryReply::Http(Ok(head))) matches Progress::Next(s)
                &&& s.effect() matches RegistryEffectView::Http(p)
                &&& p.method == Method::Post
                &&& p.url == blobs + "uploads/"@
                &&& p.accept is None
                &&& p.content_type is None
                &&& p.body.len() == 0
                &&& s.resume(RegistryReply::Http(Err(e))) == http
                &&& session.status != 202 ==> s.resume(RegistryReply::Http(Ok(session)))
                    == Progress::<PushBlobView, _>::Done(
                    Err::<(), _>(RegistryErrorView::Status(p.url, session.status)),
                )
                &&& session.status == 202 && session.location is None ==> s.resume(
                    RegistryReply::Http(Ok(session)),
                ) == Progress::<PushBlobView, _>::Done(
                    Err::<(), _>(
                        RegistryErrorView::BadResponse(
                            b.reference.repository,
                            "upload POST had no Location"@,
                        ),
                    ),
                )
                &&& session.status == 202 ==> (session.location matches Some(location) ==> {
                    &&& s.resume(RegistryReply::Http(Ok(session))) matches Progress::Next(u)
                    &&& u.effect() matches RegistryEffectView::Http(q)
                    &&& q.method == Method::Put
                    &&& q.url == upload_url(b.scheme, b.reference.registry, location@, b.digest)
                    &&& q.accept is None
                    &&& q.content_type == Some("application/octet-stream"@)
                    &&& q.body == b.bytes
                    &&& u.resume(RegistryReply::Http(Err(e))) == http
                    &&& upload.status / 100 == 2 ==> u.resume(RegistryReply::Http(Ok(upload)))
                        == done
                    &&& upload.status / 100 != 2 ==> u.resume(RegistryReply::Http(Ok(upload)))
                        == Progress::<PushBlobView, _>::Done(
                        Err::<(), _>(RegistryErrorView::Status(q.url, upload.status)),
                    )
                })
            }
        }),
{
    law_success(head.status);
    law_success(upload.status);
    law_blob_url(b.scheme, b.reference, b.digest, b.digest);
    law_blob_url(b.scheme, b.reference, "uploads/"@, "uploads/"@);
}

/// A push first reads the staged file. A target that is no reference is refused
/// before that; a file that cannot be read, or is not as long as reported, is not
/// pushed. Else the registry is asked for the layer.
pub proof fn law_push_begins_with_the_file(
    scheme: Seq<char>,
    target_ref: Seq<char>,
    staged: Seq<char>,
    digest: Seq<char>,
    size: u64,
    e: String,
    v: Vec<u8>,
)
    ensures
        reference_of(target_ref) matches Err(x) ==> push_start(
            scheme,
            target_ref,
            staged,
            digest,
            size,
        ) == Progress::<PushRevisionView, _>::Done(Err::<Seq<char>, _>(x)),
        reference_of(target_ref) matches Ok(r) ==> {
            &&& push_start(scheme, target_ref, staged, digest, size) matches Progress::Next(m)
            &&& m.effect() == (RegistryEffectView::ReadFile { path: staged })
            &&& m.resume(RegistryReply::Contents(Err(e))) == Progress::<PushRevisionView, _>::Done(
                Err::<Seq<char>, _>(RegistryErrorView::Io(e@)),
            )
            &&& v@.len() != size ==> m.resume(RegistryReply::Contents(Ok(v))) == Progress::<
                PushRevisionView,
                _,
            >::Done(
                Err::<Seq<char>, _>(
                    RegistryErrorView::BadResponse(
                        r.repository,
                        "captured blob size "@ + text::decimal(v@.len()) + " != reported "@
                            + text::decimal(size as nat),
                    ),
                ),
            )
            &&& v@.len() == size ==> {
                &&& m.resume(RegistryReply::Contents(Ok(v))) matches Progress::Next(k)
                &&& k.effect() matches RegistryEffectView::Http(q)
                &&& q.method == Method::Head
                &&& q.url == scheme + "://"@ + r.registry + "/v2/"@ + r.repository + "/blobs/"@
                    + digest
            }
        },
{
}

/// Whether one of the replies answered the question for the staged file with
/// these bytes.
pub open spec fn read_as(
    m: PushRevisionView,
    replies: Seq<RegistryReply>,
    bytes: Seq<u8>,
) -> bool {
    exists|i: int|
        0 <= i < replies.len() && file_read(run(m, #[trigger] replies.take(i)), replies[i], bytes)
}

/// Whether `reply` answers a question for a file with these bytes.
pub open spec fn file_read(
    p: Progress<PushRevisionView, Result<Seq<char>, RegistryErrorView>>,
    reply: RegistryReply,
    bytes: Seq<u8>,
) -> bool {
    match (p, reply) {
        (Progress::Next(k), RegistryReply::Contents(Ok(v))) => k.effect() is ReadFile && v@ == bytes,
        _ => false,
    }
}

/// Whether one of the replies answered the question for the text of a manifest
/// with these bytes.
pub open spec fn written_as(
    m: PushRevisionView,
    replies: Seq<RegistryReply>,
    bytes: Seq<u8>,
) -> bool {
    exists|i: int|
        0 <= i < replies.len() && text_written(
            run(m, #[trigger] replies.take(i)),
            replies[i],
            bytes,
        )
}

/// Whether `reply` answers a question for the text of a manifest with these bytes.
pub open spec fn text_written(
    p: Progress<PushRevisionView, Result<Seq<char>, RegistryErrorView>>,
    reply: RegistryReply,
    bytes: Seq<u8>,
) -> bool {
    match (p, reply) {
        (Progress::Next(k), RegistryReply::Encoded(Ok(v))) => k.effect() is EncodeManifest && v@
            == bytes,
        _ => false,
    }
}

/// Whether `end` is how `url` ends.
pub open spec fn ends_with(url: Seq<char>, end: Seq<char>) -> bool {
    url.len() >= end.len() && url.skip(url.len() - end.len()) == end
}

/// What holds of the upload of a blob in every state.
spec fn uploads(k: PushRevisionView, b: PushBlobView, digest: Seq<char>) -> bool {
    &&& b.scheme == k.scheme
    &&& b.reference == k.reference
    &&& b.digest == digest
    &&& b.at matches PushBlobAtView::Upload(url) ==> ends_with(url, "digest="@ + digest)
}

/// What holds in every state of a push of what it sends.
spec fn sends(k: PushRevisionView, m: PushRevisionView, replies: Seq<RegistryReply>) -> bool {
    &&& k == PushRevisionView { at: k.at, ..m }
    &&& match k.at {
        PushAtView::Layer(b) => {
            &&& uploads(k, b, m.layer_digest)
            &&& b.bytes.len() == m.layer_size
            &&& read_as(m, replies, b.bytes)
        },
        PushAtView::Config(b) => {
            &&& uploads(k, b, EMPTY_CONFIG_DIGEST@)
            &&& b.bytes == empty_config()
        },
        PushAtView::Publish(bytes, digest) => {
            &&& written_as(m, replies, bytes)
            &&& digest == digest_text(sha256_of(bytes))
        },
        _ => true,
    }
}

proof fn lemma_read_on(m: PushRevisionView, replies: Seq<RegistryReply>, bytes: Seq<u8>)
    requires
        replies.len() > 0,
        read_as(m, replies.drop_last(), bytes) || file_read(
            run(m, replies.drop_last()),
            replies.last(),
            bytes,
        ),
    ensures
        read_as(m, replies, bytes),
{
    let d = replies.drop_last();
    if read_as(m, d, bytes) {
        let i = choose|i: int|
            0 <= i < d.len() && file_read(run(m, #[trigger] d.take(i)), d[i], bytes);
        assert(replies.take(i) =~= d.take(i));
    } else {
        assert(replies.take(replies.len() - 1) =~= d);
    }
}

proof fn lemma_written_on(m: PushRevisionView, replies: Seq<RegistryReply>, bytes: Seq<u8>)
    requires
        replies.len() > 0,
        written_as(m, replies.drop_last(), bytes) || text_written(
            run(m, replies.drop_last()),
            replies.last(),
            bytes,
        ),
    ensures
        written_as(m, replies, bytes),
{
    let d = replies.drop_last();
    if written_as(m, d, bytes) {
        let i = choose|i: int|
            0 <= i < d.len() && text_written(run(m, #[trigger] d.take(i)), d[i], bytes);
        assert(replies.take(i) =~= d.take(i));
    } else {
        assert(replies.take(replies.len() - 1) =~= d);
    }
}

proof fn lemma_upload_url_ends(
    scheme: Seq<char>,
    registry: Seq<char>,
    location: Seq<char>,
    digest: Seq<char>,
)
    ensures
        ends_with(upload_url(scheme, registry, location, digest), "digest="@ + digest),
{
    let url = upload_url(scheme, registry, location, digest);
    let end = "digest="@ + digest;
    assert(url.skip(url.len() - end.len()) =~= end);
}

proof fn lemma_sends(m: PushRevisionView, replies: Seq<RegistryReply>)
    requires
        m.at is Read,
    ensures
        run(m, replies) matches Progress::Next(k) ==> sends(k, m, replies),
    decreases replies.len(),
{
    if replies.len() > 0 {
        let d = replies.drop_last();
        let reply = replies.last();
        lemma_sends(m, d);
        if let Progress::Next(k) = run(m, d) {
            if let RegistryReply::Contents(Ok(v)) = reply {
                if k.at is Read {
                    lemma_read_on(m, replies, v@);
                }
            }
            if let PushAtView::Layer(b) = k.at {
                lemma_read_on(m, replies, b.bytes);
            }
            if let PushAtView::Publish(bytes, _) = k.at {
                lemma_written_on(m, replies, bytes);
            }
            if let RegistryReply::Encoded(Ok(v)) = reply {
                if k.at is Encode {
                    lemma_written_on(m, replies, v@);
                }
            }
            if let RegistryReply::Http(Ok(resp)) = reply {
                if let Some(location) = resp.location {
                    lemma_upload_url_ends(
                        m.scheme,
                        m.reference.registry,
                        location@,
                        m.layer_digest,
                    );
                    lemma_upload_url_ends(
                        m.scheme,
                        m.reference.registry,
                        location@,
                        EMPTY_CONFIG_DIGEST@,
                    );
                }
            }
        }
    }
}

/// Every blob is uploaded whole. In every run of a push, a PUT of a blob has as
/// its body, under the layer's digest, exactly the bytes that the staged file was
/// read as, or, under the digest of the empty config, `{}`; a PUT of anything else
/// is that of the manifest, exactly as its text was written, to the target.
pub proof fn law_blobs_are_uploaded_whole(
    scheme: Seq<char>,
    target_ref: Seq<char>,
    staged: Seq<char>,
    digest: Seq<char>,
    size: u64,
    replies: Seq<RegistryReply>,
)
    requires
        reference_of(target_ref) is Ok,
    ensures
        push_start(scheme, target_ref, staged, digest, size) matches Progress::Next(m) && (run(
            m,
            replies,
        ) matches Progress::Next(k) ==> (k.effect() matches RegistryEffectView::Http(q) ==> (
        q.method == Method::Put ==> {
            let r = reference_of(target_ref)->Ok_0;
            let config = "sha256:44136fa355b3678a1146ad16f7e8649e94fb4fc21fe77e8310c060f61caaff8a"@;
            ||| {
                &&& q.content_type == Some("application/octet-stream"@)
                &&& ends_with(q.url, "digest="@ + digest)
                &&& q.body.len() == size
                &&& read_as(m, replies, q.body)
            }
            ||| {
                &&& q.content_type == Some("application/octet-stream"@)
                &&& ends_with(q.url, "digest="@ + config)
                &&& q.body == seq![0x7bu8, 0x7du8]
            }
            ||| {
                &&& q.content_type == Some("application/vnd.oci.image.manifest.v1+json"@)
                &&& q.url == scheme + "://"@ + r.registry + "/v2/"@ + r.repository
                    + "/manifests/"@ + r.reference
                &&& written_as(m, replies, q.body)
            }
        }))),
{
    let m = push_start(scheme, target_ref, staged, digest, size)->Next_0;
    lemma_sends(m, replies);
    assert(empty_config() =~= seq![0x7bu8, 0x7du8]);
}

/// The layer comes first, then the empty config, then the text of the manifest:
/// when the upload of the layer ends well, the registry is asked for the config;
/// when that of the config does, the manifest is written. An upload that fails
/// ends the push with its error.
pub proof fn law_push_goes_through_its_blobs(
    scheme: Seq<char>,
    target_ref: Seq<char>,
    staged: Seq<char>,
    digest: Seq<char>,
    size: u64,
    replies: Seq<RegistryReply>,
    reply: RegistryReply,
)
    requires
        reference_of(target_ref) is Ok,
    ensures
        push_start(scheme, target_ref, staged, digest, size) matches Progress::Next(m) && (run(
            m,
            replies,
        ) matches Progress::Next(k) ==> {
            let r = reference_of(target_ref)->Ok_0;
            let config = "sha256:44136fa355b3678a1146ad16f7e8649e94fb4fc21fe77e8310c060f61caaff8a"@;
            &&& k.at matches PushAtView::Layer(b) ==> {
                &&& k.effect() == b.effect()
                &&& b.digest == digest
                &&& b.resume(reply) matches Progress::Next(c) ==> (k.resume(
                    reply,
                ) matches Progress::Next(n) && n.at == PushAtView::Layer(c))
                &&& b.resume(reply) matches Progress::Done(Err(x)) ==> k.resume(reply)
                    == Progress::<PushRevisionView, _>::Done(Err::<Seq<char>, _>(x))
                &&& b.resume(reply) matches Progress::Done(Ok(_)) ==> {
                    &&& k.resume(reply) matches Progress::Next(n)
                    &&& n.effect() matches RegistryEffectView::Http(q)
                    &&& q.method == Method::Head
                    &&& q.url == scheme + "://"@ + r.registry + "/v2/"@ + r.repository
                        + "/blobs/"@ + config
                }
            }
            &&& k.at matches PushAtView::Config(b) ==> {
                &&& k.effect() == b.effect()
                &&& b.digest == config
                &&& b.resume(reply) matches Progress::Next(c) ==> (k.resume(
                    reply,
                ) matches Progress::Next(n) && n.at == PushAtView::Config(c))
                &&& b.resume(reply) matches Progress::Done(Err(x)) ==> k.resume(reply)
                    == Progress::<PushRevisionView, _>::Done(Err::<Seq<char>, _>(x))
                &&& b.resume(reply) matches Progress::Done(Ok(_)) ==> {
                    &&& k.resume(reply) matches Progress::Next(n)
                    &&& n.effect() is EncodeManifest
                }
            }
        }),
{
    let m = push_start(scheme, target_ref, staged, digest, size)->Next_0;
    lemma_sends(m, replies);
}

/// The manifest that is written names the pushed layer and is titled by the
/// target's tag; its text is put to the target as it was written, and the push
/// comes to `registry/repository@digest`, where the digest is the one that the
/// registry reports or else that of the text. A manifest that cannot be written or
/// is not taken ends the push with an error.
pub proof fn law_publish_outcomes(
    scheme: Seq<char>,
    target_ref: Seq<char>,
    staged: Seq<char>,
    digest: Seq<char>,
    size: u64,
    replies: Seq<RegistryReply>,
    e: String,
    v: Vec<u8>,
    resp: HttpResponse,
)
    requires
        reference_of(target_ref) is Ok,
        v@.len() < HASH_LIMIT,
    ensures
        push_start(scheme, target_ref, staged, digest, size) matches Progress::Next(m) && (run(
            m,
            replies,
        ) matches Progress::Next(k) ==> (k.effect() matches RegistryEffectView::EncodeManifest(
            x,
        ) ==> {
            let r = reference_of(target_ref)->Ok_0;
            let name = r.registry + "/"@ + r.repository + "@"@;
            &&& x.layers.len() == 1
            &&& x.layers[0].digest == digest
            &&& x.layers[0].size == size
            &&& x == revision_manifest(r.reference, digest, size)
            &&& k.resume(RegistryReply::Encoded(Err(e))) == Progress::<PushRevisionView, _>::Done(
                Err::<Seq<char>, _>(RegistryErrorView::BadResponse(r.repository, e@)),
            )
            &&& k.resume(RegistryReply::Encoded(Ok(v))) matches Progress::Next(n)
            &&& n.effect() matches RegistryEffectView::Http(q)
            &&& q.method == Method::Put
            &&& q.url == scheme + "://"@ + r.registry + "/v2/"@ + r.repository + "/manifests/"@
                + r.reference
            &&& q.accept is None
            &&& q.content_type == Some("application/vnd.oci.image.manifest.v1+json"@)
            &&& q.body == v@
            &&& n.resume(RegistryReply::Http(Err(e))) == Progress::<PushRevisionView, _>::Done(
                Err::<Seq<char>, _>(RegistryErrorView::Http(e@)),
            )
            &&& resp.status / 100 != 2 ==> n.resume(RegistryReply::Http(Ok(resp))) == Progress::<
                PushRevisionView,
                _,
            >::Done(Err::<Seq<char>, _>(RegistryErrorView::Status(q.url, resp.status)))
            &&& resp.status / 100 == 2 ==> n.resume(RegistryReply::Http(Ok(resp))) == Progress::<
                PushRevisionView,
                _,
            >::Done(
                Ok::<_, RegistryErrorView>(
                    name + (match resp.digest {
                        Some(reported) => reported@,
                        None => "sha256:"@ + hex_text(sha256_of(v@)),
                    }),
                ),
            )
        })),
{
    let m = push_start(scheme, target_ref, staged, digest, size)->Next_0;
    lemma_sends(m, replies);
    law_success(resp.status);
    reveal_strlit("/");
    reveal_strlit("@");
    assert("/"@ =~= seq!['/']);
    assert("@"@ =~= seq!['@']);
}

/// A reply that a push does not wait for changes nothing.
pub proof fn law_push_ignores_strays(b: PushBlobView, m: PushRevisionView, reply: RegistryReply)
    ensures
        !waited_for(b.effect(), reply) ==> b.resume(reply) == Progress::<
            _,
            Result<(), RegistryErrorView>,
        >::Next(b),
        !waited_for(m.effect(), reply) ==> m.resume(reply) == Progress::<
            _,
            Result<Seq<char>, RegistryErrorView>,
        >::Next(m),
{
}

/// What the operations of uploading a blob come to.
pub proof fn law_push_blob_operations(
    c: &OciClient,
    r: &Reference,
    digest: &str,
    bytes: Vec<u8>,
    m: PushBlob,
    reply: RegistryReply,
    e: RegistryEffect,
    p: Progress<PushBlob, Result<(), RegistryError>>,
)
    ensures
        call_ensures(OciClient::push_blob, (c, r, digest, bytes), m) ==> {
            &&& m@.scheme == c.scheme@
            &&& m@.reference == r@
            &&& m@.digest == digest@
            &&& m@.bytes == bytes@
            &&& m@.at is Head
        },
        call_ensures(PushBlob::effect, (&m,), e) ==> e@ == m@.effect(),
        call_ensures(PushBlob::resume, (m, reply), p) ==> m@.resume(reply) == (match p {
            Progress::Next(n) => Progress::Next(n@),
            Progress::Done(Ok(_)) => Progress::Done(Ok(())),
            Progress::Done(Err(x)) => Progress::Done(Err(x@)),
        }),
{
}

/// What the operations of pushing come to.
pub proof fn law_push_operations(
    c: &OciClient,
    target_ref: &str,
    staged: &str,
    digest: &str,
    size: u64,
    p: Progress<PushRevision, Result<String, RegistryError>>,
    m: PushRevision,
    reply: RegistryReply,
    e: RegistryEffect,
    manifest: OutManifest,
)
    ensures
        call_ensures(OciClient::push_revision, (c, target_ref, staged, digest, size), p)
            ==> push_start(c.scheme@, target_ref@, staged@, digest@, size) == (match p {
            Progress::Next(n) => Progress::Next(n@),
            Progress::Done(Ok(s)) => Progress::Done(Ok(s@)),
            Progress::Done(Err(x)) => Progress::Done(Err(x@)),
        }),
        call_ensures(PushRevision::effect, (&m,), e) ==> e@ == m@.effect(),
        call_ensures(PushRevision::resume, (m, reply), p) ==> m@.resume(reply) == (match p {
            Progress::Next(n) => Progress::Next(n@),
            Progress::Done(Ok(s)) => Progress::Done(Ok(s@)),
            Progress::Done(Err(x)) => Progress::Done(Err(x@)),
        }),
        call_ensures(build_manifest, (target_ref, digest, size), manifest) ==> manifest@
            == revision_manifest(target_ref@, digest@, size),
{
}

/// A manifest whose text reaches the limit of SHA-256 is not published.
pub proof fn law_manifest_over_the_limit_is_refused(m: PushRevisionView, v: Vec<u8>)
    requires
        m.effect() is EncodeManifest,
        v@.len() >= HASH_LIMIT,
    ensures
        m.resume(RegistryReply::Encoded(Ok(v))) == Progress::<PushRevisionView, _>::Done(
            Err::<Seq<char>, _>(
                RegistryErrorView::BadResponse(m.reference.repository, "manifest is too large"@),
            ),
        ),
{
}

} // verus!
