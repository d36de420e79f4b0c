//! Resolving a seed and pulling its layers. Each is a run of steps: a state
//! says what it asks for, and what came of that leads to the next state.

use crate::client::{
    blob_file, blob_path, blob_url, digest_text, is_success, law_blob_url, law_layers,
    law_manifest_url, law_success, layers_of, layers_result, manifest_url, partial_file, partial_path, success, BlobHasher, HttpRequest, HttpRequestView,
    HttpResponse, LayerRef, LayerRefView, Method, OciClient, RegistryEffect, RegistryEffectView,
    RegistryReply, WireManifest, HASH_LIMIT, MANIFEST_ACCEPT,
};
use crate::outside::{hex_text, sha256_of};
use crate::registry::{reference_of, Reference, ReferenceView, RegistryError, RegistryErrorView};
use crate::status::{lemma_run_append, lemma_run_push, run, Progress, Steps};
use crate::text;
use vstd::prelude::*;

verus! {

// ---- resolving -----------------------------------------------------------

/// Where a [`Resolve`] stands: what it waits for.
pub enum ResolveAt {
    Fetch,
    /// Waits for this manifest to be read.
    Decode(Vec<u8>),
}

/// What a [`ResolveAt`] says.
pub enum ResolveAtView {
    Fetch,
    Decode(Seq<u8>),
}

impl View for ResolveAt {
    type V = ResolveAtView;

    open spec fn view(&self) -> ResolveAtView {
        match self {
            ResolveAt::Fetch => ResolveAtView::Fetch,
            ResolveAt::Decode(body) => ResolveAtView::Decode(body@),
        }
    }
}

/// Finds the layers of a seed.
pub struct Resolve {
    pub client: OciClient,
    pub reference: Reference,
    pub at: ResolveAt,
}

/// What a [`Resolve`] says.
#[verifier::ext_equal]
pub struct ResolveView {
    pub scheme: Seq<char>,
    pub reference: ReferenceView,
    pub at: ResolveAtView,
}

impl View for Resolve {
    type V = ResolveView;

    open spec fn view(&self) -> ResolveView {
        ResolveView {
            scheme: self.client.scheme@,
            reference: self.reference@,
            at: self.at@,
        }
    }
}

impl ResolveView {
    /// The seed's manifest is asked for, then its text is read.
    pub open spec fn effect(self) -> RegistryEffectView {
        match self.at {
            ResolveAtView::Fetch => RegistryEffectView::Http(
                HttpRequestView {
                    method: Method::Get,
                    url: manifest_url(self.scheme, self.reference),
                    accept: Some(MANIFEST_ACCEPT@),
                    content_type: None,
                    body: seq![],
                },
            ),
            ResolveAtView::Decode(body) => RegistryEffectView::DecodeManifest { body },
        }
    }
}

impl Steps for ResolveView {
    type Reply = RegistryReply;

    type Out = Result<Seq<LayerRefView>, RegistryErrorView>;

    /// How resolving goes on. A reply that the state does not wait for changes
    /// nothing.
    open spec fn resume(self, reply: RegistryReply) -> Progress<
        ResolveView,
        Result<Seq<LayerRefView>, RegistryErrorView>,
    > {
        match (self.at, reply) {
            (ResolveAtView::Fetch, RegistryReply::Http(r)) => match r {
                Err(e) => Progress::Done(Err(RegistryErrorView::Http(e@))),
                Ok(resp) => if is_success(resp.status) {
                    Progress::Next(ResolveView { at: ResolveAtView::Decode(resp.body@), ..self })
                } else {
                    Progress::Done(
                        Err(
                            RegistryErrorView::Status(
                                manifest_url(self.scheme, self.reference),
                                resp.status,
                            ),
                        ),
                    )
                },
            },
            (ResolveAtView::Decode(_), RegistryReply::Manifest(m)) => Progress::Done(
                layers_of(self.reference.repository, m),
            ),
            _ => Progress::Next(self),
        }
    }
}

/// `p` with what it holds replaced by what that says.
pub open spec fn resolve_progress(
    p: Progress<Resolve, Result<Vec<LayerRef>, RegistryError>>,
) -> Progress<ResolveView, Result<Seq<LayerRefView>, RegistryErrorView>> {
    match p {
        Progress::Next(m) => Progress::Next(m@),
        Progress::Done(r) => Progress::Done(layers_result(r)),
    }
}

/// How resolving a seed begins.
pub open spec fn resolve_start(scheme: Seq<char>, seed: Seq<char>) -> Progress<
    ResolveView,
    Result<Seq<LayerRefView>, RegistryErrorView>,
> {
    match reference_of(seed) {
        Ok(reference) => Progress::Next(ResolveView { scheme, reference, at: ResolveAtView::Fetch }),
        Err(e) => Progress::Done(Err(e)),
    }
}

impl Resolve {
    /// What resolving asks for in this state.
    pub fn effect(&self) -> (r: RegistryEffect)
        ensures
            r@ == self@.effect(),
    {
        match &self.at {
            ResolveAt::Fetch => RegistryEffect::Http(
                HttpRequest {
                    method: Method::Get,
                    url: self.client.manifest_url(&self.reference),
                    accept: Some(MANIFEST_ACCEPT.to_string()),
                    content_type: None,
                    body: Vec::new(),
                },
            ),
            ResolveAt::Decode(body) => RegistryEffect::DecodeManifest { body: body.clone() },
        }
    }

    /// How resolving goes on. A reply that the state does not wait for changes
    /// nothing.
    pub fn resume(self, reply: RegistryReply) -> (r: Progress<
        Resolve,
        Result<Vec<LayerRef>, RegistryError>,
    >)
        ensures
            resolve_progress(r) == self@.resume(reply),
    {
        let Resolve { client, reference, at } = self;
        match (at, reply) {
            (ResolveAt::Fetch, RegistryReply::Http(r)) => match r {
                Err(e) => Progress::Done(Err(RegistryError::Http(e))),
                Ok(resp) => if success(resp.status) {
                    Progress::Next(Resolve { client, reference, at: ResolveAt::Decode(resp.body) })
                } else {
                    Progress::Done(
                        Err(RegistryError::Status(client.manifest_url(&reference), resp.status)),
                    )
                },
            },
            (ResolveAt::Decode(_), RegistryReply::Manifest(m)) => Progress::Done(
                client.parse_layers(&reference, m),
            ),
            (at, _) => Progress::Next(Resolve { client, reference, at }),
        }
    }
}

impl OciClient {
    /// Begins to find the layers of a seed, top first.
    pub fn resolve(&self, seed: &str) -> (r: Progress<
        Resolve,
        Result<Vec<LayerRef>, RegistryError>,
    >)
        ensures
            resolve_progress(r) == resolve_start(self.scheme@, seed@),
    {
        match Reference::parse(seed) {
            Ok(reference) => Progress::Next(
                Resolve { client: self.clone(), reference, at: ResolveAt::Fetch },
            ),
            Err(e) => Progress::Done(Err(e)),
        }
    }
}

// ---- pulling one blob ----------------------------------------------------

/// Where a [`PullBlob`] stands: what it waits for.
pub enum PullBlobAt {
    Open,
    Create,
    /// Waits for the next piece; holds the pieces so far.
    Chunk(BlobHasher),
    /// Waits for a piece to be written.
    Write(BlobHasher, Vec<u8>),
    Flush(BlobHasher),
    /// Waits for a file with this other digest to be removed.
    Discard(String),
}

/// What a [`PullBlobAt`] says.
pub enum PullBlobAtView {
    Open,
    Create,
    Chunk(Seq<u8>),
    Write(Seq<u8>, Seq<u8>),
    Flush(Seq<u8>),
    Discard(Seq<char>),
}

impl View for PullBlobAt {
    type V = PullBlobAtView;

    open spec fn view(&self) -> PullBlobAtView {
        match self {
            PullBlobAt::Open => PullBlobAtView::Open,
            PullBlobAt::Create => PullBlobAtView::Create,
            PullBlobAt::Chunk(h) => PullBlobAtView::Chunk(h@),
            PullBlobAt::Write(h, bytes) => PullBlobAtView::Write(h@, bytes@),
            PullBlobAt::Flush(h) => PullBlobAtView::Flush(h@),
            PullBlobAt::Discard(got) => PullBlobAtView::Discard(got@),
        }
    }
}

/// Streams a blob to a file, and checks that it has the digest that it is
/// asked for by.
pub struct PullBlob {
    pub client: OciClient,
    pub reference: Reference,
    pub digest: String,
    pub out: String,
    pub at: PullBlobAt,
}

/// What a [`PullBlob`] says.
#[verifier::ext_equal]
pub struct PullBlobView {
    pub scheme: Seq<char>,
    pub reference: ReferenceView,
    pub digest: Seq<char>,
    pub out: Seq<char>,
    pub at: PullBlobAtView,
}

impl View for PullBlob {
    type V = PullBlobView;

    open spec fn view(&self) -> PullBlobView {
        PullBlobView {
            scheme: self.client.scheme@,
            reference: self.reference@,
            digest: self.digest@,
            out: self.out@,
            at: self.at@,
        }
    }
}

/// `r` with its error replaced by what the error says.
pub open spec fn unit_result(r: Result<(), RegistryError>) -> Result<(), RegistryErrorView> {
    match r {
        Ok(_) => Ok(()),
        Err(e) => Err(e@),
    }
}

/// Whether data have a digest. The case of letters does not matter.
pub open spec fn has_digest(data: Seq<u8>, digest: Seq<char>) -> bool {
    text::lowered(digest) == text::lowered(digest_text(sha256_of(data)))
}

impl PullBlobView {
    /// The URL of the blob.
    pub open spec fn url(self) -> Seq<char> {
        blob_url(self.scheme, self.reference, self.digest)
    }

    /// What the pull asks for in this state.
    pub open spec fn effect(self) -> RegistryEffectView {
        match self.at {
            PullBlobAtView::Open => RegistryEffectView::OpenBlob { url: self.url() },
            PullBlobAtView::Create => RegistryEffectView::CreateFile { path: self.out },
            PullBlobAtView::Chunk(_) => RegistryEffectView::NextChunk,
            PullBlobAtView::Write(_, bytes) => RegistryEffectView::WriteChunk { bytes },
            PullBlobAtView::Flush(_) => RegistryEffectView::Flush,
            PullBlobAtView::Discard(_) => RegistryEffectView::RemoveFile { path: self.out },
        }
    }

    /// The pull at another point.
    pub open spec fn to(self, at: PullBlobAtView) -> Progress<
        PullBlobView,
        Result<(), RegistryErrorView>,
    > {
        Progress::Next(PullBlobView { at, ..self })
    }
}

impl Steps for PullBlobView {
    type Reply = RegistryReply;

    type Out = Result<(), RegistryErrorView>;

    /// How the pull goes on. A reply that the state does not wait for changes
    /// nothing. A file with another digest is removed, whether or not that
    /// succeeds.
    open spec fn resume(self, reply: RegistryReply) -> Progress<
        PullBlobView,
        Result<(), RegistryErrorView>,
    > {
        match (self.at, reply) {
            (PullBlobAtView::Open, RegistryReply::Opened(r)) => match r {
                Err(e) => Progress::Done(Err(RegistryErrorView::Http(e@))),
                Ok(status) => if is_success(status) {
                    self.to(PullBlobAtView::Create)
                } else {
                    Progress::Done(Err(RegistryErrorView::Status(self.url(), status)))
                },
            },
            (PullBlobAtView::Create, RegistryReply::Done(r)) => match r {
                Err(e) => Progress::Done(Err(RegistryErrorView::Io(e@))),
                Ok(_) => self.to(PullBlobAtView::Chunk(seq![])),
            },
            (PullBlobAtView::Chunk(seen), RegistryReply::Chunk(r)) => match r {
                Err(e) => Progress::Done(Err(RegistryErrorView::Http(e@))),
                Ok(None) => self.to(PullBlobAtView::Flush(seen)),
                Ok(Some(bytes)) => if seen.len() + bytes@.len() < HASH_LIMIT {
                    self.to(PullBlobAtView::Write(seen + bytes@, bytes@))
                } else {
                    Progress::Done(
                        Err(
                            RegistryErrorView::BadResponse(
                                self.reference.repository,
                                "blob is too large"@,
                            ),
                        ),
                    )
                },
            },
            (PullBlobAtView::Write(seen, _), RegistryReply::Done(r)) => match r {
                Err(e) => Progress::Done(Err(RegistryErrorView::Io(e@))),
                Ok(_) => self.to(PullBlobAtView::Chunk(seen)),
            },
            (PullBlobAtView::Flush(seen), RegistryReply::Done(r)) => match r {
                Err(e) => Progress::Done(Err(RegistryErrorView::Io(e@))),
                Ok(_) => if has_digest(seen, self.digest) {
                    Progress::Done(Ok(()))
                } else {
                    self.to(PullBlobAtView::Discard(digest_text(sha256_of(seen))))
                },
            },
            (PullBlobAtView::Discard(got), RegistryReply::Done(_)) => Progress::Done(
                Err(
                    RegistryErrorView::DigestMismatch {
                        reference: self.reference.repository,
                        expected: self.digest,
                        got,
                    },
                ),
            ),
            _ => Progress::Next(self),
        }
    }
}

/// `p` with what it holds replaced by what that says.
pub open spec fn pull_blob_progress(p: Progress<PullBlob, Result<(), RegistryError>>) -> Progress<
    PullBlobView,
    Result<(), RegistryErrorView>,
> {
    match p {
        Progress::Next(m) => Progress::Next(m@),
        Progress::Done(r) => Progress::Done(unit_result(r)),
    }
}

impl PullBlob {
    /// What the pull asks for in this state.
    pub fn effect(&self) -> (r: RegistryEffect)
        ensures
            r@ == self@.effect(),
    {
        match &self.at {
            PullBlobAt::Open => RegistryEffect::OpenBlob {
                url: self.client.blob_url(&self.reference, self.digest.as_str()),
            },
            PullBlobAt::Create => RegistryEffect::CreateFile { path: self.out.clone() },
            PullBlobAt::Chunk(_) => RegistryEffect::NextChunk,
            PullBlobAt::Write(_, bytes) => RegistryEffect::WriteChunk { bytes: bytes.clone() },
            PullBlobAt::Flush(_) => RegistryEffect::Flush,
            PullBlobAt::Discard(_) => RegistryEffect::RemoveFile { path: self.out.clone() },
        }
    }

    /// How the pull goes on. A reply that the state does not wait for changes
    /// nothing.
    pub fn resume(self, reply: RegistryReply) -> (r: Progress<PullBlob, Result<(), RegistryError>>)
        ensures
            pull_blob_progress(r) == self@.resume(reply),
    {
        let PullBlob { client, reference, digest, out, at } = self;
        let at = match (at, reply) {
            (PullBlobAt::Open, RegistryReply::Opened(r)) => match r {
                Err(e) => {
                    return Progress::Done(Err(RegistryError::Http(e)));
                },
                Ok(status) => {
                    if !success(status) {
                        let url = client.blob_url(&reference, digest.as_str());
                        return Progress::Done(Err(RegistryError::Status(url, status)));
                    }
                    PullBlobAt::Create
                },
            },
            (PullBlobAt::Create, RegistryReply::Done(r)) => match r {
                Err(e) => {
                    return Progress::Done(Err(RegistryError::Io(e)));
                },
                Ok(_) => PullBlobAt::Chunk(BlobHasher::new()),
            },
            (PullBlobAt::Chunk(hasher), RegistryReply::Chunk(r)) => match r {
                Err(e) => {
                    return Progress::Done(Err(RegistryError::Http(e)));
                },
                Ok(None) => PullBlobAt::Flush(hasher),
                Ok(Some(bytes)) => {
                    let (hasher, taken) = hasher.update(bytes.as_slice());
                    if !taken {
                        return Progress::Done(
                            Err(
                                RegistryError::BadResponse(
                                    reference.repository,
                                    "blob is too large".to_string(),
                                ),
                            ),
                        );
                    }
                    PullBlobAt::Write(hasher, bytes)
                },
            },
            (PullBlobAt::Write(hasher, _), RegistryReply::Done(r)) => match r {
                Err(e) => {
                    return Progress::Done(Err(RegistryError::Io(e)));
                },
                Ok(_) => PullBlobAt::Chunk(hasher),
            },
            (PullBlobAt::Flush(hasher), RegistryReply::Done(r)) => match r {
                Err(e) => {
                    return Progress::Done(Err(RegistryError::Io(e)));
                },
                Ok(_) => {
                    let got = hasher.finish();
                    if text::same_ignoring_case(digest.as_str(), got.as_str()) {
                        return Progress::Done(Ok(()));
                    }
                    PullBlobAt::Discard(got)
                },
            },
            (PullBlobAt::Discard(got), RegistryReply::Done(_)) => {
                return Progress::Done(
                    Err(
                        RegistryError::DigestMismatch {
                            reference: reference.repository,
                            expected: digest,
                            got,
                        },
                    ),
                );
            },
            (at, _) => at,
        };
        Progress::Next(PullBlob { client, reference, digest, out, at })
    }
}

impl OciClient {
    /// Begins to stream a blob to `out`.
    pub fn pull_blob_to(&self, reference: &Reference, digest: &str, out: &str) -> (r: PullBlob)
        ensures
            r@ == (PullBlobView {
                scheme: self.scheme@,
                reference: reference@,
                digest: digest@,
                out: out@,
                at: PullBlobAtView::Open,
            }),
    {
        PullBlob {
            client: self.clone(),
            reference: reference.clone(),
            digest: digest.to_string(),
            out: out.to_string(),
            at: PullBlobAt::Open,
        }
    }
}

// ---- pulling all layers --------------------------------------------------

/// Where a [`PullLayers`] stands: what it waits for.
pub enum PullAt {
    Resolve(Resolve),
    MakeDir,
    /// Waits to learn whether the next layer is there already.
    Probe,
    Pull(PullBlob),
    /// Waits for the pulled layer to be moved into place.
    Store,
}

/// What a [`PullAt`] says.
pub enum PullAtView {
    Resolve(ResolveView),
    MakeDir,
    Probe,
    Pull(PullBlobView),
    Store,
}

impl View for PullAt {
    type V = PullAtView;

    open spec fn view(&self) -> PullAtView {
        match self {
            PullAt::Resolve(m) => PullAtView::Resolve(m@),
            PullAt::MakeDir => PullAtView::MakeDir,
            PullAt::Probe => PullAtView::Probe,
            PullAt::Pull(m) => PullAtView::Pull(m@),
            PullAt::Store => PullAtView::Store,
        }
    }
}

/// Pulls the layers of a seed into a directory, top first. A layer is kept in
/// a file named by its digest, and one that is there already is not pulled
/// again.
pub struct PullLayers {
    client: OciClient,
    reference: Reference,
    dir: String,
    layers: Vec<LayerRef>,
    /// The files of the layers that are there so far.
    paths: Vec<String>,
    at: PullAt,
}

/// What a [`PullLayers`] says.
#[verifier::ext_equal]
pub struct PullLayersView {
    pub scheme: Seq<char>,
    pub reference: ReferenceView,
    pub dir: Seq<char>,
    pub layers: Seq<LayerRefView>,
    pub paths: Seq<Seq<char>>,
    pub at: PullAtView,
}

impl View for PullLayers {
    type V = PullLayersView;

    closed spec fn view(&self) -> PullLayersView {
        PullLayersView {
            scheme: self.client.scheme@,
            reference: self.reference@,
            dir: self.dir@,
            layers: self.layers.deep_view(),
            paths: self.paths.deep_view(),
            at: self.at@,
        }
    }
}

/// `r` with what it holds replaced by what that says.
pub open spec fn paths_result(r: Result<Vec<String>, RegistryError>) -> Result<
    Seq<Seq<char>>,
    RegistryErrorView,
> {
    match r {
        Ok(l) => Ok(l.deep_view()),
        Err(e) => Err(e@),
    }
}

impl PullLayersView {
    /// The digest of the layer whose turn it is.
    pub open spec fn digest(self) -> Seq<char> {
        self.layers[self.paths.len() as int].digest
    }

    /// Where the layer whose turn it is belongs.
    pub open spec fn out(self) -> Seq<char> {
        blob_path(self.dir, self.digest())
    }

    /// What the pull asks for in this state.
    pub open spec fn effect(self) -> RegistryEffectView {
        match self.at {
            PullAtView::Resolve(m) => m.effect(),
            PullAtView::MakeDir => RegistryEffectView::CreateDir { path: self.dir },
            PullAtView::Probe => RegistryEffectView::Probe { path: self.out() },
            PullAtView::Pull(m) => m.effect(),
            PullAtView::Store => RegistryEffectView::Rename {
                from: partial_path(self.out()),
                to: self.out(),
            },
        }
    }

    /// The pull at another point.
    pub open spec fn to(self, at: PullAtView) -> Progress<
        PullLayersView,
        Result<Seq<Seq<char>>, RegistryErrorView>,
    > {
        Progress::Next(PullLayersView { at, ..self })
    }

    /// On to the next layer, if there is one.
    pub open spec fn next(self) -> Progress<
        PullLayersView,
        Result<Seq<Seq<char>>, RegistryErrorView>,
    > {
        if self.paths.len() < self.layers.len() {
            self.to(PullAtView::Probe)
        } else {
            Progress::Done(Ok(self.paths))
        }
    }

    /// On to the next layer, with this one in place.
    pub open spec fn stored(self) -> Progress<
        PullLayersView,
        Result<Seq<Seq<char>>, RegistryErrorView>,
    > {
        (PullLayersView { paths: self.paths.push(self.out()), ..self }).next()
    }
}

impl Steps for PullLayersView {
    type Reply = RegistryReply;

    type Out = Result<Seq<Seq<char>>, RegistryErrorView>;

    /// How the pull goes on. A reply that the state does not wait for changes
    /// nothing.
    open spec fn resume(self, reply: RegistryReply) -> Progress<
        PullLayersView,
        Result<Seq<Seq<char>>, RegistryErrorView>,
    > {
        match (self.at, reply) {
            (PullAtView::Resolve(m), _) => match m.resume(reply) {
                Progress::Next(k) => self.to(PullAtView::Resolve(k)),
                Progress::Done(Err(e)) => Progress::Done(Err(e)),
                Progress::Done(Ok(layers)) => Progress::Next(
                    PullLayersView { layers, at: PullAtView::MakeDir, ..self },
                ),
            },
            (PullAtView::MakeDir, RegistryReply::Done(r)) => match r {
                Err(e) => Progress::Done(Err(RegistryErrorView::Io(e@))),
                Ok(_) => self.next(),
            },
            (PullAtView::Probe, RegistryReply::Present(present)) => if present {
                self.stored()
            } else {
                self.to(
                    PullAtView::Pull(
                        PullBlobView {
                            scheme: self.scheme,
                            reference: self.reference,
                            digest: self.digest(),
                            out: partial_path(self.out()),
                            at: PullBlobAtView::Open,
                        },
                    ),
                )
            },
            (PullAtView::Pull(m), _) => match m.resume(reply) {
                Progress::Next(k) => self.to(PullAtView::Pull(k)),
                Progress::Done(Err(e)) => Progress::Done(Err(e)),
                Progress::Done(Ok(_)) => self.to(PullAtView::Store),
            },
            (PullAtView::Store, RegistryReply::Done(r)) => match r {
                Err(e) => Progress::Done(Err(RegistryErrorView::Io(e@))),
                Ok(_) => self.stored(),
            },
            _ => Progress::Next(self),
        }
    }
}

/// `p` with what it holds replaced by what that says.
pub open spec fn pull_progress(
    p: Progress<PullLayers, Result<Vec<String>, RegistryError>>,
) -> Progress<PullLayersView, Result<Seq<Seq<char>>, RegistryErrorView>> {
    match p {
        Progress::Next(m) => Progress::Next(m@),
        Progress::Done(r) => Progress::Done(paths_result(r)),
    }
}

/// How pulling a seed begins.
pub open spec fn pull_start(scheme: Seq<char>, seed: Seq<char>, dir: Seq<char>) -> Progress<
    PullLayersView,
    Result<Seq<Seq<char>>, RegistryErrorView>,
> {
    match reference_of(seed) {
        Ok(reference) => Progress::Next(
            PullLayersView {
                scheme,
                reference,
                dir,
                layers: seq![],
                paths: seq![],
                at: PullAtView::Resolve(
                    ResolveView { scheme, reference, at: ResolveAtView::Fetch },
                ),
            },
        ),
        Err(e) => Progress::Done(Err(e)),
    }
}

impl PullLayers {
    #[verifier::type_invariant]
    spec fn wf(self) -> bool {
        match self.at {
            PullAt::Resolve(_) | PullAt::MakeDir => true,
            PullAt::Probe | PullAt::Pull(_) | PullAt::Store => self.paths@.len()
                < self.layers@.len(),
        }
    }

    /// Where the layer whose turn it is belongs.
    fn out(&self) -> (r: String)
        requires
            self.paths@.len() < self.layers@.len(),
        ensures
            r@ == self@.out(),
    {
        blob_file(self.dir.as_str(), self.layers[self.paths.len()].digest.as_str())
    }

    /// What the pull asks for in this state.
    pub fn effect(&self) -> (r: RegistryEffect)
        ensures
            r@ == self@.effect(),
    {
        proof {
            use_type_invariant(self);
        }
        match &self.at {
            PullAt::Resolve(m) => m.effect(),
            PullAt::MakeDir => RegistryEffect::CreateDir { path: self.dir.clone() },
            PullAt::Probe => RegistryEffect::Probe { path: self.out() },
            PullAt::Pull(m) => m.effect(),
            PullAt::Store => {
                let to = self.out();
                RegistryEffect::Rename { from: partial_file(to.as_str()), to }
            },
        }
    }

    /// On to the next layer, if there is one.
    fn next(self) -> (r: Progress<PullLayers, Result<Vec<String>, RegistryError>>)
        ensures
            pull_progress(r) == self@.next(),
    {
        let PullLayers { client, reference, dir, layers, paths, at: _ } = self;
        if paths.len() < layers.len() {
            Progress::Next(
                PullLayers { client, reference, dir, layers, paths, at: PullAt::Probe },
            )
        } else {
            Progress::Done(Ok(paths))
        }
    }

    /// On to the next layer, with this one in place.
    fn stored(self) -> (r: Progress<PullLayers, Result<Vec<String>, RegistryError>>)
        requires
            self.paths@.len() < self.layers@.len(),
        ensures
            pull_progress(r) == self@.stored(),
    {
        let out = self.out();
        let ghost was = self@;
        let PullLayers { client, reference, dir, layers, paths, at: _ } = self;
        let mut paths = paths;
        paths.push(out);
        assert(paths.deep_view() =~= was.paths.push(was.out()));
        let m = PullLayers { client, reference, dir, layers, paths, at: PullAt::MakeDir };
        m.next()
    }

    /// How the pull goes on. A reply that the state does not wait for changes
    /// nothing.
    pub fn resume(self, reply: RegistryReply) -> (r: Progress<
        PullLayers,
        Result<Vec<String>, RegistryError>,
    >)
        ensures
            pull_progress(r) == self@.resume(reply),
    {
        proof {
            use_type_invariant(&self);
        }
        let PullLayers { client, reference, dir, layers, paths, at } = self;
        match (at, reply) {
            (PullAt::Resolve(m), reply) => match m.resume(reply) {
                Progress::Next(k) => Progress::Next(
                    PullLayers { client, reference, dir, layers, paths, at: PullAt::Resolve(k) },
                ),
                Progress::Done(Err(e)) => Progress::Done(Err(e)),
                Progress::Done(Ok(layers)) => Progress::Next(
                    PullLayers { client, reference, dir, layers, paths, at: PullAt::MakeDir },
                ),
            },
            (PullAt::MakeDir, RegistryReply::Done(r)) => match r {
                Err(e) => Progress::Done(Err(RegistryError::Io(e))),
                Ok(_) => {
                    let m = PullLayers {
                        client,
                        reference,
                        dir,
                        layers,
                        paths,
                        at: PullAt::MakeDir,
                    };
                    m.next()
                },
            },
            (PullAt::Probe, RegistryReply::Present(present)) => {
                let m = PullLayers { client, reference, dir, layers, paths, at: PullAt::Probe };
                if present {
                    return m.stored();
                }
                let out = m.out();
                let PullLayers { client, reference, dir, layers, paths, at: _ } = m;
                let blob = client.pull_blob_to(
                    &reference,
                    layers[paths.len()].digest.as_str(),
                    partial_file(out.as_str()).as_str(),
                );
                Progress::Next(
                    PullLayers { client, reference, dir, layers, paths, at: PullAt::Pull(blob) },
                )
            },
            (PullAt::Pull(m), reply) => match m.resume(reply) {
                Progress::Next(k) => Progress::Next(
                    PullLayers { client, reference, dir, layers, paths, at: PullAt::Pull(k) },
                ),
                Progress::Done(Err(e)) => Progress::Done(Err(e)),
                Progress::Done(Ok(_)) => Progress::Next(
                    PullLayers { client, reference, dir, layers, paths, at: PullAt::Store },
                ),
            },
            (PullAt::Store, RegistryReply::Done(r)) => match r {
                Err(e) => Progress::Done(Err(RegistryError::Io(e))),
                Ok(_) => {
                    let m = PullLayers { client, reference, dir, layers, paths, at: PullAt::Store };
                    m.stored()
                },
            },
            (at, _) => Progress::Next(PullLayers { client, reference, dir, layers, paths, at }),
        }
    }
}

impl OciClient {
    /// Begins to pull the layers of a seed into `dir`.
    pub fn pull_layers(&self, seed: &str, dir: &str) -> (r: Progress<
        PullLayers,
        Result<Vec<String>, RegistryError>,
    >)
        ensures
            pull_progress(r) == pull_start(self.scheme@, seed@, dir@),
    {
        match Reference::parse(seed) {
            Ok(reference) => {
                let resolve = Resolve {
                    client: self.clone(),
                    reference: reference.clone(),
                    at: ResolveAt::Fetch,
                };
                let m = PullLayers {
                    client: self.clone(),
                    reference,
                    dir: dir.to_string(),
                    layers: Vec::new(),
                    paths: Vec::new(),
                    at: PullAt::Resolve(resolve),
                };
                assert(m@.layers =~= seq![]);
                assert(m@.paths =~= seq![]);
                Progress::Next(m)
            },
            Err(e) => Progress::Done(Err(e)),
        }
    }
}

// ---- laws ----------------------------------------------------------------

/// The files of a node, and the path of the one that is open for writing.
pub struct Disk {
    pub files: Map<Seq<char>, Seq<u8>>,
    pub open: Seq<char>,
}

/// The files after a step, as its reply tells.
pub open spec fn disk_after(
    d: Disk,
    effect: RegistryEffectView,
    reply: RegistryReply,
) -> Disk {
    match (effect, reply) {
        (RegistryEffectView::CreateFile { path }, RegistryReply::Done(Ok(_))) => Disk {
            files: d.files.insert(path, seq![]),
            open: path,
        },
        (RegistryEffectView::WriteChunk { bytes }, RegistryReply::Done(Ok(_))) => Disk {
            files: d.files.insert(d.open, d.files[d.open] + bytes),
            open: d.open,
        },
        (RegistryEffectView::RemoveFile { path }, RegistryReply::Done(Ok(_))) => Disk {
            files: d.files.remove(path),
            open: d.open,
        },
        (RegistryEffectView::Rename { from, to }, RegistryReply::Done(Ok(_))) => Disk {
            files: d.files.remove(from).insert(to, d.files[from]),
            open: d.open,
        },
        _ => d,
    }
}

/// The files after a list of replies to a pull that found them as `start`.
pub open spec fn disk(m: PullLayersView, replies: Seq<RegistryReply>, start: Disk) -> Disk
    decreases replies.len(),
{
    if replies.len() == 0 {
        start
    } else {
        let d = disk(m, replies.drop_last(), start);
        match run(m, replies.drop_last()) {
            Progress::Next(k) => disk_after(d, k.effect(), replies.last()),
            Progress::Done(_) => d,
        }
    }
}

/// The blob URL that was opened last, and the pieces that were served from it,
/// one behind the other.
pub open spec fn served(m: PullLayersView, replies: Seq<RegistryReply>) -> (Seq<char>, Seq<u8>)
    decreases replies.len(),
{
    if replies.len() == 0 {
        (seq![], seq![])
    } else {
        let before = served(m, replies.drop_last());
        match run(m, replies.drop_last()) {
            Progress::Done(_) => before,
            Progress::Next(k) => match (k.effect(), replies.last()) {
                (RegistryEffectView::OpenBlob { url }, RegistryReply::Opened(Ok(_))) => (
                    url,
                    seq![],
                ),
                (RegistryEffectView::NextChunk, RegistryReply::Chunk(Ok(Some(bytes)))) => (
                    before.0,
                    before.1 + bytes@,
                ),
                _ => before,
            },
        }
    }
}

/// Whether one of the replies is a manifest of `repository` with these layers.
pub open spec fn manifest_given(
    replies: Seq<RegistryReply>,
    repository: Seq<char>,
    layers: Seq<LayerRefView>,
) -> bool {
    exists|i: int|
        0 <= i < replies.len() && (#[trigger] replies[i] matches RegistryReply::Manifest(w)
            && layers_of(repository, w) == Ok::<_, RegistryErrorView>(layers))
}

impl PullLayersView {
    /// What holds in every state of a pull that began as `m`, found the files as
    /// `start` and got these replies.
    spec fn reached(self, m: PullLayersView, replies: Seq<RegistryReply>, start: Disk) -> bool {
        let d = disk(m, replies, start);
        let (url, body) = served(m, replies);
        &&& self.scheme == m.scheme
        &&& self.dir == m.dir
        &&& self.reference == m.reference
        &&& self.paths.len() <= self.layers.len()
        &&& forall|i: int|
            0 <= i < self.paths.len() ==> #[trigger] self.paths[i] == blob_path(
                self.dir,
                self.layers[i].digest,
            )
        &&& match self.at {
            PullAtView::Resolve(r) => r.reference == m.reference && self.layers.len() == 0,
            _ => manifest_given(replies, m.reference.repository, self.layers),
        }
        &&& match self.at {
            PullAtView::Pull(b) => {
                &&& self.paths.len() < self.layers.len()
                &&& b.scheme == m.scheme
                &&& b.reference == m.reference
                &&& b.digest == self.digest()
                &&& b.out == partial_path(self.out())
                &&& !(b.at is Open) ==> url == b.url()
                &&& match b.at {
                    PullBlobAtView::Create => body == Seq::<u8>::empty(),
                    PullBlobAtView::Chunk(seen) | PullBlobAtView::Flush(seen) => {
                        &&& d.open == b.out
                        &&& d.files.contains_key(b.out)
                        &&& d.files[b.out] == seen
                        &&& body == seen
                    },
                    PullBlobAtView::Write(seen, bytes) => {
                        &&& d.open == b.out
                        &&& d.files.contains_key(b.out)
                        &&& d.files[b.out] + bytes == seen
                        &&& body == seen
                    },
                    _ => true,
                }
            },
            PullAtView::Store => {
                let from = partial_path(self.out());
                &&& self.paths.len() < self.layers.len()
                &&& d.files.contains_key(from)
                &&& has_digest(d.files[from], self.digest())
                &&& url == blob_url(m.scheme, m.reference, self.digest())
                &&& body == d.files[from]
            },
            PullAtView::Probe => self.paths.len() < self.layers.len(),
            _ => true,
        }
    }
}

proof fn lemma_manifest_given_on(
    replies: Seq<RegistryReply>,
    repository: Seq<char>,
    layers: Seq<LayerRefView>,
)
    requires
        replies.len() > 0,
        manifest_given(replies.drop_last(), repository, layers),
    ensures
        manifest_given(replies, repository, layers),
{
    let d = replies.drop_last();
    let i = choose|i: int|
        0 <= i < d.len() && (#[trigger] d[i] matches RegistryReply::Manifest(w) && layers_of(
            repository,
            w,
        ) == Ok::<_, RegistryErrorView>(layers));
    assert(replies[i] == d[i]);
}

proof fn lemma_pull_reached(m: PullLayersView, replies: Seq<RegistryReply>, start: Disk)
    requires
        m.reached(m, seq![], start),
    ensures
        run(m, replies) matches Progress::Next(k) ==> k.reached(m, replies, start),
        run(m, replies) matches Progress::Done(Ok(paths)) ==> exists|layers: Seq<LayerRefView>|
            #[trigger] manifest_given(replies, m.reference.repository, layers) && paths == layers.map_values(
                |l: LayerRefView| blob_path(m.dir, l.digest),
            ),
    decreases replies.len(),
{
    if replies.len() == 0 {
        assert(replies =~= seq![]);
    } else {
        let d = replies.drop_last();
        let reply = replies.last();
        lemma_pull_reached(m, d, start);
        match run(m, d) {
            Progress::Done(Ok(paths)) => {
                let layers = choose|layers: Seq<LayerRefView>| #[trigger]
                    manifest_given(d, m.reference.repository, layers) && paths
                        == layers.map_values(|l: LayerRefView| blob_path(m.dir, l.digest));
                lemma_manifest_given_on(replies, m.reference.repository, layers);
            },
            Progress::Done(Err(_)) => {},
            Progress::Next(k) => {
                if !(k.at is Resolve) {
                    lemma_manifest_given_on(replies, m.reference.repository, k.layers);
                }
                match k.resume(reply) {
                    Progress::Next(n) => {
                        assert(replies[replies.len() - 1] == reply);
                        assert(n.reached(m, replies, start));
                    },
                    Progress::Done(Ok(paths)) => {
                        assert(paths =~= k.layers.map_values(
                            |l: LayerRefView| blob_path(m.dir, l.digest),
                        ));
                    },
                    Progress::Done(Err(_)) => {},
                }
            },
        }
    }
}

/// What is moved into place is the whole of what the registry served for the
/// layer's blob, byte for byte, and it has the layer's digest.
pub proof fn law_stored_layers_are_as_served(
    scheme: Seq<char>,
    seed: Seq<char>,
    dir: Seq<char>,
    replies: Seq<RegistryReply>,
    start: Disk,
)
    ensures
        pull_start(scheme, seed, dir) matches Progress::Next(m) ==> (run(m, replies) matches Progress::Next(
            k,
        ) ==> (k.effect() matches RegistryEffectView::Rename { from, to } ==> {
            let d = disk(m, replies, start);
            &&& to == blob_path(dir, k.digest())
            &&& d.files.contains_key(from)
            &&& has_digest(d.files[from], k.digest())
            &&& served(m, replies) == (blob_url(scheme, m.reference, k.digest()), d.files[from])
        })),
{
    if let Progress::Next(m) = pull_start(scheme, seed, dir) {
        lemma_pull_reached(m, replies, start);
    }
}

/// The pieces that a pull reads are those of the blob of the layer whose turn
/// it is, in the seed's repository.
pub proof fn law_reads_the_layers_blob(
    scheme: Seq<char>,
    seed: Seq<char>,
    dir: Seq<char>,
    replies: Seq<RegistryReply>,
)
    ensures
        pull_start(scheme, seed, dir) matches Progress::Next(m) ==> (run(m, replies) matches Progress::Next(
            k,
        ) ==> (k.effect() is NextChunk ==> served(m, replies).0 == blob_url(
            scheme,
            m.reference,
            k.digest(),
        ))),
{
    if let Progress::Next(m) = pull_start(scheme, seed, dir) {
        lemma_pull_reached(m, replies, Disk { files: Map::empty(), open: seq![] });
    }
}

/// A pull that succeeds returns one file for each layer of the seed's manifest,
/// top first, named by the layer's digest.
pub proof fn law_pulled_files(
    scheme: Seq<char>,
    seed: Seq<char>,
    dir: Seq<char>,
    replies: Seq<RegistryReply>,
)
    ensures
        pull_start(scheme, seed, dir) matches Progress::Next(m) ==> (run(m, replies) matches Progress::Done(
            Ok(paths),
        ) ==> exists|layers: Seq<LayerRefView>| #[trigger]
            manifest_given(replies, m.reference.repository, layers) && paths == layers.map_values(
                |l: LayerRefView| blob_path(dir, l.digest),
            )),
{
    if let Progress::Next(m) = pull_start(scheme, seed, dir) {
        lemma_pull_reached(m, replies, Disk { files: Map::empty(), open: seq![] });
    }
}

/// A layer whose file is there already is not fetched again: its file is used,
/// and it is the next layer's turn.
pub proof fn law_kept_layer_is_not_fetched(m: PullLayersView)
    requires
        m.at is Probe,
    ensures
        m.effect() == (RegistryEffectView::Probe { path: m.out() }),
        m.resume(RegistryReply::Present(true)) == (PullLayersView {
            paths: m.paths.push(m.out()),
            ..m
        }).next(),
{
}

/// The replies to a pull of one blob that is opened with `status`, arrives in
/// these pieces, and is written without a fault, up to the last piece.
pub open spec fn streamed(status: u16, pieces: Seq<Vec<u8>>) -> Seq<RegistryReply>
    decreases pieces.len(),
{
    if pieces.len() == 0 {
        Seq::<RegistryReply>::empty().push(RegistryReply::Opened(Ok(status))).push(
            RegistryReply::Done(Ok(())),
        )
    } else {
        streamed(status, pieces.drop_last()).push(
            RegistryReply::Chunk(Ok(Some(pieces.last()))),
        ).push(RegistryReply::Done(Ok(())))
    }
}

/// Pieces one behind the other.
pub open spec fn whole(pieces: Seq<Vec<u8>>) -> Seq<u8>
    decreases pieces.len(),
{
    if pieces.len() == 0 {
        seq![]
    } else {
        whole(pieces.drop_last()) + pieces.last()@
    }
}

proof fn lemma_streamed(m: PullBlobView, status: u16, pieces: Seq<Vec<u8>>)
    requires
        m.at is Open,
        is_success(status),
        whole(pieces).len() < HASH_LIMIT,
    ensures
        run(m, streamed(status, pieces)) == m.to(PullBlobAtView::Chunk(whole(pieces))),
    decreases pieces.len(),
{
    if pieces.len() == 0 {
        let none = Seq::<RegistryReply>::empty();
        let opened = none.push(RegistryReply::Opened(Ok(status)));
        lemma_run_push(m, none, RegistryReply::Opened(Ok(status)));
        lemma_run_push(m, opened, RegistryReply::Done(Ok(())));
    } else {
        let d = pieces.drop_last();
        let piece = RegistryReply::Chunk(Ok(Some(pieces.last())));
        lemma_streamed(m, status, d);
        lemma_run_push(m, streamed(status, d), piece);
        lemma_run_push(m, streamed(status, d).push(piece), RegistryReply::Done(Ok(())));
    }
}

/// A pull of one blob succeeds when the pieces that arrive, one behind the
/// other, have the digest that it was asked for by.
pub proof fn law_pull_of_a_true_blob_succeeds(m: PullBlobView, status: u16, pieces: Seq<Vec<u8>>)
    requires
        m.at is Open,
        is_success(status),
        whole(pieces).len() < HASH_LIMIT,
        has_digest(whole(pieces), m.digest),
    ensures
        run(
            m,
            streamed(status, pieces).push(RegistryReply::Chunk(Ok(None))).push(
                RegistryReply::Done(Ok(())),
            ),
        ) == Progress::<PullBlobView, _>::Done(Ok::<(), RegistryErrorView>(())),
{
    let s = streamed(status, pieces);
    lemma_streamed(m, status, pieces);
    lemma_run_push(m, s, RegistryReply::Chunk(Ok(None)));
    lemma_run_push(m, s.push(RegistryReply::Chunk(Ok(None))), RegistryReply::Done(Ok(())));
}

proof fn lemma_pull_within(m: PullLayersView, b: PullBlobView, replies: Seq<RegistryReply>)
    requires
        m.at == PullAtView::Pull(b),
        run(b, replies) is Next,
    ensures
        run(m, replies) == m.to(PullAtView::Pull(run(b, replies)->Next_0)),
    decreases replies.len(),
{
    if replies.len() > 0 {
        lemma_pull_within(m, b, replies.drop_last());
    }
}

/// The replies to a pull of a seed up to the first piece of its one layer: its
/// manifest is fetched and read, the directory is made, and the layer is not
/// there yet.
pub open spec fn begun(fetched: HttpResponse, manifest: WireManifest) -> Seq<RegistryReply> {
    Seq::<RegistryReply>::empty().push(RegistryReply::Http(Ok(fetched))).push(
        RegistryReply::Manifest(Ok(manifest)),
    ).push(RegistryReply::Done(Ok(()))).push(RegistryReply::Present(false))
}

/// A pull of a seed with one layer succeeds when the manifest can be fetched and
/// read and the layer arrives with its digest, in whatever pieces: then it comes
/// to the layer's file, which holds what arrived, byte for byte.
pub proof fn law_pull_of_one_layer_succeeds(
    scheme: Seq<char>,
    seed: Seq<char>,
    dir: Seq<char>,
    fetched: HttpResponse,
    manifest: WireManifest,
    layer: LayerRefView,
    status: u16,
    pieces: Seq<Vec<u8>>,
    start: Disk,
)
    requires
        reference_of(seed) is Ok,
        is_success(fetched.status),
        manifest.manifests == 0,
        manifest.layers.deep_view() == seq![layer],
        is_success(status),
        whole(pieces).len() < HASH_LIMIT,
        has_digest(whole(pieces), layer.digest),
    ensures
        ({
            let replies = (begun(fetched, manifest) + streamed(status, pieces)).push(
                RegistryReply::Chunk(Ok(None)),
            ).push(RegistryReply::Done(Ok(()))).push(RegistryReply::Done(Ok(())));
            let file = blob_path(dir, layer.digest);
            &&& pull_start(scheme, seed, dir) matches Progress::Next(m)
            &&& run(m, replies) == Progress::<PullLayersView, _>::Done(
                Ok::<_, RegistryErrorView>(seq![file]),
            )
            &&& disk(m, replies, start).files.contains_key(file)
            &&& disk(m, replies, start).files[file] == whole(pieces)
        }),
{
    let m = pull_start(scheme, seed, dir)->Next_0;
    let ok = RegistryReply::Done(Ok(()));
    let end = RegistryReply::Chunk(Ok(None));
    let none = Seq::<RegistryReply>::empty();
    let a = none.push(RegistryReply::Http(Ok(fetched)));
    let b = a.push(RegistryReply::Manifest(Ok(manifest)));
    let c = b.push(ok);
    let d = c.push(RegistryReply::Present(false));
    lemma_run_push(m, none, RegistryReply::Http(Ok(fetched)));
    lemma_run_push(m, a, RegistryReply::Manifest(Ok(manifest)));
    assert(seq![layer].reverse() =~= seq![layer]);
    lemma_run_push(m, b, ok);
    lemma_run_push(m, c, RegistryReply::Present(false));
    let k = run(m, d)->Next_0;
    let blob = k.at->Pull_0;
    let body = streamed(status, pieces);
    lemma_streamed(blob, status, pieces);
    lemma_pull_within(k, blob, body);
    lemma_run_append(m, d, body);
    let e = d + body;
    let f = e.push(end);
    let g = f.push(ok);
    let h = g.push(ok);
    lemma_run_push(m, e, end);
    lemma_pull_reached(m, f, start);
    lemma_run_push(m, f, ok);
    assert(g.drop_last() =~= f);
    assert(disk(m, g, start) == disk(m, f, start));
    lemma_run_push(m, g, ok);
    assert(h.drop_last() =~= g);
    let file = blob_path(dir, layer.digest);
    assert(run(m, g)->Next_0.paths =~= seq![]);
    assert(run(m, h) == Progress::<PullLayersView, _>::Done(
        Ok::<_, RegistryErrorView>(Seq::<Seq<char>>::empty().push(file)),
    ));
    assert(Seq::<Seq<char>>::empty().push(file) =~= seq![file]);
}

/// The replies to the pull of one layer that is not there yet, arrives in these
/// pieces, and is moved into place without a fault.
pub open spec fn layer_pulled(status: u16, pieces: Seq<Vec<u8>>) -> Seq<RegistryReply> {
    (Seq::<RegistryReply>::empty().push(RegistryReply::Present(false)) + streamed(
        status,
        pieces,
    )).push(RegistryReply::Chunk(Ok(None))).push(RegistryReply::Done(Ok(()))).push(
        RegistryReply::Done(Ok(())),
    )
}

/// The replies to the pulls of layers, one after the other; each layer arrives in
/// the pieces of its body.
pub open spec fn layers_pulled(status: u16, bodies: Seq<Seq<Vec<u8>>>) -> Seq<RegistryReply>
    decreases bodies.len(),
{
    if bodies.len() == 0 {
        seq![]
    } else {
        layers_pulled(status, bodies.drop_last()) + layer_pulled(status, bodies.last())
    }
}

/// Whether each body has the digest of its layer.
pub open spec fn true_bodies(layers: Seq<LayerRefView>, bodies: Seq<Seq<Vec<u8>>>) -> bool {
    &&& bodies.len() == layers.len()
    &&& forall|i: int|
        0 <= i < bodies.len() ==> whole(#[trigger] bodies[i]).len() < HASH_LIMIT && has_digest(
            whole(bodies[i]),
            layers[i].digest,
        )
}

proof fn lemma_layer_pulled(k: PullLayersView, status: u16, pieces: Seq<Vec<u8>>)
    requires
        k.at is Probe,
        is_success(status),
        whole(pieces).len() < HASH_LIMIT,
        has_digest(whole(pieces), k.digest()),
    ensures
        run(k, layer_pulled(status, pieces)) == k.stored(),
{
    let none = Seq::<RegistryReply>::empty();
    let absent = RegistryReply::Present(false);
    let ok = RegistryReply::Done(Ok(()));
    let end = RegistryReply::Chunk(Ok(None));
    lemma_run_push(k, none, absent);
    let n = run(k, none.push(absent))->Next_0;
    let blob = n.at->Pull_0;
    lemma_streamed(blob, status, pieces);
    lemma_pull_within(n, blob, streamed(status, pieces));
    lemma_run_append(k, none.push(absent), streamed(status, pieces));
    let e = none.push(absent) + streamed(status, pieces);
    lemma_run_push(k, e, end);
    lemma_run_push(k, e.push(end), ok);
    lemma_run_push(k, e.push(end).push(ok), ok);
}

proof fn lemma_layers_pulled(
    k: PullLayersView,
    status: u16,
    bodies: Seq<Seq<Vec<u8>>>,
    n: int,
)
    requires
        k.at is Probe,
        k.paths.len() == 0,
        is_success(status),
        true_bodies(k.layers, bodies),
        0 <= n <= bodies.len(),
        bodies.len() > 0,
    ensures
        ({
            let paths = k.layers.take(n).map_values(
                |l: LayerRefView| blob_path(k.dir, l.digest),
            );
            run(k, layers_pulled(status, bodies.take(n))) == (PullLayersView {
                paths,
                ..k
            }).next()
        }),
    decreases n,
{
    let paths = k.layers.take(n).map_values(|l: LayerRefView| blob_path(k.dir, l.digest));
    if n == 0 {
        assert(bodies.take(0) =~= seq![]);
        assert(paths =~= k.paths);
    } else {
        lemma_layers_pulled(k, status, bodies, n - 1);
        let before = bodies.take(n - 1);
        assert(bodies.take(n).drop_last() =~= before);
        assert(bodies.take(n).last() == bodies[n - 1]);
        let so_far = k.layers.take(n - 1).map_values(
            |l: LayerRefView| blob_path(k.dir, l.digest),
        );
        let at = PullLayersView { paths: so_far, ..k };
        lemma_run_append(k, layers_pulled(status, before), layer_pulled(status, bodies[n - 1]));
        lemma_layer_pulled(at, status, bodies[n - 1]);
        assert(paths =~= so_far.push(at.out()));
    }
}

/// A pull succeeds when the manifest can be fetched and read, the directory can
/// be made, and every layer arrives with its digest, in whatever pieces: then it
/// comes to the files of all layers, top first.
pub proof fn law_pull_succeeds(
    scheme: Seq<char>,
    seed: Seq<char>,
    dir: Seq<char>,
    fetched: HttpResponse,
    manifest: WireManifest,
    status: u16,
    bodies: Seq<Seq<Vec<u8>>>,
)
    requires
        reference_of(seed) is Ok,
        is_success(fetched.status),
        manifest.manifests == 0,
        manifest.layers.deep_view().len() > 0,
        is_success(status),
        true_bodies(manifest.layers.deep_view().reverse(), bodies),
    ensures
        pull_start(scheme, seed, dir) matches Progress::Next(m) && run(
            m,
            Seq::<RegistryReply>::empty().push(RegistryReply::Http(Ok(fetched))).push(
                RegistryReply::Manifest(Ok(manifest)),
            ).push(RegistryReply::Done(Ok(()))) + layers_pulled(status, bodies),
        ) == Progress::<PullLayersView, _>::Done(
            Ok::<_, RegistryErrorView>(
                manifest.layers.deep_view().reverse().map_values(
                    |l: LayerRefView| blob_path(dir, l.digest),
                ),
            ),
        ),
{
    let m = pull_start(scheme, seed, dir)->Next_0;
    let ok = RegistryReply::Done(Ok(()));
    let none = Seq::<RegistryReply>::empty();
    let a = none.push(RegistryReply::Http(Ok(fetched)));
    let b = a.push(RegistryReply::Manifest(Ok(manifest)));
    lemma_run_push(m, none, RegistryReply::Http(Ok(fetched)));
    lemma_run_push(m, a, RegistryReply::Manifest(Ok(manifest)));
    lemma_run_push(m, b, ok);
    let k = run(m, b.push(ok))->Next_0;
    let n = bodies.len() as int;
    lemma_layers_pulled(k, status, bodies, n);
    assert(bodies.take(n) =~= bodies);
    assert(k.layers.take(n) =~= k.layers);
    lemma_run_append(m, b.push(ok), layers_pulled(status, bodies));
}

// ---- every layer is verified ---------------------------------------------

/// Whether the node tells the truth about the files that it has: it reports only
/// those as there that are.
pub open spec fn true_probes(
    m: PullLayersView,
    replies: Seq<RegistryReply>,
    start: Disk,
) -> bool
    decreases replies.len(),
{
    replies.len() > 0 ==> {
        let d = replies.drop_last();
        &&& true_probes(m, d, start)
        &&& run(m, d) matches Progress::Next(k) ==> (k.effect() matches RegistryEffectView::Probe {
            path,
        } ==> (replies.last() matches RegistryReply::Present(true) ==> disk(
            m,
            d,
            start,
        ).files.contains_key(path)))
    }
}

/// Whether the files of layers that are there have the digests of the layers.
pub open spec fn verified(
    files: Map<Seq<char>, Seq<u8>>,
    dir: Seq<char>,
    layers: Seq<LayerRefView>,
) -> bool {
    forall|i: int|
        0 <= i < layers.len() && files.contains_key(
            blob_path(dir, (#[trigger] layers[i]).digest),
        ) ==> has_digest(files[blob_path(dir, layers[i].digest)], layers[i].digest)
}

/// Whether layers that share a file share a digest, but for the case of letters.
pub open spec fn names_tell_digests(dir: Seq<char>, layers: Seq<LayerRefView>) -> bool {
    forall|i: int, j: int|
        0 <= i < layers.len() && 0 <= j < layers.len() && blob_path(
            dir,
            (#[trigger] layers[i]).digest,
        ) == blob_path(dir, (#[trigger] layers[j]).digest) ==> text::lowered(layers[i].digest)
            == text::lowered(layers[j].digest)
}

/// Whether the files that a pull finds, and the names of the layers of the
/// manifests that it may be given, are such that a file of a layer is what its
/// name says.
pub open spec fn well_named(
    dir: Seq<char>,
    repository: Seq<char>,
    replies: Seq<RegistryReply>,
    start: Disk,
) -> bool {
    forall|layers: Seq<LayerRefView>| #[trigger]
        manifest_given(replies, repository, layers) ==> verified(start.files, dir, layers)
            && names_tell_digests(dir, layers)
}

proof fn lemma_partial_is_no_blob(dir: Seq<char>, a: Seq<char>, b: Seq<char>)
    ensures
        partial_path(blob_path(dir, a)) != blob_path(dir, b),
{
    reveal_strlit(".partial");
    reveal_strlit(".blob.partial");
    reveal_strlit(".blob");
    assert(blob_path(dir, b).last() == 'b');
    assert(partial_path(blob_path(dir, a)).last() == 'l');
}

/// What holds of the files `d` in every state of a pull that found them as
/// `start`.
spec fn files_verified(k: PullLayersView, d: Disk, start: Disk) -> bool {
    &&& match k.at {
        PullAtView::Resolve(_) => d.files == start.files,
        _ => verified(d.files, k.dir, k.layers),
    }
    &&& forall|i: int| 0 <= i < k.paths.len() ==> d.files.contains_key(#[trigger] k.paths[i])
}

proof fn lemma_files_verified(m: PullLayersView, replies: Seq<RegistryReply>, start: Disk)
    requires
        m.reached(m, seq![], start),
        m.at is Resolve,
        m.paths.len() == 0,
        true_probes(m, replies, start),
        well_named(m.dir, m.reference.repository, replies, start),
    ensures
        run(m, replies) matches Progress::Next(k) ==> files_verified(
            k,
            disk(m, replies, start),
            start,
        ),
        run(m, replies) matches Progress::Done(Ok(paths)) ==> exists|layers: Seq<LayerRefView>| {
            let files = disk(m, replies, start).files;
            &&& #[trigger] manifest_given(replies, m.reference.repository, layers)
            &&& paths == layers.map_values(|l: LayerRefView| blob_path(m.dir, l.digest))
            &&& verified(files, m.dir, layers)
            &&& forall|i: int| 0 <= i < paths.len() ==> files.contains_key(#[trigger] paths[i])
        },
    decreases replies.len(),
{
    if replies.len() > 0 {
        let r = replies.drop_last();
        let repository = m.reference.repository;
        assert forall|layers: Seq<LayerRefView>| #[trigger]
            manifest_given(r, repository, layers) implies manifest_given(
            replies,
            repository,
            layers,
        ) by {
            lemma_manifest_given_on(replies, repository, layers);
        }
        assert(well_named(m.dir, repository, r, start)) by {
            assert forall|layers: Seq<LayerRefView>| #[trigger]
                manifest_given(r, repository, layers) implies verified(
                start.files,
                m.dir,
                layers,
            ) && names_tell_digests(m.dir, layers) by {
                assert(manifest_given(replies, repository, layers));
            }
        }
        lemma_files_verified(m, r, start);
        lemma_pull_reached(m, r, start);
        lemma_pull_reached(m, replies, start);
        if let Progress::Next(k) = run(m, r) {
            lemma_file_step(m, k, r, replies, start);
        }
    }
}

proof fn lemma_file_step(
    m: PullLayersView,
    k: PullLayersView,
    r: Seq<RegistryReply>,
    replies: Seq<RegistryReply>,
    start: Disk,
)
    requires
        replies.len() > 0,
        r == replies.drop_last(),
        run(m, r) == Progress::<_, Result<Seq<Seq<char>>, RegistryErrorView>>::Next(k),
        k.reached(m, r, start),
        files_verified(k, disk(m, r, start), start),
        true_probes(m, replies, start),
        well_named(m.dir, m.reference.repository, replies, start),
        run(m, replies) matches Progress::Next(n) ==> n.reached(m, replies, start),
    ensures
        run(m, replies) matches Progress::Next(n) ==> files_verified(
            n,
            disk(m, replies, start),
            start,
        ),
        run(m, replies) matches Progress::Done(Ok(paths)) ==> {
            let files = disk(m, replies, start).files;
            &&& manifest_given(replies, m.reference.repository, k.layers)
            &&& paths == k.layers.map_values(|l: LayerRefView| blob_path(m.dir, l.digest))
            &&& verified(files, m.dir, k.layers)
            &&& forall|i: int| 0 <= i < paths.len() ==> files.contains_key(#[trigger] paths[i])
        },
{
    let reply = replies.last();
    let d = disk(m, r, start);
    let after = disk(m, replies, start);
    if !(k.at is Resolve) {
        lemma_manifest_given_on(replies, m.reference.repository, k.layers);
        let part = partial_path(k.out());
        assert forall|i: int| 0 <= i < k.layers.len() implies blob_path(
            k.dir,
            (#[trigger] k.layers[i]).digest,
        ) != part by {
            lemma_partial_is_no_blob(k.dir, k.digest(), k.layers[i].digest);
        }
        assert forall|i: int| 0 <= i < k.paths.len() implies #[trigger] k.paths[i] != part by {
            assert(k.paths[i] == blob_path(k.dir, k.layers[i].digest));
            assert(blob_path(k.dir, k.layers[i].digest) != part);
        }
        if k.at is Store {
            assert(names_tell_digests(m.dir, k.layers));
            let here = k.layers[k.paths.len() as int];
            assert forall|i: int|
                0 <= i < k.layers.len() && after.files.contains_key(
                    blob_path(k.dir, (#[trigger] k.layers[i]).digest),
                ) implies has_digest(
                after.files[blob_path(k.dir, k.layers[i].digest)],
                k.layers[i].digest,
            ) by {
                if blob_path(k.dir, k.layers[i].digest) == k.out() {
                    assert(text::lowered(k.layers[i].digest) == text::lowered(here.digest));
                }
            }
        }
        assert(verified(after.files, k.dir, k.layers));
        match k.resume(reply) {
            Progress::Done(Ok(paths)) => {
                assert(paths =~= k.layers.map_values(
                    |l: LayerRefView| blob_path(m.dir, l.digest),
                ));
            },
            _ => {},
        }
    }
}

/// Every layer is pulled digest-verified: when a pull succeeds, the file that it
/// returns for each layer of the seed's manifest is there and has the layer's
/// digest. That takes a node that tells the truth about its files, files found
/// there already that have the digests of their layers, and layers that share a
/// file to share a digest.
pub proof fn law_pulled_layers_have_their_digests(
    scheme: Seq<char>,
    seed: Seq<char>,
    dir: Seq<char>,
    m: PullLayersView,
    replies: Seq<RegistryReply>,
    start: Disk,
)
    requires
        pull_start(scheme, seed, dir) == Progress::<
            _,
            Result<Seq<Seq<char>>, RegistryErrorView>,
        >::Next(m),
        true_probes(m, replies, start),
        well_named(dir, m.reference.repository, replies, start),
    ensures
        run(m, replies) matches Progress::Done(Ok(paths)) ==> exists|layers: Seq<LayerRefView>| {
            let files = disk(m, replies, start).files;
            &&& #[trigger] manifest_given(replies, m.reference.repository, layers)
            &&& paths.len() == layers.len()
            &&& forall|i: int|
                0 <= i < paths.len() ==> {
                    &&& #[trigger] paths[i] == blob_path(dir, layers[i].digest)
                    &&& files.contains_key(paths[i])
                    &&& has_digest(files[paths[i]], layers[i].digest)
                }
        },
{
    lemma_files_verified(m, replies, start);
    if let Progress::Done(Ok(paths)) = run(m, replies) {
        let files = disk(m, replies, start).files;
        let layers = choose|layers: Seq<LayerRefView>| {
            &&& #[trigger] manifest_given(replies, m.reference.repository, layers)
            &&& paths == layers.map_values(|l: LayerRefView| blob_path(m.dir, l.digest))
            &&& verified(files, m.dir, layers)
            &&& forall|i: int| 0 <= i < paths.len() ==> files.contains_key(#[trigger] paths[i])
        };
        assert forall|i: int| 0 <= i < paths.len() implies {
            &&& #[trigger] paths[i] == blob_path(dir, layers[i].digest)
            &&& files.contains_key(paths[i])
            &&& has_digest(files[paths[i]], layers[i].digest)
        } by {
            assert(paths[i] == blob_path(dir, layers[i].digest));
        }
    }
}

// ---- what is asked for, and what comes of the answers --------------------

/// The first thing that resolving or pulling a seed asks for is the manifest at
/// the seed's tag or digest in its repository. A text that is no reference is
/// refused before anything is asked for.
pub proof fn law_seed_is_fetched_by_its_reference(
    scheme: Seq<char>,
    seed: Seq<char>,
    dir: Seq<char>,
)
    ensures
        reference_of(seed) matches Ok(r) ==> {
            let url = scheme + "://"@ + r.registry + "/v2/"@ + r.repository + "/manifests/"@
                + r.reference;
            &&& resolve_start(scheme, seed) matches Progress::Next(m)
            &&& m.effect() matches RegistryEffectView::Http(q)
            &&& q.method == Method::Get
            &&& q.url == url
            &&& q.accept == Some(
                "application/vnd.oci.image.manifest.v1+json, application/vnd.oci.image.index.v1+json, application/vnd.docker.distribution.manifest.v2+json, application/vnd.docker.distribution.manifest.list.v2+json"@,
            )
            &&& q.content_type is None
            &&& q.body.len() == 0
            &&& pull_start(scheme, seed, dir) matches Progress::Next(p)
            &&& p.effect() == m.effect()
        },
        reference_of(seed) matches Err(e) ==> {
            &&& resolve_start(scheme, seed) == Progress::<ResolveView, _>::Done(
                Err::<Seq<LayerRefView>, _>(e),
            )
            &&& pull_start(scheme, seed, dir) == Progress::<PullLayersView, _>::Done(
                Err::<Seq<Seq<char>>, _>(e),
            )
        },
{
}

/// The URL that a run asks for first, if it asks for one.
pub open spec fn first_url<T>(p: Progress<PullLayersView, T>) -> Option<Seq<char>> {
    match p {
        Progress::Next(m) => match m.effect() {
            RegistryEffectView::Http(q) => Some(q.url),
            _ => None,
        },
        Progress::Done(_) => None,
    }
}

/// Two seeds of one repository that differ in their tag or digest are fetched
/// from different URLs.
pub proof fn law_seeds_are_told_apart(
    scheme: Seq<char>,
    a: Seq<char>,
    b: Seq<char>,
    dir: Seq<char>,
)
    requires
        reference_of(a) is Ok,
        reference_of(b) is Ok,
        reference_of(a)->Ok_0.registry == reference_of(b)->Ok_0.registry,
        reference_of(a)->Ok_0.repository == reference_of(b)->Ok_0.repository,
        reference_of(a)->Ok_0.reference != reference_of(b)->Ok_0.reference,
    ensures
        first_url(pull_start(scheme, a, dir)) is Some,
        first_url(pull_start(scheme, b, dir)) is Some,
        first_url(pull_start(scheme, a, dir)) != first_url(pull_start(scheme, b, dir)),
{
    law_manifest_url(scheme, reference_of(a)->Ok_0, reference_of(b)->Ok_0);
}

/// What resolving comes to, by what came of the request and of reading the
/// manifest: an error of the request, a status that is not one of success, or
/// what the text of the manifest is read as.
pub proof fn law_resolve_outcomes(
    scheme: Seq<char>,
    seed: Seq<char>,
    e: String,
    resp: HttpResponse,
    w: WireManifest,
)
    ensures
        reference_of(seed) matches Ok(r) ==> {
            let url = scheme + "://"@ + r.registry + "/v2/"@ + r.repository + "/manifests/"@
                + r.reference;
            &&& resolve_start(scheme, seed) matches Progress::Next(m)
            &&& m.resume(RegistryReply::Http(Err(e))) == Progress::<ResolveView, _>::Done(
                Err::<Seq<LayerRefView>, _>(RegistryErrorView::Http(e@)),
            )
            &&& resp.status / 100 != 2 ==> m.resume(RegistryReply::Http(Ok(resp))) == Progress::<
                ResolveView,
                _,
            >::Done(Err::<Seq<LayerRefView>, _>(RegistryErrorView::Status(url, resp.status)))
            &&& resp.status / 100 == 2 ==> {
                &&& m.resume(RegistryReply::Http(Ok(resp))) matches Progress::Next(k)
                &&& k.effect() == (RegistryEffectView::DecodeManifest { body: resp.body@ })
                &&& k.resume(RegistryReply::Manifest(Err(e))) == Progress::<ResolveView, _>::Done(
                    Err::<Seq<LayerRefView>, _>(RegistryErrorView::BadResponse(r.repository, e@)),
                )
                &&& k.resume(RegistryReply::Manifest(Ok(w))) matches Progress::Done(l)
                &&& l is Ok <==> w.manifests == 0 && w.layers@.len() > 0
                &&& l matches Ok(layers) ==> layers.len() == w.layers@.len() && forall|i: int|
                    0 <= i < layers.len() ==> #[trigger] layers[i] == w.layers@[layers.len() - 1
                        - i]@
                &&& l matches Err(x) ==> x == if w.manifests > 0 {
                    RegistryErrorView::BadResponse(
                        r.repository,
                        "seed is a multi-arch index; a PVC data artifact must be a single manifest"@,
                    )
                } else {
                    RegistryErrorView::NoLayers(r.repository)
                }
            }
        },
{
    if let Ok(r) = reference_of(seed) {
        law_success(resp.status);
        law_layers(r.repository, w, e);
        law_manifest_url(scheme, r, r);
    }
}

/// Data have a digest when the digest is `sha256:` and their SHA-256 hash in
/// hexadecimal, each character compared without regard to case.
pub proof fn law_has_digest(data: Seq<u8>, digest: Seq<char>)
    ensures
        ({
            let right = "sha256:"@ + hex_text(sha256_of(data));
            has_digest(data, digest) <==> digest.len() == right.len() && forall|i: int|
                0 <= i < right.len() ==> text::lower_char(#[trigger] digest[i]) == text::lower_char(
                    right[i],
                )
        }),
{
    let right = "sha256:"@ + hex_text(sha256_of(data));
    let a = text::lowered(digest);
    let b = text::lowered(right);
    if digest.len() == right.len() && forall|i: int|
        0 <= i < right.len() ==> text::lower_char(#[trigger] digest[i]) == text::lower_char(
            right[i],
        ) {
        assert(a =~= b);
    }
    if a == b {
        assert(digest.len() == a.len());
        assert(right.len() == b.len());
        assert forall|i: int| 0 <= i < right.len() implies text::lower_char(#[trigger] digest[i])
            == text::lower_char(right[i]) by {
            assert(a.len() == digest.len() && b.len() == right.len());
            assert(a[i] == text::lower_char(digest[i]));
            assert(b[i] == text::lower_char(right[i]));
        }
    }
}

/// What a pull of one blob asks for and comes to: the blob's URL is opened, the
/// file is made, each piece that arrives is written as it is, and the file is
/// flushed at the end. An error of the registry or of the file ends the pull and
/// is reported. A file with another digest is removed, and the pull fails with
/// both digests.
pub proof fn law_blob_pull_outcomes(
    m: PullBlobView,
    e: String,
    status: u16,
    pieces: Seq<Vec<u8>>,
    piece: Vec<u8>,
    removed: Result<(), String>,
)
    requires
        m.at is Open,
        whole(pieces).len() + piece@.len() < HASH_LIMIT,
    ensures
        ({
            let url = m.scheme + "://"@ + m.reference.registry + "/v2/"@ + m.reference.repository
                + "/blobs/"@ + m.digest;
            let http = Progress::<PullBlobView, _>::Done(
                Err::<(), _>(RegistryErrorView::Http(e@)),
            );
            let io = Progress::<PullBlobView, _>::Done(Err::<(), _>(RegistryErrorView::Io(e@)));
            let fault = RegistryReply::Done(Err(e));
            let ok = RegistryReply::Done(Ok(()));
            let got = "sha256:"@ + hex_text(sha256_of(whole(pieces)));
            &&& m.effect() == (RegistryEffectView::OpenBlob { url })
            &&& m.resume(RegistryReply::Opened(Err(e))) == http
            &&& status / 100 != 2 ==> m.resume(RegistryReply::Opened(Ok(status))) == Progress::<
                PullBlobView,
                _,
            >::Done(Err::<(), _>(RegistryErrorView::Status(url, status)))
            &&& status / 100 == 2 ==> {
                &&& m.resume(RegistryReply::Opened(Ok(status))) matches Progress::Next(made)
                &&& made.effect() == (RegistryEffectView::CreateFile { path: m.out })
                &&& made.resume(fault) == io
                &&& run(m, streamed(status, pieces)) matches Progress::Next(k)
                &&& k.effect() is NextChunk
                &&& k.resume(RegistryReply::Chunk(Err(e))) == http
                &&& k.resume(RegistryReply::Chunk(Ok(Some(piece)))) matches Progress::Next(w)
                &&& w.effect() == (RegistryEffectView::WriteChunk { bytes: piece@ })
                &&& w.resume(fault) == io
                &&& w.resume(ok) matches Progress::Next(on)
                &&& on.effect() is NextChunk
                &&& k.resume(RegistryReply::Chunk(Ok(None))) matches Progress::Next(f)
                &&& f.effect() is Flush
                &&& f.resume(fault) == io
                &&& has_digest(whole(pieces), m.digest) ==> f.resume(ok) == Progress::<
                    PullBlobView,
                    _,
                >::Done(Ok::<(), RegistryErrorView>(()))
                &&& !has_digest(whole(pieces), m.digest) ==> {
                    &&& f.resume(ok) matches Progress::Next(bad)
                    &&& bad.effect() == (RegistryEffectView::RemoveFile { path: m.out })
                    &&& bad.resume(RegistryReply::Done(removed)) == Progress::<
                        PullBlobView,
                        _,
                    >::Done(
                        Err::<(), _>(
                            RegistryErrorView::DigestMismatch {
                                reference: m.reference.repository,
                                expected: m.digest,
                                got,
                            },
                        ),
                    )
                }
            }
        }),
{
    law_success(status);
    law_blob_url(m.scheme, m.reference, m.digest, m.digest);
    if status / 100 == 2 {
        lemma_streamed(m, status, pieces);
    }
}

/// After the manifest of a seed is read, its directory is made, and the pull
/// asks for the top layer's file; a directory that cannot be made ends the pull.
pub proof fn law_pull_begins_with_the_top_layer(
    scheme: Seq<char>,
    seed: Seq<char>,
    dir: Seq<char>,
    resp: HttpResponse,
    w: WireManifest,
    e: String,
)
    requires
        reference_of(seed) is Ok,
        resp.status / 100 == 2,
        w.manifests == 0,
        w.layers@.len() > 0,
    ensures
        ({
            let asked = seq![RegistryReply::Http(Ok(resp)), RegistryReply::Manifest(Ok(w))];
            &&& pull_start(scheme, seed, dir) matches Progress::Next(m)
            &&& run(m, asked) matches Progress::Next(k)
            &&& k.effect() == (RegistryEffectView::CreateDir { path: dir })
            &&& k.resume(RegistryReply::Done(Err(e))) == Progress::<PullLayersView, _>::Done(
                Err::<Seq<Seq<char>>, _>(RegistryErrorView::Io(e@)),
            )
            &&& k.resume(RegistryReply::Done(Ok(()))) matches Progress::Next(n)
            &&& n.effect() == (RegistryEffectView::Probe {
                path: blob_path(dir, w.layers@.last()@.digest),
            })
        }),
{
    let m = pull_start(scheme, seed, dir)->Next_0;
    let none = Seq::<RegistryReply>::empty();
    let http = RegistryReply::Http(Ok(resp));
    let read = RegistryReply::Manifest(Ok(w));
    law_success(resp.status);
    law_layers(m.reference.repository, w, e);
    lemma_run_push(m, none, http);
    lemma_run_push(m, none.push(http), read);
    assert(none.push(http).push(read) =~= seq![http, read]);
}

/// A pull begins as resolving does: it asks for the same things, and a seed that
/// cannot be resolved ends it with the same error.
pub proof fn law_pull_fails_as_resolving_does(
    scheme: Seq<char>,
    seed: Seq<char>,
    dir: Seq<char>,
    replies: Seq<RegistryReply>,
)
    requires
        reference_of(seed) is Ok,
    ensures
        resolve_start(scheme, seed) matches Progress::Next(r) && pull_start(
            scheme,
            seed,
            dir,
        ) matches Progress::Next(m) && (run(r, replies) matches Progress::Done(Err(e)) ==> run(
            m,
            replies,
        ) == Progress::<PullLayersView, _>::Done(Err::<Seq<Seq<char>>, _>(e))) && (run(
            r,
            replies,
        ) matches Progress::Next(k) ==> run(m, replies) matches Progress::Next(n) && n.effect()
            == k.effect()),
{
    lemma_resolve_within(scheme, seed, dir, replies);
}

proof fn lemma_resolve_within(
    scheme: Seq<char>,
    seed: Seq<char>,
    dir: Seq<char>,
    replies: Seq<RegistryReply>,
)
    requires
        reference_of(seed) is Ok,
    ensures
        ({
            let r = resolve_start(scheme, seed)->Next_0;
            let m = pull_start(scheme, seed, dir)->Next_0;
            &&& run(r, replies) matches Progress::Next(k) ==> run(m, replies) == m.to(
                PullAtView::Resolve(k),
            )
            &&& run(r, replies) matches Progress::Done(Err(e)) ==> run(m, replies) == Progress::<
                PullLayersView,
                _,
            >::Done(Err::<Seq<Seq<char>>, _>(e))
        }),
    decreases replies.len(),
{
    if replies.len() > 0 {
        lemma_resolve_within(scheme, seed, dir, replies.drop_last());
    }
}

/// The turn of a layer in a pull. Its file is looked for; one that is there is
/// taken as it is, and one that is not is fetched from the layer's URL. A layer
/// that is in place makes it the next layer's turn, or, if it was the last, ends
/// the pull with the files of all layers.
pub proof fn law_a_layers_turn(
    scheme: Seq<char>,
    seed: Seq<char>,
    dir: Seq<char>,
    replies: Seq<RegistryReply>,
)
    requires
        reference_of(seed) is Ok,
    ensures
        pull_start(scheme, seed, dir) matches Progress::Next(m) && (run(m, replies) matches Progress::Next(
            k,
        ) ==> (k.effect() matches RegistryEffectView::Probe { path } ==> {
            let r = reference_of(seed)->Ok_0;
            let i = k.paths.len() as int;
            let layer = k.layers[i];
            &&& i < k.layers.len()
            &&& manifest_given(replies, r.repository, k.layers)
            &&& path == blob_path(dir, layer.digest)
            &&& k.resume(RegistryReply::Present(false)) matches Progress::Next(n)
            &&& n.effect() == (RegistryEffectView::OpenBlob {
                url: scheme + "://"@ + r.registry + "/v2/"@ + r.repository + "/blobs/"@
                    + layer.digest,
            })
            &&& in_place(k, k.resume(RegistryReply::Present(true)), path, dir)
        })),
{
    let m = pull_start(scheme, seed, dir)->Next_0;
    lemma_pull_reached(m, replies, Disk { files: Map::empty(), open: seq![] });
}

/// Whether a pull goes on from `k` as it does when the layer whose turn it is
/// has its file at `path`: with the next layer, or to its end.
pub open spec fn in_place(
    k: PullLayersView,
    p: Progress<PullLayersView, Result<Seq<Seq<char>>, RegistryErrorView>>,
    path: Seq<char>,
    dir: Seq<char>,
) -> bool {
    let i = k.paths.len() as int;
    match p {
        Progress::Done(r) => i + 1 == k.layers.len() && r == Ok::<_, RegistryErrorView>(
            k.paths.push(path),
        ),
        Progress::Next(n) => {
            &&& i + 1 < k.layers.len()
            &&& n.layers == k.layers
            &&& n.paths == k.paths.push(path)
            &&& n.effect() == (RegistryEffectView::Probe {
                path: blob_path(dir, k.layers[i + 1].digest),
            })
        },
    }
}

/// A layer that was fetched with its digest is moved from where it was written
/// to its file, and is then in place; if it cannot be moved, or could not be
/// fetched, the pull ends with that error.
pub proof fn law_fetched_layer_is_put_in_place(
    scheme: Seq<char>,
    seed: Seq<char>,
    dir: Seq<char>,
    replies: Seq<RegistryReply>,
    reply: RegistryReply,
    e: String,
)
    requires
        reference_of(seed) is Ok,
    ensures
        pull_start(scheme, seed, dir) matches Progress::Next(m) && (run(m, replies) matches Progress::Next(
            k,
        ) ==> {
            &&& k.at matches PullAtView::Pull(b) ==> {
                let file = blob_path(dir, k.layers[k.paths.len() as int].digest);
                &&& k.effect() == b.effect()
                &&& b.digest == k.layers[k.paths.len() as int].digest
                &&& b.out == partial_path(file)
                &&& b.resume(reply) matches Progress::Next(c) ==> (k.resume(
                    reply,
                ) matches Progress::Next(n) && n.at == PullAtView::Pull(c) && n.paths == k.paths
                    && n.layers == k.layers)
                &&& b.resume(reply) matches Progress::Done(Err(x)) ==> k.resume(reply)
                    == Progress::<PullLayersView, _>::Done(Err::<Seq<Seq<char>>, _>(x))
                &&& b.resume(reply) matches Progress::Done(Ok(_)) ==> {
                    &&& k.resume(reply) matches Progress::Next(n)
                    &&& n.effect() == (RegistryEffectView::Rename { from: b.out, to: file })
                    &&& n.resume(RegistryReply::Done(Err(e))) == Progress::<
                        PullLayersView,
                        _,
                    >::Done(Err::<Seq<Seq<char>>, _>(RegistryErrorView::Io(e@)))
                    &&& in_place(k, n.resume(RegistryReply::Done(Ok(()))), file, dir)
                }
            }
        }),
{
    let m = pull_start(scheme, seed, dir)->Next_0;
    lemma_pull_reached(m, replies, Disk { files: Map::empty(), open: seq![] });
}

/// A reply that resolving or pulling does not wait for changes nothing.
pub proof fn law_pull_ignores_strays(
    r: ResolveView,
    b: PullBlobView,
    m: PullLayersView,
    reply: RegistryReply,
)
    ensures
        (r.effect() is Http ==> !(reply is Http)) && (r.effect() is DecodeManifest ==> !(
        reply is Manifest)) ==> r.resume(reply) == Progress::<
            _,
            Result<Seq<LayerRefView>, RegistryErrorView>,
        >::Next(r),
        !waited_for(b.effect(), reply) ==> b.resume(reply) == Progress::<
            _,
            Result<(), RegistryErrorView>,
        >::Next(b),
        !waited_for(m.effect(), reply) ==> m.resume(reply) == Progress::<
            _,
            Result<Seq<Seq<char>>, RegistryErrorView>,
        >::Next(m),
{
}

/// Whether a reply is of the kind that comes of what was asked for.
pub open spec fn waited_for(effect: RegistryEffectView, reply: RegistryReply) -> bool {
    match effect {
        RegistryEffectView::Http(_) => reply is Http,
        RegistryEffectView::DecodeManifest { .. } => reply is Manifest,
        RegistryEffectView::EncodeManifest(_) => reply is Encoded,
        RegistryEffectView::ReadFile { .. } => reply is Contents,
        RegistryEffectView::Probe { .. } => reply is Present,
        RegistryEffectView::OpenBlob { .. } => reply is Opened,
        RegistryEffectView::NextChunk => reply is Chunk,
        _ => reply is Done,
    }
}

/// A blob that reaches the limit of SHA-256 is refused.
pub proof fn law_blob_over_the_limit_is_refused(
    m: PullBlobView,
    status: u16,
    pieces: Seq<Vec<u8>>,
    piece: Vec<u8>,
)
    requires
        m.at is Open,
        status / 100 == 2,
        whole(pieces).len() < HASH_LIMIT,
        whole(pieces).len() + piece@.len() >= HASH_LIMIT,
    ensures
        run(m, streamed(status, pieces)) matches Progress::Next(k) && k.resume(
            RegistryReply::Chunk(Ok(Some(piece))),
        ) == Progress::<PullBlobView, _>::Done(
            Err::<(), _>(
                RegistryErrorView::BadResponse(m.reference.repository, "blob is too large"@),
            ),
        ),
{
    law_success(status);
    lemma_streamed(m, status, pieces);
}

/// What the operations of resolving come to.
pub proof fn law_resolve_operations(
    c: &OciClient,
    seed: &str,
    p: Progress<Resolve, Result<Vec<LayerRef>, RegistryError>>,
    m: Resolve,
    reply: RegistryReply,
    e: RegistryEffect,
)
    ensures
        call_ensures(OciClient::resolve, (c, seed), p) ==> resolve_start(c.scheme@, seed@) == (
        match p {
            Progress::Next(n) => Progress::Next(n@),
            Progress::Done(Ok(l)) => Progress::Done(Ok(l.deep_view())),
            Progress::Done(Err(x)) => Progress::Done(Err(x@)),
        }),
        call_ensures(Resolve::effect, (&m,), e) ==> e@ == m@.effect(),
        call_ensures(Resolve::resume, (m, reply), p) ==> m@.resume(reply) == (match p {
            Progress::Next(n) => Progress::Next(n@),
            Progress::Done(Ok(l)) => Progress::Done(Ok(l.deep_view())),
            Progress::Done(Err(x)) => Progress::Done(Err(x@)),
        }),
{
}

/// What the operations of pulling one blob come to.
pub proof fn law_pull_blob_operations(
    c: &OciClient,
    r: &Reference,
    digest: &str,
    out: &str,
    m: PullBlob,
    reply: RegistryReply,
    e: RegistryEffect,
    p: Progress<PullBlob, Result<(), RegistryError>>,
)
    ensures
        call_ensures(OciClient::pull_blob_to, (c, r, digest, out), m) ==> {
            &&& m@.scheme == c.scheme@
            &&& m@.reference == r@
            &&& m@.digest == digest@
            &&& m@.out == out@
            &&& m@.at is Open
        },
        call_ensures(PullBlob::effect, (&m,), e) ==> e@ == m@.effect(),
        call_ensures(PullBlob::resume, (m, reply), p) ==> m@.resume(reply) == (match p {
            Progress::Next(n) => Progress::Next(n@),
            Progress::Done(Ok(_)) => Progress::Done(Ok(())),
            Progress::Done(Err(x)) => Progress::Done(Err(x@)),
        }),
{
}

/// What the operations of pulling come to.
pub proof fn law_pull_operations(
    c: &OciClient,
    seed: &str,
    dir: &str,
    p: Progress<PullLayers, Result<Vec<String>, RegistryError>>,
    m: PullLayers,
    reply: RegistryReply,
    e: RegistryEffect,
)
    ensures
        call_ensures(OciClient::pull_layers, (c, seed, dir), p) ==> pull_start(
            c.scheme@,
            seed@,
            dir@,
        ) == (match p {
            Progress::Next(n) => Progress::Next(n@),
            Progress::Done(Ok(l)) => Progress::Done(Ok(l.deep_view())),
            Progress::Done(Err(x)) => Progress::Done(Err(x@)),
        }),
        call_ensures(PullLayers::effect, (&m,), e) ==> e@ == m@.effect(),
        call_ensures(PullLayers::resume, (m, reply), p) ==> m@.resume(reply) == (match p {
            Progress::Next(n) => Progress::Next(n@),
            Progress::Done(Ok(l)) => Progress::Done(Ok(l.deep_view())),
            Progress::Done(Err(x)) => Progress::Done(Err(x@)),
        }),
{
}

} // verus!
