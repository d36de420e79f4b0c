//! The OCI Distribution client: what it reads and writes, and the steps that
//! resolving, pulling and pushing ask for.

use crate::driver::{
    is_entry_name, join_path, joined_path, lemma_joined_prefix, DRIVER_VERSION,
};
use crate::map::ParamMap;
use crate::outside;
use crate::registry::{Reference, ReferenceView, RegistryError, RegistryErrorView};
use crate::text;
use vstd::prelude::*;

verus! {

/// Media type of a captured layer.
pub const LAYER_ZSTD: &'static str = "application/vnd.oci.image.layer.v1.tar+zstd";

/// Media type of an OCI image manifest.
pub const MANIFEST: &'static str = "application/vnd.oci.image.manifest.v1+json";

/// Media type of the empty config, which marks a manifest as an artifact.
pub const EMPTY_CONFIG: &'static str = "application/vnd.oci.empty.v1+json";

/// `artifactType` of captured revisions.
pub const PVC_ARTIFACT_TYPE: &'static str = "application/vnd.rspacefs.pvc.layer.v1+tar+zstd";

/// Digest of the empty config, `{}`.
pub const EMPTY_CONFIG_DIGEST: &'static str =
    "sha256:44136fa355b3678a1146ad16f7e8649e94fb4fc21fe77e8310c060f61caaff8a";

/// The manifest types that a seed may be served as.
pub const MANIFEST_ACCEPT: &'static str =
    "application/vnd.oci.image.manifest.v1+json, application/vnd.oci.image.index.v1+json, application/vnd.docker.distribution.manifest.v2+json, application/vnd.docker.distribution.manifest.list.v2+json";

/// Content type of an uploaded blob.
pub const OCTET_STREAM: &'static str = "application/octet-stream";

// ---- layers and manifests ------------------------------------------------

/// One layer of an artifact.
#[derive(Debug)]
pub struct LayerRef {
    pub media_type: String,
    pub digest: String,
    pub size: u64,
}

/// What a [`LayerRef`] says.
#[verifier::ext_equal]
pub struct LayerRefView {
    pub media_type: Seq<char>,
    pub digest: Seq<char>,
    pub size: u64,
}

impl View for LayerRef {
    type V = LayerRefView;

    open spec fn view(&self) -> LayerRefView {
        LayerRefView { media_type: self.media_type@, digest: self.digest@, size: self.size }
    }
}

impl DeepView for LayerRef {
    type V = LayerRefView;

    open spec fn deep_view(&self) -> LayerRefView {
        self@
    }
}

impl Clone for LayerRef {
    fn clone(&self) -> (r: LayerRef)
        ensures
            r@ == self@,
    {
        LayerRef {
            media_type: self.media_type.clone(),
            digest: self.digest.clone(),
            size: self.size,
        }
    }
}

/// A manifest as it is read: its layers, base first, and how many manifests it
/// lists, which is none unless it is an index.
pub struct WireManifest {
    pub layers: Vec<LayerRef>,
    pub manifests: usize,
}

/// A descriptor as it is written.
pub type OutDescriptor = LayerRef;

/// A manifest as it is written.
pub struct OutManifest {
    pub schema_version: u32,
    pub media_type: String,
    pub artifact_type: String,
    pub config: OutDescriptor,
    pub layers: Vec<OutDescriptor>,
    pub annotations: ParamMap,
}

/// What an [`OutManifest`] says.
#[verifier::ext_equal]
pub struct OutManifestView {
    pub schema_version: u32,
    pub media_type: Seq<char>,
    pub artifact_type: Seq<char>,
    pub config: LayerRefView,
    pub layers: Seq<LayerRefView>,
    pub annotations: Map<Seq<char>, Seq<char>>,
}

impl View for OutManifest {
    type V = OutManifestView;

    open spec fn view(&self) -> OutManifestView {
        OutManifestView {
            schema_version: self.schema_version,
            media_type: self.media_type@,
            artifact_type: self.artifact_type@,
            config: self.config@,
            layers: self.layers.deep_view(),
            annotations: self.annotations@,
        }
    }
}

/// The manifest of a captured revision.
pub open spec fn revision_manifest(
    tag: Seq<char>,
    layer_digest: Seq<char>,
    layer_size: u64,
) -> OutManifestView {
    OutManifestView {
        schema_version: 2,
        media_type: MANIFEST@,
        artifact_type: PVC_ARTIFACT_TYPE@,
        config: LayerRefView { media_type: EMPTY_CONFIG@, digest: EMPTY_CONFIG_DIGEST@, size: 2 },
        layers: seq![
            LayerRefView { media_type: LAYER_ZSTD@, digest: layer_digest, size: layer_size },
        ],
        annotations: Map::<Seq<char>, Seq<char>>::empty().insert(
            "org.opencontainers.image.title"@,
            tag,
        ).insert("io.g8.rspacefs.pvc"@, "true"@),
    }
}

/// The bytes of the empty config, `{}`.
pub open spec fn empty_config() -> Seq<u8> {
    seq![123u8, 125u8]
}

/// The layers of a seed, top first, or why it is not one. An index is refused:
/// a data artifact is a single manifest.
pub open spec fn layers_of(repository: Seq<char>, m: Result<WireManifest, String>) -> Result<
    Seq<LayerRefView>,
    RegistryErrorView,
> {
    match m {
        Err(e) => Err(RegistryErrorView::BadResponse(repository, e@)),
        Ok(w) => if w.manifests > 0 {
            Err(
                RegistryErrorView::BadResponse(
                    repository,
                    "seed is a multi-arch index; a PVC data artifact must be a single manifest"@,
                ),
            )
        } else if w.layers.deep_view().len() == 0 {
            Err(RegistryErrorView::NoLayers(repository))
        } else {
            Ok(w.layers.deep_view().reverse())
        },
    }
}

/// `r` with what it holds replaced by what that says.
pub open spec fn layers_result(r: Result<Vec<LayerRef>, RegistryError>) -> Result<
    Seq<LayerRefView>,
    RegistryErrorView,
> {
    match r {
        Ok(l) => Ok(l.deep_view()),
        Err(e) => Err(e@),
    }
}

// ---- digests -------------------------------------------------------------

/// `sha256:` and the hash in hexadecimal.
pub open spec fn digest_text(hash: Seq<u8>) -> Seq<char> {
    "sha256:"@ + outside::hex_text(hash)
}

/// The number of bytes from which on SHA-256 is not defined.
pub const HASH_LIMIT: u64 = 0x2000_0000_0000_0000;

/// The digest of `data`.
pub fn sha256_digest(data: &[u8]) -> (r: String)
    requires
        data@.len() < HASH_LIMIT,
    ensures
        r@ == digest_text(outside::sha256_of(data@)),
{
    let hash = outside::sha256(data);
    "sha256:".to_string().concat(outside::to_hex(hash.as_slice()).as_str())
}

/// The digest of a blob that arrives in pieces.
pub struct BlobHasher {
    inner: outside::Sha256Stream,
    len: u64,
}

impl View for BlobHasher {
    type V = Seq<u8>;

    /// What has arrived so far.
    closed spec fn view(&self) -> Seq<u8> {
        outside::fed(self.inner)
    }
}

impl BlobHasher {
    #[verifier::type_invariant]
    spec fn wf(self) -> bool {
        self.len == outside::fed(self.inner).len() && self.len < HASH_LIMIT
    }

    /// Nothing has arrived yet.
    pub fn new() -> (r: BlobHasher)
        ensures
            r@ == Seq::<u8>::empty(),
    {
        BlobHasher { inner: outside::stream_new(), len: 0 }
    }

    /// Takes in the next piece. One that would take the blob to the limit of
    /// SHA-256 is refused, and changes nothing.
    pub fn update(self, piece: &[u8]) -> (r: (BlobHasher, bool))
        ensures
            r.1 == (self@.len() + piece@.len() < HASH_LIMIT),
            r.0@ == if r.1 {
                self@ + piece@
            } else {
                self@
            },
    {
        proof {
            use_type_invariant(&self);
        }
        let BlobHasher { inner, len } = self;
        let mut inner = inner;
        let n: u64 = piece.len() as u64;
        if n >= HASH_LIMIT || len + n >= HASH_LIMIT {
            return (BlobHasher { inner, len }, false);
        }
        outside::stream_update(&mut inner, piece);
        (BlobHasher { inner, len: len + n }, true)
    }

    /// The digest of what has arrived.
    pub fn finish(self) -> (r: String)
        ensures
            r@ == digest_text(outside::sha256_of(self@)),
    {
        proof {
            use_type_invariant(&self);
        }
        let hash = outside::stream_finish(self.inner);
        "sha256:".to_string().concat(outside::to_hex(hash.as_slice()).as_str())
    }
}

// ---- HTTP ----------------------------------------------------------------

/// An HTTP method.
#[derive(Debug, Clone, Copy, PartialEq, Eq, Structural)]
pub enum Method {
    Get,
    Head,
    Post,
    Put,
}

/// An HTTP request.
pub struct HttpRequest {
    pub method: Method,
    pub url: String,
    pub accept: Option<String>,
    pub content_type: Option<String>,
    pub body: Vec<u8>,
}

/// What an [`HttpRequest`] says.
#[verifier::ext_equal]
pub struct HttpRequestView {
    pub method: Method,
    pub url: Seq<char>,
    pub accept: Option<Seq<char>>,
    pub content_type: Option<Seq<char>>,
    pub body: Seq<u8>,
}

impl View for HttpRequest {
    type V = HttpRequestView;

    open spec fn view(&self) -> HttpRequestView {
        HttpRequestView {
            method: self.method,
            url: self.url@,
            accept: self.accept.deep_view(),
            content_type: self.content_type.deep_view(),
            body: self.body@,
        }
    }
}

/// A request with no body and no header of its own.
pub open spec fn bare(method: Method, url: Seq<char>) -> HttpRequestView {
    HttpRequestView { method, url, accept: None, content_type: None, body: seq![] }
}

/// An upload.
pub open spec fn put(
    url: Seq<char>,
    content_type: Seq<char>,
    body: Seq<u8>,
) -> HttpRequestView {
    HttpRequestView {
        method: Method::Put,
        url,
        accept: None,
        content_type: Some(content_type),
        body,
    }
}

pub(crate) fn bare_request(method: Method, url: String) -> (r: HttpRequest)
    ensures
        r@ == bare(method, url@),
{
    HttpRequest { method, url, accept: None, content_type: None, body: Vec::new() }
}

pub(crate) fn put_request(url: String, content_type: &str, body: Vec<u8>) -> (r: HttpRequest)
    ensures
        r@ == self::put(url@, content_type@, body@),
{
    HttpRequest {
        method: Method::Put,
        url,
        accept: None,
        content_type: Some(content_type.to_string()),
        body,
    }
}

/// What the client reads of an HTTP response.
pub struct HttpResponse {
    pub status: u16,
    /// The `Location` header.
    pub location: Option<String>,
    /// The `docker-content-digest` header.
    pub digest: Option<String>,
    pub body: Vec<u8>,
}

/// Whether an HTTP status is one of success.
pub open spec fn is_success(status: u16) -> bool {
    200 <= status < 300
}

/// What a step of the client asks for.
pub enum RegistryEffect {
    /// Send a request.
    Http(HttpRequest),
    /// Read a manifest from its JSON text.
    DecodeManifest { body: Vec<u8> },
    /// Write a manifest as JSON text.
    EncodeManifest(OutManifest),
    ReadFile { path: String },
    CreateDir { path: String },
    /// Find out whether a file is there.
    Probe { path: String },
    /// Send a GET, and keep its body open.
    OpenBlob { url: String },
    /// Make a file, or empty one that is there, and keep it open.
    CreateFile { path: String },
    /// Read the next piece of the open body.
    NextChunk,
    /// Append to the open file.
    WriteChunk { bytes: Vec<u8> },
    /// Flush the open file.
    Flush,
    RemoveFile { path: String },
    Rename { from: String, to: String },
}

/// What a [`RegistryEffect`] says.
pub enum RegistryEffectView {
    Http(HttpRequestView),
    DecodeManifest { body: Seq<u8> },
    EncodeManifest(OutManifestView),
    ReadFile { path: Seq<char> },
    CreateDir { path: Seq<char> },
    Probe { path: Seq<char> },
    OpenBlob { url: Seq<char> },
    CreateFile { path: Seq<char> },
    NextChunk,
    WriteChunk { bytes: Seq<u8> },
    Flush,
    RemoveFile { path: Seq<char> },
    Rename { from: Seq<char>, to: Seq<char> },
}

impl View for RegistryEffect {
    type V = RegistryEffectView;

    open spec fn view(&self) -> RegistryEffectView {
        match self {
            RegistryEffect::Http(q) => RegistryEffectView::Http(q@),
            RegistryEffect::DecodeManifest { body } => RegistryEffectView::DecodeManifest {
                body: body@,
            },
            RegistryEffect::EncodeManifest(m) => RegistryEffectView::EncodeManifest(m@),
            RegistryEffect::ReadFile { path } => RegistryEffectView::ReadFile { path: path@ },
            RegistryEffect::CreateDir { path } => RegistryEffectView::CreateDir { path: path@ },
            RegistryEffect::Probe { path } => RegistryEffectView::Probe { path: path@ },
            RegistryEffect::OpenBlob { url } => RegistryEffectView::OpenBlob { url: url@ },
            RegistryEffect::CreateFile { path } => RegistryEffectView::CreateFile { path: path@ },
            RegistryEffect::NextChunk => RegistryEffectView::NextChunk,
            RegistryEffect::WriteChunk { bytes } => RegistryEffectView::WriteChunk {
                bytes: bytes@,
            },
            RegistryEffect::Flush => RegistryEffectView::Flush,
            RegistryEffect::RemoveFile { path } => RegistryEffectView::RemoveFile { path: path@ },
            RegistryEffect::Rename { from, to } => RegistryEffectView::Rename {
                from: from@,
                to: to@,
            },
        }
    }
}

/// What came of a [`RegistryEffect`]; errors come in words.
pub enum RegistryReply {
    /// Of [`RegistryEffect::Http`].
    Http(Result<HttpResponse, String>),
    /// Of [`RegistryEffect::DecodeManifest`].
    Manifest(Result<WireManifest, String>),
    /// Of [`RegistryEffect::EncodeManifest`].
    Encoded(Result<Vec<u8>, String>),
    /// Of [`RegistryEffect::ReadFile`].
    Contents(Result<Vec<u8>, String>),
    /// Of the steps that only succeed or fail.
    Done(Result<(), String>),
    /// Of [`RegistryEffect::Probe`].
    Present(bool),
    /// Of [`RegistryEffect::OpenBlob`]: the HTTP status.
    Opened(Result<u16, String>),
    /// Of [`RegistryEffect::NextChunk`]: nothing at the end of the body.
    Chunk(Result<Option<Vec<u8>>, String>),
}

// ---- URLs and paths ------------------------------------------------------

/// `scheme://registry/v2/repository/manifests/reference`.
pub open spec fn manifest_url(scheme: Seq<char>, r: ReferenceView) -> Seq<char> {
    scheme + "://"@ + r.registry + "/v2/"@ + r.repository + "/manifests/"@ + r.reference
}

/// `scheme://registry/v2/repository/blobs/digest`.
pub open spec fn blob_url(
    scheme: Seq<char>,
    r: ReferenceView,
    digest: Seq<char>,
) -> Seq<char> {
    scheme + "://"@ + r.registry + "/v2/"@ + r.repository + "/blobs/"@ + digest
}

/// `scheme://registry/v2/repository/blobs/uploads/`.
pub open spec fn uploads_url(
    scheme: Seq<char>,
    registry: Seq<char>,
    repository: Seq<char>,
) -> Seq<char> {
    scheme + "://"@ + registry + "/v2/"@ + repository + "/blobs/uploads/"@
}

/// The URL that an upload goes to: the `Location`, taken relative to the
/// registry unless it is absolute, with the digest as a query parameter.
pub open spec fn upload_url(
    scheme: Seq<char>,
    registry: Seq<char>,
    location: Seq<char>,
    digest: Seq<char>,
) -> Seq<char> {
    let base = if "http://"@.is_prefix_of(location) || "https://"@.is_prefix_of(location) {
        location
    } else {
        scheme + "://"@ + registry + location
    };
    base + (if base.contains('?') {
        "&"@
    } else {
        "?"@
    }) + "digest="@ + digest
}

/// The name of the file that a pulled layer is kept in.
pub open spec fn blob_name(digest: Seq<char>) -> Seq<char> {
    text::replaced(digest, ':', '-') + ".blob"@
}

/// Where a pulled layer is kept: named by its digest.
pub open spec fn blob_path(dir: Seq<char>, digest: Seq<char>) -> Seq<char> {
    joined_path(dir, blob_name(digest))
}

/// Where a layer is written until it is verified: the file's extension,
/// `blob`, becomes `blob.partial`. A file named just `.blob` has no extension.
pub open spec fn partial_path(path: Seq<char>) -> Seq<char> {
    if path.skip(text::last_pos(path, '/') + 1) == ".blob"@ {
        path + ".blob.partial"@
    } else {
        path + ".partial"@
    }
}

/// Where a pulled layer is kept.
pub fn blob_file(dir: &str, digest: &str) -> (r: String)
    ensures
        r@ == blob_path(dir@, digest@),
{
    let name = text::replace_char(digest, ':', '-').concat(".blob");
    join_path(dir, name.as_str())
}

/// Where a layer is written until it is verified.
pub fn partial_file(path: &str) -> (r: String)
    ensures
        r@ == partial_path(path@),
{
    let start: usize = match text::rfind(path, '/') {
        Some(slash) => slash + 1,
        None => 0,
    };
    if text::same(text::after(path, start).as_str(), ".blob") {
        path.to_string().concat(".blob.partial")
    } else {
        path.to_string().concat(".partial")
    }
}

/// The client: which scheme it speaks, and whether it accepts invalid TLS
/// certificates.
#[derive(Debug)]
pub struct OciClient {
    pub scheme: String,
    pub insecure: bool,
}

impl Clone for OciClient {
    fn clone(&self) -> (r: OciClient)
        ensures
            r.scheme@ == self.scheme@,
            r.insecure == self.insecure,
    {
        OciClient { scheme: self.scheme.clone(), insecure: self.insecure }
    }
}

impl OciClient {
    /// `scheme` is `https` or `http`; `insecure` accepts invalid TLS
    /// certificates.
    pub fn new(scheme: String, insecure: bool) -> (r: OciClient)
        ensures
            r.scheme@ == scheme@,
            r.insecure == insecure,
    {
        OciClient { scheme, insecure }
    }

    /// The `User-Agent` of the client's requests.
    pub fn user_agent(&self) -> (r: String)
        ensures
            r@ == "rspacefs-csi/"@ + DRIVER_VERSION@,
    {
        "rspacefs-csi/".to_string().concat(DRIVER_VERSION)
    }

    /// The URL of a reference's manifest.
    pub fn manifest_url(&self, r: &Reference) -> (u: String)
        ensures
            u@ == manifest_url(self.scheme@, r@),
    {
        self.scheme.clone().concat("://").concat(r.registry.as_str()).concat("/v2/").concat(
            r.repository.as_str(),
        ).concat("/manifests/").concat(r.reference.as_str())
    }

    /// The URL of a blob.
    pub fn blob_url(&self, r: &Reference, digest: &str) -> (u: String)
        ensures
            u@ == blob_url(self.scheme@, r@, digest@),
    {
        self.scheme.clone().concat("://").concat(r.registry.as_str()).concat("/v2/").concat(
            r.repository.as_str(),
        ).concat("/blobs/").concat(digest)
    }

    /// The URL that uploads begin at.
    pub fn uploads_url(&self, registry: &str, repository: &str) -> (u: String)
        ensures
            u@ == uploads_url(self.scheme@, registry@, repository@),
    {
        self.scheme.clone().concat("://").concat(registry).concat("/v2/").concat(
            repository,
        ).concat("/blobs/uploads/")
    }

    /// The URL that an upload goes to.
    pub fn resolve_location(&self, registry: &str, location: &str, digest: &str) -> (u: String)
        ensures
            u@ == upload_url(self.scheme@, registry@, location@, digest@),
    {
        let base = if text::starts_with(location, "http://") || text::starts_with(
            location,
            "https://",
        ) {
            location.to_string()
        } else {
            self.scheme.clone().concat("://").concat(registry).concat(location)
        };
        let sep = if text::has_char(base.as_str(), '?') {
            "&"
        } else {
            "?"
        };
        base.concat(sep).concat("digest=").concat(digest)
    }

    /// The layers of a seed, top first, or why it is not one.
    pub fn parse_layers(&self, r: &Reference, m: Result<WireManifest, String>) -> (l: Result<
        Vec<LayerRef>,
        RegistryError,
    >)
        ensures
            layers_result(l) == layers_of(r@.repository, m),
    {
        match m {
            Err(e) => Err(RegistryError::BadResponse(r.repository.clone(), e)),
            Ok(w) => {
                if w.manifests > 0 {
                    return Err(
                        RegistryError::BadResponse(
                            r.repository.clone(),
                            "seed is a multi-arch index; a PVC data artifact must be a single manifest".to_string(),
                        ),
                    );
                }
                if w.layers.len() == 0 {
                    return Err(RegistryError::NoLayers(r.repository.clone()));
                }
                Ok(reversed(&w.layers))
            },
        }
    }
}

fn reversed(l: &Vec<LayerRef>) -> (r: Vec<LayerRef>)
    ensures
        r.deep_view() == l.deep_view().reverse(),
{
    let mut r: Vec<LayerRef> = Vec::new();
    let mut i: usize = l.len();
    while i > 0
        invariant
            i <= l.len(),
            r.len() == l.len() - i,
            forall|j: int| 0 <= j < r.len() ==> #[trigger] r@[j]@ == l@[l.len() - 1 - j]@,
        decreases i,
    {
        i = i - 1;
        r.push(l[i].clone());
    }
    assert(r.deep_view() =~= l.deep_view().reverse());
    r
}

pub(crate) fn success(status: u16) -> (r: bool)
    ensures
        r == is_success(status),
{
    200 <= status && status < 300
}

/// The text of a pulled layer's path starts with the directory that it is pulled
/// into, whatever its digest is. A digest that holds `..` may still lead
/// elsewhere.
pub proof fn law_blob_paths_start_with_the_directory(dir: Seq<char>, digest: Seq<char>)
    ensures
        dir.is_prefix_of(blob_path(dir, digest)),
{
    lemma_joined_prefix(dir, blob_name(digest));
}

/// A pulled layer whose digest holds no slash is kept in an entry of the
/// directory that it is pulled into.
pub proof fn law_blobs_are_in_their_directory(dir: Seq<char>, digest: Seq<char>)
    requires
        !digest.contains('/'),
    ensures
        blob_path(dir, digest) == joined_path(dir, blob_name(digest)),
        is_entry_name(blob_name(digest)),
{
    reveal_strlit(".blob");
    reveal_strlit(".");
    reveal_strlit("..");
    let name = blob_name(digest);
    assert(name.len() >= 5);
    assert forall|i: int| 0 <= i < name.len() implies name[i] != '/' by {
        if i < digest.len() {
            assert(digest.contains(digest[i]));
        } else {
            assert(name[i] == ".blob"@[i - digest.len()]);
        }
    }
}

/// Layers whose digests hold no `-`, as those of SHA-256 do not, share a file only
/// if they share a digest.
pub proof fn law_files_tell_digests(dir: Seq<char>, a: Seq<char>, b: Seq<char>)
    requires
        !a.contains('-'),
        !b.contains('-'),
        blob_path(dir, a) == blob_path(dir, b),
    ensures
        a == b,
{
    let p = blob_path(dir, a);
    let n: int = p.len() - blob_name(a).len();
    assert(p.skip(n) =~= blob_name(a));
    assert(p.len() - blob_name(b).len() == n);
    assert(p.skip(n) =~= blob_name(b));
    assert(a.len() == b.len());
    assert forall|i: int| 0 <= i < a.len() implies a[i] == b[i] by {
        assert(blob_name(a)[i] == text::replaced(a, ':', '-')[i]);
        assert(blob_name(b)[i] == text::replaced(b, ':', '-')[i]);
        assert(a.contains(a[i]));
        assert(b.contains(b[i]));
    }
    assert(a =~= b);
}

/// The URL of a manifest spells out its registry, its repository and its tag or
/// digest, and two references of one repository share it only if they are the
/// same.
pub proof fn law_manifest_url(scheme: Seq<char>, a: ReferenceView, b: ReferenceView)
    ensures
        manifest_url(scheme, a) == scheme + "://"@ + a.registry + "/v2/"@ + a.repository
            + "/manifests/"@ + a.reference,
        a.registry == b.registry && a.repository == b.repository && manifest_url(scheme, a)
            == manifest_url(scheme, b) ==> a.reference == b.reference,
{
    let head = scheme + "://"@ + a.registry + "/v2/"@ + a.repository + "/manifests/"@;
    let n = head.len() as int;
    assert(manifest_url(scheme, a).skip(n) =~= a.reference);
    if a.registry == b.registry && a.repository == b.repository {
        assert(manifest_url(scheme, b).skip(n) =~= b.reference);
    }
}

/// The URL of a blob spells out its registry, its repository and its digest, and
/// two blobs of one repository share it only if they share their digest. Uploads
/// begin beside the blobs.
pub proof fn law_blob_url(scheme: Seq<char>, r: ReferenceView, a: Seq<char>, b: Seq<char>)
    ensures
        blob_url(scheme, r, a) == scheme + "://"@ + r.registry + "/v2/"@ + r.repository
            + "/blobs/"@ + a,
        blob_url(scheme, r, a) == blob_url(scheme, r, b) ==> a == b,
        uploads_url(scheme, r.registry, r.repository) == blob_url(scheme, r, "uploads/"@),
{
    let n = (scheme + "://"@ + r.registry + "/v2/"@ + r.repository + "/blobs/"@).len() as int;
    assert(blob_url(scheme, r, a).skip(n) =~= a);
    assert(blob_url(scheme, r, b).skip(n) =~= b);
    reveal_strlit("/blobs/uploads/");
    reveal_strlit("/blobs/");
    reveal_strlit("uploads/");
    assert("/blobs/uploads/"@ =~= "/blobs/"@ + "uploads/"@);
    assert(uploads_url(scheme, r.registry, r.repository) =~= blob_url(
        scheme,
        r,
        "uploads/"@,
    ));
}

/// An upload goes to the `Location` as it stands where that is absolute, and
/// behind the registry where it is not; the digest is its last query parameter,
/// and joins others with `&`.
pub proof fn law_upload_url(
    scheme: Seq<char>,
    registry: Seq<char>,
    location: Seq<char>,
    digest: Seq<char>,
)
    ensures
        ({
            let url = upload_url(scheme, registry, location, digest);
            let behind = scheme + "://"@ + registry + location;
            let absolute = "http://"@.is_prefix_of(location) || "https://"@.is_prefix_of(location);
            &&& absolute && location.contains('?') ==> url == location + "&digest="@ + digest
            &&& absolute && !location.contains('?') ==> url == location + "?digest="@ + digest
            &&& !absolute && behind.contains('?') ==> url == behind + "&digest="@ + digest
            &&& !absolute && !behind.contains('?') ==> url == behind + "?digest="@ + digest
        }),
{
    reveal_strlit("&digest=");
    reveal_strlit("?digest=");
    reveal_strlit("digest=");
    reveal_strlit("&");
    reveal_strlit("?");
    assert("&digest="@ =~= "&"@ + "digest="@);
    assert("?digest="@ =~= "?"@ + "digest="@);
    let url = upload_url(scheme, registry, location, digest);
    let behind = scheme + "://"@ + registry + location;
    let absolute = "http://"@.is_prefix_of(location) || "https://"@.is_prefix_of(location);
    let base = if absolute {
        location
    } else {
        behind
    };
    assert(base + "&"@ + "digest="@ + digest =~= base + "&digest="@ + digest);
    assert(base + "?"@ + "digest="@ + digest =~= base + "?digest="@ + digest);
}

/// A revision is an OCI image manifest of the artifact type of captured volumes,
/// with the empty config and the captured layer alone; it is marked as a volume,
/// and titled by its tag.
pub proof fn law_revision_manifest(tag: Seq<char>, digest: Seq<char>, size: u64)
    ensures
        ({
            let m = revision_manifest(tag, digest, size);
            &&& m.schema_version == 2
            &&& m.media_type == "application/vnd.oci.image.manifest.v1+json"@
            &&& m.artifact_type == "application/vnd.rspacefs.pvc.layer.v1+tar+zstd"@
            &&& m.config.media_type == "application/vnd.oci.empty.v1+json"@
            &&& m.config.digest
                == "sha256:44136fa355b3678a1146ad16f7e8649e94fb4fc21fe77e8310c060f61caaff8a"@
            &&& m.config.size == empty_config().len()
            &&& m.layers.len() == 1
            &&& m.layers[0].media_type == "application/vnd.oci.image.layer.v1.tar+zstd"@
            &&& m.layers[0].digest == digest
            &&& m.layers[0].size == size
            &&& m.annotations.contains_key("org.opencontainers.image.title"@)
            &&& m.annotations["org.opencontainers.image.title"@] == tag
            &&& m.annotations.contains_key("io.g8.rspacefs.pvc"@)
            &&& m.annotations["io.g8.rspacefs.pvc"@] == "true"@
            &&& forall|k: Seq<char>| #[trigger]
                m.annotations.contains_key(k) ==> k == "org.opencontainers.image.title"@ || k
                    == "io.g8.rspacefs.pvc"@
        }),
        empty_config().len() == 2,
        empty_config()[0] == 0x7b,
        empty_config()[1] == 0x7d,
{
    reveal_strlit("org.opencontainers.image.title");
    reveal_strlit("io.g8.rspacefs.pvc");
    assert("org.opencontainers.image.title"@.len() == 30);
    assert("io.g8.rspacefs.pvc"@.len() == 18);
}

/// A manifest with layers that is no index resolves to its layers, the last one
/// first; an index, a manifest without layers and a text that is no manifest do
/// not resolve, and the error says which it was.
pub proof fn law_layers(repository: Seq<char>, w: WireManifest, e: String)
    ensures
        ({
            let n = w.layers@.len();
            let r = layers_of(repository, Ok(w));
            &&& r is Ok <==> w.manifests == 0 && n > 0
            &&& r matches Ok(l) ==> l.len() == n && forall|i: int|
                0 <= i < n ==> #[trigger] l[i] == w.layers@[n - 1 - i]@
            &&& w.manifests > 0 ==> r == Err::<Seq<LayerRefView>, _>(
                RegistryErrorView::BadResponse(
                    repository,
                    "seed is a multi-arch index; a PVC data artifact must be a single manifest"@,
                ),
            )
            &&& w.manifests == 0 && n == 0 ==> r == Err::<Seq<LayerRefView>, _>(
                RegistryErrorView::NoLayers(repository),
            )
        }),
        layers_of(repository, Err(e)) == Err::<Seq<LayerRefView>, _>(
            RegistryErrorView::BadResponse(repository, e@),
        ),
{
}

/// A digest is `sha256:` and two lower-case hexadecimal digits for each byte of
/// the hash, and two hashes share it only if they are the same.
pub proof fn law_digest_text(a: Seq<u8>, b: Seq<u8>)
    ensures
        "sha256:"@.is_prefix_of(digest_text(a)),
        digest_text(a).len() == 7 + 2 * a.len(),
        forall|i: int|
            7 <= i < digest_text(a).len() ==> 48 <= #[trigger] digest_text(a)[i] as int <= 57 || 97
                <= digest_text(a)[i] as int <= 102,
        forall|i: int|
            0 <= i < a.len() ==> text::hex_value(#[trigger] digest_text(a)[7 + 2 * i]) * 16
                + text::hex_value(digest_text(a)[8 + 2 * i]) == a[i],
        digest_text(a) == digest_text(b) ==> a == b,
{
    reveal_strlit("sha256:");
    let s = digest_text(a);
    let t = digest_text(b);
    assert(s.subrange(0, 7) =~= "sha256:"@);
    assert forall|i: int| 0 <= i < a.len() implies text::hex_value(#[trigger] s[7 + 2 * i]) * 16
        + text::hex_value(s[8 + 2 * i]) == a[i] by {
        lemma_hex_byte(a, i);
        assert(s[7 + 2 * i] == outside::hex_text(a)[2 * i]);
        assert(s[8 + 2 * i] == outside::hex_text(a)[2 * i + 1]);
    }
    assert forall|i: int| 7 <= i < s.len() implies 48 <= #[trigger] s[i] as int <= 57 || 97
        <= s[i] as int <= 102 by {
        let j = i - 7;
        assert(s[i] == outside::hex_text(a)[j]);
        assert(0 <= a[j / 2] as int / 16 < 16);
        assert(0 <= a[j / 2] as int % 16 < 16);
    }
    if s == t {
        assert(t.len() == 7 + 2 * b.len());
        assert(a.len() == b.len());
        assert forall|i: int| 0 <= i < a.len() implies a[i] == b[i] by {
            lemma_hex_byte(a, i);
            lemma_hex_byte(b, i);
            assert(s[7 + 2 * i] == outside::hex_text(a)[2 * i]);
            assert(s[8 + 2 * i] == outside::hex_text(a)[2 * i + 1]);
            assert(t[7 + 2 * i] == outside::hex_text(b)[2 * i]);
            assert(t[8 + 2 * i] == outside::hex_text(b)[2 * i + 1]);
        }
        assert(a =~= b);
    }
}

proof fn lemma_hex_byte(a: Seq<u8>, i: int)
    requires
        0 <= i < a.len(),
    ensures
        text::hex_value(outside::hex_text(a)[2 * i]) * 16 + text::hex_value(
            outside::hex_text(a)[2 * i + 1],
        ) == a[i],
{
    assert((2 * i) / 2 == i);
    assert((2 * i + 1) / 2 == i);
    assert((2 * i) % 2 == 0);
    assert((2 * i + 1) % 2 == 1);
    let n = a[i] as int;
    assert(0 <= n / 16 < 16);
    assert(0 <= n % 16 < 16);
    assert(n == n / 16 * 16 + n % 16);
}

/// Success is what begins with a 2.
pub proof fn law_success(status: u16)
    ensures
        is_success(status) <==> status / 100 == 2,
{
}

/// A pulled layer is kept in its directory in a file named by its digest, each
/// `:` written as `-`, and ending in `.blob`; until it is verified, `.partial` is
/// behind that.
pub proof fn law_blob_file(dir: Seq<char>, digest: Seq<char>)
    requires
        digest.len() > 0,
        !digest.contains('/'),
    ensures
        ({
            let path = blob_path(dir, digest);
            let name = blob_name(digest);
            &&& name.len() == digest.len() + 5
            &&& name.skip(digest.len() as int) == ".blob"@
            &&& forall|i: int|
                0 <= i < digest.len() && #[trigger] digest[i] == ':' ==> name[i] == '-'
            &&& forall|i: int|
                0 <= i < digest.len() && #[trigger] digest[i] != ':' ==> name[i] == digest[i]
            &&& path.skip(path.len() - name.len()) == name
            &&& partial_path(path) == path + ".partial"@
        }),
{
    reveal_strlit(".blob");
    reveal_strlit("/");
    let path = blob_path(dir, digest);
    let name = blob_name(digest);
    assert(name.skip(digest.len() as int) =~= ".blob"@);
    assert forall|i: int| 0 <= i < digest.len() implies name[i] == text::replaced(
        digest,
        ':',
        '-',
    )[i] by {}
    law_blobs_are_in_their_directory(dir, digest);
    let n = path.len() - name.len();
    assert(path.skip(n) =~= name);
    text::lemma_last_pos_holds(path, '/');
    let slash = text::last_pos(path, '/');
    assert forall|j: int| n <= j < path.len() implies path[j] != '/' by {
        assert(path[j] == name[j - n]);
        if j - n < digest.len() {
            assert(digest.contains(digest[j - n]));
        } else {
            assert(name[j - n] == ".blob"@[j - n - digest.len()]);
        }
    }
    assert(slash < n);
    assert(path.skip(slash + 1).len() >= name.len());
}

/// Every blob shorter than 2^64 bits can be hashed.
pub proof fn law_hash_limit()
    ensures
        8 * HASH_LIMIT == 0x1_0000_0000_0000_0000int,
{
}

/// Where any layer is kept, and where it is written until then: the file is named
/// in its directory, and `.partial` is put behind it; where the file's name is just
/// `.blob`, `.blob.partial` is.
pub proof fn law_layer_files(dir: Seq<char>, digest: Seq<char>, base: Seq<char>, name: Seq<char>)
    requires
        !name.contains('/'),
    ensures
        blob_path(dir, digest) == joined_path(dir, blob_name(digest)),
        blob_name(digest).len() == digest.len() + 5,
        blob_name(digest).skip(digest.len() as int) == ".blob"@,
        blob_name(digest).take(digest.len() as int) == text::replaced(digest, ':', '-'),
        name == ".blob"@ ==> {
            &&& partial_path(base + "/"@ + name) == base + "/"@ + name + ".blob.partial"@
            &&& partial_path(name) == name + ".blob.partial"@
        },
        name != ".blob"@ ==> {
            &&& partial_path(base + "/"@ + name) == base + "/"@ + name + ".partial"@
            &&& partial_path(name) == name + ".partial"@
        },
{
    reveal_strlit(".blob");
    reveal_strlit("/");
    assert(blob_name(digest).skip(digest.len() as int) =~= ".blob"@);
    assert(blob_name(digest).take(digest.len() as int) =~= text::replaced(digest, ':', '-'));
    let path = base + "/"@ + name;
    let n = base.len() as int;
    assert(path[n] == '/');
    assert forall|j: int| n < j < path.len() implies path[j] != '/' by {
        assert(path[j] == name[j - n - 1]);
        assert(name.contains(name[j - n - 1]));
    }
    text::lemma_last_pos(path, '/', n);
    assert(path.skip(n + 1) =~= name);
    text::lemma_last_pos_holds(name, '/');
    assert(text::last_pos(name, '/') < 0) by {
        if text::last_pos(name, '/') >= 0 {
            assert(name.contains(name[text::last_pos(name, '/')]));
        }
    }
    assert(name.skip(0) =~= name);
}

/// What the operations of the client come to.
pub proof fn law_client_operations(
    c: &OciClient,
    r: &Reference,
    a: &str,
    b: &str,
    d: &str,
    data: &[u8],
    s: String,
)
    ensures
        call_ensures(OciClient::user_agent, (c,), s) ==> s@ == "rspacefs-csi/"@ + "0.1.0"@,
        call_ensures(OciClient::manifest_url, (c, r), s) ==> s@ == c.scheme@ + "://"@ + r@.registry
            + "/v2/"@ + r@.repository + "/manifests/"@ + r@.reference,
        call_ensures(OciClient::blob_url, (c, r, a), s) ==> s@ == c.scheme@ + "://"@ + r@.registry
            + "/v2/"@ + r@.repository + "/blobs/"@ + a@,
        call_ensures(OciClient::uploads_url, (c, a, b), s) ==> s@ == c.scheme@ + "://"@ + a@
            + "/v2/"@ + b@ + "/blobs/uploads/"@,
        call_ensures(OciClient::resolve_location, (c, a, b, d), s) ==> s@ == upload_url(
            c.scheme@,
            a@,
            b@,
            d@,
        ),
        call_ensures(sha256_digest, (data,), s) ==> s@ == "sha256:"@ + outside::hex_text(
            outside::sha256_of(data@),
        ),
        call_ensures(blob_file, (a, b), s) ==> s@ == blob_path(a@, b@),
        call_ensures(partial_file, (a,), s) ==> s@ == partial_path(a@),
{
}

/// A client speaks the scheme that it was made with, and is as strict.
pub proof fn law_client_is_as_made(scheme: String, insecure: bool, c: OciClient)
    requires
        call_ensures(OciClient::new, (scheme, insecure), c),
    ensures
        c.scheme@ == scheme@,
        c.insecure == insecure,
{
}

/// A hasher takes in every piece that keeps the blob below the limit, as it is,
/// and comes to the digest of all that it took in.
pub proof fn law_hasher_operations(
    h: BlobHasher,
    piece: &[u8],
    r: (BlobHasher, bool),
    s: String,
)
    ensures
        call_ensures(BlobHasher::new, (), h) ==> h@.len() == 0,
        call_ensures(BlobHasher::update, (h, piece), r) && h@.len() + piece@.len()
            < 0x2000_0000_0000_0000 ==> r.1 && r.0@ == h@ + piece@,
        call_ensures(BlobHasher::update, (h, piece), r) && h@.len() + piece@.len()
            >= 0x2000_0000_0000_0000 ==> !r.1 && r.0@ == h@,
        call_ensures(BlobHasher::finish, (h,), s) ==> s@ == "sha256:"@ + outside::hex_text(
            outside::sha256_of(h@),
        ),
{
}

/// What reading the layers of a manifest comes to.
pub proof fn law_parse_layers_operation(
    c: &OciClient,
    r: &Reference,
    m: Result<WireManifest, String>,
    l: Result<Vec<LayerRef>, RegistryError>,
)
    requires
        call_ensures(OciClient::parse_layers, (c, r, m), l),
    ensures
        l matches Ok(v) ==> layers_of(r@.repository, m) == Ok::<_, RegistryErrorView>(
            v.deep_view(),
        ),
        l matches Err(e) ==> layers_of(r@.repository, m) == Err::<Seq<LayerRefView>, _>(e@),
{
}

} // verus!
