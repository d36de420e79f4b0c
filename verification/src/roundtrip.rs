//! What was pushed is what is pulled: a revision that a registry has taken is
//! resolved to its one layer, and pulled byte for byte.

use crate::client::{
    blob_path, blob_url, digest_text, is_success, law_digest_text, manifest_url, partial_path,
    revision_manifest, upload_url, uploads_url, HttpRequestView, HttpResponse, LayerRefView,
    Method, RegistryEffectView, RegistryReply, WireManifest, EMPTY_CONFIG_DIGEST, HASH_LIMIT,
    LAYER_ZSTD, MANIFEST, OCTET_STREAM,
};
use crate::outside::sha256_of;
use crate::pull::{
    begun, disk, law_pull_of_one_layer_succeeds, law_reads_the_layers_blob,
    law_stored_layers_are_as_served, pull_start, resolve_start, served, streamed, whole, Disk,
    PullAtView, PullBlobAtView, PullLayersView, ResolveAtView, ResolveView,
};
use crate::push::{
    law_pushed_revision_resolves_to_its_layer, push_start, PushAtView, PushBlobAtView,
    PushBlobView, PushRevisionView,
};
use crate::registry::{ReferenceView, RegistryErrorView};
use crate::status::{lemma_run_push, run, Progress, Steps};
use crate::text;
use vstd::prelude::*;

verus! {

// ---- a registry ----------------------------------------------------------

/// What a registry holds: blobs and manifests, each under its URL. It also knows
/// where the upload that was begun last was begun.
pub struct Store {
    pub blobs: Map<Seq<char>, Seq<u8>>,
    pub manifests: Map<Seq<char>, Seq<u8>>,
    pub session: Seq<char>,
}

/// The URL of the blob that an upload is about.
pub open spec fn upload_of(b: PushBlobView) -> Seq<char> {
    blob_url(b.scheme, b.reference, b.digest)
}

/// Where a registry keeps a blob that is put to `url` after its upload was begun
/// at `session`: beside the `uploads/` that `session` ends in, under the digest,
/// which is the last thing that `url` says.
pub open spec fn kept_at(session: Seq<char>, url: Seq<char>) -> Seq<char> {
    session.take(session.len() - 8) + url.skip(text::last_pos(url, '=') + 1)
}

/// What the registry holds after it answered a push, by the request that it
/// answered: the body of a blob or a manifest that it accepted is there.
pub open spec fn taken(s: Store, k: PushRevisionView, reply: RegistryReply) -> Store {
    match (k.effect(), reply) {
        (RegistryEffectView::Http(q), RegistryReply::Http(Ok(resp))) => blob_taken(s, q, resp),
        _ => s,
    }
}

/// What the registry holds after it answered the request `q`.
pub open spec fn blob_taken(s: Store, q: HttpRequestView, resp: HttpResponse) -> Store {
    if q.method == Method::Post && resp.status == 202 {
        Store { session: q.url, ..s }
    } else if q.method != Method::Put || !is_success(resp.status) {
        s
    } else if q.content_type == Some(MANIFEST@) {
        Store { manifests: s.manifests.insert(q.url, q.body), ..s }
    } else {
        Store { blobs: s.blobs.insert(kept_at(s.session, q.url), q.body), ..s }
    }
}

/// What the registry holds after a push that found it as `start`.
pub open spec fn store(
    m: PushRevisionView,
    replies: Seq<RegistryReply>,
    start: Store,
) -> Store
    decreases replies.len(),
{
    if replies.len() == 0 {
        start
    } else {
        let s = store(m, replies.drop_last(), start);
        match run(m, replies.drop_last()) {
            Progress::Next(k) => taken(s, k, replies.last()),
            Progress::Done(_) => s,
        }
    }
}

/// Whether an answer to the question for a blob is true.
pub open spec fn true_head(s: Store, q: HttpRequestView, reply: RegistryReply) -> bool {
    q.method == Method::Head ==> (reply matches RegistryReply::Http(Ok(resp)) ==> is_success(
        resp.status,
    ) == s.blobs.contains_key(q.url))
}

/// Whether the registry tells the truth about the blobs that it has throughout
/// a push.
pub open spec fn truthful(
    m: PushRevisionView,
    replies: Seq<RegistryReply>,
    start: Store,
) -> bool
    decreases replies.len(),
{
    replies.len() > 0 ==> {
        let d = replies.drop_last();
        &&& truthful(m, d, start)
        &&& run(m, d) matches Progress::Next(k) ==> (k.effect() matches RegistryEffectView::Http(q)
            ==> true_head(store(m, d, start), q, replies.last()))
    }
}

/// Whether one of the replies is this text of a manifest.
pub open spec fn encoded(replies: Seq<RegistryReply>, bytes: Seq<u8>) -> bool {
    exists|i: int|
        0 <= i < replies.len() && (#[trigger] replies[i] matches RegistryReply::Encoded(Ok(v))
            && v@ == bytes)
}

/// Whether the staged file is read as `payload`.
pub open spec fn reads_payload(replies: Seq<RegistryReply>, payload: Seq<u8>) -> bool {
    forall|i: int|
        0 <= i < replies.len() ==> (#[trigger] replies[i] matches RegistryReply::Contents(Ok(v))
            ==> v@ == payload)
}

/// Whether the digests that the registry reports, if any, are SHA-256 digests.
pub open spec fn reports_sha256(replies: Seq<RegistryReply>) -> bool {
    forall|i: int|
        0 <= i < replies.len() ==> (#[trigger] replies[i] matches RegistryReply::Http(Ok(resp))
            ==> (resp.digest matches Some(d) ==> "sha256:"@.is_prefix_of(d@)))
}

/// `registry/repository@sha256:hex`.
pub open spec fn sha256_reference(r: ReferenceView, hex: Seq<char>) -> Seq<char> {
    r.repo() + "@sha256:"@ + hex
}

// ---- pushing -------------------------------------------------------------

/// What holds in every state of the upload of a blob to a registry that it left as
/// `s`.
spec fn uploading(b: PushBlobView, m: PushRevisionView, s: Store) -> bool {
    &&& b.scheme == m.scheme
    &&& b.reference == m.reference
    &&& b.at matches PushBlobAtView::Upload(url) ==> kept_at(s.session, url) == upload_of(b)
}

proof fn lemma_kept_at(
    scheme: Seq<char>,
    r: ReferenceView,
    location: Seq<char>,
    digest: Seq<char>,
)
    requires
        !digest.contains('='),
    ensures
        kept_at(
            uploads_url(scheme, r.registry, r.repository),
            upload_url(scheme, r.registry, location, digest),
        ) == blob_url(scheme, r, digest),
{
    reveal_strlit("/blobs/uploads/");
    reveal_strlit("/blobs/");
    reveal_strlit("digest=");
    let session = uploads_url(scheme, r.registry, r.repository);
    let url = upload_url(scheme, r.registry, location, digest);
    let n = url.len() - digest.len();
    assert(url[n - 1] == '=') by {
        assert(url[n - 1] == "digest="@[6]);
    }
    assert forall|j: int| n - 1 < j < url.len() implies url[j] != '=' by {
        assert(url[j] == digest[j - n]);
        assert(digest.contains(digest[j - n]));
    }
    text::lemma_last_pos(url, '=', n - 1);
    assert(url.skip(n) =~= digest);
    assert(session.take(session.len() - 8) + digest =~= blob_url(scheme, r, digest));
}

proof fn lemma_digests_hold_no_equals(hash: Seq<u8>)
    ensures
        !digest_text(hash).contains('='),
        !EMPTY_CONFIG_DIGEST@.contains('='),
        OCTET_STREAM@ != MANIFEST@,
{
    reveal_strlit("sha256:");
    reveal_strlit("sha256:44136fa355b3678a1146ad16f7e8649e94fb4fc21fe77e8310c060f61caaff8a");
    reveal_strlit("application/octet-stream");
    reveal_strlit("application/vnd.oci.image.manifest.v1+json");
    law_digest_text(hash, hash);
    let t = digest_text(hash);
    assert forall|i: int| 0 <= i < t.len() implies t[i] != '=' by {
        if i < 7 {
            assert(t[i] == "sha256:"@[i]);
        } else {
            assert(48 <= t[i] as int <= 57 || 97 <= t[i] as int <= 102);
        }
    }
    assert(OCTET_STREAM@.len() == 24);
    assert(MANIFEST@.len() == 42);
}

/// What holds in every state of a push of `payload` that began as `m` and left
/// the registry as `s`.
spec fn pushing(
    k: PushRevisionView,
    m: PushRevisionView,
    replies: Seq<RegistryReply>,
    s: Store,
    payload: Seq<u8>,
) -> bool {
    let layer = blob_url(m.scheme, m.reference, m.layer_digest);
    &&& k == PushRevisionView { at: k.at, ..m }
    &&& s.blobs.contains_key(layer) ==> s.blobs[layer] == payload
    &&& match k.at {
        PushAtView::Read => true,
        PushAtView::Layer(b) => {
            &&& uploading(b, m, s)
            &&& b.digest == m.layer_digest
            &&& b.bytes == payload
        },
        PushAtView::Config(b) => {
            &&& uploading(b, m, s)
            &&& b.digest == EMPTY_CONFIG_DIGEST@
            &&& s.blobs.contains_key(layer)
            &&& !(b.at is Head) ==> !s.blobs.contains_key(upload_of(b))
        },
        PushAtView::Encode => s.blobs.contains_key(layer),
        PushAtView::Publish(bytes, digest) => {
            &&& s.blobs.contains_key(layer)
            &&& encoded(replies, bytes)
            &&& digest == digest_text(sha256_of(bytes))
        },
    }
}

proof fn lemma_sha256_reference(r: ReferenceView, digest: Seq<char>)
    requires
        "sha256:"@.is_prefix_of(digest),
    ensures
        r.canonical(digest) == sha256_reference(r, digest.skip(7)),
{
    reveal_strlit("sha256:");
    reveal_strlit("@sha256:");
    assert("@sha256:"@ =~= seq!['@'] + "sha256:"@);
    assert(digest =~= "sha256:"@ + digest.skip(7)) by {
        assert forall|i: int| 0 <= i < 7 implies digest[i] == "sha256:"@[i] by {
            assert(digest.subrange(0, 7)[i] == "sha256:"@[i]);
        }
    }
    assert(r.canonical(digest) =~= sha256_reference(r, digest.skip(7)));
}

proof fn lemma_pushing(
    m: PushRevisionView,
    replies: Seq<RegistryReply>,
    start: Store,
    payload: Seq<u8>,
)
    requires
        m.at is Read,
        !m.layer_digest.contains('='),
        truthful(m, replies, start),
        reads_payload(replies, payload),
        reports_sha256(replies),
        ({
            let layer = blob_url(m.scheme, m.reference, m.layer_digest);
            start.blobs.contains_key(layer) ==> start.blobs[layer] == payload
        }),
    ensures
        run(m, replies) matches Progress::Next(k) ==> pushing(
            k,
            m,
            replies,
            store(m, replies, start),
            payload,
        ),
        run(m, replies) matches Progress::Done(Ok(s)) ==> {
            let after = store(m, replies, start);
            let layer = blob_url(m.scheme, m.reference, m.layer_digest);
            let manifest = manifest_url(m.scheme, m.reference);
            &&& exists|hex: Seq<char>| s == #[trigger] sha256_reference(m.reference, hex)
            &&& after.blobs.contains_key(layer)
            &&& after.blobs[layer] == payload
            &&& after.manifests.contains_key(manifest)
            &&& encoded(replies, after.manifests[manifest])
        },
    decreases replies.len(),
{
    if replies.len() > 0 {
        let d = replies.drop_last();
        let reply = replies.last();
        assert(replies[replies.len() - 1] == reply);
        assert forall|i: int| 0 <= i < d.len() implies d[i] == replies[i] by {}
        assert(reads_payload(d, payload)) by {
            assert forall|i: int| 0 <= i < d.len() implies (
            #[trigger] d[i] matches RegistryReply::Contents(Ok(v)) ==> v@ == payload) by {
                assert(d[i] == replies[i]);
            }
        }
        assert(reports_sha256(d)) by {
            assert forall|i: int| 0 <= i < d.len() implies (
            #[trigger] d[i] matches RegistryReply::Http(Ok(resp)) ==> (resp.digest matches Some(x)
                ==> "sha256:"@.is_prefix_of(x@))) by {
                assert(d[i] == replies[i]);
            }
        }
        lemma_pushing(m, d, start, payload);
        assert forall|bytes: Seq<u8>| encoded(d, bytes) implies encoded(replies, bytes) by {
            let i = choose|i: int|
                0 <= i < d.len() && (#[trigger] d[i] matches RegistryReply::Encoded(Ok(v)) && v@
                    == bytes);
            assert(replies[i] == d[i]);
        }
        lemma_digests_hold_no_equals(seq![]);
        if let RegistryReply::Http(Ok(resp)) = reply {
            if let Some(location) = resp.location {
                lemma_kept_at(m.scheme, m.reference, location@, m.layer_digest);
                lemma_kept_at(m.scheme, m.reference, location@, EMPTY_CONFIG_DIGEST@);
            }
        }
        if let Progress::Next(k) = run(m, d) {
            if let PushAtView::Publish(bytes, digest) = k.at {
                assert("sha256:"@.is_prefix_of(digest)) by {
                    assert(digest.subrange(0, "sha256:"@.len() as int) =~= "sha256:"@);
                }
                lemma_sha256_reference(m.reference, digest);
                if let RegistryReply::Http(Ok(resp)) = reply {
                    if let Some(reported) = resp.digest {
                        lemma_sha256_reference(m.reference, reported@);
                    }
                }
            }
        }
    }
}

// ---- pulling -------------------------------------------------------------

/// Whether a reply to a pull is true of a registry that holds `s` and of a node
/// whose files are `d`, where the text `manifest` reads as a manifest with these
/// layers. A step may still fail.
pub open spec fn fair(
    effect: RegistryEffectView,
    reply: RegistryReply,
    d: Disk,
    so_far: (Seq<char>, Seq<u8>),
    s: Store,
    manifest: Seq<u8>,
    layers: Seq<LayerRefView>,
) -> bool {
    match (effect, reply) {
        (RegistryEffectView::Http(q), RegistryReply::Http(Ok(resp))) => s.manifests.contains_key(
            q.url,
        ) && is_success(resp.status) ==> resp.body@ == s.manifests[q.url],
        (RegistryEffectView::DecodeManifest { body }, RegistryReply::Manifest(r)) => body
            == manifest ==> (r matches Ok(w) && w.layers.deep_view() == layers && w.manifests == 0),
        (RegistryEffectView::Probe { path }, RegistryReply::Present(present)) => present
            == d.files.contains_key(path),
        (RegistryEffectView::NextChunk, RegistryReply::Chunk(Ok(None))) => s.blobs.contains_key(
            so_far.0,
        ) ==> so_far.1 == s.blobs[so_far.0],
        _ => true,
    }
}

/// Whether all replies to a pull are true in that sense.
pub open spec fn faithful(
    m: PullLayersView,
    replies: Seq<RegistryReply>,
    start: Disk,
    s: Store,
    manifest: Seq<u8>,
    layers: Seq<LayerRefView>,
) -> bool
    decreases replies.len(),
{
    replies.len() > 0 ==> {
        let d = replies.drop_last();
        &&& faithful(m, d, start, s, manifest, layers)
        &&& run(m, d) matches Progress::Next(k) ==> fair(
            k.effect(),
            replies.last(),
            disk(m, d, start),
            served(m, d),
            s,
            manifest,
            layers,
        )
    }
}

/// Whether all replies to resolving are true in that sense.
pub open spec fn faithful_resolve(
    m: ResolveView,
    replies: Seq<RegistryReply>,
    s: Store,
    manifest: Seq<u8>,
    layers: Seq<LayerRefView>,
) -> bool
    decreases replies.len(),
{
    replies.len() > 0 ==> {
        let d = replies.drop_last();
        &&& faithful_resolve(m, d, s, manifest, layers)
        &&& run(m, d) matches Progress::Next(k) ==> fair(
            k.effect(),
            replies.last(),
            Disk { files: Map::empty(), open: seq![] },
            (seq![], seq![]),
            s,
            manifest,
            layers,
        )
    }
}

proof fn lemma_resolving(
    m: ResolveView,
    replies: Seq<RegistryReply>,
    s: Store,
    layer: LayerRefView,
)
    requires
        m.at is Fetch,
        s.manifests.contains_key(manifest_url(m.scheme, m.reference)),
        faithful_resolve(
            m,
            replies,
            s,
            s.manifests[manifest_url(m.scheme, m.reference)],
            seq![layer],
        ),
    ensures
        run(m, replies) matches Progress::Next(k) ==> {
            &&& k == ResolveView { at: k.at, ..m }
            &&& k.at matches ResolveAtView::Decode(body) ==> body == s.manifests[manifest_url(
                m.scheme,
                m.reference,
            )]
        },
        run(m, replies) matches Progress::Done(Ok(layers)) ==> layers == seq![layer],
    decreases replies.len(),
{
    if replies.len() > 0 {
        lemma_resolving(m, replies.drop_last(), s, layer);
        assert(seq![layer].reverse() =~= seq![layer]);
    }
}

/// What holds in every state of a pull of a seed whose one layer's blob is
/// `payload`, into files among which the layer's is not.
spec fn pulling(
    k: PullLayersView,
    m: PullLayersView,
    d: Disk,
    body: Seq<u8>,
    s: Store,
    layer: LayerRefView,
    payload: Seq<u8>,
) -> bool {
    let file = blob_path(m.dir, layer.digest);
    &&& k == PullLayersView { at: k.at, layers: k.layers, ..m }
    &&& !d.files.contains_key(file)
    &&& match k.at {
        PullAtView::Resolve(r) => {
            &&& r == ResolveView { scheme: m.scheme, reference: m.reference, at: r.at }
            &&& r.at matches ResolveAtView::Decode(body) ==> body == s.manifests[manifest_url(
                m.scheme,
                m.reference,
            )]
        },
        PullAtView::Pull(b) => {
            &&& k.layers == seq![layer]
            &&& b.scheme == m.scheme
            &&& b.reference == m.reference
            &&& b.digest == layer.digest
            &&& b.out == partial_path(file)
            &&& match b.at {
                PullBlobAtView::Chunk(_) | PullBlobAtView::Write(_, _) => d.open == b.out,
                PullBlobAtView::Flush(_) => body == payload,
                _ => true,
            }
        },
        PullAtView::Store => k.layers == seq![layer] && body == payload,
        _ => k.layers == seq![layer],
    }
}

proof fn lemma_partial_differs(file: Seq<char>)
    ensures
        partial_path(file) != file,
{
    reveal_strlit(".partial");
    reveal_strlit(".blob.partial");
    assert(partial_path(file).len() > file.len());
}

proof fn lemma_pulling(
    scheme: Seq<char>,
    seed: Seq<char>,
    m: PullLayersView,
    replies: Seq<RegistryReply>,
    start: Disk,
    s: Store,
    layer: LayerRefView,
    payload: Seq<u8>,
)
    requires
        pull_start(scheme, seed, m.dir) == Progress::<
            _,
            Result<Seq<Seq<char>>, RegistryErrorView>,
        >::Next(m),
        s.manifests.contains_key(manifest_url(m.scheme, m.reference)),
        s.blobs.contains_key(blob_url(m.scheme, m.reference, layer.digest)),
        s.blobs[blob_url(m.scheme, m.reference, layer.digest)] == payload,
        !start.files.contains_key(blob_path(m.dir, layer.digest)),
        faithful(
            m,
            replies,
            start,
            s,
            s.manifests[manifest_url(m.scheme, m.reference)],
            seq![layer],
        ),
    ensures
        run(m, replies) matches Progress::Next(k) ==> pulling(
            k,
            m,
            disk(m, replies, start),
            served(m, replies).1,
            s,
            layer,
            payload,
        ),
        run(m, replies) matches Progress::Done(Ok(paths)) ==> {
            let file = blob_path(m.dir, layer.digest);
            &&& paths == seq![file]
            &&& disk(m, replies, start).files.contains_key(file)
            &&& disk(m, replies, start).files[file] == payload
        },
    decreases replies.len(),
{
    let file = blob_path(m.dir, layer.digest);
    if replies.len() > 0 {
        let d = replies.drop_last();
        lemma_pulling(scheme, seed, m, d, start, s, layer, payload);
        lemma_partial_differs(file);
        law_reads_the_layers_blob(scheme, seed, m.dir, d);
        law_stored_layers_are_as_served(scheme, seed, m.dir, d, start);
        assert(seq![layer].reverse() =~= seq![layer]);
        if let Progress::Next(k) = run(m, d) {
            assert(k.paths =~= seq![]);
            assert(k.paths.push(file) =~= seq![file]);
        }
    }
}

// ---- the round trip ------------------------------------------------------

/// What a successful push of `payload` leaves behind, for a registry that tells
/// the truth about its blobs, reports SHA-256 digests if any, and, if it had the
/// layer's blob before, had it as `payload`.
pub open spec fn pushed(
    m: PushRevisionView,
    replies: Seq<RegistryReply>,
    start: Store,
    payload: Seq<u8>,
    s: Seq<char>,
) -> bool {
    let layer = blob_url(m.scheme, m.reference, m.layer_digest);
    &&& m.layer_digest == digest_text(sha256_of(payload))
    &&& m.layer_size == payload.len()
    &&& reads_payload(replies, payload)
    &&& truthful(m, replies, start)
    &&& reports_sha256(replies)
    &&& start.blobs.contains_key(layer) ==> start.blobs[layer] == payload
    &&& run(m, replies) == Progress::<PushRevisionView, _>::Done(Ok::<_, RegistryErrorView>(s))
}

/// The one layer of a revision.
pub open spec fn pushed_layer(m: PushRevisionView) -> LayerRefView {
    LayerRefView { media_type: LAYER_ZSTD@, digest: m.layer_digest, size: m.layer_size }
}

/// The text of the manifest that the registry has taken.
pub open spec fn published(
    m: PushRevisionView,
    replies: Seq<RegistryReply>,
    start: Store,
) -> Seq<u8> {
    store(m, replies, start).manifests[manifest_url(m.scheme, m.reference)]
}

/// A successful push returns `registry/repository@sha256:…`; after it the
/// registry has the payload under the layer's digest, and the text that the
/// manifest was written as under the target.
pub proof fn law_push_is_taken(
    scheme: Seq<char>,
    target_ref: Seq<char>,
    staging: Seq<char>,
    m: PushRevisionView,
    replies: Seq<RegistryReply>,
    start: Store,
    payload: Seq<u8>,
    s: Seq<char>,
)
    requires
        push_start(scheme, target_ref, staging, m.layer_digest, m.layer_size) == Progress::<
            _,
            Result<Seq<char>, RegistryErrorView>,
        >::Next(m),
        pushed(m, replies, start, payload, s),
    ensures
        ({
            let after = store(m, replies, start);
            let layer = blob_url(scheme, m.reference, m.layer_digest);
            &&& exists|hex: Seq<char>| s == #[trigger] sha256_reference(m.reference, hex)
            &&& after.blobs.contains_key(layer)
            &&& after.blobs[layer] == payload
            &&& after.manifests.contains_key(manifest_url(scheme, m.reference))
            &&& encoded(replies, published(m, replies, start))
        }),
{
    lemma_digests_hold_no_equals(sha256_of(payload));
    lemma_pushing(m, replies, start, payload);
}

/// What was pushed is what is pulled. After a successful push, resolving the
/// target comes to the pushed layer alone, and pulling it into a directory that
/// has not got the layer comes to the layer's file, which holds the pushed bytes:
/// whenever the registry serves what it has taken, the text of the manifest reads
/// back as what was written, and the node tells the truth about its files.
pub proof fn law_round_trip(
    scheme: Seq<char>,
    target_ref: Seq<char>,
    staging: Seq<char>,
    m: PushRevisionView,
    replies: Seq<RegistryReply>,
    start: Store,
    payload: Seq<u8>,
    s: Seq<char>,
    resolving: Seq<RegistryReply>,
    dir: Seq<char>,
    pulling: Seq<RegistryReply>,
    files: Disk,
)
    requires
        push_start(scheme, target_ref, staging, m.layer_digest, m.layer_size) == Progress::<
            _,
            Result<Seq<char>, RegistryErrorView>,
        >::Next(m),
        pushed(m, replies, start, payload, s),
        resolve_start(scheme, target_ref) matches Progress::Next(r) && faithful_resolve(
            r,
            resolving,
            store(m, replies, start),
            published(m, replies, start),
            seq![pushed_layer(m)],
        ),
        pull_start(scheme, target_ref, dir) matches Progress::Next(p) && faithful(
            p,
            pulling,
            files,
            store(m, replies, start),
            published(m, replies, start),
            seq![pushed_layer(m)],
        ),
        !files.files.contains_key(blob_path(dir, m.layer_digest)),
    ensures
        exists|hex: Seq<char>| s == #[trigger] sha256_reference(m.reference, hex),
        resolve_start(scheme, target_ref) matches Progress::Next(r) && (run(r, resolving) matches Progress::Done(
            Ok(layers),
        ) ==> layers == seq![pushed_layer(m)]),
        pull_start(scheme, target_ref, dir) matches Progress::Next(p) && (run(p, pulling) matches Progress::Done(
            Ok(paths),
        ) ==> {
            let file = blob_path(dir, m.layer_digest);
            &&& paths == seq![file]
            &&& disk(p, pulling, files).files.contains_key(file)
            &&& disk(p, pulling, files).files[file] == payload
        }),
{
    let after = store(m, replies, start);
    let layer = pushed_layer(m);
    lemma_digests_hold_no_equals(sha256_of(payload));
    lemma_pushing(m, replies, start, payload);
    let r = resolve_start(scheme, target_ref)->Next_0;
    lemma_resolving(r, resolving, after, layer);
    let p = pull_start(scheme, target_ref, dir)->Next_0;
    lemma_pulling(scheme, target_ref, p, pulling, files, after, layer, payload);
}

/// The round trip succeeds when no step fails: after a successful push, a pull of
/// the target to which the registry serves what it has taken, in whatever pieces,
/// comes to the layer's file with the pushed bytes, and resolving the target to
/// the pushed layer.
pub proof fn law_round_trip_succeeds(
    scheme: Seq<char>,
    target_ref: Seq<char>,
    staging: Seq<char>,
    m: PushRevisionView,
    replies: Seq<RegistryReply>,
    start: Store,
    payload: Seq<u8>,
    s: Seq<char>,
    fetched: HttpResponse,
    manifest: WireManifest,
    dir: Seq<char>,
    status: u16,
    pieces: Seq<Vec<u8>>,
    files: Disk,
)
    requires
        push_start(scheme, target_ref, staging, m.layer_digest, m.layer_size) == Progress::<
            _,
            Result<Seq<char>, RegistryErrorView>,
        >::Next(m),
        pushed(m, replies, start, payload, s),
        payload.len() < HASH_LIMIT,
        is_success(fetched.status),
        manifest.layers.deep_view() == revision_manifest(
            m.reference.reference,
            m.layer_digest,
            m.layer_size,
        ).layers,
        manifest.manifests == 0,
        is_success(status),
        whole(pieces) == store(m, replies, start).blobs[blob_url(
            scheme,
            m.reference,
            m.layer_digest,
        )],
    ensures
        resolve_start(scheme, target_ref) matches Progress::Next(r) && run(
            r,
            Seq::<RegistryReply>::empty().push(RegistryReply::Http(Ok(fetched))).push(
                RegistryReply::Manifest(Ok(manifest)),
            ),
        ) == Progress::<ResolveView, _>::Done(
            Ok::<_, RegistryErrorView>(seq![pushed_layer(m)]),
        ),
        ({
            let pulled = (begun(fetched, manifest) + streamed(status, pieces)).push(
                RegistryReply::Chunk(Ok(None)),
            ).push(RegistryReply::Done(Ok(()))).push(RegistryReply::Done(Ok(())));
            let file = blob_path(dir, m.layer_digest);
            &&& pull_start(scheme, target_ref, dir) matches Progress::Next(p)
            &&& run(p, pulled) == Progress::<PullLayersView, _>::Done(
                Ok::<_, RegistryErrorView>(seq![file]),
            )
            &&& disk(p, pulled, files).files.contains_key(file)
            &&& disk(p, pulled, files).files[file] == payload
        }),
{
    lemma_digests_hold_no_equals(sha256_of(payload));
    lemma_pushing(m, replies, start, payload);
    let layer = pushed_layer(m);
    let none = Seq::<RegistryReply>::empty();
    let r = resolve_start(scheme, target_ref)->Next_0;
    let http = RegistryReply::Http(Ok(fetched));
    lemma_run_push(r, none, http);
    lemma_run_push(r, none.push(http), RegistryReply::Manifest(Ok(manifest)));
    law_pushed_revision_resolves_to_its_layer(
        m.reference.repository,
        m.reference.reference,
        m.layer_digest,
        m.layer_size,
        manifest,
    );
    law_pull_of_one_layer_succeeds(
        scheme,
        target_ref,
        dir,
        fetched,
        manifest,
        layer,
        status,
        pieces,
        files,
    );
}

} // verus!
