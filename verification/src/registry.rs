//! References to data artifacts in an OCI registry, and the errors of dealing
//! with one.

pub use crate::client::{
    LayerRef, OciClient, EMPTY_CONFIG, LAYER_ZSTD, MANIFEST, PVC_ARTIFACT_TYPE,
};
use crate::outside;
use crate::params::repo_of;
use crate::text;
use vstd::prelude::*;

verus! {

/// A dealing with a registry that failed.
#[derive(Debug)]
pub enum RegistryError {
    /// The reference and what is wrong with it.
    BadReference(String, String),
    Http(String),
    Io(String),
    /// The URL and the HTTP status that it answered with.
    Status(String, u16),
    DigestMismatch { reference: String, expected: String, got: String },
    NoLayers(String),
    /// The repository and what is wrong with its answer.
    BadResponse(String, String),
}

/// What a [`RegistryError`] says.
pub enum RegistryErrorView {
    BadReference(Seq<char>, Seq<char>),
    Http(Seq<char>),
    Io(Seq<char>),
    Status(Seq<char>, u16),
    DigestMismatch { reference: Seq<char>, expected: Seq<char>, got: Seq<char> },
    NoLayers(Seq<char>),
    BadResponse(Seq<char>, Seq<char>),
}

impl View for RegistryError {
    type V = RegistryErrorView;

    open spec fn view(&self) -> RegistryErrorView {
        match self {
            RegistryError::BadReference(s, m) => RegistryErrorView::BadReference(s@, m@),
            RegistryError::Http(e) => RegistryErrorView::Http(e@),
            RegistryError::Io(e) => RegistryErrorView::Io(e@),
            RegistryError::Status(u, c) => RegistryErrorView::Status(u@, *c),
            RegistryError::DigestMismatch { reference, expected, got } => {
                RegistryErrorView::DigestMismatch {
                    reference: reference@,
                    expected: expected@,
                    got: got@,
                }
            },
            RegistryError::NoLayers(s) => RegistryErrorView::NoLayers(s@),
            RegistryError::BadResponse(s, m) => RegistryErrorView::BadResponse(s@, m@),
        }
    }
}

impl RegistryErrorView {
    /// The error as it is reported.
    pub open spec fn text(self) -> Seq<char> {
        match self {
            RegistryErrorView::BadReference(s, m) => "invalid reference "@ + outside::quoted_text(s)
                + ": "@ + m,
            RegistryErrorView::Http(e) => "http: "@ + e,
            RegistryErrorView::Io(e) => "io: "@ + e,
            RegistryErrorView::Status(u, c) => "registry "@ + u + " returned "@
                + outside::status_text(c),
            RegistryErrorView::DigestMismatch { reference, expected, got } => "digest mismatch for "@
                + reference + ": expected "@ + expected + ", got "@ + got,
            RegistryErrorView::NoLayers(s) => "seed "@ + s + " has no pullable layers"@,
            RegistryErrorView::BadResponse(s, m) => "bad response from "@ + s + ": "@ + m,
        }
    }
}

impl RegistryError {
    /// The error as it is reported. A status is reported with its number.
    pub fn message(&self) -> (r: String)
        ensures
            r@ == self@.text(),
            self matches RegistryError::Status(url, code) ==> (100 <= *code <= 999 ==> ("registry "@
                + url@ + " returned "@ + text::decimal(*code as nat) + " "@).is_prefix_of(r@)),
    {
        match self {
            RegistryError::BadReference(s, m) => "invalid reference ".to_string().concat(
                outside::quoted(s.as_str()).as_str(),
            ).concat(": ").concat(m.as_str()),
            RegistryError::Http(e) => "http: ".to_string().concat(e.as_str()),
            RegistryError::Io(e) => "io: ".to_string().concat(e.as_str()),
            RegistryError::Status(u, c) => {
                let head = "registry ".to_string().concat(u.as_str()).concat(" returned ");
                let ghost before = head@;
                let status = outside::status_name(*c);
                let r = head.concat(status.as_str());
                proof {
                    let number = text::decimal(*c as nat) + " "@;
                    if number.is_prefix_of(status@) {
                        assert(r@.subrange(0, (before + number).len() as int) =~= before + number);
                        assert(before + number =~= before + text::decimal(*c as nat) + " "@);
                    }
                }
                r
            },
            RegistryError::DigestMismatch { reference, expected, got } => {
                "digest mismatch for ".to_string().concat(reference.as_str()).concat(
                    ": expected ",
                ).concat(expected.as_str()).concat(", got ").concat(got.as_str())
            },
            RegistryError::NoLayers(s) => "seed ".to_string().concat(s.as_str()).concat(
                " has no pullable layers",
            ),
            RegistryError::BadResponse(s, m) => "bad response from ".to_string().concat(
                s.as_str(),
            ).concat(": ").concat(m.as_str()),
        }
    }
}

/// A reference: `registry/repository[:tag|@sha256:…]`.
#[derive(Debug, PartialEq, Eq)]
pub struct Reference {
    pub registry: String,
    pub repository: String,
    /// Tag or `sha256:…` digest.
    pub reference: String,
}

/// What a [`Reference`] says.
#[verifier::ext_equal]
pub struct ReferenceView {
    pub registry: Seq<char>,
    pub repository: Seq<char>,
    pub reference: Seq<char>,
}

impl View for Reference {
    type V = ReferenceView;

    open spec fn view(&self) -> ReferenceView {
        ReferenceView {
            registry: self.registry@,
            repository: self.repository@,
            reference: self.reference@,
        }
    }
}

impl Clone for Reference {
    fn clone(&self) -> (r: Reference)
        ensures
            r@ == self@,
    {
        Reference {
            registry: self.registry.clone(),
            repository: self.repository.clone(),
            reference: self.reference.clone(),
        }
    }
}

/// The name and the tag or digest of a reference: what comes before and after
/// the first `@`; without one, before and after the last `:` of the last path
/// component; without that, the whole and `latest`.
pub open spec fn split_reference(s: Seq<char>) -> (Seq<char>, Seq<char>) {
    let at = text::first_pos(s, '@');
    let start = text::last_pos(s, '/') + 1;
    let colon = text::last_pos(s.skip(start), ':');
    if at < s.len() {
        (s.take(at), s.skip(at + 1))
    } else if colon >= 0 {
        (s.take(start + colon), s.skip(start + colon + 1))
    } else {
        (s, "latest"@)
    }
}

/// The reference that a text stands for. The registry is what comes before the
/// first `/` of the name, and is not optional; no part is empty.
pub open spec fn reference_of(s: Seq<char>) -> Result<ReferenceView, RegistryErrorView> {
    let (name, reference) = split_reference(s);
    let slash = text::first_pos(name, '/');
    if slash == name.len() {
        Err(
            RegistryErrorView::BadReference(s, "missing registry host (expected registry/repo)"@),
        )
    } else if slash == 0 || slash + 1 == name.len() || reference.len() == 0 {
        Err(RegistryErrorView::BadReference(s, "empty registry, repository, or reference"@))
    } else {
        Ok(
            ReferenceView {
                registry: name.take(slash),
                repository: name.skip(slash + 1),
                reference,
            },
        )
    }
}

impl ReferenceView {
    /// `registry/repository`.
    pub open spec fn repo(self) -> Seq<char> {
        self.registry + seq!['/'] + self.repository
    }

    /// `registry/repository@digest`.
    pub open spec fn canonical(self, digest: Seq<char>) -> Seq<char> {
        self.repo() + seq!['@'] + digest
    }
}

impl Reference {
    /// Parses `registry/repository[:tag|@digest]`; the tag is `latest` by
    /// default, and the registry must be there.
    pub fn parse(s: &str) -> (r: Result<Reference, RegistryError>)
        ensures
            match r {
                Ok(x) => reference_of(s@) == Ok::<ReferenceView, RegistryErrorView>(x@),
                Err(e) => reference_of(s@) == Err::<ReferenceView, RegistryErrorView>(e@),
            },
    {
        proof {
            text::lemma_first_pos_holds(s@, '@');
        }
        let (name, reference) = match text::find(s, '@') {
            Some(at) => (text::before(s, at), text::after(s, at + 1)),
            None => {
                let start: usize = match text::rfind(s, '/') {
                    Some(slash) => slash + 1,
                    None => 0,
                };
                let last = text::after(s, start);
                match text::rfind(last.as_str(), ':') {
                    Some(colon) => (
                        text::before(s, start + colon),
                        text::after(s, start + colon + 1),
                    ),
                    None => (s.to_string(), "latest".to_string()),
                }
            },
        };
        proof {
            text::lemma_first_pos_holds(name@, '/');
        }
        let slash: usize = match text::find(name.as_str(), '/') {
            Some(i) => i,
            None => {
                return Err(
                    RegistryError::BadReference(
                        s.to_string(),
                        "missing registry host (expected registry/repo)".to_string(),
                    ),
                );
            },
        };
        let registry = text::before(name.as_str(), slash);
        let repository = text::after(name.as_str(), slash + 1);
        if registry.as_str().is_empty() || repository.as_str().is_empty()
            || reference.as_str().is_empty() {
            return Err(
                RegistryError::BadReference(
                    s.to_string(),
                    "empty registry, repository, or reference".to_string(),
                ),
            );
        }
        Ok(Reference { registry, repository, reference })
    }

    /// `registry/repository@digest`.
    pub fn canonical(&self, digest: &str) -> (r: String)
        ensures
            r@ == self@.canonical(digest@),
    {
        proof {
            reveal_strlit("/");
            reveal_strlit("@");
            assert("/"@ =~= seq!['/']);
            assert("@"@ =~= seq!['@']);
        }
        self.registry.clone().concat("/").concat(self.repository.as_str()).concat("@").concat(
            digest,
        )
    }
}

// ---- laws ----------------------------------------------------------------

/// A well-formed reference is made of its name, which holds no `@`.
pub proof fn lemma_name(s: Seq<char>)
    requires
        reference_of(s) is Ok,
    ensures
        reference_of(s)->Ok_0.repo() == split_reference(s).0,
        !split_reference(s).0.contains('@'),
        0 < text::first_pos(split_reference(s).0, '/') < split_reference(s).0.len() - 1,
{
    let (name, reference) = split_reference(s);
    text::lemma_first_pos_holds(s, '@');
    text::lemma_last_pos_holds(s, '/');
    let start = text::last_pos(s, '/') + 1;
    text::lemma_last_pos_holds(s.skip(start), ':');
    text::lemma_first_pos_holds(name, '/');
    let slash = text::first_pos(name, '/');
    assert(reference_of(s)->Ok_0.repo() =~= name);
    if name.contains('@') {
        let i = choose|i: int| 0 <= i < name.len() && name[i] == '@';
        assert(s[i] == '@');
    }
}

/// The canonical form of a reference, `registry/repository@digest`, is itself a
/// reference: to that digest in the same repository. What a push returns can be
/// used as a seed.
pub proof fn law_canonical_is_a_reference(s: Seq<char>, digest: Seq<char>)
    requires
        reference_of(s) is Ok,
        digest.len() > 0,
    ensures
        reference_of(reference_of(s)->Ok_0.canonical(digest)) == Ok::<
            ReferenceView,
            RegistryErrorView,
        >(ReferenceView { reference: digest, ..reference_of(s)->Ok_0 }),
{
    let r = reference_of(s)->Ok_0;
    let name = split_reference(s).0;
    lemma_name(s);
    let c = r.canonical(digest);
    text::lemma_first_pos(c, '@', name.len() as int);
    assert(c.take(name.len() as int) =~= name);
    assert(c.skip(name.len() + 1int) =~= digest);
}

/// `repo:tag`, for a repository that names its registry and a tag without `/`,
/// `:` and `@`, refers to that tag in that repository.
pub proof fn law_tagged_repo_is_a_reference(repo: Seq<char>, tag: Seq<char>)
    requires
        !repo.contains('@'),
        0 < text::first_pos(repo, '/') < repo.len() - 1,
        tag.len() > 0,
        !tag.contains('/'),
        !tag.contains(':'),
        !tag.contains('@'),
    ensures
        reference_of(repo + seq![':'] + tag) == Ok::<ReferenceView, RegistryErrorView>(
            ReferenceView {
                registry: repo.take(text::first_pos(repo, '/')),
                repository: repo.skip(text::first_pos(repo, '/') + 1),
                reference: tag,
            },
        ),
{
    let s = repo + seq![':'] + tag;
    assert forall|j: int| 0 <= j < s.len() implies s[j] != '@' by {
        if j < repo.len() {
            assert(repo.contains(repo[j]));
        } else if j > repo.len() {
            assert(tag.contains(tag[j - repo.len() - 1]));
        }
    }
    text::lemma_first_pos(s, '@', s.len() as int);
    text::lemma_last_pos_holds(repo, '/');
    let slash = text::last_pos(repo, '/');
    assert forall|j: int| slash < j < s.len() implies s[j] != '/' by {
        if j < repo.len() {
            assert(repo[j] != '/');
        } else if j > repo.len() {
            assert(tag.contains(tag[j - repo.len() - 1]));
        }
    }
    text::lemma_last_pos(s, '/', slash);
    let last = s.skip(slash + 1);
    let colon = repo.len() - slash - 1;
    assert forall|j: int| colon < j < last.len() implies last[j] != ':' by {
        assert(last[j] == tag[j - colon - 1]);
        assert(tag.contains(tag[j - colon - 1]));
    }
    text::lemma_last_pos(last, ':', colon);
    assert(s.take(repo.len() as int) =~= repo);
    assert(s.skip(repo.len() + 1int) =~= tag);
}

/// Whether a reference holds both a tag and a digest.
pub open spec fn has_tag_and_digest(s: Seq<char>) -> bool {
    let base = s.take(text::first_pos(s, '@'));
    s.contains('@') && base.skip(text::last_pos(base, '/') + 1).contains(':')
}

/// The repository that captures of a seeded volume go to is the repository of
/// the seed.
pub proof fn law_capture_repo_is_the_seeds(s: Seq<char>)
    requires
        reference_of(s) is Ok,
        !has_tag_and_digest(s),
    ensures
        repo_of(s) == reference_of(s)->Ok_0.repo(),
{
    lemma_name(s);
    let name = split_reference(s).0;
    text::lemma_first_pos_holds(s, '@');
    text::lemma_first_pos_holds(name, '/');
    let base = s.take(text::first_pos(s, '@'));
    let start = text::last_pos(base, '/') + 1;
    text::lemma_last_pos_holds(base, '/');
    text::lemma_last_pos_holds(base.skip(start), ':');
    if !s.contains('@') {
        assert(base =~= s);
        let i = text::first_pos(name, '/');
        assert(s[i] == '/');
        assert(s.contains('/'));
        assert(start > 0);
    }
}

/// What a text that is a reference looks like: `registry/repository@digest`,
/// `registry/repository:tag`, or `registry/repository`, which stands for `latest`.
/// The registry ends at the first slash, and no part is empty.
pub proof fn law_reference_spells_out_its_parts(s: Seq<char>)
    ensures
        reference_of(s) matches Ok(r) ==> {
            let name = r.registry + "/"@ + r.repository;
            &&& !r.registry.contains('/')
            &&& r.registry.len() > 0
            &&& r.repository.len() > 0
            &&& r.reference.len() > 0
            &&& !name.contains('@')
            &&& s.contains('@') ==> s == name + "@"@ + r.reference
            &&& !s.contains('@') ==> {
                ||| s == name + ":"@ + r.reference && !r.reference.contains('/')
                    && !r.reference.contains(':')
                ||| s == name && r.reference == "latest"@ && !s.skip(
                    text::last_pos(s, '/') + 1,
                ).contains(':')
            }
        },
{
    reveal_strlit("/");
    reveal_strlit("@");
    reveal_strlit(":");
    assert("/"@ =~= seq!['/']);
    assert("@"@ =~= seq!['@']);
    assert(":"@ =~= seq![':']);
    if let Ok(r) = reference_of(s) {
        lemma_name(s);
        let (name, reference) = split_reference(s);
        let slash = text::first_pos(name, '/');
        text::lemma_first_pos_holds(name, '/');
        text::lemma_first_pos_holds(s, '@');
        text::lemma_last_pos_holds(s, '/');
        let start = text::last_pos(s, '/') + 1;
        let last = s.skip(start);
        text::lemma_last_pos_holds(last, ':');
        let colon = text::last_pos(last, ':');
        assert(r.repo() == name);
        assert(r.registry + "/"@ + r.repository =~= name);
        if r.registry.contains('/') {
            let i = choose|i: int| 0 <= i < r.registry.len() && r.registry[i] == '/';
            assert(name[i] == '/');
        }
        if s.contains('@') {
            assert(s =~= name + "@"@ + reference);
        } else if colon >= 0 {
            assert(s =~= name + ":"@ + reference);
            if reference.contains('/') {
                let i = choose|i: int| 0 <= i < reference.len() && reference[i] == '/';
                assert(s[start + colon + 1 + i] == '/');
            }
            if reference.contains(':') {
                let i = choose|i: int| 0 <= i < reference.len() && reference[i] == ':';
                assert(last[colon + 1 + i] == ':');
            }
        } else {
            assert(!last.contains(':'));
        }
    }
}

/// Every text of one of the three forms is a reference, with the parts that it
/// spells out.
pub proof fn law_spelled_out_parts_are_a_reference(
    registry: Seq<char>,
    repository: Seq<char>,
    tag: Seq<char>,
    digest: Seq<char>,
)
    requires
        registry.len() > 0,
        repository.len() > 0,
        tag.len() > 0,
        digest.len() > 0,
        !registry.contains('/'),
        !registry.contains('@'),
        !repository.contains('@'),
        !tag.contains('/'),
        !tag.contains(':'),
        !tag.contains('@'),
    ensures
        ({
            let name = registry + "/"@ + repository;
            &&& reference_of(name + "@"@ + digest) == Ok::<ReferenceView, RegistryErrorView>(
                ReferenceView { registry, repository, reference: digest },
            )
            &&& reference_of(name + ":"@ + tag) == Ok::<ReferenceView, RegistryErrorView>(
                ReferenceView { registry, repository, reference: tag },
            )
            &&& !name.skip(text::last_pos(name, '/') + 1).contains(':') ==> reference_of(name)
                == Ok::<ReferenceView, RegistryErrorView>(
                ReferenceView { registry, repository, reference: "latest"@ },
            )
        }),
{
    reveal_strlit("/");
    reveal_strlit("@");
    reveal_strlit(":");
    reveal_strlit("latest");
    assert("/"@ =~= seq!['/']);
    assert("@"@ =~= seq!['@']);
    assert(":"@ =~= seq![':']);
    let name = registry + "/"@ + repository;
    let n = registry.len() as int;
    assert forall|j: int| 0 <= j < n implies name[j] != '/' by {
        assert(registry.contains(registry[j]));
    }
    assert(name[n] == '/');
    text::lemma_first_pos(name, '/', n);
    assert(name.take(n) =~= registry);
    assert(name.skip(n + 1) =~= repository);
    assert forall|j: int| 0 <= j < name.len() implies name[j] != '@' by {
        if j < n {
            assert(registry.contains(registry[j]));
        } else if j > n {
            assert(repository.contains(repository[j - n - 1]));
        }
    }
    assert(!name.contains('@'));
    let c = name + "@"@ + digest;
    text::lemma_first_pos(c, '@', name.len() as int);
    assert(c.take(name.len() as int) =~= name);
    assert(c.skip(name.len() + 1int) =~= digest);
    law_tagged_repo_is_a_reference(name, tag);
    text::lemma_first_pos(name, '@', name.len() as int);
    text::lemma_last_pos_holds(name, '/');
    text::lemma_last_pos_holds(name.skip(text::last_pos(name, '/') + 1), ':');
}

/// A text that is no reference is refused by name, and for one of two reasons: it
/// names no registry, or one of its parts is empty.
pub proof fn law_refused_references(s: Seq<char>)
    ensures
        reference_of(s) matches Err(e) ==> {
            let (name, reference) = split_reference(s);
            ||| {
                &&& !name.contains('/')
                &&& e == RegistryErrorView::BadReference(
                    s,
                    "missing registry host (expected registry/repo)"@,
                )
            }
            ||| {
                &&& name.contains('/')
                &&& e == RegistryErrorView::BadReference(
                    s,
                    "empty registry, repository, or reference"@,
                )
                &&& name[0] == '/' || text::first_pos(name, '/') == name.len() - 1
                    || reference.len() == 0
            }
        },
        !s.contains('/') ==> reference_of(s) is Err,
{
    let (name, reference) = split_reference(s);
    text::lemma_first_pos_holds(s, '@');
    text::lemma_last_pos_holds(s, '/');
    let start = text::last_pos(s, '/') + 1;
    text::lemma_last_pos_holds(s.skip(start), ':');
    text::lemma_first_pos_holds(name, '/');
    if name.contains('/') {
        let i = choose|i: int| 0 <= i < name.len() && name[i] == '/';
        assert(s[i] == '/');
        assert(text::first_pos(name, '/') <= i);
    } else if text::first_pos(name, '/') < name.len() {
        assert(name.contains(name[text::first_pos(name, '/')]));
    }
}

/// The name of a repository, and the canonical form of a revision of it, by their
/// parts.
pub proof fn law_canonical(r: ReferenceView, digest: Seq<char>)
    ensures
        r.repo() == r.registry + "/"@ + r.repository,
        r.canonical(digest) == r.registry + "/"@ + r.repository + "@"@ + digest,
{
    reveal_strlit("/");
    reveal_strlit("@");
    assert("/"@ =~= seq!['/']);
    assert("@"@ =~= seq!['@']);
}

/// What a failed dealing with a registry is reported as.
pub proof fn law_registry_error_texts(a: Seq<char>, b: Seq<char>, c: Seq<char>, code: u16)
    ensures
        RegistryErrorView::BadReference(a, b).text() == "invalid reference "@
            + outside::quoted_text(a) + ": "@ + b,
        RegistryErrorView::Http(a).text() == "http: "@ + a,
        RegistryErrorView::Io(a).text() == "io: "@ + a,
        RegistryErrorView::Status(a, code).text() == "registry "@ + a + " returned "@
            + outside::status_text(code),
        (RegistryErrorView::DigestMismatch { reference: a, expected: b, got: c }).text()
            == "digest mismatch for "@ + a + ": expected "@ + b + ", got "@ + c,
        RegistryErrorView::NoLayers(a).text() == "seed "@ + a + " has no pullable layers"@,
        RegistryErrorView::BadResponse(a, b).text() == "bad response from "@ + a + ": "@ + b,
{
}

/// What the operations on references come to.
pub proof fn law_reference_operations(
    s: &str,
    r: Result<Reference, RegistryError>,
    x: &Reference,
    digest: &str,
    text: String,
    e: &RegistryError,
)
    ensures
        call_ensures(Reference::parse, (s,), r) ==> (r matches Ok(y) ==> reference_of(s@) == Ok::<
            _,
            RegistryErrorView,
        >(y@)),
        call_ensures(Reference::parse, (s,), r) ==> (r matches Err(y) ==> reference_of(s@)
            == Err::<ReferenceView, _>(y@)),
        call_ensures(Reference::canonical, (x, digest), text) ==> text@ == x@.canonical(digest@),
        call_ensures(RegistryError::message, (e,), text) ==> text@ == e@.text(),
{
}

} // verus!
