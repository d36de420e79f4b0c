//! StorageClass parameters, and the volume context that carries them from
//! `CreateVolume` to `NodePublishVolume`. They map onto `rspacefs-mount --pvc`
//! flags.

use crate::map::ParamMap;
use crate::outside;
use crate::text;
use vstd::prelude::*;

verus! {

/// OCI data-artifact references pulled as read-only lower layers, separated by
/// commas or whitespace. None makes an empty volume.
pub const SEED: &'static str = "seed";

/// `empty`, `ro`, `rwo` or `rwx`.
pub const ACCESS_MODE: &'static str = "accessMode";

/// `persistent`, `ephemeral` or `ephemeral-then-persistent`.
pub const LIFECYCLE: &'static str = "lifecycle";

/// `UID:GID` of the workload.
pub const OWNER: &'static str = "owner";

/// `true` to capture the upper as a registry revision at unpublish.
pub const CAPTURE_ON_DELETE: &'static str = "captureOnDelete";

/// `registry/repo` that captures are pushed to; by default that of the first
/// seed.
pub const CAPTURE_REPO: &'static str = "captureRepo";

/// Volume-context key under which the controller hands the node the volume's
/// logical name.
pub const VOLUME_NAME: &'static str = "rspacefs.csi.g8.io/volumeName";

/// How a volume may be used.
#[derive(Debug, Clone, Copy, PartialEq, Eq, Structural)]
pub enum AccessMode {
    Empty,
    Ro,
    Rwo,
    Rwx,
}

impl AccessMode {
    /// The value of `--access-mode`.
    pub open spec fn flag(self) -> Seq<char> {
        match self {
            AccessMode::Empty => "empty"@,
            AccessMode::Ro => "ro"@,
            AccessMode::Rwo => "rwo"@,
            AccessMode::Rwx => "rwx"@,
        }
    }

    /// The mode that a parameter value names; case and surrounding whitespace
    /// do not matter.
    pub open spec fn named(s: Seq<char>) -> Option<AccessMode> {
        let t = text::lowered(text::trimmed(s));
        if t == "empty"@ {
            Some(AccessMode::Empty)
        } else if t == "ro"@ || t == "readonly"@ {
            Some(AccessMode::Ro)
        } else if t == "rwo"@ || t == "readwriteonce"@ {
            Some(AccessMode::Rwo)
        } else if t == "rwx"@ || t == "readwritemany"@ {
            Some(AccessMode::Rwx)
        } else {
            None
        }
    }

    /// The value of `--access-mode`.
    pub fn as_flag(self) -> (r: &'static str)
        ensures
            r@ == self.flag(),
    {
        match self {
            AccessMode::Empty => "empty",
            AccessMode::Ro => "ro",
            AccessMode::Rwo => "rwo",
            AccessMode::Rwx => "rwx",
        }
    }

    /// The mode that a parameter value names, if any.
    pub fn parse(s: &str) -> (r: Option<AccessMode>)
        ensures
            r == AccessMode::named(s@),
    {
        let lower = text::to_lower(text::trim(s));
        let t = lower.as_str();
        if text::same(t, "empty") {
            Some(AccessMode::Empty)
        } else if text::same(t, "ro") || text::same(t, "readonly") {
            Some(AccessMode::Ro)
        } else if text::same(t, "rwo") || text::same(t, "readwriteonce") {
            Some(AccessMode::Rwo)
        } else if text::same(t, "rwx") || text::same(t, "readwritemany") {
            Some(AccessMode::Rwx)
        } else {
            None
        }
    }
}

/// What becomes of a volume's contents.
#[derive(Debug, Clone, Copy, PartialEq, Eq, Structural)]
pub enum Lifecycle {
    Persistent,
    Ephemeral,
    EphemeralThenPersistent,
}

impl Lifecycle {
    /// The value of `--lifecycle`.
    pub open spec fn flag(self) -> Seq<char> {
        match self {
            Lifecycle::Persistent => "persistent"@,
            Lifecycle::Ephemeral => "ephemeral"@,
            Lifecycle::EphemeralThenPersistent => "ephemeral-then-persistent"@,
        }
    }

    /// The lifecycle that a parameter value names; case and surrounding
    /// whitespace do not matter.
    pub open spec fn named(s: Seq<char>) -> Option<Lifecycle> {
        let t = text::lowered(text::trimmed(s));
        if t == "persistent"@ {
            Some(Lifecycle::Persistent)
        } else if t == "ephemeral"@ {
            Some(Lifecycle::Ephemeral)
        } else if t == "ephemeral-then-persistent"@ || t == "ephemeralthenpersistent"@ {
            Some(Lifecycle::EphemeralThenPersistent)
        } else {
            None
        }
    }

    /// The value of `--lifecycle`.
    pub fn as_flag(self) -> (r: &'static str)
        ensures
            r@ == self.flag(),
    {
        match self {
            Lifecycle::Persistent => "persistent",
            Lifecycle::Ephemeral => "ephemeral",
            Lifecycle::EphemeralThenPersistent => "ephemeral-then-persistent",
        }
    }

    /// The lifecycle that a parameter value names, if any.
    pub fn parse(s: &str) -> (r: Option<Lifecycle>)
        ensures
            r == Lifecycle::named(s@),
    {
        let lower = text::to_lower(text::trim(s));
        let t = lower.as_str();
        if text::same(t, "persistent") {
            Some(Lifecycle::Persistent)
        } else if text::same(t, "ephemeral") {
            Some(Lifecycle::Ephemeral)
        } else if text::same(t, "ephemeral-then-persistent") || text::same(
            t,
            "ephemeralthenpersistent",
        ) {
            Some(Lifecycle::EphemeralThenPersistent)
        } else {
            None
        }
    }
}

/// The driver's parameters, parsed and validated.
#[derive(Debug)]
pub struct PvcParams {
    pub seeds: Vec<String>,
    pub access_mode: Option<AccessMode>,
    pub lifecycle: Option<Lifecycle>,
    pub owner: Option<String>,
    pub capture_on_delete: bool,
    pub capture_repo: Option<String>,
}

/// What a [`PvcParams`] says.
#[verifier::ext_equal]
pub struct PvcParamsView {
    pub seeds: Seq<Seq<char>>,
    pub access_mode: Option<AccessMode>,
    pub lifecycle: Option<Lifecycle>,
    pub owner: Option<Seq<char>>,
    pub capture_on_delete: bool,
    pub capture_repo: Option<Seq<char>>,
}

impl View for PvcParams {
    type V = PvcParamsView;

    open spec fn view(&self) -> PvcParamsView {
        PvcParamsView {
            seeds: self.seeds.deep_view(),
            access_mode: self.access_mode,
            lifecycle: self.lifecycle,
            owner: self.owner.deep_view(),
            capture_on_delete: self.capture_on_delete,
            capture_repo: self.capture_repo.deep_view(),
        }
    }
}

/// A rejected parameter value.
#[derive(Debug)]
pub struct ParamError {
    pub key: &'static str,
    pub value: String,
    pub reason: &'static str,
}

/// What a [`ParamError`] says.
#[verifier::ext_equal]
pub struct ParamErrorView {
    pub key: Seq<char>,
    pub value: Seq<char>,
    pub reason: Seq<char>,
}

impl View for ParamError {
    type V = ParamErrorView;

    open spec fn view(&self) -> ParamErrorView {
        ParamErrorView { key: self.key@, value: self.value@, reason: self.reason@ }
    }
}

impl ParamErrorView {
    /// The error as it is reported.
    pub open spec fn text(self) -> Seq<char> {
        "invalid "@ + self.key + " "@ + outside::quoted_text(self.value) + ": "@ + self.reason
    }
}

impl ParamError {
    /// The error as it is reported.
    pub fn message(&self) -> (r: String)
        ensures
            r@ == self@.text(),
    {
        let mut r = "invalid ".to_string();
        r.append(self.key);
        r.append(" ");
        r.append(outside::quoted(self.value.as_str()).as_str());
        r.append(": ");
        r.append(self.reason);
        r
    }
}

/// The text at `key`, if any.
pub open spec fn lookup(m: Map<Seq<char>, Seq<char>>, key: Seq<char>) -> Option<Seq<char>> {
    if m.contains_key(key) {
        Some(m[key])
    } else {
        None
    }
}

/// Whether a flag parameter is switched on.
pub open spec fn is_on(v: Seq<char>) -> bool {
    text::lowered(v) == text::lowered("true"@) || v == "1"@
}

/// The parameters that a parameter map or volume context states, or the value
/// that is rejected. Keys that are not the driver's own play no part.
pub open spec fn params_of(m: Map<Seq<char>, Seq<char>>) -> Result<PvcParamsView, ParamErrorView> {
    if m.contains_key(ACCESS_MODE@) && AccessMode::named(m[ACCESS_MODE@]) is None {
        Err(
            ParamErrorView {
                key: ACCESS_MODE@,
                value: m[ACCESS_MODE@],
                reason: "expected empty|ro|rwo|rwx"@,
            },
        )
    } else if m.contains_key(LIFECYCLE@) && Lifecycle::named(m[LIFECYCLE@]) is None {
        Err(
            ParamErrorView {
                key: LIFECYCLE@,
                value: m[LIFECYCLE@],
                reason: "expected persistent|ephemeral|ephemeral-then-persistent"@,
            },
        )
    } else {
        Ok(
            PvcParamsView {
                seeds: if m.contains_key(SEED@) {
                    text::items(m[SEED@])
                } else {
                    seq![]
                },
                access_mode: if m.contains_key(ACCESS_MODE@) {
                    AccessMode::named(m[ACCESS_MODE@])
                } else {
                    None
                },
                lifecycle: if m.contains_key(LIFECYCLE@) {
                    Lifecycle::named(m[LIFECYCLE@])
                } else {
                    None
                },
                owner: lookup(m, OWNER@),
                capture_on_delete: m.contains_key(CAPTURE_ON_DELETE@) && is_on(
                    m[CAPTURE_ON_DELETE@],
                ),
                capture_repo: lookup(m, CAPTURE_REPO@),
            },
        )
    }
}

/// `m` with `key` set where there is a value for it.
pub open spec fn put(
    m: Map<Seq<char>, Seq<char>>,
    key: Seq<char>,
    value: Option<Seq<char>>,
) -> Map<Seq<char>, Seq<char>> {
    match value {
        Some(v) => m.insert(key, v),
        None => m,
    }
}

impl PvcParamsView {
    /// The volume context that states these parameters.
    pub open spec fn context(self) -> Map<Seq<char>, Seq<char>> {
        let m = put(
            Map::empty(),
            SEED@,
            if self.seeds.len() == 0 {
                None
            } else {
                Some(text::joined(self.seeds, seq![',']))
            },
        );
        let m = put(
            m,
            ACCESS_MODE@,
            match self.access_mode {
                Some(v) => Some(v.flag()),
                None => None,
            },
        );
        let m = put(
            m,
            LIFECYCLE@,
            match self.lifecycle {
                Some(v) => Some(v.flag()),
                None => None,
            },
        );
        let m = put(m, OWNER@, self.owner);
        let m = put(
            m,
            CAPTURE_ON_DELETE@,
            if self.capture_on_delete {
                Some("true"@)
            } else {
                None
            },
        );
        put(m, CAPTURE_REPO@, self.capture_repo)
    }

    /// The repository that captures are pushed to.
    pub open spec fn repo(self) -> Option<Seq<char>> {
        match self.capture_repo {
            Some(repo) => Some(repo),
            None => if self.seeds.len() > 0 {
                Some(repo_of(self.seeds[0]))
            } else {
                None
            },
        }
    }

    /// Whether each seed is one that a seed list can carry.
    pub open spec fn carries(self) -> bool {
        forall|i: int| 0 <= i < self.seeds.len() ==> text::is_item(#[trigger] self.seeds[i])
    }
}

/// A reference without its `@digest`, and then without a `:tag` in its last
/// path component.
pub open spec fn repo_of(seed: Seq<char>) -> Seq<char> {
    let base = seed.take(text::first_pos(seed, '@'));
    let slash = text::last_pos(base, '/');
    let colon = text::last_pos(base.skip(slash + 1), ':');
    if slash < 0 || colon < 0 {
        base
    } else {
        base.take(slash + 1 + colon)
    }
}

fn clone_text(v: Option<&String>) -> (r: Option<String>)
    ensures
        r.deep_view() == (match v {
            Some(s) => Some(s@),
            None => None,
        }),
{
    match v {
        Some(s) => Some(s.clone()),
        None => None,
    }
}

impl PvcParams {
    /// Parses a StorageClass parameter map or a volume context. Keys that are
    /// not the driver's own are ignored.
    pub fn parse(m: &ParamMap) -> (r: Result<PvcParams, ParamError>)
        ensures
            match r {
                Ok(p) => params_of(m@) == Ok::<PvcParamsView, ParamErrorView>(p@),
                Err(e) => params_of(m@) == Err::<PvcParamsView, ParamErrorView>(e@),
            },
    {
        let seeds = match m.get(SEED) {
            Some(s) => text::split_items(s.as_str()),
            None => Vec::new(),
        };
        let access_mode = match m.get(ACCESS_MODE) {
            Some(v) => match AccessMode::parse(v.as_str()) {
                Some(mode) => Some(mode),
                None => {
                    return Err(
                        ParamError {
                            key: ACCESS_MODE,
                            value: v.clone(),
                            reason: "expected empty|ro|rwo|rwx",
                        },
                    );
                },
            },
            None => None,
        };
        let lifecycle = match m.get(LIFECYCLE) {
            Some(v) => match Lifecycle::parse(v.as_str()) {
                Some(l) => Some(l),
                None => {
                    return Err(
                        ParamError {
                            key: LIFECYCLE,
                            value: v.clone(),
                            reason: "expected persistent|ephemeral|ephemeral-then-persistent",
                        },
                    );
                },
            },
            None => None,
        };
        let capture_on_delete = match m.get(CAPTURE_ON_DELETE) {
            Some(v) => text::same_ignoring_case(v.as_str(), "true") || text::same(v.as_str(), "1"),
            None => false,
        };
        let p = PvcParams {
            seeds,
            access_mode,
            lifecycle,
            owner: clone_text(m.get(OWNER)),
            capture_on_delete,
            capture_repo: clone_text(m.get(CAPTURE_REPO)),
        };
        assert(p@.seeds =~= (if m@.contains_key(SEED@) {
            text::items(m@[SEED@])
        } else {
            seq![]
        }));
        Ok(p)
    }

    /// The volume context handed back to the orchestrator, and later replayed
    /// to the node.
    pub fn to_volume_context(&self) -> (r: ParamMap)
        ensures
            r@ == self@.context(),
    {
        let mut c = ParamMap::new();
        if self.seeds.len() > 0 {
            proof {
                reveal_strlit(",");
                assert(","@ =~= seq![',']);
            }
            c.insert(SEED.to_string(), text::join(&self.seeds, ","));
        }
        if let Some(v) = self.access_mode {
            c.insert(ACCESS_MODE.to_string(), v.as_flag().to_string());
        }
        if let Some(v) = self.lifecycle {
            c.insert(LIFECYCLE.to_string(), v.as_flag().to_string());
        }
        if let Some(v) = &self.owner {
            c.insert(OWNER.to_string(), v.clone());
        }
        if self.capture_on_delete {
            c.insert(CAPTURE_ON_DELETE.to_string(), "true".to_string());
        }
        if let Some(v) = &self.capture_repo {
            c.insert(CAPTURE_REPO.to_string(), v.clone());
        }
        c
    }

    /// The repository that captures of the volume are pushed to: `captureRepo`
    /// where it is given, else the first seed's, without its tag or digest.
    pub fn resolved_capture_repo(&self) -> (r: Option<String>)
        ensures
            r.deep_view() == self@.repo(),
    {
        if let Some(repo) = &self.capture_repo {
            return Some(repo.clone());
        }
        if self.seeds.len() == 0 {
            return None;
        }
        let seed = self.seeds[0].as_str();
        proof {
            text::lemma_first_pos_holds(seed@, '@');
            assert(seed@.take(seed@.len() as int) =~= seed@);
        }
        let base = match text::find(seed, '@') {
            Some(i) => text::before(seed, i),
            None => seed.to_string(),
        };
        match text::rfind(base.as_str(), '/') {
            Some(slash) => {
                let last = text::after(base.as_str(), slash + 1);
                match text::rfind(last.as_str(), ':') {
                    Some(colon) => Some(text::before(base.as_str(), slash + 1 + colon)),
                    None => Some(base),
                }
            },
            None => Some(base),
        }
    }
}

impl Clone for PvcParams {
    fn clone(&self) -> (r: PvcParams)
        ensures
            r@ == self@,
    {
        let r = PvcParams {
            seeds: text::clone_texts(&self.seeds),
            access_mode: self.access_mode,
            lifecycle: self.lifecycle,
            owner: self.owner.clone(),
            capture_on_delete: self.capture_on_delete,
            capture_repo: self.capture_repo.clone(),
        };
        r
    }
}

impl Default for PvcParams {
    fn default() -> (r: PvcParams)
        ensures
            r@ == (PvcParamsView {
                seeds: seq![],
                access_mode: None,
                lifecycle: None,
                owner: None,
                capture_on_delete: false,
                capture_repo: None,
            }),
    {
        let r = PvcParams {
            seeds: Vec::new(),
            access_mode: None,
            lifecycle: None,
            owner: None,
            capture_on_delete: false,
            capture_repo: None,
        };
        assert(r@.seeds =~= seq![]);
        r
    }
}

// ---- laws ----------------------------------------------------------------

proof fn lemma_plain_lower(s: Seq<char>)
    requires
        s.len() > 0,
        !text::is_space(s[0]),
        !text::is_space(s.last()),
        forall|i: int| 0 <= i < s.len() ==> !('A' <= #[trigger] s[i] <= 'Z'),
    ensures
        text::lowered(text::trimmed(s)) == s,
{
    text::lemma_trimmed_fixed(s);
    assert(text::lowered(s) =~= s);
}

/// The flag of an access mode names that mode.
pub proof fn law_access_mode_flag(mode: AccessMode)
    ensures
        AccessMode::named(mode.flag()) == Some(mode),
{
    reveal_strlit("empty");
    reveal_strlit("ro");
    reveal_strlit("readonly");
    reveal_strlit("rwo");
    reveal_strlit("readwriteonce");
    reveal_strlit("rwx");
    reveal_strlit("readwritemany");
    lemma_plain_lower(mode.flag());
    assert("rwo"@[2] != "rwx"@[2]);
}

/// The flag of a lifecycle names that lifecycle.
pub proof fn law_lifecycle_flag(lifecycle: Lifecycle)
    ensures
        Lifecycle::named(lifecycle.flag()) == Some(lifecycle),
{
    reveal_strlit("persistent");
    reveal_strlit("ephemeral");
    reveal_strlit("ephemeral-then-persistent");
    reveal_strlit("ephemeralthenpersistent");
    lemma_plain_lower(lifecycle.flag());
}

/// The driver's keys differ from each other.
pub proof fn lemma_keys_differ()
    ensures
        SEED@ != ACCESS_MODE@,
        SEED@ != LIFECYCLE@,
        SEED@ != OWNER@,
        SEED@ != CAPTURE_ON_DELETE@,
        SEED@ != CAPTURE_REPO@,
        SEED@ != VOLUME_NAME@,
        ACCESS_MODE@ != LIFECYCLE@,
        ACCESS_MODE@ != OWNER@,
        ACCESS_MODE@ != CAPTURE_ON_DELETE@,
        ACCESS_MODE@ != CAPTURE_REPO@,
        ACCESS_MODE@ != VOLUME_NAME@,
        LIFECYCLE@ != OWNER@,
        LIFECYCLE@ != CAPTURE_ON_DELETE@,
        LIFECYCLE@ != CAPTURE_REPO@,
        LIFECYCLE@ != VOLUME_NAME@,
        OWNER@ != CAPTURE_ON_DELETE@,
        OWNER@ != CAPTURE_REPO@,
        OWNER@ != VOLUME_NAME@,
        CAPTURE_ON_DELETE@ != CAPTURE_REPO@,
        CAPTURE_ON_DELETE@ != VOLUME_NAME@,
        CAPTURE_REPO@ != VOLUME_NAME@,
{
    reveal_strlit("seed");
    reveal_strlit("accessMode");
    reveal_strlit("lifecycle");
    reveal_strlit("owner");
    reveal_strlit("captureOnDelete");
    reveal_strlit("captureRepo");
    reveal_strlit("rspacefs.csi.g8.io/volumeName");
    assert(SEED@.len() == 4);
    assert(ACCESS_MODE@.len() == 10);
    assert(LIFECYCLE@.len() == 9);
    assert(OWNER@.len() == 5);
    assert(CAPTURE_ON_DELETE@.len() == 15);
    assert(CAPTURE_REPO@.len() == 11);
    assert(VOLUME_NAME@.len() == 29);
}

/// A key that is not one of the six that the driver reads plays no part in the
/// parameters.
pub proof fn law_unknown_key_is_ignored(
    m: Map<Seq<char>, Seq<char>>,
    key: Seq<char>,
    value: Seq<char>,
)
    requires
        key != SEED@,
        key != ACCESS_MODE@,
        key != LIFECYCLE@,
        key != OWNER@,
        key != CAPTURE_ON_DELETE@,
        key != CAPTURE_REPO@,
    ensures
        params_of(m.insert(key, value)) == params_of(m),
{
}

/// Parameters whose seeds a seed list can carry are read back from the volume
/// context that states them.
pub proof fn law_context_reads_back(p: PvcParamsView)
    requires
        p.carries(),
    ensures
        params_of(p.context()) == Ok::<PvcParamsView, ParamErrorView>(p),
{
    lemma_keys_differ();
    let c = p.context();
    if let Some(mode) = p.access_mode {
        law_access_mode_flag(mode);
    }
    if let Some(lifecycle) = p.lifecycle {
        law_lifecycle_flag(lifecycle);
    }
    if p.seeds.len() > 0 {
        text::lemma_items_joined(p.seeds);
        assert(c[SEED@] == text::joined(p.seeds, seq![',']));
    }
    let q = params_of(c)->Ok_0;
    assert(q.seeds =~= p.seeds);
    assert(q.owner == p.owner);
    assert(q.capture_repo == p.capture_repo);
    assert(q.capture_on_delete == p.capture_on_delete);
    assert(q =~= p);
}

/// Seeds that were parsed are ones that a seed list can carry.
pub proof fn law_parsed_seeds_are_items(m: Map<Seq<char>, Seq<char>>)
    requires
        params_of(m) is Ok,
    ensures
        params_of(m)->Ok_0.carries(),
{
    if m.contains_key(SEED@) {
        text::lemma_items_are_items(m[SEED@]);
    }
}

/// What was parsed from a parameter map is read back unchanged from the volume
/// context made of it: the node sees the parameters that the controller
/// validated.
pub proof fn law_replayed_parameters(m: Map<Seq<char>, Seq<char>>)
    requires
        params_of(m) is Ok,
    ensures
        params_of(params_of(m)->Ok_0.context()) == params_of(m),
{
    law_parsed_seeds_are_items(m);
    law_context_reads_back(params_of(m)->Ok_0);
}

/// An explicit capture repository wins over one derived from a seed.
pub proof fn law_explicit_repo_wins(p: PvcParamsView)
    requires
        p.capture_repo is Some,
    ensures
        p.repo() == p.capture_repo,
{
}

/// The flags are the words that `rspacefs-mount` takes, and a parameter value
/// names a mode by its word or its long name, and by nothing else.
pub proof fn law_access_mode_words(s: Seq<char>)
    ensures
        AccessMode::Empty.flag() == "empty"@,
        AccessMode::Ro.flag() == "ro"@,
        AccessMode::Rwo.flag() == "rwo"@,
        AccessMode::Rwx.flag() == "rwx"@,
        ({
            let t = text::lowered(text::trimmed(s));
            let named = AccessMode::named(s);
            &&& named == Some(AccessMode::Empty) <==> t == "empty"@
            &&& named == Some(AccessMode::Ro) <==> t == "ro"@ || t == "readonly"@
            &&& named == Some(AccessMode::Rwo) <==> t == "rwo"@ || t == "readwriteonce"@
            &&& named == Some(AccessMode::Rwx) <==> t == "rwx"@ || t == "readwritemany"@
        }),
{
    reveal_strlit("empty");
    reveal_strlit("ro");
    reveal_strlit("readonly");
    reveal_strlit("rwo");
    reveal_strlit("readwriteonce");
    reveal_strlit("rwx");
    reveal_strlit("readwritemany");
    assert("empty"@.len() == 5);
    assert("ro"@.len() == 2);
    assert("readonly"@.len() == 8);
    assert("rwo"@.len() == 3);
    assert("rwx"@.len() == 3);
    assert("rwo"@[2] != "rwx"@[2]);
    assert("readwriteonce"@.len() == 13);
    assert("readwritemany"@.len() == 13);
    assert("readwriteonce"@[9] != "readwritemany"@[9]);
}

/// The flags are the words that `rspacefs-mount` takes, and a parameter value
/// names a lifecycle by its word, for the last also without the hyphens, and by
/// nothing else.
pub proof fn law_lifecycle_words(s: Seq<char>)
    ensures
        Lifecycle::Persistent.flag() == "persistent"@,
        Lifecycle::Ephemeral.flag() == "ephemeral"@,
        Lifecycle::EphemeralThenPersistent.flag() == "ephemeral-then-persistent"@,
        ({
            let t = text::lowered(text::trimmed(s));
            let named = Lifecycle::named(s);
            &&& named == Some(Lifecycle::Persistent) <==> t == "persistent"@
            &&& named == Some(Lifecycle::Ephemeral) <==> t == "ephemeral"@
            &&& named == Some(Lifecycle::EphemeralThenPersistent) <==> t
                == "ephemeral-then-persistent"@ || t == "ephemeralthenpersistent"@
        }),
{
    reveal_strlit("persistent");
    reveal_strlit("ephemeral");
    reveal_strlit("ephemeral-then-persistent");
    reveal_strlit("ephemeralthenpersistent");
    assert("persistent"@.len() == 10);
    assert("ephemeral"@.len() == 9);
    assert("ephemeral-then-persistent"@.len() == 25);
    assert("ephemeralthenpersistent"@.len() == 23);
}

/// Parameters are refused exactly when a mode or a lifecycle is given that is
/// none, the mode first; the refusal names the key, the value and the words that
/// would do.
pub proof fn law_refused_parameters(m: Map<Seq<char>, Seq<char>>)
    ensures
        ({
            let bad_mode = m.contains_key("accessMode"@) && AccessMode::named(
                m["accessMode"@],
            ) is None;
            let bad_lifecycle = m.contains_key("lifecycle"@) && Lifecycle::named(
                m["lifecycle"@],
            ) is None;
            &&& params_of(m) is Err <==> bad_mode || bad_lifecycle
            &&& params_of(m) matches Err(e) ==> {
                &&& bad_mode ==> e.key == "accessMode"@ && e.value == m["accessMode"@] && e.reason
                    == "expected empty|ro|rwo|rwx"@
                &&& !bad_mode ==> e.key == "lifecycle"@ && e.value == m["lifecycle"@] && e.reason
                    == "expected persistent|ephemeral|ephemeral-then-persistent"@
                &&& e.text() == "invalid "@ + e.key + " "@ + outside::quoted_text(e.value) + ": "@
                    + e.reason
            }
        }),
{
}

/// What is parsed of each key: the items of `seed`, the mode and the lifecycle
/// that are named, `owner` and `captureRepo` as they stand, and
/// `captureOnDelete` where it is `1` or, in any case, `true`. A key that is not
/// there leaves its part empty.
pub proof fn law_parsed_parameters(m: Map<Seq<char>, Seq<char>>)
    ensures
        params_of(m) matches Ok(p) ==> {
            &&& m.contains_key("seed"@) ==> p.seeds == text::items(m["seed"@])
            &&& !m.contains_key("seed"@) ==> p.seeds == Seq::<Seq<char>>::empty()
            &&& m.contains_key("accessMode"@) ==> p.access_mode is Some && p.access_mode
                == AccessMode::named(m["accessMode"@])
            &&& !m.contains_key("accessMode"@) ==> p.access_mode is None
            &&& m.contains_key("lifecycle"@) ==> p.lifecycle is Some && p.lifecycle
                == Lifecycle::named(m["lifecycle"@])
            &&& !m.contains_key("lifecycle"@) ==> p.lifecycle is None
            &&& m.contains_key("owner"@) ==> p.owner == Some(m["owner"@])
            &&& !m.contains_key("owner"@) ==> p.owner is None
            &&& m.contains_key("captureRepo"@) ==> p.capture_repo == Some(m["captureRepo"@])
            &&& !m.contains_key("captureRepo"@) ==> p.capture_repo is None
            &&& p.capture_on_delete <==> m.contains_key("captureOnDelete"@) && (
            m["captureOnDelete"@] == "1"@ || text::lowered(m["captureOnDelete"@]) == "true"@)
        },
{
    reveal_strlit("true");
    assert(text::lowered("true"@) =~= "true"@);
}

/// What a volume context holds: an entry for each parameter that is there, under
/// the key that it is parsed from, and no other.
pub proof fn law_context_entries(p: PvcParamsView)
    ensures
        ({
            let c = p.context();
            &&& c.contains_key("seed"@) <==> p.seeds.len() > 0
            &&& p.seeds.len() > 0 ==> c["seed"@] == text::joined(p.seeds, ","@)
            &&& c.contains_key("accessMode"@) <==> p.access_mode is Some
            &&& p.access_mode matches Some(mode) ==> c["accessMode"@] == mode.flag()
            &&& c.contains_key("lifecycle"@) <==> p.lifecycle is Some
            &&& p.lifecycle matches Some(l) ==> c["lifecycle"@] == l.flag()
            &&& c.contains_key("owner"@) <==> p.owner is Some
            &&& p.owner matches Some(owner) ==> c["owner"@] == owner
            &&& c.contains_key("captureOnDelete"@) <==> p.capture_on_delete
            &&& p.capture_on_delete ==> c["captureOnDelete"@] == "true"@
            &&& c.contains_key("captureRepo"@) <==> p.capture_repo is Some
            &&& p.capture_repo matches Some(repo) ==> c["captureRepo"@] == repo
            &&& forall|k: Seq<char>| #[trigger]
                c.contains_key(k) ==> k == "seed"@ || k == "accessMode"@ || k == "lifecycle"@ || k
                    == "owner"@ || k == "captureOnDelete"@ || k == "captureRepo"@
        }),
{
    lemma_keys_differ();
    reveal_strlit(",");
    assert(","@ =~= seq![',']);
}

/// The repository of a seed is the seed without its tag, its digest, or both; a
/// port in the registry's name is not taken for a tag.
pub proof fn law_repo_of_a_seed(repo: Seq<char>, tag: Seq<char>, digest: Seq<char>)
    requires
        repo.contains('/'),
        !repo.contains('@'),
        !repo.skip(text::last_pos(repo, '/') + 1).contains(':'),
        !tag.contains('/'),
        !tag.contains('@'),
        !tag.contains(':'),
    ensures
        repo_of(repo) == repo,
        repo_of(repo + ":"@ + tag) == repo,
        repo_of(repo + "@"@ + digest) == repo,
        repo_of(repo + ":"@ + tag + "@"@ + digest) == repo,
{
    reveal_strlit(":");
    reveal_strlit("@");
    let tagged = repo + ":"@ + tag;
    lemma_untagged(repo);
    lemma_tagged(repo, tag);
    assert forall|j: int| 0 <= j < repo.len() implies repo[j] != '@' by {
        assert(repo.contains(repo[j]));
    }
    assert forall|j: int| 0 <= j < tagged.len() implies tagged[j] != '@' by {
        if j < repo.len() {
            assert(repo.contains(repo[j]));
        } else if j > repo.len() {
            assert(tag.contains(tag[j - repo.len() - 1]));
        }
    }
    let a = repo + "@"@ + digest;
    let b = tagged + "@"@ + digest;
    text::lemma_first_pos(repo, '@', repo.len() as int);
    text::lemma_first_pos(tagged, '@', tagged.len() as int);
    text::lemma_first_pos(a, '@', repo.len() as int);
    text::lemma_first_pos(b, '@', tagged.len() as int);
    assert(repo.take(repo.len() as int) =~= repo);
    assert(tagged.take(tagged.len() as int) =~= tagged);
    assert(a.take(repo.len() as int) =~= repo);
    assert(b.take(tagged.len() as int) =~= tagged);
    let slash = text::last_pos(repo, '/');
    let colon = text::last_pos(tagged.skip(slash + 1), ':');
    text::lemma_last_pos_holds(repo, '/');
    assert(slash + 1 + colon == repo.len());
    assert(tagged.take(slash + 1 + colon) == repo);
}

proof fn lemma_untagged(repo: Seq<char>)
    requires
        repo.contains('/'),
        !repo.skip(text::last_pos(repo, '/') + 1).contains(':'),
    ensures
        text::last_pos(repo, '/') >= 0,
        text::last_pos(repo.skip(text::last_pos(repo, '/') + 1), ':') < 0,
{
    text::lemma_last_pos_holds(repo, '/');
    text::lemma_last_pos_holds(repo.skip(text::last_pos(repo, '/') + 1), ':');
}

proof fn lemma_tagged(repo: Seq<char>, tag: Seq<char>)
    requires
        repo.contains('/'),
        !tag.contains('/'),
        !tag.contains(':'),
    ensures
        ({
            let s = repo + ":"@ + tag;
            let slash = text::last_pos(repo, '/');
            &&& slash >= 0
            &&& text::last_pos(s, '/') == slash
            &&& text::last_pos(s.skip(slash + 1), ':') == repo.len() - slash - 1
            &&& s.take(repo.len() as int) == repo
        }),
{
    reveal_strlit(":");
    let s = repo + ":"@ + tag;
    text::lemma_last_pos_holds(repo, '/');
    let slash = text::last_pos(repo, '/');
    assert forall|j: int| slash < j < s.len() implies s[j] != '/' by {
        if j < repo.len() {
            assert(repo[j] != '/');
        } else if j > repo.len() {
            assert(tag.contains(tag[j - repo.len() - 1]));
        }
    }
    text::lemma_last_pos(s, '/', slash);
    let last = s.skip(slash + 1);
    let colon = repo.len() - slash - 1;
    assert forall|j: int| colon < j < last.len() implies last[j] != ':' by {
        assert(last[j] == tag[j - colon - 1]);
        assert(tag.contains(tag[j - colon - 1]));
    }
    text::lemma_last_pos(last, ':', colon);
    assert(s.take(repo.len() as int) =~= repo);
}

/// Captures go to the explicit repository, else to that of the first seed, and
/// nowhere without either.
pub proof fn law_where_captures_go(p: PvcParamsView)
    ensures
        p.capture_repo matches Some(repo) ==> p.repo() == Some(repo),
        p.capture_repo is None && p.seeds.len() > 0 ==> p.repo() == Some(repo_of(p.seeds[0])),
        p.capture_repo is None && p.seeds.len() == 0 ==> p.repo() is None,
{
}

/// A seed that names no path is its own repository, but for a digest.
pub proof fn law_repo_of_a_plain_name(name: Seq<char>, digest: Seq<char>)
    requires
        !name.contains('/'),
        !name.contains('@'),
    ensures
        repo_of(name) == name,
        repo_of(name + "@"@ + digest) == name,
{
    reveal_strlit("@");
    let s = name + "@"@ + digest;
    assert forall|j: int| 0 <= j < name.len() implies name[j] != '@' by {
        assert(name.contains(name[j]));
    }
    text::lemma_first_pos(name, '@', name.len() as int);
    text::lemma_first_pos(s, '@', name.len() as int);
    assert(name.take(name.len() as int) =~= name);
    assert(s.take(name.len() as int) =~= name);
    text::lemma_last_pos_holds(name, '/');
    if text::last_pos(name, '/') >= 0 {
        assert(name.contains(name[text::last_pos(name, '/')]));
    }
}

/// Only what is behind the last `:` of the last path component is a tag.
pub proof fn law_repo_of_a_tagged_seed(repo: Seq<char>, tag: Seq<char>, digest: Seq<char>)
    requires
        repo.contains('/'),
        !repo.contains('@'),
        !tag.contains('/'),
        !tag.contains('@'),
        !tag.contains(':'),
    ensures
        repo_of(repo + ":"@ + tag) == repo,
        repo_of(repo + ":"@ + tag + "@"@ + digest) == repo,
{
    reveal_strlit(":");
    reveal_strlit("@");
    let tagged = repo + ":"@ + tag;
    lemma_tagged(repo, tag);
    assert forall|j: int| 0 <= j < tagged.len() implies tagged[j] != '@' by {
        if j < repo.len() {
            assert(repo.contains(repo[j]));
        } else if j > repo.len() {
            assert(tag.contains(tag[j - repo.len() - 1]));
        }
    }
    let b = tagged + "@"@ + digest;
    text::lemma_first_pos(tagged, '@', tagged.len() as int);
    text::lemma_first_pos(b, '@', tagged.len() as int);
    assert(tagged.take(tagged.len() as int) =~= tagged);
    assert(b.take(tagged.len() as int) =~= tagged);
    let slash = text::last_pos(repo, '/');
    let colon = text::last_pos(tagged.skip(slash + 1), ':');
    text::lemma_last_pos_holds(repo, '/');
    assert(slash + 1 + colon == repo.len());
    assert(tagged.take(slash + 1 + colon) == repo);
}

/// What the operations on parameters come to.
pub proof fn law_params_operations(
    m: &ParamMap,
    p: &PvcParams,
    r: Result<PvcParams, ParamError>,
    c: ParamMap,
    repo: Option<String>,
    none: PvcParams,
    e: &ParamError,
    text: String,
)
    ensures
        call_ensures(PvcParams::parse, (m,), r) ==> (r matches Ok(x) ==> params_of(m@) == Ok::<
            _,
            ParamErrorView,
        >(x@)),
        call_ensures(PvcParams::parse, (m,), r) ==> (r matches Err(x) ==> params_of(m@) == Err::<
            PvcParamsView,
            _,
        >(x@)),
        call_ensures(PvcParams::to_volume_context, (p,), c) ==> c@ == p@.context(),
        call_ensures(PvcParams::resolved_capture_repo, (p,), repo) ==> repo.deep_view()
            == p@.repo(),
        call_ensures(ParamError::message, (e,), text) ==> text@ == e@.text(),
{
}

/// What the operations on modes and lifecycles come to.
pub proof fn law_mode_operations(
    mode: AccessMode,
    l: Lifecycle,
    s: &str,
    flag: &'static str,
    a: Option<AccessMode>,
    b: Option<Lifecycle>,
)
    ensures
        call_ensures(AccessMode::as_flag, (mode,), flag) ==> flag@ == mode.flag(),
        call_ensures(Lifecycle::as_flag, (l,), flag) ==> flag@ == l.flag(),
        call_ensures(AccessMode::parse, (s,), a) ==> a == AccessMode::named(s@),
        call_ensures(Lifecycle::parse, (s,), b) ==> b == Lifecycle::named(s@),
{
}

/// Parameters that nothing is said of are empty throughout.
pub proof fn law_default_parameters(p: PvcParams)
    requires
        call_ensures(<PvcParams as Default>::default, (), p),
    ensures
        p@.seeds.len() == 0,
        p@.access_mode is None,
        p@.lifecycle is None,
        p@.owner is None,
        !p@.capture_on_delete,
        p@.capture_repo is None,
{
}

} // verus!
