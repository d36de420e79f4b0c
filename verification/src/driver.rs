//! Driver-wide identity and configuration, and where a volume's files are.

use crate::text;
use vstd::prelude::*;

verus! {

/// The CSI driver name.
pub const DRIVER_NAME: &'static str = "rspacefs.csi.g8.io";

/// Reported as the plugin's `vendor_version`.
pub const DRIVER_VERSION: &'static str = "0.1.0";

/// Which half of the driver a process runs as. Identity is always served.
#[derive(Debug, Clone, Copy, PartialEq, Eq, Structural)]
pub enum Role {
    /// Controller plugin (Deployment).
    Controller,
    /// Node plugin (DaemonSet).
    Node,
    /// Both in one process.
    All,
}

impl Role {
    /// Whether the controller service is served.
    pub fn serves_controller(self) -> (r: bool)
        ensures
            r == (self == Role::Controller || self == Role::All),
    {
        matches!(self, Role::Controller | Role::All)
    }

    /// Whether the node service is served.
    pub fn serves_node(self) -> (r: bool)
        ensures
            r == (self == Role::Node || self == Role::All),
    {
        matches!(self, Role::Node | Role::All)
    }

    /// A process that serves the node needs the node's name.
    pub fn check_node_id(self, node_id: &str) -> (r: Result<(), String>)
        ensures
            match r {
                Ok(_) => self == Role::Controller || node_id@.len() > 0,
                Err(e) => {
                    &&& self != Role::Controller
                    &&& node_id@.len() == 0
                    &&& e@ == "node role requires --node-id / NODE_ID"@
                },
            },
    {
        if self.serves_node() && node_id.is_empty() {
            Err("node role requires --node-id / NODE_ID".to_string())
        } else {
            Ok(())
        }
    }
}

/// `base`, a slash where it does not end with one, and `rel`. The text of the
/// path starts with `base`, even where `rel` begins with a slash.
pub open spec fn joined_path(base: Seq<char>, rel: Seq<char>) -> Seq<char> {
    if base.len() == 0 || base.last() == '/' {
        base + rel
    } else {
        base + seq!['/'] + rel
    }
}

/// `base`, a slash where it does not end with one, and `rel`. The text of the
/// path starts with `base`, even where `rel` begins with a slash.
pub fn join_path(base: &str, rel: &str) -> (r: String)
    ensures
        r@ == joined_path(base@, rel@),
{
    proof {
        reveal_strlit("/");
        assert("/"@ =~= seq!['/']);
    }
    let mut r = base.to_string();
    if !base.is_empty() {
        let n: usize = base.unicode_len();
        if base.get_char(n - 1) != '/' {
            r.append("/");
        }
    }
    r.append(rel);
    r
}

/// The configuration that the services share.
#[derive(Debug)]
pub struct Config {
    /// This node's name; only meaningful on the node.
    pub node_id: String,
    /// Root of the per-volume directories, e.g. `/var/lib/rspacefs-csi`.
    pub data_dir: String,
    /// Default `registry[/prefix]` for snapshots whose class names no
    /// repository.
    pub capture_registry: Option<String>,
}

/// What a [`Config`] says.
#[verifier::ext_equal]
pub struct ConfigView {
    pub node_id: Seq<char>,
    pub data_dir: Seq<char>,
    pub capture_registry: Option<Seq<char>>,
}

impl View for Config {
    type V = ConfigView;

    open spec fn view(&self) -> ConfigView {
        ConfigView {
            node_id: self.node_id@,
            data_dir: self.data_dir@,
            capture_registry: self.capture_registry.deep_view(),
        }
    }
}

impl ConfigView {
    /// `<data_dir>/volumes/<volume_id>`.
    pub open spec fn volume_dir(self, volume_id: Seq<char>) -> Seq<char> {
        joined_path(joined_path(self.data_dir, "volumes"@), volume_id)
    }

    /// `<volume_dir>/upper`.
    pub open spec fn upper_dir(self, volume_id: Seq<char>) -> Seq<char> {
        joined_path(self.volume_dir(volume_id), "upper"@)
    }

    /// `<volume_dir>/lowers`.
    pub open spec fn lowers_dir(self, volume_id: Seq<char>) -> Seq<char> {
        joined_path(self.volume_dir(volume_id), "lowers"@)
    }

    /// `<volume_dir>/control.sock`.
    pub open spec fn control_socket(self, volume_id: Seq<char>) -> Seq<char> {
        joined_path(self.volume_dir(volume_id), "control.sock"@)
    }

    /// `<volume_dir>/capture.tar.zst`.
    pub open spec fn capture_staging(self, volume_id: Seq<char>) -> Seq<char> {
        joined_path(self.volume_dir(volume_id), "capture.tar.zst"@)
    }

    /// `<volume_dir>/publish.json`.
    pub open spec fn state_path(self, volume_id: Seq<char>) -> Seq<char> {
        joined_path(self.volume_dir(volume_id), "publish.json"@)
    }
}

impl Config {
    /// The per-volume working directory, `<data_dir>/volumes/<volume_id>`.
    pub fn volume_dir(&self, volume_id: &str) -> (r: String)
        ensures
            r@ == self@.volume_dir(volume_id@),
    {
        let volumes = join_path(self.data_dir.as_str(), "volumes");
        join_path(volumes.as_str(), volume_id)
    }

    /// The writable upper directory.
    pub fn upper_dir(&self, volume_id: &str) -> (r: String)
        ensures
            r@ == self@.upper_dir(volume_id@),
    {
        join_path(self.volume_dir(volume_id).as_str(), "upper")
    }

    /// The directory of the pulled lower blobs.
    pub fn lowers_dir(&self, volume_id: &str) -> (r: String)
        ensures
            r@ == self@.lowers_dir(volume_id@),
    {
        join_path(self.volume_dir(volume_id).as_str(), "lowers")
    }

    /// The control socket of the volume's mount daemon.
    pub fn control_socket(&self, volume_id: &str) -> (r: String)
        ensures
            r@ == self@.control_socket(volume_id@),
    {
        join_path(self.volume_dir(volume_id).as_str(), "control.sock")
    }

    /// The file that a captured upper is staged in.
    pub fn capture_staging(&self, volume_id: &str) -> (r: String)
        ensures
            r@ == self@.capture_staging(volume_id@),
    {
        join_path(self.volume_dir(volume_id).as_str(), "capture.tar.zst")
    }

    /// The file that holds the publish context until the volume is
    /// unpublished.
    pub fn state_path(&self, volume_id: &str) -> (r: String)
        ensures
            r@ == self@.state_path(volume_id@),
    {
        join_path(self.volume_dir(volume_id).as_str(), "publish.json")
    }
}

impl Clone for Config {
    fn clone(&self) -> (r: Config)
        ensures
            r@ == self@,
    {
        Config {
            node_id: self.node_id.clone(),
            data_dir: self.data_dir.clone(),
            capture_registry: self.capture_registry.clone(),
        }
    }
}

/// A path without a trailing slash.
pub open spec fn unslashed(p: Seq<char>) -> Seq<char> {
    if p.len() > 0 && p.last() == '/' {
        p.drop_last()
    } else {
        p
    }
}

proof fn lemma_joined_base_injective(x: Seq<char>, y: Seq<char>, rel: Seq<char>)
    requires
        x.len() > 0,
        y.len() > 0,
        joined_path(x, rel) == joined_path(y, rel),
    ensures
        unslashed(x) == unslashed(y),
{
    let u = unslashed(x);
    let v = unslashed(y);
    let p = joined_path(x, rel);
    assert(p =~= u + seq!['/'] + rel);
    assert(p =~= v + seq!['/'] + rel);
    assert(p.len() == u.len() + 1 + rel.len());
    assert(p.len() == v.len() + 1 + rel.len());
    assert(p.take(u.len() as int) =~= u);
    assert(p.take(v.len() as int) =~= v);
}

/// The paths of two volumes whose ids differ by more than a trailing slash
/// differ as texts. Two different texts may still lead to one file, through
/// `..` or a doubled slash.
pub proof fn law_volume_paths_differ(cfg: ConfigView, a: Seq<char>, b: Seq<char>)
    requires
        unslashed(a) != unslashed(b),
    ensures
        cfg.volume_dir(a) != cfg.volume_dir(b),
        cfg.upper_dir(a) != cfg.upper_dir(b),
        cfg.lowers_dir(a) != cfg.lowers_dir(b),
        cfg.control_socket(a) != cfg.control_socket(b),
        cfg.capture_staging(a) != cfg.capture_staging(b),
        cfg.state_path(a) != cfg.state_path(b),
{
    reveal_strlit("volumes");
    let base = joined_path(cfg.data_dir, "volumes"@);
    assert(base.last() == 's');
    let root = base + seq!['/'];
    let x = cfg.volume_dir(a);
    let y = cfg.volume_dir(b);
    assert(x =~= root + a);
    assert(y =~= root + b);
    if unslashed(x) == unslashed(y) {
        if a.len() == 0 && b.len() == 0 {
            assert(a =~= b);
        }
        if a.len() > 0 {
            assert(unslashed(x) =~= root + unslashed(a));
            assert(unslashed(x).skip(root.len() as int) =~= unslashed(a));
        } else {
            assert(unslashed(x) =~= base);
        }
        if b.len() > 0 {
            assert(unslashed(y) =~= root + unslashed(b));
            assert(unslashed(y).skip(root.len() as int) =~= unslashed(b));
        } else {
            assert(unslashed(y) =~= base);
        }
    }
    if cfg.upper_dir(a) == cfg.upper_dir(b) {
        lemma_joined_base_injective(x, y, "upper"@);
    }
    if cfg.lowers_dir(a) == cfg.lowers_dir(b) {
        lemma_joined_base_injective(x, y, "lowers"@);
    }
    if cfg.control_socket(a) == cfg.control_socket(b) {
        lemma_joined_base_injective(x, y, "control.sock"@);
    }
    if cfg.capture_staging(a) == cfg.capture_staging(b) {
        lemma_joined_base_injective(x, y, "capture.tar.zst"@);
    }
    if cfg.state_path(a) == cfg.state_path(b) {
        lemma_joined_base_injective(x, y, "publish.json"@);
    }
}

/// Where all volumes are: `<data_dir>/volumes/`.
pub open spec fn volumes_root(cfg: ConfigView) -> Seq<char> {
    joined_path(cfg.data_dir, "volumes"@) + seq!['/']
}

/// The text of every path of a volume starts with `<data_dir>/volumes/` and the
/// volume's id, whatever the id is. An id that holds `..` may still lead
/// elsewhere.
pub proof fn law_volume_paths_start_with_the_data_dir(cfg: ConfigView, volume_id: Seq<char>)
    ensures
        cfg.data_dir.is_prefix_of(volumes_root(cfg)),
        cfg.volume_dir(volume_id) == volumes_root(cfg) + volume_id,
        cfg.volume_dir(volume_id).is_prefix_of(cfg.upper_dir(volume_id)),
        cfg.volume_dir(volume_id).is_prefix_of(cfg.lowers_dir(volume_id)),
        cfg.volume_dir(volume_id).is_prefix_of(cfg.control_socket(volume_id)),
        cfg.volume_dir(volume_id).is_prefix_of(cfg.capture_staging(volume_id)),
        cfg.volume_dir(volume_id).is_prefix_of(cfg.state_path(volume_id)),
{
    reveal_strlit("volumes");
    assert(joined_path(cfg.data_dir, "volumes"@).last() == 's');
    lemma_joined_prefix(cfg.data_dir, "volumes"@);
    let dir = cfg.volume_dir(volume_id);
    assert(dir =~= volumes_root(cfg) + volume_id);
    assert(volumes_root(cfg).subrange(0, cfg.data_dir.len() as int) =~= cfg.data_dir);
    lemma_joined_prefix(dir, "upper"@);
    lemma_joined_prefix(dir, "lowers"@);
    lemma_joined_prefix(dir, "control.sock"@);
    lemma_joined_prefix(dir, "capture.tar.zst"@);
    lemma_joined_prefix(dir, "publish.json"@);
}

/// Whether a text names an entry of a directory: it holds no slash, and is not
/// the directory itself or the one above.
pub open spec fn is_entry_name(s: Seq<char>) -> bool {
    s.len() > 0 && !s.contains('/') && s != "."@ && s != ".."@
}

/// Two volumes with different ids that name entries of a directory never share a
/// directory, a control socket, a staging file or a publish record: each has its
/// own entry of `<data_dir>/volumes/`.
pub proof fn law_volumes_are_apart(cfg: ConfigView, a: Seq<char>, b: Seq<char>)
    requires
        is_entry_name(a),
        is_entry_name(b),
        a != b,
    ensures
        cfg.volume_dir(a) == volumes_root(cfg) + a,
        cfg.volume_dir(b) == volumes_root(cfg) + b,
        cfg.volume_dir(a) != cfg.volume_dir(b),
        cfg.upper_dir(a) != cfg.upper_dir(b),
        cfg.lowers_dir(a) != cfg.lowers_dir(b),
        cfg.control_socket(a) != cfg.control_socket(b),
        cfg.capture_staging(a) != cfg.capture_staging(b),
        cfg.state_path(a) != cfg.state_path(b),
{
    law_volume_paths_start_with_the_data_dir(cfg, a);
    law_volume_paths_start_with_the_data_dir(cfg, b);
    assert(a.contains(a.last()));
    assert(b.contains(b.last()));
    law_volume_paths_differ(cfg, a, b);
}

/// The text of a joined path starts with what it was joined to.
pub proof fn lemma_joined_prefix(base: Seq<char>, rel: Seq<char>)
    ensures
        base.is_prefix_of(joined_path(base, rel)),
{
    assert(joined_path(base, rel).subrange(0, base.len() as int) =~= base);
}

/// A path is joined to a base with one slash between them, which the base may
/// already end with; to no base it is joined as it is.
pub proof fn law_joined_path(base: Seq<char>, rel: Seq<char>)
    ensures
        joined_path(Seq::<char>::empty(), rel) == rel,
        joined_path(base + "/"@, rel) == base + "/"@ + rel,
        base.len() > 0 && base.last() != '/' ==> joined_path(base, rel) == base + "/"@ + rel,
{
    reveal_strlit("/");
    assert("/"@ =~= seq!['/']);
    assert(Seq::<char>::empty() + rel =~= rel);
}

/// Where the files of a volume are, by their names.
pub proof fn law_volume_files(cfg: ConfigView, id: Seq<char>)
    requires
        cfg.data_dir.len() > 0,
        cfg.data_dir.last() != '/',
        id.len() > 0,
        id.last() != '/',
    ensures
        ({
            let dir = cfg.data_dir + "/volumes/"@ + id;
            &&& cfg.volume_dir(id) == dir
            &&& cfg.upper_dir(id) == dir + "/upper"@
            &&& cfg.lowers_dir(id) == dir + "/lowers"@
            &&& cfg.control_socket(id) == dir + "/control.sock"@
            &&& cfg.capture_staging(id) == dir + "/capture.tar.zst"@
            &&& cfg.state_path(id) == dir + "/publish.json"@
        }),
{
    reveal_strlit("/");
    reveal_strlit("volumes");
    reveal_strlit("/volumes/");
    reveal_strlit("upper");
    reveal_strlit("/upper");
    reveal_strlit("lowers");
    reveal_strlit("/lowers");
    reveal_strlit("control.sock");
    reveal_strlit("/control.sock");
    reveal_strlit("capture.tar.zst");
    reveal_strlit("/capture.tar.zst");
    reveal_strlit("publish.json");
    reveal_strlit("/publish.json");
    let dir = cfg.data_dir + "/volumes/"@ + id;
    let volumes = joined_path(cfg.data_dir, "volumes"@);
    assert(volumes.last() == 's');
    assert("/volumes/"@ =~= seq!['/'] + "volumes"@ + seq!['/']);
    assert(cfg.volume_dir(id) =~= dir);
    assert(dir.last() == id.last());
    assert("/upper"@ =~= seq!['/'] + "upper"@);
    assert("/lowers"@ =~= seq!['/'] + "lowers"@);
    assert("/control.sock"@ =~= seq!['/'] + "control.sock"@);
    assert("/capture.tar.zst"@ =~= seq!['/'] + "capture.tar.zst"@);
    assert("/publish.json"@ =~= seq!['/'] + "publish.json"@);
    assert(cfg.upper_dir(id) =~= dir + "/upper"@);
    assert(cfg.lowers_dir(id) =~= dir + "/lowers"@);
    assert(cfg.control_socket(id) =~= dir + "/control.sock"@);
    assert(cfg.capture_staging(id) =~= dir + "/capture.tar.zst"@);
    assert(cfg.state_path(id) =~= dir + "/publish.json"@);
}

/// The files of a volume are apart from each other.
pub proof fn law_volume_files_differ(cfg: ConfigView, id: Seq<char>)
    ensures
        cfg.upper_dir(id) != cfg.lowers_dir(id),
        cfg.upper_dir(id) != cfg.control_socket(id),
        cfg.upper_dir(id) != cfg.capture_staging(id),
        cfg.upper_dir(id) != cfg.state_path(id),
        cfg.lowers_dir(id) != cfg.control_socket(id),
        cfg.lowers_dir(id) != cfg.capture_staging(id),
        cfg.lowers_dir(id) != cfg.state_path(id),
        cfg.control_socket(id) != cfg.capture_staging(id),
        cfg.control_socket(id) != cfg.state_path(id),
        cfg.capture_staging(id) != cfg.state_path(id),
{
    reveal_strlit("upper");
    reveal_strlit("lowers");
    reveal_strlit("control.sock");
    reveal_strlit("capture.tar.zst");
    reveal_strlit("publish.json");
    assert(cfg.control_socket(id).last() == 'k');
    assert(cfg.state_path(id).last() == 'n');
    assert(cfg.upper_dir(id).last() == 'r');
    assert(cfg.lowers_dir(id).last() == 's');
    assert(cfg.capture_staging(id).last() == 't');
}

/// The name and the version that the driver goes by.
pub proof fn law_driver_name()
    ensures
        DRIVER_NAME@ == "rspacefs.csi.g8.io"@,
        DRIVER_VERSION@ == "0.1.0"@,
{
}

/// Each file of a volume is named in the volume's directory.
pub proof fn law_volume_files_are_in_its_directory(cfg: ConfigView, id: Seq<char>)
    ensures
        cfg.volume_dir(id) == joined_path(joined_path(cfg.data_dir, "volumes"@), id),
        cfg.upper_dir(id) == joined_path(cfg.volume_dir(id), "upper"@),
        cfg.lowers_dir(id) == joined_path(cfg.volume_dir(id), "lowers"@),
        cfg.control_socket(id) == joined_path(cfg.volume_dir(id), "control.sock"@),
        cfg.capture_staging(id) == joined_path(cfg.volume_dir(id), "capture.tar.zst"@),
        cfg.state_path(id) == joined_path(cfg.volume_dir(id), "publish.json"@),
{
}

/// What the operations on a configuration come to.
pub proof fn law_config_operations(cfg: &Config, id: &str, rel: &str, s: String)
    ensures
        call_ensures(join_path, (id, rel), s) ==> s@ == joined_path(id@, rel@),
        call_ensures(Config::volume_dir, (cfg, id), s) ==> s@ == cfg@.volume_dir(id@),
        call_ensures(Config::upper_dir, (cfg, id), s) ==> s@ == cfg@.upper_dir(id@),
        call_ensures(Config::lowers_dir, (cfg, id), s) ==> s@ == cfg@.lowers_dir(id@),
        call_ensures(Config::control_socket, (cfg, id), s) ==> s@ == cfg@.control_socket(id@),
        call_ensures(Config::capture_staging, (cfg, id), s) ==> s@ == cfg@.capture_staging(id@),
        call_ensures(Config::state_path, (cfg, id), s) ==> s@ == cfg@.state_path(id@),
{
}

/// A controller serves the controller service and a node the node service; both
/// are served by a process of both roles. A process that serves a node is refused
/// without the node's name, and no other is.
pub proof fn law_roles(role: Role, id: &str, b: bool, r: Result<(), String>)
    ensures
        call_ensures(Role::serves_controller, (role,), b) ==> b == (role != Role::Node),
        call_ensures(Role::serves_node, (role,), b) ==> b == (role != Role::Controller),
        call_ensures(Role::check_node_id, (role, id), r) ==> (r is Err <==> role
            != Role::Controller && id@.len() == 0),
        call_ensures(Role::check_node_id, (role, id), r) ==> (r matches Err(e) ==> e@
            == "node role requires --node-id / NODE_ID"@),
{
}

} // verus!
