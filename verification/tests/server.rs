use rspacefs_csi::driver::{join_path, Config, Role, DRIVER_NAME, DRIVER_VERSION};
use rspacefs_csi::identity::{IdentityService, PluginService};
use rspacefs_csi::oci::{resolve_lower, snapshot_ref};
use rspacefs_csi::server::{endpoint_path, serve, Found, ServeEffect, ServeReply};
use rspacefs_csi::status::Progress;

#[test]
fn endpoints_are_paths() {
    assert_eq!(endpoint_path("unix:///csi/csi.sock"), "/csi/csi.sock");
    assert_eq!(endpoint_path("unix://relative.sock"), "relative.sock");
    assert_eq!(endpoint_path("/csi/csi.sock"), "/csi/csi.sock");
    assert_eq!(endpoint_path("unix:/csi"), "unix:/csi");
}

#[test]
fn roles_gate_the_services() {
    for (role, controller, node) in [
        (Role::Controller, true, false),
        (Role::Node, false, true),
        (Role::All, true, true),
    ] {
        assert_eq!(role.serves_controller(), controller);
        assert_eq!(role.serves_node(), node);
        assert_eq!(role.check_node_id("").is_err(), node);
        assert!(role.check_node_id("n").is_ok());
    }
    assert_eq!(
        Role::Node.check_node_id("").unwrap_err(),
        "node role requires --node-id / NODE_ID"
    );
}

#[test]
fn a_volume_has_its_own_files() {
    let cfg = Config {
        node_id: "n".into(),
        data_dir: "/var/lib/rspacefs-csi".into(),
        capture_registry: None,
    };
    let dir = "/var/lib/rspacefs-csi/volumes/v";
    assert_eq!(cfg.volume_dir("v"), dir);
    assert_eq!(cfg.upper_dir("v"), format!("{dir}/upper"));
    assert_eq!(cfg.lowers_dir("v"), format!("{dir}/lowers"));
    assert_eq!(cfg.control_socket("v"), format!("{dir}/control.sock"));
    assert_eq!(cfg.capture_staging("v"), format!("{dir}/capture.tar.zst"));
    assert_eq!(cfg.state_path("v"), format!("{dir}/publish.json"));
    assert_ne!(cfg.state_path("v"), cfg.state_path("w"));
    assert_eq!(cfg.clone().volume_dir("v"), dir);
}

#[test]
fn an_absolute_id_stays_under_the_data_dir() {
    let cfg = Config {
        node_id: "n".into(),
        data_dir: "/data".into(),
        capture_registry: None,
    };
    assert_eq!(cfg.volume_dir("/etc"), "/data/volumes//etc");
    for path in [
        cfg.upper_dir("/etc"),
        cfg.lowers_dir("/etc"),
        cfg.control_socket("/etc"),
        cfg.capture_staging("/etc"),
        cfg.state_path("/etc"),
    ] {
        assert!(path.starts_with("/data/volumes//etc/"), "{path}");
    }
}

#[test]
fn paths_are_joined() {
    assert_eq!(join_path("/a", "b"), "/a/b");
    assert_eq!(join_path("/a/", "b"), "/a/b");
    assert_eq!(join_path("", "b"), "b");
    assert_eq!(join_path("/a", "/b"), "/a//b");
    assert_eq!(join_path("/a", ""), "/a/");
}

#[test]
fn identity_names_the_driver() {
    let id = IdentityService;
    let info = id.get_plugin_info();
    assert_eq!(info.name, "rspacefs.csi.g8.io");
    assert_eq!(info.name, DRIVER_NAME);
    assert_eq!(info.vendor_version, DRIVER_VERSION);
    assert!(info.manifest.entries().is_empty());
    assert_eq!(
        id.get_plugin_capabilities(),
        [PluginService::ControllerService]
    );
    assert_eq!(id.probe(), Some(true));
}

fn serving(role: Role, found: fn() -> Found) -> (Vec<String>, Result<(), String>) {
    let mut log = Vec::new();
    let mut p = Progress::Next(serve("unix:///csi/csi.sock", role));
    loop {
        p = match p {
            Progress::Done(r) => return (log, r),
            Progress::Next(m) => {
                let reply = match m.effect() {
                    ServeEffect::CreateParent { path } => {
                        log.push(format!("parent {path}"));
                        ServeReply::Done(Ok(()))
                    }
                    ServeEffect::Inspect { path } => {
                        log.push(format!("inspect {path}"));
                        ServeReply::Found(found())
                    }
                    ServeEffect::RemoveFile { path } => {
                        log.push(format!("remove {path}"));
                        ServeReply::Done(if log.iter().any(|l| l.starts_with("serve")) {
                            Err("gone".into())
                        } else {
                            Ok(())
                        })
                    }
                    ServeEffect::Bind { path } => {
                        log.push(format!("bind {path}"));
                        ServeReply::Done(Ok(()))
                    }
                    ServeEffect::Serve { controller, node } => {
                        log.push(format!("serve {controller} {node}"));
                        ServeReply::Done(Ok(()))
                    }
                };
                m.resume(reply)
            }
        };
    }
}

#[test]
fn a_stale_socket_is_removed_before_binding() {
    let (log, r) = serving(Role::Node, || Found::Something);
    assert!(r.is_ok());
    assert_eq!(
        log,
        [
            "parent /csi/csi.sock",
            "inspect /csi/csi.sock",
            "remove /csi/csi.sock",
            "bind /csi/csi.sock",
            "serve false true",
            "remove /csi/csi.sock",
        ]
    );
    let (log, r) = serving(Role::Controller, || Found::Nothing);
    assert!(r.is_ok());
    assert_eq!(log[2], "bind /csi/csi.sock");
    assert_eq!(log[3], "serve true false");
    let (log, r) = serving(Role::All, || Found::Unknown("permission denied".into()));
    assert_eq!(log.len(), 2);
    assert_eq!(r.unwrap_err(), "permission denied");
}

#[test]
fn serving_fails_where_a_step_fails() {
    let steps = [
        ServeReply::Done(Ok(())),
        ServeReply::Found(Found::Something),
        ServeReply::Done(Ok(())),
        ServeReply::Done(Ok(())),
    ];
    let mut m = serve("s", Role::All);
    for step in steps {
        m = match m.resume(step) {
            Progress::Next(k) => k,
            Progress::Done(_) => panic!("over"),
        };
    }
    let Progress::Done(Err(e)) = m.resume(ServeReply::Done(Err("transport".into()))) else {
        panic!("not over");
    };
    assert_eq!(e, "transport");
}

#[test]
fn plain_forms() {
    assert_eq!(resolve_lower("r.io/a").unwrap(), "r.io/a");
    assert_eq!(resolve_lower("").unwrap_err().message, "empty seed ref");
    assert_eq!(snapshot_ref("vol", "s1"), "vol@snap-s1");
    assert_ne!(snapshot_ref("vol", "s1"), snapshot_ref("vol", "s2"));
}
