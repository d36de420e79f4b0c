use rspacefs_csi::mount::{Exit, MountError, MountSpec, RspacefsMounter, UnmountStep};
use rspacefs_csi::params::{AccessMode, Lifecycle};

#[test]
fn mount_spec_renders_expected_argv() {
    let spec = MountSpec {
        name: "db".into(),
        target: "/mnt/db".into(),
        upper: "/data/db/upper".into(),
        control_socket: "/data/db/control.sock".into(),
        access_mode: AccessMode::Ro,
        lifecycle: Lifecycle::Persistent,
        owner: Some("1000:1000".into()),
        lower_blobs: vec!["/data/db/lowers/a.blob".into()],
    };
    let args = spec.args();
    let joined = args.join(" ");
    assert_eq!(
        joined,
        "--pvc --name db --access-mode ro --lifecycle persistent \
         --lower-blob /data/db/lowers/a.blob --upper /data/db/upper \
         --owner 1000:1000 --control-socket /data/db/control.sock /mnt/db"
    );
    // No --read-only flag exists in the rspacefs-mount CLI.
    assert!(!joined.contains("--read-only"));
}

fn spec() -> MountSpec {
    MountSpec {
        name: "v".into(),
        target: "/t".into(),
        upper: "/u".into(),
        control_socket: "/c".into(),
        access_mode: AccessMode::Rwo,
        lifecycle: Lifecycle::Ephemeral,
        owner: None,
        lower_blobs: vec!["/top".into(), "/base".into()],
    }
}

#[test]
fn lower_blobs_are_in_order_before_the_upper() {
    let args = spec().args();
    assert_eq!(
        args[7..],
        [
            "--lower-blob",
            "/top",
            "--lower-blob",
            "/base",
            "--upper",
            "/u",
            "--control-socket",
            "/c",
            "/t"
        ]
    );
    let mut empty = spec();
    empty.lower_blobs.clear();
    assert!(!empty.args().contains(&"--lower-blob".to_string()));
}

#[test]
fn read_only_differs_in_the_access_mode_alone() {
    let mut ro = spec();
    ro.access_mode = AccessMode::Ro;
    let mut expected = spec().args();
    expected[4] = "ro".into();
    assert_eq!(ro.args(), expected);
    assert_eq!(ro.clone().args(), expected);
}

fn mounter() -> RspacefsMounter {
    RspacefsMounter {
        mount_bin: "/usr/bin/rspacefs-mount".into(),
    }
}

#[test]
fn mounting_runs_the_mount_program() {
    let c = mounter().mount_command(&spec());
    assert_eq!(c.program, "/usr/bin/rspacefs-mount");
    assert_eq!(c.args, spec().args());
}

#[test]
fn a_mount_fails_as_its_program_does() {
    let exit = |success, status: &str, stderr: &[u8]| {
        Ok(Exit {
            success,
            status: status.into(),
            stderr: stderr.to_vec(),
        })
    };
    assert!(mounter().mounted(exit(true, "exit status: 0", b"")).is_ok());
    let e = mounter()
        .mounted(exit(false, "exit status: 1", b"  fuse: no device\xff\n"))
        .unwrap_err();
    assert_eq!(
        e.message(),
        "rspacefs-mount exited exit status: 1: fuse: no device\u{fffd}"
    );
    let e = mounter().mounted(Err("not found".into())).unwrap_err();
    assert_eq!(e.message(), "io: not found");
    assert!(matches!(e, MountError::Io(_)));
}

fn unmount(present: bool, outcomes: &[bool]) -> (Vec<String>, Result<(), MountError>) {
    let mut tried = Vec::new();
    let mut ran = Vec::new();
    loop {
        match mounter().unmount("/t", present, &tried) {
            UnmountStep::Run(c) => {
                ran.push(format!("{} {}", c.program, c.args.join(" ")));
                tried.push(outcomes[tried.len()]);
            }
            UnmountStep::Done(r) => return (ran, r),
        }
    }
}

#[test]
fn unmounting_tries_each_program_in_turn() {
    let (ran, r) = unmount(true, &[true]);
    assert_eq!(ran, ["fusermount3 -u /t"]);
    assert!(r.is_ok());
    let (ran, r) = unmount(true, &[false, false, true]);
    assert_eq!(ran, ["fusermount3 -u /t", "fusermount -u /t", "umount /t"]);
    assert!(r.is_ok());
    let (ran, r) = unmount(true, &[false, false, false]);
    assert_eq!(ran.len(), 3);
    assert_eq!(r.unwrap_err().message(), "could not unmount /t");
}

#[test]
fn unmounting_what_is_gone_does_nothing() {
    let (ran, r) = unmount(false, &[]);
    assert!(ran.is_empty());
    assert!(r.is_ok());
}
