use rspacefs_csi::map::ParamMap;
use rspacefs_csi::params::{AccessMode, Lifecycle, PvcParams};

fn map(entries: &[(&str, &str)]) -> ParamMap {
    let mut m = ParamMap::new();
    for (k, v) in entries {
        m.insert(k.to_string(), v.to_string());
    }
    m
}

#[test]
fn params_parse_full() {
    let m = map(&[
        (
            "seed",
            "qregistry.local/pvcs/db:rev1, qregistry.local/pvcs/base:v2",
        ),
        ("accessMode", "rwo"),
        ("lifecycle", "ephemeral-then-persistent"),
        ("owner", "1000:1000"),
        ("captureOnDelete", "true"),
    ]);
    let p = PvcParams::parse(&m).unwrap();
    assert_eq!(p.seeds.len(), 2);
    assert_eq!(p.access_mode, Some(AccessMode::Rwo));
    assert_eq!(p.lifecycle, Some(Lifecycle::EphemeralThenPersistent));
    assert_eq!(p.owner.as_deref(), Some("1000:1000"));
    assert!(p.capture_on_delete);
}

#[test]
fn params_reject_bad_access_mode() {
    let m = map(&[("accessMode", "bogus")]);
    assert!(PvcParams::parse(&m).is_err());
}

#[test]
fn capture_repo_derived_from_seed() {
    let m = map(&[("seed", "qregistry.local/pvcs/db:rev1")]);
    let p = PvcParams::parse(&m).unwrap();
    assert_eq!(
        p.resolved_capture_repo().as_deref(),
        Some("qregistry.local/pvcs/db")
    );
}

#[test]
fn capture_repo_explicit_wins() {
    let m = map(&[
        ("seed", "qregistry.local/pvcs/db:rev1"),
        ("captureRepo", "qregistry.local/snaps/db"),
    ]);
    let p = PvcParams::parse(&m).unwrap();
    assert_eq!(
        p.resolved_capture_repo().as_deref(),
        Some("qregistry.local/snaps/db")
    );
}

#[test]
fn modes_have_several_names() {
    for (s, mode) in [
        ("empty", AccessMode::Empty),
        (" RO ", AccessMode::Ro),
        ("ReadOnly", AccessMode::Ro),
        ("rwo", AccessMode::Rwo),
        ("readWriteOnce", AccessMode::Rwo),
        ("\trwx\n", AccessMode::Rwx),
        ("ReadWriteMany", AccessMode::Rwx),
    ] {
        assert_eq!(AccessMode::parse(s), Some(mode), "{s:?}");
        assert_eq!(AccessMode::parse(mode.as_flag()), Some(mode));
    }
    assert_eq!(AccessMode::parse(""), None);
    for (s, lifecycle) in [
        ("Persistent", Lifecycle::Persistent),
        ("ephemeral ", Lifecycle::Ephemeral),
        ("EphemeralThenPersistent", Lifecycle::EphemeralThenPersistent),
        (
            "ephemeral-then-persistent",
            Lifecycle::EphemeralThenPersistent,
        ),
    ] {
        assert_eq!(Lifecycle::parse(s), Some(lifecycle), "{s:?}");
        assert_eq!(Lifecycle::parse(lifecycle.as_flag()), Some(lifecycle));
    }
    assert_eq!(Lifecycle::parse("forever"), None);
}

#[test]
fn errors_name_the_key_and_the_value() {
    let e = PvcParams::parse(&map(&[("accessMode", "bo\"gus")])).unwrap_err();
    assert_eq!(
        e.message(),
        "invalid accessMode \"bo\\\"gus\": expected empty|ro|rwo|rwx"
    );
    let e = PvcParams::parse(&map(&[("lifecycle", "x")])).unwrap_err();
    assert_eq!(
        e.message(),
        "invalid lifecycle \"x\": expected persistent|ephemeral|ephemeral-then-persistent"
    );
}

#[test]
fn flags_and_unknown_keys() {
    for (v, on) in [
        ("true", true),
        ("TRUE", true),
        ("1", true),
        ("yes", false),
        ("0", false),
        (" true", false),
        ("", false),
    ] {
        let p = PvcParams::parse(&map(&[("captureOnDelete", v), ("other", "x")])).unwrap();
        assert_eq!(p.capture_on_delete, on, "{v:?}");
    }
    let p = PvcParams::parse(&map(&[("seedling", "r.io/a")])).unwrap();
    assert!(p.seeds.is_empty());
}

#[test]
fn seeds_are_separated_by_commas_or_whitespace() {
    let p = PvcParams::parse(&map(&[("seed", " a,,b\tc\n d ,\u{a0}")])).unwrap();
    assert_eq!(p.seeds, ["a", "b", "c", "d"]);
    let p = PvcParams::parse(&map(&[("seed", " , ")])).unwrap();
    assert!(p.seeds.is_empty());
}

#[test]
fn a_carriage_return_separates_seeds() {
    let p = PvcParams::parse(&map(&[("seed", "r.local/a:1\rr.local/b:2")])).unwrap();
    assert_eq!(p.seeds, ["r.local/a:1", "r.local/b:2"]);
    let p = PvcParams::parse(&map(&[("seed", "a\r\nb\u{b}c\u{2003}d\u{85}e\u{a0}f")])).unwrap();
    assert_eq!(p.seeds, ["a", "b", "c", "d", "e", "f"]);
}

#[test]
fn the_context_reads_back() {
    let p = PvcParams::parse(&map(&[
        ("seed", "r.io/a:1 r.io/b@sha256:2"),
        ("accessMode", "ReadWriteMany"),
        ("lifecycle", "persistent"),
        ("owner", "0:0"),
        ("captureOnDelete", "1"),
        ("captureRepo", "r.io/c"),
    ]))
    .unwrap();
    let c = p.to_volume_context();
    assert_eq!(c.get("seed").unwrap(), "r.io/a:1,r.io/b@sha256:2");
    assert_eq!(c.get("accessMode").unwrap(), "rwx");
    assert_eq!(c.get("captureOnDelete").unwrap(), "true");
    let q = PvcParams::parse(&c).unwrap();
    assert_eq!(q.seeds, p.seeds);
    assert_eq!(q.access_mode, p.access_mode);
    assert_eq!(q.lifecycle, p.lifecycle);
    assert_eq!(q.owner, p.owner);
    assert_eq!(q.capture_on_delete, p.capture_on_delete);
    assert_eq!(q.capture_repo, p.capture_repo);
    assert!(PvcParams::default()
        .to_volume_context()
        .entries()
        .is_empty());
    assert_eq!(p.clone().seeds, p.seeds);
}

#[test]
fn capture_repo_of_other_seeds() {
    for (seed, repo) in [
        ("r.io/a@sha256:1", "r.io/a"),
        ("r.io:5000/a", "r.io:5000/a"),
        ("r.io:5000/a:t", "r.io:5000/a"),
        ("r.io/a:t@sha256:1", "r.io/a"),
        ("plain:t", "plain:t"),
    ] {
        let p = PvcParams::parse(&map(&[("seed", seed)])).unwrap();
        assert_eq!(p.resolved_capture_repo().as_deref(), Some(repo));
    }
    assert_eq!(PvcParams::default().resolved_capture_repo(), None);
}

#[test]
fn maps_keep_the_last_value_and_survive_json() {
    let mut m = map(&[("k", "1"), ("é\n\"", "ü"), ("k", "2")]);
    assert_eq!(m.entries().len(), 2);
    assert_eq!(m.get("k").unwrap(), "2");
    assert!(m.get("none").is_none());
    let json = m.encode();
    assert!(!json.contains(&b'\n'));
    let back = ParamMap::decode(&json).unwrap();
    assert_eq!(back.get("k").unwrap(), "2");
    assert_eq!(back.get("é\n\"").unwrap(), "ü");
    assert_eq!(back.entries().len(), 2);
    assert_eq!(m.clone().encode(), json);
    m.insert("z".into(), "3".into());
    assert_ne!(m.encode(), json);
    assert!(ParamMap::decode(b"[]").is_none());
    assert!(ParamMap::decode(br#"{"a":1}"#).is_none());
    assert!(ParamMap::decode(b"").is_none());
}
