use rspacefs_csi::control::{
    CaptureData, ControlEffect, ControlError, ControlReply, Envelope, SocketControl,
};
use rspacefs_csi::status::Progress;
use serde_json::Value;

/// A daemon that answers with one line.
fn exchange(out_path: &str, answer: &str) -> (Vec<u8>, Result<CaptureData, ControlError>) {
    let mut sent = Vec::new();
    let mut p = Progress::Next(SocketControl.capture("/run/ctl.sock", out_path));
    loop {
        p = match p {
            Progress::Done(r) => return (sent, r),
            Progress::Next(m) => {
                let reply = match m.effect() {
                    ControlEffect::Connect { socket } => {
                        assert_eq!(socket, "/run/ctl.sock");
                        ControlReply::Connected(Ok(()))
                    }
                    ControlEffect::Send { line } => {
                        sent = line;
                        ControlReply::Sent(Ok(()))
                    }
                    ControlEffect::Receive => {
                        ControlReply::Received(Ok((answer.len(), answer.to_string())))
                    }
                    ControlEffect::Decode { body } => ControlReply::Decoded(decode(&body)),
                };
                m.resume(reply)
            }
        };
    }
}

fn decode(body: &str) -> Result<Envelope<CaptureData>, String> {
    let v: Value = serde_json::from_str(body).map_err(|e| e.to_string())?;
    let data = v.get("data").map(|d| CaptureData {
        out_path: d["out_path"].as_str().unwrap().into(),
        digest: d["digest"].as_str().unwrap().into(),
        bytes_compressed: d["bytes_compressed"].as_u64().unwrap(),
        entries: d["entries"].as_u64().unwrap() as usize,
    });
    Ok(Envelope {
        ok: v["ok"].as_bool().unwrap(),
        data,
        error: v.get("error").map(|e| e.as_str().unwrap().to_string()),
    })
}

#[test]
fn socket_control_capture_roundtrip() {
    let (sent, data) = exchange(
        "/staging/out.tar.zst",
        "{\"ok\":true,\"data\":{\"out_path\":\"/staging/out.tar.zst\",\"digest\":\"sha256:beef\",\"bytes_compressed\":42,\"entries\":7}}\n",
    );
    let line = String::from_utf8(sent).unwrap();
    assert!(line.ends_with('\n'));
    let req: Value = serde_json::from_str(line.trim()).unwrap();
    assert_eq!(req["cmd"], "capture-layer");
    assert_eq!(req["out_path"], "/staging/out.tar.zst");

    let data = data.unwrap();
    assert_eq!(data.digest, "sha256:beef");
    assert_eq!(data.bytes_compressed, 42);
    assert_eq!(data.entries, 7);
}

#[test]
fn socket_control_surfaces_daemon_error() {
    let (_, r) = exchange(
        "/x",
        "{\"ok\":false,\"error\":\"capture-layer is only available on --pvc mounts\"}\n",
    );
    let err = r.unwrap_err();
    assert!(matches!(err, ControlError::Remote(_)));
    assert_eq!(
        err.message(),
        "daemon error: capture-layer is only available on --pvc mounts"
    );
}

#[test]
fn a_request_is_one_line() {
    let line = SocketControl.capture_line("/a\nb\"c");
    assert_eq!(line.iter().filter(|b| **b == b'\n').count(), 1);
    assert_eq!(line.last(), Some(&b'\n'));
    let req: Value = serde_json::from_slice(&line).unwrap();
    assert_eq!(req["out_path"], "/a\nb\"c");
}

#[test]
fn answers_that_are_no_success() {
    let (_, r) = exchange("/x", "{\"ok\":false}");
    assert_eq!(
        r.unwrap_err().message(),
        "daemon error: unspecified error"
    );
    let (_, r) = exchange("/x", "{\"ok\":true}");
    assert_eq!(
        r.unwrap_err().message(),
        "malformed response: ok=true but no data"
    );
    let (_, r) = exchange("/x", "");
    assert_eq!(
        r.unwrap_err().message(),
        "daemon closed the connection without responding"
    );
    let (_, r) = exchange("/x", "  oops \n");
    assert_eq!(
        r.unwrap_err().message(),
        "malformed response: expected value at line 1 column 1: oops"
    );
}

#[test]
fn a_broken_connection_ends_the_exchange() {
    let m = SocketControl.capture("/s", "/o");
    let Progress::Done(Err(e)) = m.resume(ControlReply::Connected(Err("refused".into()))) else {
        panic!("over");
    };
    assert_eq!(e.message(), "io connecting to control socket /s: refused");

    let m = SocketControl.capture("/s", "/o");
    let Progress::Next(m) = m.resume(ControlReply::Connected(Ok(()))) else {
        panic!("not over");
    };
    let Progress::Done(Err(e)) = m.resume(ControlReply::Sent(Err("broken pipe".into()))) else {
        panic!("over");
    };
    assert_eq!(e.message(), "io: broken pipe");

    let m = SocketControl.capture("/s", "/o");
    let Progress::Next(m) = m.resume(ControlReply::Connected(Ok(()))) else {
        panic!("not over");
    };
    let Progress::Next(m) = m.resume(ControlReply::Sent(Ok(()))) else {
        panic!("not over");
    };
    let Progress::Done(Err(e)) = m.resume(ControlReply::Received(Err("reset".into()))) else {
        panic!("over");
    };
    assert_eq!(e.message(), "io: reset");
}
