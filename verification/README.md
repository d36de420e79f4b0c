# rspacefs-csi

A CSI driver for rspacefs data volumes: layered-filesystem volumes whose lower
layers are seeded from an OCI registry and whose upper can be captured back into
it as a new revision.

- `src/` is the library, verified with Verus. It holds every decision of the
  driver as functions on plain values: parameters and references, the mount
  command line, the client of the registry, the control-socket exchange, and the
  identity, controller and node services. Whatever takes several outside steps
  (a pull, a push, a publish) is a state that says what it wants done next
  (`effect`) and that goes on with what came of it (`resume`).
- `src/outside.rs` holds what the library takes on trust from other crates and
  from `std`.
- `app/` is the program around it: the command line, gRPC, HTTP, files, sockets
  and processes.
- `tests/` runs the library against in-memory stand-ins for the registry, the
  mount daemon and the file system.

## How the RPCs are served

| RPC | What happens |
|---|---|
| `CreateVolume` | The parameters are checked and each seed is resolved; a snapshot as content source becomes a further seed. The volume context carries the parameters and the name to the node. |
| `NodePublishVolume` | The seeds are pulled, digest-verified, and `rspacefs-mount --pvc` mounts them under the upper. The context is recorded for the unpublish. |
| `NodeUnpublishVolume` | With `captureOnDelete` the upper is captured and pushed first; then the volume is unmounted. |
| `CreateSnapshot` | The upper of a volume that is mounted on this host is captured and pushed; the snapshot id is the revision's reference. |
| `DeleteVolume`, `DeleteSnapshot` | Nothing is released on the controller's side. |
| `NodeStageVolume`, `NodeUnstageVolume` | Nothing to do. |
