//! What the services ask of the world, and what the world answers.

use crate::client::LayerRef;
use crate::control::{CaptureData, ControlError};
use crate::mount::{MountError, MountSpec, MountSpecView};
use crate::registry::RegistryError;
use vstd::prelude::*;

verus! {

/// What a step of a service asks for.
pub enum Effect {
    /// Find the layers of a seed.
    Resolve { seed: String },
    /// Pull the layers of a seed into a directory.
    Pull { seed: String, dir: String },
    /// Push a captured layer as a new revision.
    Push { target_ref: String, blob_path: String, layer_digest: String, layer_size: u64 },
    /// Freeze the upper of the mount behind a control socket into a file.
    Capture { socket: String, out_path: String },
    /// Make a directory and those above it.
    CreateDir { path: String },
    /// Make the directory that a file is in and those above it.
    CreateParent { path: String },
    ReadFile { path: String },
    WriteFile { path: String, bytes: Vec<u8> },
    RemoveFile { path: String },
    RemoveDir { path: String },
    /// Find out whether a file is there.
    Probe { path: String },
    Mount { spec: MountSpec },
    Unmount { target: String },
    /// Read the time.
    Clock,
}

/// What an [`Effect`] says.
pub enum EffectView {
    Resolve { seed: Seq<char> },
    Pull { seed: Seq<char>, dir: Seq<char> },
    Push { target_ref: Seq<char>, blob_path: Seq<char>, layer_digest: Seq<char>, layer_size: u64 },
    Capture { socket: Seq<char>, out_path: Seq<char> },
    CreateDir { path: Seq<char> },
    CreateParent { path: Seq<char> },
    ReadFile { path: Seq<char> },
    WriteFile { path: Seq<char>, bytes: Seq<u8> },
    RemoveFile { path: Seq<char> },
    RemoveDir { path: Seq<char> },
    Probe { path: Seq<char> },
    Mount { spec: MountSpecView },
    Unmount { target: Seq<char> },
    Clock,
}

impl View for Effect {
    type V = EffectView;

    open spec fn view(&self) -> EffectView {
        match self {
            Effect::Resolve { seed } => EffectView::Resolve { seed: seed@ },
            Effect::Pull { seed, dir } => EffectView::Pull { seed: seed@, dir: dir@ },
            Effect::Push { target_ref, blob_path, layer_digest, layer_size } => EffectView::Push {
                target_ref: target_ref@,
                blob_path: blob_path@,
                layer_digest: layer_digest@,
                layer_size: *layer_size,
            },
            Effect::Capture { socket, out_path } => EffectView::Capture {
                socket: socket@,
                out_path: out_path@,
            },
            Effect::CreateDir { path } => EffectView::CreateDir { path: path@ },
            Effect::CreateParent { path } => EffectView::CreateParent { path: path@ },
            Effect::ReadFile { path } => EffectView::ReadFile { path: path@ },
            Effect::WriteFile { path, bytes } => EffectView::WriteFile {
                path: path@,
                bytes: bytes@,
            },
            Effect::RemoveFile { path } => EffectView::RemoveFile { path: path@ },
            Effect::RemoveDir { path } => EffectView::RemoveDir { path: path@ },
            Effect::Probe { path } => EffectView::Probe { path: path@ },
            Effect::Mount { spec } => EffectView::Mount { spec: spec@ },
            Effect::Unmount { target } => EffectView::Unmount { target: target@ },
            Effect::Clock => EffectView::Clock,
        }
    }
}

/// What came of an [`Effect`]; errors of the system come in words.
pub enum Reply {
    /// Of [`Effect::Resolve`].
    Resolved(Result<Vec<LayerRef>, RegistryError>),
    /// Of [`Effect::Pull`]: the files of the layers, top first.
    Pulled(Result<Vec<String>, RegistryError>),
    /// Of [`Effect::Push`]: the reference of the revision.
    Pushed(Result<String, RegistryError>),
    /// Of [`Effect::Capture`].
    Captured(Result<CaptureData, ControlError>),
    /// Of the steps on files and directories that only succeed or fail.
    Done(Result<(), String>),
    /// Of [`Effect::ReadFile`]: nothing where the file cannot be read.
    Contents(Option<Vec<u8>>),
    /// Of [`Effect::Probe`].
    Present(bool),
    /// Of [`Effect::Mount`] and [`Effect::Unmount`].
    Mounted(Result<(), MountError>),
    /// Of [`Effect::Clock`]: the time since 1970.
    Time { seconds: u64, nanos: u32 },
}

} // verus!
