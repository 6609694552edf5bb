//! A session's persisted sandbox record, and the rules that keep it
//! consistent with the container the runtime reports.
use vstd::prelude::*;
use crate::docker::DockerError;

verus! {

/// Nanoseconds in one second.
pub const NANOS_PER_SEC: u32 = 1_000_000_000;

/// A UTC instant: whole seconds since the Unix epoch and the nanoseconds
/// past them.
#[derive(Clone, Copy, Debug, PartialEq, Eq, Structural)]
pub struct Timestamp {
    pub secs: i64,
    pub nanos: u32,
}

impl Timestamp {
    /// The nanoseconds stay below one second.
    pub open spec fn wf(&self) -> bool {
        self.nanos < NANOS_PER_SEC
    }

    /// The instant `secs` seconds and `nanos` nanoseconds after the epoch,
    /// when `nanos` is below one second.
    pub fn from_parts(secs: i64, nanos: u32) -> (r: Option<Timestamp>)
        ensures
            r is Some <==> nanos < NANOS_PER_SEC,
            r is Some ==> r->Some_0 == (Timestamp { secs, nanos }) && r->Some_0.wf(),
    {
        if nanos < NANOS_PER_SEC {
            Some(Timestamp { secs, nanos })
        } else {
            None
        }
    }
}

/// The persisted record of a session's sandbox: what was intended and what
/// the runtime last reported.
#[derive(Clone, Debug, PartialEq, Eq)]
pub struct SandboxInfo {
    /// Whether the session runs in its container at all.
    pub enabled: bool,
    /// The runtime's identifier, once creation succeeded.
    pub container_id: Option<String>,
    /// The image the container was created from.
    pub image: Option<String>,
    /// The container's name, derived from the session identifier.
    pub container_name: String,
    /// When the container was created.
    pub created_at: Option<Timestamp>,
    /// Whether the agent inside runs with elevated permissions.
    pub yolo_mode: Option<bool>,
}

/// A session: its identifier, its workspace, and its sandbox record.
#[derive(Clone, Debug)]
pub struct Instance {
    pub id: String,
    pub project_path: String,
    pub sandbox_info: Option<SandboxInfo>,
}

/// A session is sandboxed when it holds a record that is enabled.
pub open spec fn sandboxed(info: Option<SandboxInfo>) -> bool {
    match info {
        Some(i) => i.enabled,
        None => false,
    }
}

/// A record never holds a container identifier while disabled.
pub open spec fn record_consistent(info: Option<SandboxInfo>) -> bool {
    match info {
        Some(i) => !i.enabled ==> i.container_id is None,
        None => true,
    }
}

impl Instance {
    /// A session without a sandbox record.
    pub fn new(id: &str, project_path: &str) -> (r: Instance)
        ensures
            r.id@ == id@,
            r.project_path@ == project_path@,
            r.sandbox_info is None,
    {
        Instance { id: String::from_str(id), project_path: String::from_str(project_path), sandbox_info: None }
    }

    pub fn is_sandboxed(&self) -> (r: bool)
        ensures
            r == sandboxed(self.sandbox_info),
    {
        match &self.sandbox_info {
            Some(info) => info.enabled,
            None => false,
        }
    }

    /// Records the outcome of creating the session's container. On success
    /// the record is enabled and holds the new identifier, the image, the
    /// name, the creation time and the permission flag; on failure the
    /// session is left as it was and the error is handed back.
    pub fn record_created(
        &mut self,
        container_name: String,
        image: String,
        outcome: Result<String, DockerError>,
        created_at: Timestamp,
        yolo_mode: Option<bool>,
    ) -> (r: Result<(), DockerError>)
        ensures
            final(self).id == old(self).id,
            final(self).project_path == old(self).project_path,
            r is Ok <==> outcome is Ok,
            record_consistent(old(self).sandbox_info) ==> record_consistent(final(self).sandbox_info),
            outcome is Err ==> *final(self) == *old(self) && r == Err::<(), DockerError>(outcome->Err_0),
            outcome is Ok ==> final(self).sandbox_info == Some(SandboxInfo {
                enabled: true,
                container_id: Some(outcome->Ok_0),
                image: Some(image),
                container_name,
                created_at: Some(created_at),
                yolo_mode,
            }),
    {
        match outcome {
            Ok(id) => {
                self.sandbox_info = Some(SandboxInfo {
                    enabled: true,
                    container_id: Some(id),
                    image: Some(image),
                    container_name,
                    created_at: Some(created_at),
                    yolo_mode,
                });
                Ok(())
            },
            Err(e) => Err(e),
        }
    }

    /// Marks the sandbox as gone once its removal was confirmed: the record
    /// stays, disabled and without a container identifier.
    pub fn clear_sandbox(&mut self)
        ensures
            final(self).id == old(self).id,
            final(self).project_path == old(self).project_path,
            !sandboxed(final(self).sandbox_info),
            record_consistent(final(self).sandbox_info),
            old(self).sandbox_info is None ==> final(self).sandbox_info is None,
            old(self).sandbox_info is Some ==> final(self).sandbox_info is Some && ({
                let a = old(self).sandbox_info->Some_0;
                let b = final(self).sandbox_info->Some_0;
                &&& !b.enabled && b.container_id is None
                &&& b.image == a.image && b.container_name == a.container_name
                &&& b.created_at == a.created_at && b.yolo_mode == a.yolo_mode
            }),
    {
        match self.sandbox_info.take() {
            Some(info) => {
                self.sandbox_info = Some(SandboxInfo {
                    enabled: false,
                    container_id: None,
                    image: info.image,
                    container_name: info.container_name,
                    created_at: info.created_at,
                    yolo_mode: info.yolo_mode,
                });
            },
            None => {},
        }
    }
}

/// A session is sandboxed exactly when it holds an enabled record: never
/// without a record, never with a disabled one.
pub proof fn lemma_sandboxed_iff(info: Option<SandboxInfo>)
    ensures
        sandboxed(info) <==> (info is Some && info->Some_0.enabled),
        info is None ==> !sandboxed(info),
        info is Some && !info->Some_0.enabled ==> !sandboxed(info),
{
}

} // verus!
