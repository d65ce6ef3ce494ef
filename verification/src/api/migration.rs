//! Live migration of a VM to another node, as the source node runs it: the
//! sessions it tracks, and what each reply of the target node or of the
//! transfer leads to. The transfer itself and every request are made by the
//! caller, which hands back what came of them.
use vstd::prelude::*;

use super::handlers::{AdoptTeleportRequest, ReceiveTeleportRequest, TeleportRequest, TeleportResponse};
use crate::str_map::StrMap;
use crate::state::wal::unix_secs;
use crate::text::{push_str, str_eq, to_owned_string};
use crate::timemachine::{is_uuid_v4_text, new_uuid_v4};

verus! {

/// One migration, as `GET /teleport/status/<session>` reports it. `P` is the
/// transfer's own progress report, carried through unread.
#[derive(Debug, Clone)]
pub struct MigrationSession<P> {
    pub session_id: String,
    pub vm_id: String,
    pub source_node: String,
    pub target_node: String,
    pub status: String,
    pub progress: Option<P>,
    pub started_at: u64,
    pub completed_at: Option<u64>,
}

/// The answer to a status query: the session's fields.
#[derive(Debug, Clone)]
pub struct TeleportStatusResponse<P> {
    pub session_id: String,
    pub vm_id: String,
    pub source_node: String,
    pub target_node: String,
    pub status: String,
    pub progress: Option<P>,
    pub started_at: u64,
    pub completed_at: Option<u64>,
}

/// `b` is `a` with at most its status changed.
pub open spec fn same_but_status<P>(a: MigrationSession<P>, b: MigrationSession<P>) -> bool {
    &&& b.session_id == a.session_id
    &&& b.vm_id == a.vm_id
    &&& b.source_node == a.source_node
    &&& b.target_node == a.target_node
    &&& b.progress == a.progress
    &&& b.started_at == a.started_at
    &&& b.completed_at == a.completed_at
}

/// A session of a migration from this node that has made no progress yet,
/// whatever its status.
pub open spec fn fresh_session<P>(s: MigrationSession<P>, session_id: Seq<char>, vm_id: Seq<char>, target: Seq<char>, started_at: u64) -> bool {
    &&& s.session_id@ == session_id
    &&& s.vm_id@ == vm_id
    &&& s.source_node@ == "local"@
    &&& s.target_node@ == target
    &&& s.progress is None
    &&& s.started_at == started_at
    &&& s.completed_at is None
}

/// The session a migration starts with.
pub open spec fn initial_session<P>(s: MigrationSession<P>, session_id: Seq<char>, vm_id: Seq<char>, target: Seq<char>, started_at: u64) -> bool {
    &&& fresh_session(s, session_id, vm_id, target, started_at)
    &&& s.status@ == "initiating"@
}

/// The URL of an endpoint of the daemon on another node.
pub open spec fn node_url(node: Seq<char>, endpoint: Seq<char>) -> Seq<char> {
    "http://"@ + node + ":3000/"@ + endpoint
}

fn node_endpoint(node: &str, endpoint: &str) -> (u: String)
    ensures
        u@ == node_url(node@, endpoint@),
{
    let mut u = to_owned_string("http://");
    push_str(&mut u, node);
    push_str(&mut u, ":3000/");
    push_str(&mut u, endpoint);
    proof {
        assert(u@ =~= node_url(node@, endpoint@));
    }
    u
}

/// Where the target node is asked to get ready for the VM.
pub fn receive_teleport_url(target: &str) -> (u: String)
    ensures
        u@ == node_url(target@, "receive-teleport"@),
{
    node_endpoint(target, "receive-teleport")
}

/// Where the target node is asked to adopt the VM once it has arrived.
pub fn adopt_teleported_url(target: &str) -> (u: String)
    ensures
        u@ == node_url(target@, "adopt-teleported-vm"@),
{
    node_endpoint(target, "adopt-teleported-vm")
}

/// How the target node answered the request to get ready for the VM.
#[derive(Debug, Clone)]
pub enum TargetReply {
    /// The request could not be delivered.
    Unreachable { error: String },
    /// The target answered with a failure; `detail` renders its reply body.
    Refused { detail: String },
    Ready,
}

/// What the source node does once the transfer has ended.
#[derive(Debug, Clone, Copy, PartialEq, Eq, Structural)]
pub enum TransferFollowUp {
    /// Pause the source VM, drop it from the registry, and ask the target to
    /// adopt it.
    HandOver,
    /// Resume the source VM, which stays here.
    ResumeSource,
}

/// After a transfer: a VM that arrived is handed over, one that did not is
/// resumed here.
pub fn transfer_follow_up(succeeded: bool) -> (f: TransferFollowUp)
    ensures
        succeeded <==> f == TransferFollowUp::HandOver,
        !succeeded <==> f == TransferFollowUp::ResumeSource,
{
    if succeeded {
        TransferFollowUp::HandOver
    } else {
        TransferFollowUp::ResumeSource
    }
}

/// `POST /adopt-teleported-vm` on the target: the VM's directory must have
/// arrived.
pub fn check_adoptable(req: &AdoptTeleportRequest, dir_exists: bool) -> (r: Result<(), (u16, String)>)
    ensures
        dir_exists <==> r is Ok,
        !dir_exists ==> (r matches Err(e) && e.0 == 404 && e.1@ == "VM directory not found for "@ + req.vm_id@),
{
    if dir_exists {
        Ok(())
    } else {
        let mut m = to_owned_string("VM directory not found for ");
        push_str(&mut m, req.vm_id.as_str());
        Err((404, m))
    }
}

/// An arrived VM that the hypervisor does not report as running is resumed
/// before it is adopted.
pub fn adopted_vm_needs_resume(hypervisor_state: &str) -> (b: bool)
    ensures
        b <==> hypervisor_state@ != "Running"@,
{
    !str_eq(hypervisor_state, "Running")
}

/// The answer once the target has adopted the VM.
pub fn adopted_response(req: &AdoptTeleportRequest) -> (r: TeleportResponse)
    ensures
        r.session_id == req.vm_id,
        r.status@ == "adopted"@,
        r.message@ == "VM "@ + req.vm_id@ + " adopted successfully"@,
{
    let mut m = to_owned_string("VM ");
    push_str(&mut m, req.vm_id.as_str());
    push_str(&mut m, " adopted successfully");
    TeleportResponse { session_id: req.vm_id.clone(), status: to_owned_string("adopted"), message: m }
}

/// What came of getting the target's hypervisor ready to receive.
#[derive(Debug, Clone)]
pub enum ReceiveOutcome {
    HypervisorFailed { error: String },
    ReceiveModeFailed { error: String },
    Listening,
}

/// `POST /receive-teleport` on the target: its answer for each outcome.
pub fn receive_teleport_reply(req: &ReceiveTeleportRequest, outcome: ReceiveOutcome) -> (r: Result<String, (u16, String)>)
    ensures
        outcome matches ReceiveOutcome::HypervisorFailed { error } ==> (r matches Err(e) && e.0 == 500
            && e.1@ == "Failed to start Cloud Hypervisor: "@ + error@),
        outcome matches ReceiveOutcome::ReceiveModeFailed { error } ==> (r matches Err(e) && e.0 == 500
            && e.1@ == "Failed to set receive-migration mode: "@ + error@),
        outcome is Listening ==> (r matches Ok(m)
            && m@ == "Cloud Hypervisor ready to receive VM "@ + req.vm_id@ + " on TCP port 9000"@),
{
    match outcome {
        ReceiveOutcome::HypervisorFailed { error } => {
            let mut m = to_owned_string("Failed to start Cloud Hypervisor: ");
            push_str(&mut m, error.as_str());
            Err((500, m))
        },
        ReceiveOutcome::ReceiveModeFailed { error } => {
            let mut m = to_owned_string("Failed to set receive-migration mode: ");
            push_str(&mut m, error.as_str());
            Err((500, m))
        },
        ReceiveOutcome::Listening => {
            let mut m = to_owned_string("Cloud Hypervisor ready to receive VM ");
            push_str(&mut m, req.vm_id.as_str());
            push_str(&mut m, " on TCP port 9000");
            Ok(m)
        },
    }
}

/// The migration sessions of this node, by session id. Sessions are never
/// dropped: a finished one keeps answering status queries.
pub struct MigrationSessions<P> {
    sessions: StrMap<MigrationSession<P>>,
}

impl<P> View for MigrationSessions<P> {
    type V = Map<Seq<char>, MigrationSession<P>>;

    closed spec fn view(&self) -> Map<Seq<char>, MigrationSession<P>> {
        self.sessions@
    }
}

impl<P> MigrationSessions<P> {
    pub closed spec fn wf(&self) -> bool {
        self.sessions.wf()
    }

    pub fn new() -> (m: Self)
        ensures
            m.wf(),
            m@ == Map::<Seq<char>, MigrationSession<P>>::empty(),
    {
        MigrationSessions { sessions: StrMap::new() }
    }

    /// Opens a session in status `initiating`.
    pub fn begin(&mut self, session_id: &str, vm_id: &str, target: &str, started_at: u64)
        requires
            old(self).wf(),
        ensures
            final(self).wf(),
            final(self)@.dom() == old(self)@.dom().insert(session_id@),
            forall|k: Seq<char>| k != session_id@ ==> #[trigger] final(self)@.get(k) == old(self)@.get(k),
            initial_session(final(self)@[session_id@], session_id@, vm_id@, target@, started_at),
    {
        let s = MigrationSession {
            session_id: to_owned_string(session_id),
            vm_id: to_owned_string(vm_id),
            source_node: to_owned_string("local"),
            target_node: to_owned_string(target),
            status: to_owned_string("initiating"),
            progress: None,
            started_at,
            completed_at: None,
        };
        self.sessions.insert(session_id, s);
    }

    /// Sets the status of a session; an unknown session is left alone.
    pub fn set_status(&mut self, session_id: &str, status: &str)
        requires
            old(self).wf(),
        ensures
            final(self).wf(),
            final(self)@.dom() == old(self)@.dom(),
            forall|k: Seq<char>| k != session_id@ ==> #[trigger] final(self)@.get(k) == old(self)@.get(k),
            old(self)@.contains_key(session_id@) ==> {
                &&& same_but_status(old(self)@[session_id@], final(self)@[session_id@])
                &&& final(self)@[session_id@].status@ == status@
            },
    {
        let ghost m0 = self.sessions@;
        match self.sessions.remove(session_id) {
            Some(mut s) => {
                s.status = to_owned_string(status);
                self.sessions.insert(session_id, s);
            },
            None => {
                assert(m0.remove(session_id@) =~= m0);
            },
        }
        assert(self.sessions@.dom() =~= m0.dom());
    }

    /// Records a progress report of the transfer, whose status becomes the
    /// session's.
    pub fn record_progress(&mut self, session_id: &str, status: String, progress: P)
        requires
            old(self).wf(),
        ensures
            final(self).wf(),
            final(self)@.dom() == old(self)@.dom(),
            forall|k: Seq<char>| k != session_id@ ==> #[trigger] final(self)@.get(k) == old(self)@.get(k),
            old(self)@.contains_key(session_id@) ==> {
                let (a, b) = (old(self)@[session_id@], final(self)@[session_id@]);
                &&& b.status == status
                &&& b.progress == Some(progress)
                &&& b.session_id == a.session_id && b.vm_id == a.vm_id
                &&& b.source_node == a.source_node && b.target_node == a.target_node
                &&& b.started_at == a.started_at && b.completed_at == a.completed_at
            },
    {
        let ghost m0 = self.sessions@;
        match self.sessions.remove(session_id) {
            Some(mut s) => {
                s.status = status;
                s.progress = Some(progress);
                self.sessions.insert(session_id, s);
            },
            None => {
                assert(m0.remove(session_id@) =~= m0);
            },
        }
        assert(self.sessions@.dom() =~= m0.dom());
    }

    /// Marks a session `completed` at time `now`.
    pub fn complete(&mut self, session_id: &str, now: u64)
        requires
            old(self).wf(),
        ensures
            final(self).wf(),
            final(self)@.dom() == old(self)@.dom(),
            forall|k: Seq<char>| k != session_id@ ==> #[trigger] final(self)@.get(k) == old(self)@.get(k),
            old(self)@.contains_key(session_id@) ==> {
                let (a, b) = (old(self)@[session_id@], final(self)@[session_id@]);
                &&& b.status@ == "completed"@
                &&& b.completed_at == Some(now)
                &&& b.session_id == a.session_id && b.vm_id == a.vm_id
                &&& b.source_node == a.source_node && b.target_node == a.target_node
                &&& b.progress == a.progress && b.started_at == a.started_at
            },
    {
        let ghost m0 = self.sessions@;
        match self.sessions.remove(session_id) {
            Some(mut s) => {
                s.status = to_owned_string("completed");
                s.completed_at = Some(now);
                self.sessions.insert(session_id, s);
            },
            None => {
                assert(m0.remove(session_id@) =~= m0);
            },
        }
        assert(self.sessions@.dom() =~= m0.dom());
    }

    /// `POST /teleport`, first step: opens the session, and fails it at once
    /// with 404 when the VM does not run on this node.
    pub fn begin_teleport(&mut self, session_id: &str, req: &TeleportRequest, started_at: u64, vm_found: bool) -> (r: Result<(), (u16, String)>)
        requires
            old(self).wf(),
        ensures
            final(self).wf(),
            final(self)@.dom() == old(self)@.dom().insert(session_id@),
            forall|k: Seq<char>| k != session_id@ ==> #[trigger] final(self)@.get(k) == old(self)@.get(k),
            fresh_session(final(self)@[session_id@], session_id@, req.vm_id@, req.target_node_ip@, started_at),
            vm_found <==> r is Ok,
            vm_found ==> final(self)@[session_id@].status@ == "initiating"@,
            !vm_found ==> final(self)@[session_id@].status@ == "failed"@,
            !vm_found ==> (r matches Err(e) && e.0 == 404 && e.1@ == "VM not found"@),
    {
        self.begin(session_id, req.vm_id.as_str(), req.target_node_ip.as_str(), started_at);
        if vm_found {
            Ok(())
        } else {
            self.set_status(session_id, "failed");
            Err((404, to_owned_string("VM not found")))
        }
    }

    /// `POST /teleport`, first step, with a fresh UUID as session id and the
    /// current time as start: as `begin_teleport`.
    pub fn open_teleport(&mut self, req: &TeleportRequest, vm_found: bool) -> (r: (String, Result<(), (u16, String)>))
        requires
            old(self).wf(),
        ensures
            final(self).wf(),
            is_uuid_v4_text(r.0@),
            final(self)@.dom() == old(self)@.dom().insert(r.0@),
            forall|k: Seq<char>| k != r.0@ ==> #[trigger] final(self)@.get(k) == old(self)@.get(k),
            fresh_session(final(self)@[r.0@], r.0@, req.vm_id@, req.target_node_ip@, final(self)@[r.0@].started_at),
            vm_found <==> r.1 is Ok,
            vm_found ==> final(self)@[r.0@].status@ == "initiating"@,
            !vm_found ==> final(self)@[r.0@].status@ == "failed"@,
            !vm_found ==> (r.1 matches Err(e) && e.0 == 404 && e.1@ == "VM not found"@),
    {
        let session_id = new_uuid_v4();
        let started_at = unix_secs();
        let res = self.begin_teleport(session_id.as_str(), req, started_at, vm_found);
        (session_id, res)
    }

    /// What the target's answer to the request to get ready leads to: a
    /// target that cannot be reached or refuses fails the migration.
    pub fn on_target_reply(&mut self, session_id: &str, reply: TargetReply) -> (r: Result<(), (u16, String)>)
        requires
            old(self).wf(),
        ensures
            final(self).wf(),
            final(self)@.dom() == old(self)@.dom(),
            forall|k: Seq<char>| k != session_id@ ==> #[trigger] final(self)@.get(k) == old(self)@.get(k),
            reply is Ready <==> r is Ok,
            reply is Ready ==> final(self)@ == old(self)@,
            !(reply is Ready) && old(self)@.contains_key(session_id@) ==> {
                &&& same_but_status(old(self)@[session_id@], final(self)@[session_id@])
                &&& final(self)@[session_id@].status@ == "failed"@
            },
            reply matches TargetReply::Unreachable { error } ==> (r matches Err(e) && e.0 == 500
                && e.1@ == "Target node unreachable: "@ + error@),
            reply matches TargetReply::Refused { detail } ==> (r matches Err(e) && e.0 == 500
                && e.1@ == "Target node refused: "@ + detail@),
    {
        match reply {
            TargetReply::Unreachable { error } => {
                self.set_status(session_id, "failed");
                let mut m = to_owned_string("Target node unreachable: ");
                push_str(&mut m, error.as_str());
                Err((500, m))
            },
            TargetReply::Refused { detail } => {
                self.set_status(session_id, "failed");
                let mut m = to_owned_string("Target node refused: ");
                push_str(&mut m, detail.as_str());
                Err((500, m))
            },
            TargetReply::Ready => Ok(()),
        }
    }

    /// Once the transfer has been launched: the session is `in_progress`,
    /// and so says the answer to `POST /teleport`.
    pub fn migration_launched(&mut self, session_id: &str) -> (r: TeleportResponse)
        requires
            old(self).wf(),
        ensures
            final(self).wf(),
            final(self)@.dom() == old(self)@.dom(),
            forall|k: Seq<char>| k != session_id@ ==> #[trigger] final(self)@.get(k) == old(self)@.get(k),
            old(self)@.contains_key(session_id@) ==> {
                &&& same_but_status(old(self)@[session_id@], final(self)@[session_id@])
                &&& final(self)@[session_id@].status@ == "in_progress"@
            },
            r.session_id@ == session_id@,
            r.status@ == "in_progress"@,
            r.message@ == "Live migration initiated"@,
    {
        self.set_status(session_id, "in_progress");
        TeleportResponse {
            session_id: to_owned_string(session_id),
            status: to_owned_string("in_progress"),
            message: to_owned_string("Live migration initiated"),
        }
    }

    /// Records the end of the transfer, after its follow-up was carried out:
    /// `completed` at `now`, or `failed`.
    pub fn on_transfer_finished(&mut self, session_id: &str, succeeded: bool, now: u64)
        requires
            old(self).wf(),
        ensures
            final(self).wf(),
            final(self)@.dom() == old(self)@.dom(),
            forall|k: Seq<char>| k != session_id@ ==> #[trigger] final(self)@.get(k) == old(self)@.get(k),
            old(self)@.contains_key(session_id@) && succeeded ==> {
                let (a, b) = (old(self)@[session_id@], final(self)@[session_id@]);
                &&& b.status@ == "completed"@
                &&& b.completed_at == Some(now)
                &&& b.session_id == a.session_id && b.vm_id == a.vm_id
                &&& b.source_node == a.source_node && b.target_node == a.target_node
                &&& b.progress == a.progress && b.started_at == a.started_at
            },
            old(self)@.contains_key(session_id@) && !succeeded ==> {
                &&& same_but_status(old(self)@[session_id@], final(self)@[session_id@])
                &&& final(self)@[session_id@].status@ == "failed"@
            },
    {
        if succeeded {
            self.complete(session_id, now);
        } else {
            self.set_status(session_id, "failed");
        }
    }

    /// The end of a transfer as the source node carries it out. A VM that
    /// arrived leaves this node's registry `vms` and is handed over (paused,
    /// and the target asked to adopt it), and its session is `completed` at
    /// `now`; a VM that did not arrive stays in the registry and is resumed,
    /// and its session is `failed`.
    pub fn conclude_transfer<V>(
        &mut self,
        vms: &mut StrMap<V>,
        session_id: &str,
        vm_id: &str,
        succeeded: bool,
        now: u64,
    ) -> (f: TransferFollowUp)
        requires
            old(self).wf(),
            old(vms).wf(),
        ensures
            final(self).wf(),
            final(vms).wf(),
            succeeded <==> f == TransferFollowUp::HandOver,
            !succeeded <==> f == TransferFollowUp::ResumeSource,
            succeeded ==> final(vms)@ == old(vms)@.remove(vm_id@),
            !succeeded ==> final(vms)@ == old(vms)@,
            final(self)@.dom() == old(self)@.dom(),
            forall|k: Seq<char>| k != session_id@ ==> #[trigger] final(self)@.get(k) == old(self)@.get(k),
            old(self)@.contains_key(session_id@) && succeeded ==> {
                let (a, b) = (old(self)@[session_id@], final(self)@[session_id@]);
                &&& b.status@ == "completed"@
                &&& b.completed_at == Some(now)
                &&& b.session_id == a.session_id && b.vm_id == a.vm_id
                &&& b.source_node == a.source_node && b.target_node == a.target_node
                &&& b.progress == a.progress && b.started_at == a.started_at
            },
            old(self)@.contains_key(session_id@) && !succeeded ==> {
                &&& same_but_status(old(self)@[session_id@], final(self)@[session_id@])
                &&& final(self)@[session_id@].status@ == "failed"@
            },
    {
        let f = transfer_follow_up(succeeded);
        match f {
            TransferFollowUp::HandOver => {
                vms.remove(vm_id);
            },
            TransferFollowUp::ResumeSource => {},
        }
        self.on_transfer_finished(session_id, succeeded, now);
        f
    }

    /// Records the end of the transfer at the current time.
    pub fn finish_transfer(&mut self, session_id: &str, succeeded: bool)
        requires
            old(self).wf(),
        ensures
            final(self).wf(),
            final(self)@.dom() == old(self)@.dom(),
            forall|k: Seq<char>| k != session_id@ ==> #[trigger] final(self)@.get(k) == old(self)@.get(k),
            old(self)@.contains_key(session_id@) && succeeded ==> {
                let (a, b) = (old(self)@[session_id@], final(self)@[session_id@]);
                &&& b.status@ == "completed"@
                &&& b.completed_at is Some
                &&& b.session_id == a.session_id && b.vm_id == a.vm_id
                &&& b.source_node == a.source_node && b.target_node == a.target_node
                &&& b.progress == a.progress && b.started_at == a.started_at
            },
            old(self)@.contains_key(session_id@) && !succeeded ==> {
                &&& same_but_status(old(self)@[session_id@], final(self)@[session_id@])
                &&& final(self)@[session_id@].status@ == "failed"@
            },
    {
        let now = unix_secs();
        self.on_transfer_finished(session_id, succeeded, now);
    }

    pub fn get(&self, session_id: &str) -> (r: Option<&MigrationSession<P>>)
        requires
            self.wf(),
        ensures
            match r {
                Some(s) => self@.contains_key(session_id@) && *s == self@[session_id@],
                None => !self@.contains_key(session_id@),
            },
    {
        self.sessions.get(session_id)
    }
}

impl<P: Clone> MigrationSessions<P> {
    /// `GET /teleport/status/<session>`: the session's fields, or 404.
    pub fn teleport_status_handler(&self, session_id: &str) -> (r: Result<TeleportStatusResponse<P>, (u16, String)>)
        requires
            self.wf(),
        ensures
            !self@.contains_key(session_id@) ==> (r matches Err(e) && e.0 == 404 && e.1@ == "Session not found"@),
            self@.contains_key(session_id@) ==> (r matches Ok(t) && {
                let s = self@[session_id@];
                &&& t.session_id == s.session_id && t.vm_id == s.vm_id
                &&& t.source_node == s.source_node && t.target_node == s.target_node
                &&& t.status == s.status && t.started_at == s.started_at
                &&& t.completed_at == s.completed_at
                &&& (t.progress is Some <==> s.progress is Some)
                &&& (s.progress matches Some(p) ==> cloned(p, t.progress->0))
            }),
    {
        match self.sessions.get(session_id) {
            Some(s) => {
                let progress = match &s.progress {
                    Some(p) => Some(p.clone()),
                    None => None,
                };
                Ok(TeleportStatusResponse {
                    session_id: s.session_id.clone(),
                    vm_id: s.vm_id.clone(),
                    source_node: s.source_node.clone(),
                    target_node: s.target_node.clone(),
                    status: s.status.clone(),
                    progress,
                    started_at: s.started_at,
                    completed_at: s.completed_at,
                })
            },
            None => Err((404, to_owned_string("Session not found"))),
        }
    }
}

} // verus!
