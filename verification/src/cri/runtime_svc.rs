//! What the service for sandboxes and containers answers.

use vstd::prelude::*;

use crate::cri::convert;
use crate::cri::error::{invalid_argument, to_status, unimpl, Code, Status, StatusView};
use crate::cri::pb;
use crate::manager::containers::{
    ContainerStatus, CreateContainer, RemoveContainer, StartContainer, StopContainer,
};
#[allow(unused_imports)]
use crate::manager::containers::{
    ContainerStatusView, CreateContainerView, CreateCtPhaseView, RemoveContainerView,
    RemoveCtPhaseView, StartContainerView, StartPhaseView, StatusPhaseView, StopContainerView,
};
use crate::manager::facade::OasManager;
use crate::manager::sandboxes::{RemoveSandbox, RunSandbox, StopSandbox};
#[allow(unused_imports)]
use crate::manager::sandboxes::{
    RemovePhaseView, RemoveSandboxView, RunPhaseView, RunSandboxView, StopPhaseView,
    StopSandboxView,
};
use crate::manager::OasError;
use crate::model::Duplicate;
use crate::strmap::StrMap;
use crate::store::StoreError;
use crate::text;
use crate::types::{
    ContainerFilter, ContainerFilterView, ContainerRecord, ContainerRecordView, SandboxFilter,
    SandboxFilterView, SandboxRecord, SandboxRecordView,
};

verus! {

/// The service for sandboxes and containers.
pub struct RuntimeSvc {
    pub mgr: OasManager,
}

/// What the manager gave, or its error as the interface tells it.
pub fn told<T>(r: Result<T, OasError>) -> (s: Result<T, Status>)
    ensures
        match r {
            Ok(t) => s matches Ok(u) && u == t,
            Err(e) => s matches Err(x) && x@ == crate::cri::error::status_of(e@),
        },
{
    match r {
        Ok(t) => Ok(t),
        Err(e) => Err(to_status(e)),
    }
}

/// The range of addresses that a new configuration names: an empty one is none.
pub open spec fn cidr_of(req: pb::UpdateRuntimeConfigRequestView) -> Option<Seq<char>> {
    match req.runtime_config {
        Some(c) => match c.network_config {
            Some(n) => convert::present(n.pod_cidr),
            None => None,
        },
        None => None,
    }
}

/// The range of addresses that a new configuration names.
pub fn pod_cidr(req: &pb::UpdateRuntimeConfigRequest) -> (r: Option<String>)
    ensures
        r.deep_view() == cidr_of(req@),
{
    match &req.runtime_config {
        Some(c) => match &c.network_config {
            Some(n) => convert::opt_string(n.pod_cidr.as_str()),
            None => None,
        },
        None => None,
    }
}

/// The own handler is the only one, and may be left unnamed.
pub open spec fn handler_known(handler: Seq<char>) -> bool {
    handler.len() == 0 || handler == "oas"@
}

/// What a request for a pod asks of the manager, or why it is refused.
pub open spec fn pod_request(req: pb::RunPodSandboxRequestView) -> Result<
    crate::manager::CreateSandboxRequestView,
    StatusView,
> {
    let handler = text::trim(req.runtime_handler);
    if !handler_known(handler) {
        Err(
            StatusView {
                code: Code::InvalidArgument,
                message: "unsupported runtime_handler: "@ + handler,
            },
        )
    } else {
        match req.config {
            None => Err(
                StatusView {
                    code: Code::InvalidArgument,
                    message: "missing pod sandbox config"@,
                },
            ),
            Some(cfg) => match convert::sandbox_request_in(cfg, handler) {
                Ok(q) => Ok(q),
                Err(e) => Err(crate::cri::error::status_of(e)),
            },
        }
    }
}

/// What a request for a container asks of the manager, or why it is refused.
pub open spec fn container_request(req: pb::CreateContainerRequestView) -> Result<
    crate::manager::CreateContainerRequestView,
    StatusView,
> {
    match req.config {
        None => Err(
            StatusView { code: Code::InvalidArgument, message: "missing container config"@ },
        ),
        Some(cfg) => match convert::container_request_in(req.pod_sandbox_id, cfg) {
            Ok(q) => Ok(q),
            Err(e) => Err(crate::cri::error::status_of(e)),
        },
    }
}

/// A listing of sandboxes, outside.
pub open spec fn sandboxes_out(l: Seq<SandboxRecordView>) -> Seq<pb::PodSandboxView> {
    Seq::new(l.len(), |i: int| convert::sandbox_out(l[i]))
}

/// A listing of containers, outside.
pub open spec fn containers_out(l: Seq<ContainerRecordView>) -> Seq<pb::ContainerView> {
    Seq::new(l.len(), |i: int| convert::container_out(l[i]))
}

/// Which containers belong to a sandbox.
pub open spec fn of_sandbox(id: Seq<char>) -> ContainerFilterView {
    ContainerFilterView {
        id: None,
        sandbox_id: Some(id),
        label_selector: Map::empty(),
        state: None,
    }
}

/// Which containers belong to a sandbox.
pub fn containers_of(id: &str) -> (r: ContainerFilter)
    ensures
        r@ == of_sandbox(id@),
{
    ContainerFilter {
        id: None,
        sandbox_id: Some(id.to_owned()),
        label_selector: StrMap::new(),
        state: None,
    }
}

/// Which containers statistics are asked of: those in any state.
pub open spec fn stats_filter_in(f: Option<pb::ContainerStatsFilterView>) -> ContainerFilterView {
    match f {
        None => ContainerFilterView {
            id: None,
            sandbox_id: None,
            label_selector: Map::empty(),
            state: None,
        },
        Some(f) => ContainerFilterView {
            id: convert::present(f.id),
            sandbox_id: convert::present(f.pod_sandbox_id),
            label_selector: f.label_selector,
            state: None,
        },
    }
}

/// Which containers statistics are asked of.
pub fn container_stats_filter(f: &Option<pb::ContainerStatsFilter>) -> (r: ContainerFilter)
    ensures
        r@ == stats_filter_in(f.deep_view()),
{
    match f {
        None => convert::container_filter(None),
        Some(f) => {
            let g = pb::ContainerFilter {
                id: f.id.clone(),
                pod_sandbox_id: f.pod_sandbox_id.clone(),
                state: None,
                label_selector: f.label_selector.duplicate(),
            };
            convert::container_filter(Some(&g))
        },
    }
}

/// Which sandboxes statistics are asked of: those in any state.
pub open spec fn pod_stats_filter_in(f: Option<pb::PodSandboxStatsFilterView>) -> SandboxFilterView {
    match f {
        None => SandboxFilterView {
            id: None,
            pod_uid: None,
            label_selector: Map::empty(),
            state: None,
        },
        Some(f) => SandboxFilterView {
            id: convert::present(f.id),
            pod_uid: None,
            label_selector: f.label_selector,
            state: None,
        },
    }
}

/// Which sandboxes statistics are asked of.
pub fn sandbox_stats_filter(f: &Option<pb::PodSandboxStatsFilter>) -> (r: SandboxFilter)
    ensures
        r@ == pod_stats_filter_in(f.deep_view()),
{
    match f {
        None => convert::sandbox_filter(None),
        Some(f) => {
            let g = pb::PodSandboxFilter {
                id: f.id.clone(),
                state: None,
                label_selector: f.label_selector.duplicate(),
            };
            convert::sandbox_filter(Some(&g))
        },
    }
}

/// A condition that holds, outside.
pub open spec fn condition_out(name: Seq<char>) -> pb::RuntimeConditionView {
    pb::RuntimeConditionView { condition_type: name, status: true, reason: ""@, message: ""@ }
}

/// The conditions of the runtime, and its one handler.
pub open spec fn own_status() -> pb::StatusResponseView {
    pb::StatusResponseView {
        conditions: seq![condition_out("RuntimeReady"@), condition_out("NetworkReady"@)],
        runtime_handlers: seq![
            pb::RuntimeHandlerView {
                name: "oas"@,
                features: Some(
                    pb::RuntimeHandlerFeatures {
                        recursive_read_only_mounts: false,
                        user_namespaces: false,
                    },
                ),
            },
        ],
    }
}

impl RuntimeSvc {
    pub fn new(mgr: OasManager) -> (s: Self)
        ensures
            s.mgr == mgr,
    {
        RuntimeSvc { mgr }
    }

    /// What the runtime calls itself. The version asked for is given back.
    pub fn version(&self, version: String) -> (r: Result<pb::VersionResponse, Status>)
        ensures
            r matches Ok(v) && v@ == (pb::VersionResponseView {
                version: version@,
                runtime_name: crate::manager::own_version().runtime_name,
                runtime_version: crate::manager::own_version().runtime_version,
                runtime_api_version: crate::manager::own_version().runtime_api_version,
            }),
    {
        match self.mgr.version() {
            Ok(v) => Ok(
                pb::VersionResponse {
                    version,
                    runtime_name: v.runtime_name,
                    runtime_version: v.runtime_version,
                    runtime_api_version: v.runtime_api_version,
                },
            ),
            Err(e) => Err(to_status(e)),
        }
    }

    /// The conditions of the runtime, and its one handler.
    pub fn status(&self) -> (r: Result<pb::StatusResponse, Status>)
        ensures
            r matches Ok(s) && s@ == own_status(),
    {
        let s = match self.mgr.status() {
            Ok(s) => s,
            Err(e) => {
                return Err(to_status(e));
            },
        };
        let ghost v = s@.conditions;
        assert(v.len() == 2 && v[0] == crate::manager::holds("RuntimeReady"@) && v[1]
            == crate::manager::holds("NetworkReady"@));
        let mut conditions: Vec<pb::RuntimeCondition> = Vec::new();
        let mut i: usize = 0;
        while i < s.conditions.len()
            invariant
                i <= s.conditions@.len(),
                v == s@.conditions,
                conditions@.len() == i,
                forall|j: int|
                    0 <= j < i ==> (#[trigger] conditions@[j])@ == (pb::RuntimeConditionView {
                        condition_type: v[j].condition_type,
                        status: v[j].status,
                        reason: v[j].reason,
                        message: v[j].message,
                    }),
            decreases s.conditions@.len() - i,
        {
            conditions.push(
                pb::RuntimeCondition {
                    condition_type: s.conditions[i].condition_type.clone(),
                    status: s.conditions[i].status,
                    reason: s.conditions[i].reason.clone(),
                    message: s.conditions[i].message.clone(),
                },
            );
            i = i + 1;
        }
        let runtime_handlers = vec![
            pb::RuntimeHandler {
                name: "oas".to_owned(),
                features: Some(
                    pb::RuntimeHandlerFeatures {
                        recursive_read_only_mounts: false,
                        user_namespaces: false,
                    },
                ),
            },
        ];
        assert(conditions@[0]@ == condition_out("RuntimeReady"@));
        assert(conditions@[1]@ == condition_out("NetworkReady"@));
        assert(conditions.deep_view() =~= own_status().conditions);
        assert(runtime_handlers.deep_view() =~= own_status().runtime_handlers);
        Ok(pb::StatusResponse { conditions, runtime_handlers })
    }

    /// A new configuration is taken note of.
    pub fn update_runtime_config(&self, req: &pb::UpdateRuntimeConfigRequest) -> (r: Result<
        (),
        Status,
    >)
        ensures
            r is Ok,
    {
        let cidr = pod_cidr(req);
        let cidr: Option<&str> = match &cidr {
            Some(c) => Some(c.as_str()),
            None => None,
        };
        told(self.mgr.update_runtime_config(cidr))
    }

    /// The work that a request for a pod makes.
    pub fn run_pod_sandbox(&self, req: &pb::RunPodSandboxRequest) -> (r: Result<
        RunSandbox,
        Status,
    >)
        ensures
            match pod_request(req@) {
                Ok(q) => r matches Ok(m) && m@ == (RunSandboxView {
                    req: q,
                    cfg: self.mgr.cfg@,
                    phase: RunPhaseView::Lock,
                }),
                Err(e) => r matches Err(s) && s@ == e,
            },
    {
        let handler = text::trimmed(req.runtime_handler.as_str());
        if !(text::is_empty(handler.as_str()) || text::same(handler.as_str(), "oas")) {
            let message = text::cat2("unsupported runtime_handler: ", handler.as_str());
            return Err(invalid_argument(message.as_str()));
        }
        match &req.config {
            None => Err(invalid_argument("missing pod sandbox config")),
            Some(cfg) => match convert::sandbox_config_to_create_req(cfg, handler.as_str()) {
                Ok(q) => Ok(self.mgr.run_sandbox(q)),
                Err(e) => Err(to_status(e)),
            },
        }
    }

    /// The work to stop a pod.
    pub fn stop_pod_sandbox(&self, pod_sandbox_id: &str) -> (r: StopSandbox)
        ensures
            r@ == (StopSandboxView { sandbox_id: pod_sandbox_id@, phase: StopPhaseView::Lock }),
    {
        self.mgr.stop_sandbox(pod_sandbox_id)
    }

    /// The work to remove a pod.
    pub fn remove_pod_sandbox(&self, pod_sandbox_id: &str) -> (r: RemoveSandbox)
        ensures
            r@ == (RemoveSandboxView { sandbox_id: pod_sandbox_id@, phase: RemovePhaseView::Lock }),
    {
        self.mgr.remove_sandbox(pod_sandbox_id)
    }

    /// What is told of a pod, once it has been read.
    pub fn pod_sandbox_status(&self, read: Result<SandboxRecord, StoreError>) -> (r: Result<
        pb::PodSandboxStatus,
        Status,
    >)
        ensures
            match read {
                Ok(s) => r matches Ok(t) && t@ == convert::sandbox_status_out(s@),
                Err(e) => r matches Err(t) && t@ == crate::cri::error::status_of(
                    crate::manager::errors::of_store(e@),
                ),
            },
    {
        match self.mgr.sandbox_status(read) {
            Ok(s) => Ok(convert::record_to_sandbox_status(&s)),
            Err(e) => Err(to_status(e)),
        }
    }

    /// What is told of pods, once they have been read.
    pub fn list_pod_sandbox(&self, read: Result<Vec<SandboxRecord>, StoreError>) -> (r: Result<
        Vec<pb::PodSandbox>,
        Status,
    >)
        ensures
            match read {
                Ok(l) => r matches Ok(m) && m.deep_view() == sandboxes_out(l.deep_view()),
                Err(e) => r matches Err(t) && t@ == crate::cri::error::status_of(
                    crate::manager::errors::of_store(e@),
                ),
            },
    {
        let l = match self.mgr.list_sandboxes(read) {
            Ok(l) => l,
            Err(e) => {
                return Err(to_status(e));
            },
        };
        let ghost v = l.deep_view();
        let mut out: Vec<pb::PodSandbox> = Vec::new();
        let mut i: usize = 0;
        while i < l.len()
            invariant
                i <= l@.len(),
                v == l.deep_view(),
                out@.len() == i,
                forall|j: int| 0 <= j < i ==> (#[trigger] out@[j])@ == convert::sandbox_out(v[j]),
            decreases l@.len() - i,
        {
            out.push(convert::record_to_sandbox(&l[i]));
            i = i + 1;
        }
        assert(out.deep_view() =~= sandboxes_out(v));
        Ok(out)
    }

    /// The work that a request for a container makes.
    pub fn create_container(&self, req: &pb::CreateContainerRequest) -> (r: Result<
        CreateContainer,
        Status,
    >)
        ensures
            match container_request(req@) {
                Ok(q) => r matches Ok(m) && m@ == (CreateContainerView {
                    req: q,
                    cfg: self.mgr.cfg@,
                    phase: CreateCtPhaseView::Lock,
                }),
                Err(e) => r matches Err(s) && s@ == e,
            },
    {
        match &req.config {
            None => Err(invalid_argument("missing container config")),
            Some(cfg) => match convert::container_config_to_create_req(
                req.pod_sandbox_id.as_str(),
                cfg,
            ) {
                Ok(q) => Ok(self.mgr.create_container(q)),
                Err(e) => Err(to_status(e)),
            },
        }
    }

    /// The work to start a container.
    pub fn start_container(&self, container_id: &str) -> (r: StartContainer)
        ensures
            r@ == (StartContainerView { container_id: container_id@, phase: StartPhaseView::First }),
    {
        self.mgr.start_container(container_id)
    }

    /// The work to stop a container.
    pub fn stop_container(&self, container_id: &str, timeout: i64) -> (r: StopContainer)
        ensures
            r@ == (StopContainerView {
                container_id: container_id@,
                timeout,
                phase: StartPhaseView::First,
            }),
    {
        self.mgr.stop_container(container_id, timeout)
    }

    /// The work to remove a container.
    pub fn remove_container(&self, container_id: &str) -> (r: RemoveContainer)
        ensures
            r@ == (RemoveContainerView {
                container_id: container_id@,
                phase: RemoveCtPhaseView::First,
            }),
    {
        self.mgr.remove_container(container_id)
    }

    /// The work to ask after a container.
    pub fn container_status(&self, container_id: &str) -> (r: ContainerStatus)
        ensures
            r@ == (ContainerStatusView { container_id: container_id@, phase: StatusPhaseView::Read }),
    {
        self.mgr.container_status(container_id)
    }

    /// What is told of a container that was asked after.
    pub fn container_status_response(&self, found: Result<ContainerRecord, OasError>) -> (r: Result<
        pb::ContainerStatus,
        Status,
    >)
        ensures
            match found {
                Ok(c) => r matches Ok(t) && t@ == convert::container_status_out(c@),
                Err(e) => r matches Err(t) && t@ == crate::cri::error::status_of(e@),
            },
    {
        match found {
            Ok(c) => Ok(convert::record_to_container_status(&c)),
            Err(e) => Err(to_status(e)),
        }
    }

    /// What is told of containers, once they have been read.
    pub fn list_containers(&self, read: Result<Vec<ContainerRecord>, StoreError>) -> (r: Result<
        Vec<pb::Container>,
        Status,
    >)
        ensures
            match read {
                Ok(l) => r matches Ok(m) && m.deep_view() == containers_out(l.deep_view()),
                Err(e) => r matches Err(t) && t@ == crate::cri::error::status_of(
                    crate::manager::errors::of_store(e@),
                ),
            },
    {
        let l = match self.mgr.list_containers(read) {
            Ok(l) => l,
            Err(e) => {
                return Err(to_status(e));
            },
        };
        let ghost v = l.deep_view();
        let mut out: Vec<pb::Container> = Vec::new();
        let mut i: usize = 0;
        while i < l.len()
            invariant
                i <= l@.len(),
                v == l.deep_view(),
                out@.len() == i,
                forall|j: int|
                    0 <= j < i ==> (#[trigger] out@[j])@ == convert::container_out(v[j]),
            decreases l@.len() - i,
        {
            out.push(convert::record_to_container(&l[i]));
            i = i + 1;
        }
        assert(out.deep_view() =~= containers_out(v));
        Ok(out)
    }

    /// Statistics of a container that was asked after.
    pub fn container_stats(&self, found: Result<ContainerRecord, OasError>) -> (r: Result<
        pb::ContainerStats,
        Status,
    >)
        ensures
            match found {
                Ok(c) => r matches Ok(t) && t@ == convert::container_stats_out(c@),
                Err(e) => r matches Err(t) && t@ == crate::cri::error::status_of(e@),
            },
    {
        match found {
            Ok(c) => Ok(convert::record_to_container_stats(&c)),
            Err(e) => Err(to_status(e)),
        }
    }

    /// Statistics of containers, once they have been read.
    pub fn list_container_stats(&self, read: Result<Vec<ContainerRecord>, StoreError>) -> (r: Result<
        Vec<pb::ContainerStats>,
        Status,
    >)
        ensures
            match read {
                Ok(l) => r matches Ok(m) && m.deep_view() == convert::all_stats_out(l.deep_view()),
                Err(e) => r matches Err(t) && t@ == crate::cri::error::status_of(
                    crate::manager::errors::of_store(e@),
                ),
            },
    {
        match self.mgr.list_containers(read) {
            Ok(l) => Ok(convert::records_to_container_stats(&l)),
            Err(e) => Err(to_status(e)),
        }
    }

    /// Statistics of a pod, once it and its containers have been read. The
    /// pod is looked at first.
    pub fn pod_sandbox_stats(
        &self,
        sandbox: Result<SandboxRecord, StoreError>,
        containers: Result<Vec<ContainerRecord>, StoreError>,
    ) -> (r: Result<pb::PodSandboxStats, Status>)
        ensures
            match (sandbox, containers) {
                (Err(e), _) => r matches Err(t) && t@ == crate::cri::error::status_of(
                    crate::manager::errors::of_store(e@),
                ),
                (Ok(_), Err(e)) => r matches Err(t) && t@ == crate::cri::error::status_of(
                    crate::manager::errors::of_store(e@),
                ),
                (Ok(s), Ok(l)) => r matches Ok(t) && t@ == convert::sandbox_stats_out(
                    s@,
                    l.deep_view(),
                ),
            },
    {
        let s = match self.mgr.sandbox_status(sandbox) {
            Ok(s) => s,
            Err(e) => {
                return Err(to_status(e));
            },
        };
        match self.mgr.list_containers(containers) {
            Ok(l) => Ok(convert::records_to_pod_sandbox_stats(&s, l)),
            Err(e) => Err(to_status(e)),
        }
    }

    /// The work to tell statistics of pods, once the pods have been read.
    pub fn list_pod_sandbox_stats(&self, read: Result<Vec<SandboxRecord>, StoreError>) -> (r: Result<
        PodStats,
        Status,
    >)
        ensures
            match read {
                Ok(l) => r matches Ok(m) && m.sandboxes.deep_view() == l.deep_view()
                    && m.stats.deep_view() == Seq::<pb::PodSandboxStatsView>::empty(),
                Err(e) => r matches Err(t) && t@ == crate::cri::error::status_of(
                    crate::manager::errors::of_store(e@),
                ),
            },
    {
        match self.mgr.list_sandboxes(read) {
            Ok(l) => {
                let m = PodStats { sandboxes: l, stats: Vec::new() };
                assert(m.stats.deep_view() =~= Seq::<pb::PodSandboxStatsView>::empty());
                Ok(m)
            },
            Err(e) => Err(to_status(e)),
        }
    }
}

/// The requests that are not served. Each is refused with its name, whatever it
/// holds.
impl RuntimeSvc {
    pub fn update_container_resources(&self) -> (r: Result<(), Status>)
        ensures
            r matches Err(s) && s@ == crate::cri::error::not_served("UpdateContainerResources"@),
    {
        Err(unimpl("UpdateContainerResources"))
    }

    pub fn reopen_container_log(&self) -> (r: Result<(), Status>)
        ensures
            r matches Err(s) && s@ == crate::cri::error::not_served("ReopenContainerLog"@),
    {
        Err(unimpl("ReopenContainerLog"))
    }

    pub fn exec_sync(&self) -> (r: Result<(), Status>)
        ensures
            r matches Err(s) && s@ == crate::cri::error::not_served("ExecSync"@),
    {
        Err(unimpl("ExecSync"))
    }

    pub fn exec(&self) -> (r: Result<(), Status>)
        ensures
            r matches Err(s) && s@ == crate::cri::error::not_served("Exec"@),
    {
        Err(unimpl("Exec"))
    }

    pub fn attach(&self) -> (r: Result<(), Status>)
        ensures
            r matches Err(s) && s@ == crate::cri::error::not_served("Attach"@),
    {
        Err(unimpl("Attach"))
    }

    pub fn port_forward(&self) -> (r: Result<(), Status>)
        ensures
            r matches Err(s) && s@ == crate::cri::error::not_served("PortForward"@),
    {
        Err(unimpl("PortForward"))
    }

    pub fn checkpoint_container(&self) -> (r: Result<(), Status>)
        ensures
            r matches Err(s) && s@ == crate::cri::error::not_served("CheckpointContainer"@),
    {
        Err(unimpl("CheckpointContainer"))
    }

    pub fn get_container_events(&self) -> (r: Result<(), Status>)
        ensures
            r matches Err(s) && s@ == crate::cri::error::not_served("GetContainerEvents"@),
    {
        Err(unimpl("GetContainerEvents"))
    }

    pub fn list_metric_descriptors(&self) -> (r: Result<(), Status>)
        ensures
            r matches Err(s) && s@ == crate::cri::error::not_served("ListMetricDescriptors"@),
    {
        Err(unimpl("ListMetricDescriptors"))
    }

    pub fn list_pod_sandbox_metrics(&self) -> (r: Result<(), Status>)
        ensures
            r matches Err(s) && s@ == crate::cri::error::not_served("ListPodSandboxMetrics"@),
    {
        Err(unimpl("ListPodSandboxMetrics"))
    }

    pub fn runtime_config(&self) -> (r: Result<(), Status>)
        ensures
            r matches Err(s) && s@ == crate::cri::error::not_served("RuntimeConfig"@),
    {
        Err(unimpl("RuntimeConfig"))
    }

    pub fn update_pod_sandbox_resources(&self) -> (r: Result<(), Status>)
        ensures
            r matches Err(s) && s@ == crate::cri::error::not_served("UpdatePodSandboxResources"@),
    {
        Err(unimpl("UpdatePodSandboxResources"))
    }
}

/// Statistics of pods in the making: the containers of one pod are read after
/// those of another.
pub struct PodStats {
    pub sandboxes: Vec<SandboxRecord>,
    pub stats: Vec<pb::PodSandboxStats>,
}

/// Statistics of pods, each with its own containers.
pub open spec fn pod_stats_out(
    s: Seq<SandboxRecordView>,
    c: Seq<Seq<ContainerRecordView>>,
) -> Seq<pb::PodSandboxStatsView> {
    Seq::new(c.len(), |i: int| convert::sandbox_stats_out(s[i], c[i]))
}

/// Pods whose containers are read one pod after another have the statistics of
/// each with its own containers.
pub proof fn stats_are_per_pod(
    s: Seq<SandboxRecordView>,
    c: Seq<Seq<ContainerRecordView>>,
    more: Seq<ContainerRecordView>,
)
    requires
        c.len() < s.len(),
    ensures
        pod_stats_out(s, c.push(more)) == pod_stats_out(s, c).push(
            convert::sandbox_stats_out(s[c.len() as int], more),
        ),
{
    assert(pod_stats_out(s, c.push(more)) =~= pod_stats_out(s, c).push(
        convert::sandbox_stats_out(s[c.len() as int], more),
    ));
}

impl PodStats {
    /// Which containers to read next, if any.
    pub fn wants(&self) -> (r: Option<ContainerFilter>)
        ensures
            r.deep_view() == (if self.stats@.len() < self.sandboxes@.len() {
                Some(
                    of_sandbox(
                        self.sandboxes.deep_view()[self.stats@.len() as int].sandbox_id,
                    ),
                )
            } else {
                None
            }),
    {
        let n: usize = self.stats.len();
        if n < self.sandboxes.len() {
            Some(containers_of(self.sandboxes[n].sandbox_id.as_str()))
        } else {
            None
        }
    }

    /// Takes the containers of the next pod. A failure to read them ends the
    /// work.
    pub fn advance(&mut self, read: Result<Vec<ContainerRecord>, OasError>) -> (r: Result<(), Status>)
        ensures
            final(self).sandboxes.deep_view() == old(self).sandboxes.deep_view(),
            match read {
                Ok(l) => {
                    &&& r is Ok
                    &&& final(self).stats.deep_view() == if old(self).stats@.len() < old(
                        self,
                    ).sandboxes@.len() {
                        old(self).stats.deep_view().push(
                            convert::sandbox_stats_out(
                                old(self).sandboxes.deep_view()[old(self).stats@.len() as int],
                                l.deep_view(),
                            ),
                        )
                    } else {
                        old(self).stats.deep_view()
                    }
                },
                Err(e) => {
                    &&& r matches Err(t) && t@ == crate::cri::error::status_of(e@)
                    &&& final(self).stats.deep_view() == old(self).stats.deep_view()
                },
            },
    {
        match read {
            Ok(l) => {
                let n: usize = self.stats.len();
                if n < self.sandboxes.len() {
                    let t = convert::records_to_pod_sandbox_stats(&self.sandboxes[n], l);
                    let ghost before = self.stats.deep_view();
                    self.stats.push(t);
                    assert(self.stats.deep_view() =~= before.push(t@));
                }
                Ok(())
            },
            Err(e) => Err(to_status(e)),
        }
    }
}

} // verus!
