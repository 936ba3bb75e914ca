//! The entities of the scheduler's API: jobs, task groups, tasks, allocations
//! and the bodies of requests and responses.
//!
//! Each entity is a plain value. Beside it stands its model, the value as
//! contracts speak of it, and the zero value that a request built from
//! scratch starts from.
//!
//! A map of the wire, from names to values, is held as the list of its
//! entries in the order written: the order in which a hash map hands out its
//! entries is no function of what it holds, and the body written from one
//! would not be determined by the value.

use vstd::prelude::*;
use crate::containers::empty_list;
use crate::json::{Json, JsonView, Number, NumberView};

verus! {

/// The state that a job, an allocation or a task is in.
#[derive(Debug, Clone, Copy, PartialEq, Eq, Hash, Structural)]
pub enum RunningStatus {
    Queued,
    Complete,
    Failed,
    Running,
    Starting,
    Lost,
    Pending,
    Dead,
    /// The state was written as the empty string, or as a word that this
    /// library does not know.
    Missing,
}

impl DeepView for RunningStatus {
    type V = RunningStatus;

    open spec fn deep_view(&self) -> RunningStatus {
        *self
    }
}

impl Default for RunningStatus {
    /// A job that was just made is pending.
    fn default() -> (r: RunningStatus)
        ensures
            r == RunningStatus::Pending,
    {
        RunningStatus::Pending
    }
}

/// The body of a request to dispatch a parameterized job: the payload,
/// base64 text, and the metadata handed to the new instance.
#[derive(Debug, Clone, PartialEq)]
pub struct DispatchJobRequest {
    pub payload: String,
    pub meta: Vec<(String, String)>,
}

/// The model of a [`DispatchJobRequest`].
pub struct DispatchJobRequestView {
    pub payload: Seq<char>,
    pub meta: Seq<(Seq<char>, Seq<char>)>,
}

impl DeepView for DispatchJobRequest {
    type V = DispatchJobRequestView;

    open spec fn deep_view(&self) -> DispatchJobRequestView {
        DispatchJobRequestView {
            payload: self.payload.deep_view(),
            meta: self.meta.deep_view(),
        }
    }
}

impl DispatchJobRequestView {
    /// The value with every field at its zero: a number `0`, a flag `false`,
    /// a text, a list or a map empty, a status pending, an untyped tree
    /// `null`, and whatever may be left out absent.
    pub open spec fn zero() -> DispatchJobRequestView {
        DispatchJobRequestView {
            payload: Seq::empty(),
            meta: Seq::empty(),
        }
    }
}

impl Default for DispatchJobRequest {
    fn default() -> (r: DispatchJobRequest)
        ensures
            r.deep_view() == DispatchJobRequestView::zero(),
    {
        DispatchJobRequest {
            payload: String::new(),
            meta: empty_list(),
        }
    }
}

/// What the scheduler answers to a dispatch: the id of the job it made and
/// the indices at which it made it.
#[derive(Debug, Clone, PartialEq)]
pub struct DispatchJobResponse {
    pub index: u32,
    pub job_create_index: Option<u32>,
    pub eval_create_index: Option<u32>,
    pub eval_id: Option<String>,
    pub dispatched_job_id: String,
}

/// The model of a [`DispatchJobResponse`].
pub struct DispatchJobResponseView {
    pub index: u32,
    pub job_create_index: Option<u32>,
    pub eval_create_index: Option<u32>,
    pub eval_id: Option<Seq<char>>,
    pub dispatched_job_id: Seq<char>,
}

impl DeepView for DispatchJobResponse {
    type V = DispatchJobResponseView;

    open spec fn deep_view(&self) -> DispatchJobResponseView {
        DispatchJobResponseView {
            index: self.index,
            job_create_index: self.job_create_index.deep_view(),
            eval_create_index: self.eval_create_index.deep_view(),
            eval_id: self.eval_id.deep_view(),
            dispatched_job_id: self.dispatched_job_id.deep_view(),
        }
    }
}

impl DispatchJobResponseView {
    /// The value with every field at its zero: a number `0`, a flag `false`,
    /// a text, a list or a map empty, a status pending, an untyped tree
    /// `null`, and whatever may be left out absent.
    pub open spec fn zero() -> DispatchJobResponseView {
        DispatchJobResponseView {
            index: 0,
            job_create_index: None,
            eval_create_index: None,
            eval_id: None,
            dispatched_job_id: Seq::empty(),
        }
    }
}

impl Default for DispatchJobResponse {
    fn default() -> (r: DispatchJobResponse)
        ensures
            r.deep_view() == DispatchJobResponseView::zero(),
    {
        DispatchJobResponse {
            index: 0,
            job_create_index: None,
            eval_create_index: None,
            eval_id: None,
            dispatched_job_id: String::new(),
        }
    }
}

/// What the scheduler answers when a job is stopped: the evaluation that the
/// stop set off and its indices.
#[derive(Debug, Clone, PartialEq)]
pub struct JobStopResponse {
    pub eval_id: String,
    pub eval_create_index: u32,
    pub job_modify_index: u32,
}

/// The model of a [`JobStopResponse`].
pub struct JobStopResponseView {
    pub eval_id: Seq<char>,
    pub eval_create_index: u32,
    pub job_modify_index: u32,
}

impl DeepView for JobStopResponse {
    type V = JobStopResponseView;

    open spec fn deep_view(&self) -> JobStopResponseView {
        JobStopResponseView {
            eval_id: self.eval_id.deep_view(),
            eval_create_index: self.eval_create_index,
            job_modify_index: self.job_modify_index,
        }
    }
}

impl JobStopResponseView {
    /// The value with every field at its zero: a number `0`, a flag `false`,
    /// a text, a list or a map empty, a status pending, an untyped tree
    /// `null`, and whatever may be left out absent.
    pub open spec fn zero() -> JobStopResponseView {
        JobStopResponseView {
            eval_id: Seq::empty(),
            eval_create_index: 0,
            job_modify_index: 0,
        }
    }
}

impl Default for JobStopResponse {
    fn default() -> (r: JobStopResponse)
        ensures
            r.deep_view() == JobStopResponseView::zero(),
    {
        JobStopResponse {
            eval_id: String::new(),
            eval_create_index: 0,
            job_modify_index: 0,
        }
    }
}

/// The summary of one allocation, as listed under its job.
#[derive(Debug, Clone, PartialEq)]
pub struct ListJobAllocationsResponse {
    pub id: String,
    pub eval_id: String,
    pub name: String,
    pub namespace: String,
    pub node_id: String,
    pub node_name: String,
    pub job_id: String,
    pub job_type: String,
    pub job_version: i64,
    pub task_group: String,
    pub allocated_resources: Json,
    pub desired_status: String,
    pub desired_description: String,
    pub client_status: String,
    pub client_description: Option<String>,
    pub desired_transition: DesiredTransition,
    pub task_states: Option<Vec<(String, TaskState)>>,
    pub deployment_status: Option<Json>,
    pub followup_eval_id: Option<String>,
    pub reschedule_tracker: Json,
    pub preempted_allocations: Json,
    pub preempted_by_allocation: String,
    pub create_index: i64,
    pub modify_index: i64,
    pub create_time: i64,
    pub modify_time: i64,
}

/// The model of a [`ListJobAllocationsResponse`].
pub struct ListJobAllocationsResponseView {
    pub id: Seq<char>,
    pub eval_id: Seq<char>,
    pub name: Seq<char>,
    pub namespace: Seq<char>,
    pub node_id: Seq<char>,
    pub node_name: Seq<char>,
    pub job_id: Seq<char>,
    pub job_type: Seq<char>,
    pub job_version: i64,
    pub task_group: Seq<char>,
    pub allocated_resources: JsonView,
    pub desired_status: Seq<char>,
    pub desired_description: Seq<char>,
    pub client_status: Seq<char>,
    pub client_description: Option<Seq<char>>,
    pub desired_transition: DesiredTransitionView,
    pub task_states: Option<Seq<(Seq<char>, TaskStateView)>>,
    pub deployment_status: Option<JsonView>,
    pub followup_eval_id: Option<Seq<char>>,
    pub reschedule_tracker: JsonView,
    pub preempted_allocations: JsonView,
    pub preempted_by_allocation: Seq<char>,
    pub create_index: i64,
    pub modify_index: i64,
    pub create_time: i64,
    pub modify_time: i64,
}

impl DeepView for ListJobAllocationsResponse {
    type V = ListJobAllocationsResponseView;

    open spec fn deep_view(&self) -> ListJobAllocationsResponseView {
        ListJobAllocationsResponseView {
            id: self.id.deep_view(),
            eval_id: self.eval_id.deep_view(),
            name: self.name.deep_view(),
            namespace: self.namespace.deep_view(),
            node_id: self.node_id.deep_view(),
            node_name: self.node_name.deep_view(),
            job_id: self.job_id.deep_view(),
            job_type: self.job_type.deep_view(),
            job_version: self.job_version,
            task_group: self.task_group.deep_view(),
            allocated_resources: self.allocated_resources.deep_view(),
            desired_status: self.desired_status.deep_view(),
            desired_description: self.desired_description.deep_view(),
            client_status: self.client_status.deep_view(),
            client_description: self.client_description.deep_view(),
            desired_transition: self.desired_transition.deep_view(),
            task_states: self.task_states.deep_view(),
            deployment_status: self.deployment_status.deep_view(),
            followup_eval_id: self.followup_eval_id.deep_view(),
            reschedule_tracker: self.reschedule_tracker.deep_view(),
            preempted_allocations: self.preempted_allocations.deep_view(),
            preempted_by_allocation: self.preempted_by_allocation.deep_view(),
            create_index: self.create_index,
            modify_index: self.modify_index,
            create_time: self.create_time,
            modify_time: self.modify_time,
        }
    }
}

impl ListJobAllocationsResponseView {
    /// The value with every field at its zero: a number `0`, a flag `false`,
    /// a text, a list or a map empty, a status pending, an untyped tree
    /// `null`, and whatever may be left out absent.
    pub open spec fn zero() -> ListJobAllocationsResponseView {
        ListJobAllocationsResponseView {
            id: Seq::empty(),
            eval_id: Seq::empty(),
            name: Seq::empty(),
            namespace: Seq::empty(),
            node_id: Seq::empty(),
            node_name: Seq::empty(),
            job_id: Seq::empty(),
            job_type: Seq::empty(),
            job_version: 0,
            task_group: Seq::empty(),
            allocated_resources: JsonView::Null,
            desired_status: Seq::empty(),
            desired_description: Seq::empty(),
            client_status: Seq::empty(),
            client_description: None,
            desired_transition: DesiredTransitionView::zero(),
            task_states: None,
            deployment_status: None,
            followup_eval_id: None,
            reschedule_tracker: JsonView::Null,
            preempted_allocations: JsonView::Null,
            preempted_by_allocation: Seq::empty(),
            create_index: 0,
            modify_index: 0,
            create_time: 0,
            modify_time: 0,
        }
    }
}

impl Default for ListJobAllocationsResponse {
    fn default() -> (r: ListJobAllocationsResponse)
        ensures
            r.deep_view() == ListJobAllocationsResponseView::zero(),
    {
        ListJobAllocationsResponse {
            id: String::new(),
            eval_id: String::new(),
            name: String::new(),
            namespace: String::new(),
            node_id: String::new(),
            node_name: String::new(),
            job_id: String::new(),
            job_type: String::new(),
            job_version: 0,
            task_group: String::new(),
            allocated_resources: Json::Null,
            desired_status: String::new(),
            desired_description: String::new(),
            client_status: String::new(),
            client_description: None,
            desired_transition: DesiredTransition::default(),
            task_states: None,
            deployment_status: None,
            followup_eval_id: None,
            reschedule_tracker: Json::Null,
            preempted_allocations: Json::Null,
            preempted_by_allocation: String::new(),
            create_index: 0,
            modify_index: 0,
            create_time: 0,
            modify_time: 0,
        }
    }
}

/// What the scheduler intends to do next with an allocation.
#[derive(Debug, Clone, PartialEq)]
pub struct DesiredTransition {
    pub migrate: Option<Json>,
    pub reschedule: Option<Json>,
    pub force_reschedule: Option<Json>,
}

/// The model of a [`DesiredTransition`].
pub struct DesiredTransitionView {
    pub migrate: Option<JsonView>,
    pub reschedule: Option<JsonView>,
    pub force_reschedule: Option<JsonView>,
}

impl DeepView for DesiredTransition {
    type V = DesiredTransitionView;

    open spec fn deep_view(&self) -> DesiredTransitionView {
        DesiredTransitionView {
            migrate: self.migrate.deep_view(),
            reschedule: self.reschedule.deep_view(),
            force_reschedule: self.force_reschedule.deep_view(),
        }
    }
}

impl DesiredTransitionView {
    /// The value with every field at its zero: a number `0`, a flag `false`,
    /// a text, a list or a map empty, a status pending, an untyped tree
    /// `null`, and whatever may be left out absent.
    pub open spec fn zero() -> DesiredTransitionView {
        DesiredTransitionView {
            migrate: None,
            reschedule: None,
            force_reschedule: None,
        }
    }
}

impl Default for DesiredTransition {
    fn default() -> (r: DesiredTransition)
        ensures
            r.deep_view() == DesiredTransitionView::zero(),
    {
        DesiredTransition {
            migrate: None,
            reschedule: None,
            force_reschedule: None,
        }
    }
}

/// The placement of one task group of a job onto a node, with the state of
/// its tasks.
#[derive(Debug, Clone, PartialEq)]
pub struct Allocation {
    pub alloc_modify_index: i64,
    pub allocated_resources: AllocatedResources,
    pub client_description: Option<String>,
    pub client_status: RunningStatus,
    pub create_index: i64,
    pub create_time: i64,
    pub deployment_id: Option<String>,
    pub deployment_status: Option<DeploymentStatus>,
    pub desired_status: String,
    pub eval_id: Option<String>,
    pub id: String,
    pub job: Job,
    pub job_id: String,
    pub metrics: Metrics,
    pub modify_index: i64,
    pub modify_time: i64,
    pub name: String,
    pub namespace: String,
    pub network_status: Option<NetworkStatus>,
    pub node_id: String,
    pub node_name: String,
    pub resources: Resources,
    pub shared_resources: Resources,
    pub task_group: String,
    pub task_resources: Vec<(String, Resources)>,
    pub task_states: Vec<(String, TaskState)>,
}

/// The model of a [`Allocation`].
pub struct AllocationView {
    pub alloc_modify_index: i64,
    pub allocated_resources: AllocatedResourcesView,
    pub client_description: Option<Seq<char>>,
    pub client_status: RunningStatus,
    pub create_index: i64,
    pub create_time: i64,
    pub deployment_id: Option<Seq<char>>,
    pub deployment_status: Option<DeploymentStatusView>,
    pub desired_status: Seq<char>,
    pub eval_id: Option<Seq<char>>,
    pub id: Seq<char>,
    pub job: JobView,
    pub job_id: Seq<char>,
    pub metrics: MetricsView,
    pub modify_index: i64,
    pub modify_time: i64,
    pub name: Seq<char>,
    pub namespace: Seq<char>,
    pub network_status: Option<NetworkStatusView>,
    pub node_id: Seq<char>,
    pub node_name: Seq<char>,
    pub resources: ResourcesView,
    pub shared_resources: ResourcesView,
    pub task_group: Seq<char>,
    pub task_resources: Seq<(Seq<char>, ResourcesView)>,
    pub task_states: Seq<(Seq<char>, TaskStateView)>,
}

impl DeepView for Allocation {
    type V = AllocationView;

    open spec fn deep_view(&self) -> AllocationView {
        AllocationView {
            alloc_modify_index: self.alloc_modify_index,
            allocated_resources: self.allocated_resources.deep_view(),
            client_description: self.client_description.deep_view(),
            client_status: self.client_status,
            create_index: self.create_index,
            create_time: self.create_time,
            deployment_id: self.deployment_id.deep_view(),
            deployment_status: self.deployment_status.deep_view(),
            desired_status: self.desired_status.deep_view(),
            eval_id: self.eval_id.deep_view(),
            id: self.id.deep_view(),
            job: self.job.deep_view(),
            job_id: self.job_id.deep_view(),
            metrics: self.metrics.deep_view(),
            modify_index: self.modify_index,
            modify_time: self.modify_time,
            name: self.name.deep_view(),
            namespace: self.namespace.deep_view(),
            network_status: self.network_status.deep_view(),
            node_id: self.node_id.deep_view(),
            node_name: self.node_name.deep_view(),
            resources: self.resources.deep_view(),
            shared_resources: self.shared_resources.deep_view(),
            task_group: self.task_group.deep_view(),
            task_resources: self.task_resources.deep_view(),
            task_states: self.task_states.deep_view(),
        }
    }
}

impl AllocationView {
    /// The value with every field at its zero: a number `0`, a flag `false`,
    /// a text, a list or a map empty, a status pending, an untyped tree
    /// `null`, and whatever may be left out absent.
    pub open spec fn zero() -> AllocationView {
        AllocationView {
            alloc_modify_index: 0,
            allocated_resources: AllocatedResourcesView::zero(),
            client_description: None,
            client_status: RunningStatus::Pending,
            create_index: 0,
            create_time: 0,
            deployment_id: None,
            deployment_status: None,
            desired_status: Seq::empty(),
            eval_id: None,
            id: Seq::empty(),
            job: JobView::zero(),
            job_id: Seq::empty(),
            metrics: MetricsView::zero(),
            modify_index: 0,
            modify_time: 0,
            name: Seq::empty(),
            namespace: Seq::empty(),
            network_status: None,
            node_id: Seq::empty(),
            node_name: Seq::empty(),
            resources: ResourcesView::zero(),
            shared_resources: ResourcesView::zero(),
            task_group: Seq::empty(),
            task_resources: Seq::empty(),
            task_states: Seq::empty(),
        }
    }
}

impl Default for Allocation {
    fn default() -> (r: Allocation)
        ensures
            r.deep_view() == AllocationView::zero(),
    {
        Allocation {
            alloc_modify_index: 0,
            allocated_resources: AllocatedResources::default(),
            client_description: None,
            client_status: RunningStatus::Pending,
            create_index: 0,
            create_time: 0,
            deployment_id: None,
            deployment_status: None,
            desired_status: String::new(),
            eval_id: None,
            id: String::new(),
            job: Job::default(),
            job_id: String::new(),
            metrics: Metrics::default(),
            modify_index: 0,
            modify_time: 0,
            name: String::new(),
            namespace: String::new(),
            network_status: None,
            node_id: String::new(),
            node_name: String::new(),
            resources: Resources::default(),
            shared_resources: Resources::default(),
            task_group: String::new(),
            task_resources: empty_list(),
            task_states: empty_list(),
        }
    }
}

/// What an allocation was granted: what its tasks share, and what each
/// task has, by task name.
#[derive(Debug, Clone, PartialEq)]
pub struct AllocatedResources {
    pub shared: Shared,
    pub task_lifecycles: Vec<(String, Json)>,
    pub tasks: Vec<(String, SharedResources)>,
}

/// The model of a [`AllocatedResources`].
pub struct AllocatedResourcesView {
    pub shared: SharedView,
    pub task_lifecycles: Seq<(Seq<char>, JsonView)>,
    pub tasks: Seq<(Seq<char>, SharedResourcesView)>,
}

impl DeepView for AllocatedResources {
    type V = AllocatedResourcesView;

    open spec fn deep_view(&self) -> AllocatedResourcesView {
        AllocatedResourcesView {
            shared: self.shared.deep_view(),
            task_lifecycles: self.task_lifecycles.deep_view(),
            tasks: self.tasks.deep_view(),
        }
    }
}

impl AllocatedResourcesView {
    /// The value with every field at its zero: a number `0`, a flag `false`,
    /// a text, a list or a map empty, a status pending, an untyped tree
    /// `null`, and whatever may be left out absent.
    pub open spec fn zero() -> AllocatedResourcesView {
        AllocatedResourcesView {
            shared: SharedView::zero(),
            task_lifecycles: Seq::empty(),
            tasks: Seq::empty(),
        }
    }
}

impl Default for AllocatedResources {
    fn default() -> (r: AllocatedResources)
        ensures
            r.deep_view() == AllocatedResourcesView::zero(),
    {
        AllocatedResources {
            shared: Shared::default(),
            task_lifecycles: empty_list(),
            tasks: empty_list(),
        }
    }
}

/// The resources that the tasks of an allocation share.
#[derive(Debug, Clone, PartialEq)]
pub struct Shared {
    pub disk_mb: Option<i64>,
    pub networks: Vec<Network>,
    pub ports: Vec<Port>,
}

/// The model of a [`Shared`].
pub struct SharedView {
    pub disk_mb: Option<i64>,
    pub networks: Seq<NetworkView>,
    pub ports: Seq<PortView>,
}

impl DeepView for Shared {
    type V = SharedView;

    open spec fn deep_view(&self) -> SharedView {
        SharedView {
            disk_mb: self.disk_mb.deep_view(),
            networks: self.networks.deep_view(),
            ports: self.ports.deep_view(),
        }
    }
}

impl SharedView {
    /// The value with every field at its zero: a number `0`, a flag `false`,
    /// a text, a list or a map empty, a status pending, an untyped tree
    /// `null`, and whatever may be left out absent.
    pub open spec fn zero() -> SharedView {
        SharedView {
            disk_mb: None,
            networks: Seq::empty(),
            ports: Seq::empty(),
        }
    }
}

impl Default for Shared {
    fn default() -> (r: Shared)
        ensures
            r.deep_view() == SharedView::zero(),
    {
        Shared {
            disk_mb: None,
            networks: empty_list(),
            ports: empty_list(),
        }
    }
}

/// A network that a task group asks for or an allocation was given.
#[derive(Debug, Clone, PartialEq)]
pub struct Network {
    pub cidr: String,
    pub dns: Option<String>,
    pub device: String,
    pub dynamic_ports: Option<Vec<DynamicPort>>,
    pub ip: String,
    pub mbits: Option<i64>,
    pub mode: String,
    pub reserved_ports: Option<Vec<DynamicPort>>,
}

/// The model of a [`Network`].
pub struct NetworkView {
    pub cidr: Seq<char>,
    pub dns: Option<Seq<char>>,
    pub device: Seq<char>,
    pub dynamic_ports: Option<Seq<DynamicPortView>>,
    pub ip: Seq<char>,
    pub mbits: Option<i64>,
    pub mode: Seq<char>,
    pub reserved_ports: Option<Seq<DynamicPortView>>,
}

impl DeepView for Network {
    type V = NetworkView;

    open spec fn deep_view(&self) -> NetworkView {
        NetworkView {
            cidr: self.cidr.deep_view(),
            dns: self.dns.deep_view(),
            device: self.device.deep_view(),
            dynamic_ports: self.dynamic_ports.deep_view(),
            ip: self.ip.deep_view(),
            mbits: self.mbits.deep_view(),
            mode: self.mode.deep_view(),
            reserved_ports: self.reserved_ports.deep_view(),
        }
    }
}

impl NetworkView {
    /// The value with every field at its zero: a number `0`, a flag `false`,
    /// a text, a list or a map empty, a status pending, an untyped tree
    /// `null`, and whatever may be left out absent.
    pub open spec fn zero() -> NetworkView {
        NetworkView {
            cidr: Seq::empty(),
            dns: None,
            device: Seq::empty(),
            dynamic_ports: None,
            ip: Seq::empty(),
            mbits: None,
            mode: Seq::empty(),
            reserved_ports: None,
        }
    }
}

impl Default for Network {
    fn default() -> (r: Network)
        ensures
            r.deep_view() == NetworkView::zero(),
    {
        Network {
            cidr: String::new(),
            dns: None,
            device: String::new(),
            dynamic_ports: None,
            ip: String::new(),
            mbits: None,
            mode: String::new(),
            reserved_ports: None,
        }
    }
}

/// A port of a network, by label, with the value it maps to.
#[derive(Debug, Clone, PartialEq)]
pub struct DynamicPort {
    pub host_network: String,
    pub label: String,
    pub to: i64,
    pub value: i64,
}

/// The model of a [`DynamicPort`].
pub struct DynamicPortView {
    pub host_network: Seq<char>,
    pub label: Seq<char>,
    pub to: i64,
    pub value: i64,
}

impl DeepView for DynamicPort {
    type V = DynamicPortView;

    open spec fn deep_view(&self) -> DynamicPortView {
        DynamicPortView {
            host_network: self.host_network.deep_view(),
            label: self.label.deep_view(),
            to: self.to,
            value: self.value,
        }
    }
}

impl DynamicPortView {
    /// The value with every field at its zero: a number `0`, a flag `false`,
    /// a text, a list or a map empty, a status pending, an untyped tree
    /// `null`, and whatever may be left out absent.
    pub open spec fn zero() -> DynamicPortView {
        DynamicPortView {
            host_network: Seq::empty(),
            label: Seq::empty(),
            to: 0,
            value: 0,
        }
    }
}

impl Default for DynamicPort {
    fn default() -> (r: DynamicPort)
        ensures
            r.deep_view() == DynamicPortView::zero(),
    {
        DynamicPort {
            host_network: String::new(),
            label: String::new(),
            to: 0,
            value: 0,
        }
    }
}

/// A port that an allocation shares among its tasks.
#[derive(Debug, Clone, PartialEq)]
pub struct Port {
    pub host_ip: String,
    pub label: String,
    pub to: i64,
    pub value: i64,
}

/// The model of a [`Port`].
pub struct PortView {
    pub host_ip: Seq<char>,
    pub label: Seq<char>,
    pub to: i64,
    pub value: i64,
}

impl DeepView for Port {
    type V = PortView;

    open spec fn deep_view(&self) -> PortView {
        PortView {
            host_ip: self.host_ip.deep_view(),
            label: self.label.deep_view(),
            to: self.to,
            value: self.value,
        }
    }
}

impl PortView {
    /// The value with every field at its zero: a number `0`, a flag `false`,
    /// a text, a list or a map empty, a status pending, an untyped tree
    /// `null`, and whatever may be left out absent.
    pub open spec fn zero() -> PortView {
        PortView {
            host_ip: Seq::empty(),
            label: Seq::empty(),
            to: 0,
            value: 0,
        }
    }
}

impl Default for Port {
    fn default() -> (r: Port)
        ensures
            r.deep_view() == PortView::zero(),
    {
        Port {
            host_ip: String::new(),
            label: String::new(),
            to: 0,
            value: 0,
        }
    }
}

/// The CPU share granted to a task.
#[derive(Debug, Clone, PartialEq)]
pub struct Cpu {
    pub cpu_shares: i64,
    pub reserved_cores: Option<Json>,
}

/// The model of a [`Cpu`].
pub struct CpuView {
    pub cpu_shares: i64,
    pub reserved_cores: Option<JsonView>,
}

impl DeepView for Cpu {
    type V = CpuView;

    open spec fn deep_view(&self) -> CpuView {
        CpuView {
            cpu_shares: self.cpu_shares,
            reserved_cores: self.reserved_cores.deep_view(),
        }
    }
}

impl CpuView {
    /// The value with every field at its zero: a number `0`, a flag `false`,
    /// a text, a list or a map empty, a status pending, an untyped tree
    /// `null`, and whatever may be left out absent.
    pub open spec fn zero() -> CpuView {
        CpuView {
            cpu_shares: 0,
            reserved_cores: None,
        }
    }
}

impl Default for Cpu {
    fn default() -> (r: Cpu)
        ensures
            r.deep_view() == CpuView::zero(),
    {
        Cpu {
            cpu_shares: 0,
            reserved_cores: None,
        }
    }
}

/// A device plugin and the devices it offers.
#[derive(Debug, Clone, PartialEq)]
pub struct DevicePlugin {
    pub device_ids: Option<Vec<String>>,
    pub name: String,
    pub type_field: String,
    pub vendor: String,
}

/// The model of a [`DevicePlugin`].
pub struct DevicePluginView {
    pub device_ids: Option<Seq<Seq<char>>>,
    pub name: Seq<char>,
    pub type_field: Seq<char>,
    pub vendor: Seq<char>,
}

impl DeepView for DevicePlugin {
    type V = DevicePluginView;

    open spec fn deep_view(&self) -> DevicePluginView {
        DevicePluginView {
            device_ids: self.device_ids.deep_view(),
            name: self.name.deep_view(),
            type_field: self.type_field.deep_view(),
            vendor: self.vendor.deep_view(),
        }
    }
}

impl DevicePluginView {
    /// The value with every field at its zero: a number `0`, a flag `false`,
    /// a text, a list or a map empty, a status pending, an untyped tree
    /// `null`, and whatever may be left out absent.
    pub open spec fn zero() -> DevicePluginView {
        DevicePluginView {
            device_ids: None,
            name: Seq::empty(),
            type_field: Seq::empty(),
            vendor: Seq::empty(),
        }
    }
}

impl Default for DevicePlugin {
    fn default() -> (r: DevicePlugin)
        ensures
            r.deep_view() == DevicePluginView::zero(),
    {
        DevicePlugin {
            device_ids: None,
            name: String::new(),
            type_field: String::new(),
            vendor: String::new(),
        }
    }
}

/// The memory granted to a task, in megabytes.
#[derive(Debug, Clone, PartialEq)]
pub struct Memory {
    pub memory_mb: i64,
    pub memory_max_mb: i64,
}

/// The model of a [`Memory`].
pub struct MemoryView {
    pub memory_mb: i64,
    pub memory_max_mb: i64,
}

impl DeepView for Memory {
    type V = MemoryView;

    open spec fn deep_view(&self) -> MemoryView {
        MemoryView {
            memory_mb: self.memory_mb,
            memory_max_mb: self.memory_max_mb,
        }
    }
}

impl MemoryView {
    /// The value with every field at its zero: a number `0`, a flag `false`,
    /// a text, a list or a map empty, a status pending, an untyped tree
    /// `null`, and whatever may be left out absent.
    pub open spec fn zero() -> MemoryView {
        MemoryView {
            memory_mb: 0,
            memory_max_mb: 0,
        }
    }
}

impl Default for Memory {
    fn default() -> (r: Memory)
        ensures
            r.deep_view() == MemoryView::zero(),
    {
        Memory {
            memory_mb: 0,
            memory_max_mb: 0,
        }
    }
}

/// The health of an allocation within a deployment.
#[derive(Debug, Clone, PartialEq)]
pub struct DeploymentStatus {
    pub canary: bool,
    pub healthy: bool,
    pub modify_index: i64,
    pub timestamp: String,
}

/// The model of a [`DeploymentStatus`].
pub struct DeploymentStatusView {
    pub canary: bool,
    pub healthy: bool,
    pub modify_index: i64,
    pub timestamp: Seq<char>,
}

impl DeepView for DeploymentStatus {
    type V = DeploymentStatusView;

    open spec fn deep_view(&self) -> DeploymentStatusView {
        DeploymentStatusView {
            canary: self.canary,
            healthy: self.healthy,
            modify_index: self.modify_index,
            timestamp: self.timestamp.deep_view(),
        }
    }
}

impl DeploymentStatusView {
    /// The value with every field at its zero: a number `0`, a flag `false`,
    /// a text, a list or a map empty, a status pending, an untyped tree
    /// `null`, and whatever may be left out absent.
    pub open spec fn zero() -> DeploymentStatusView {
        DeploymentStatusView {
            canary: false,
            healthy: false,
            modify_index: 0,
            timestamp: Seq::empty(),
        }
    }
}

impl Default for DeploymentStatus {
    fn default() -> (r: DeploymentStatus)
        ensures
            r.deep_view() == DeploymentStatusView::zero(),
    {
        DeploymentStatus {
            canary: false,
            healthy: false,
            modify_index: 0,
            timestamp: String::new(),
        }
    }
}

/// The definition of a unit of work registered with the scheduler.
#[derive(Debug, Clone, PartialEq)]
pub struct Job {
    pub affinities: Option<Json>,
    pub all_at_once: Option<bool>,
    pub constraints: Option<Json>,
    pub consul_namespace: Option<String>,
    pub consul_token: Option<String>,
    pub create_index: i64,
    pub datacenters: Option<Vec<String>>,
    pub dispatched: Option<bool>,
    pub id: String,
    pub job_modify_index: i64,
    pub meta: Option<Json>,
    pub modify_index: i64,
    pub multiregion: Option<Json>,
    pub name: String,
    pub namespace: Option<String>,
    pub nomad_token_id: Option<String>,
    pub parameterized_job: Option<Json>,
    pub parent_id: Option<String>,
    pub payload: Option<Json>,
    pub periodic: Option<Json>,
    pub priority: i64,
    pub region: Option<String>,
    pub spreads: Option<Json>,
    pub stable: Option<bool>,
    pub status: RunningStatus,
    pub status_description: Option<String>,
    pub stop: bool,
    pub submit_time: Option<i64>,
    pub task_groups: Option<Vec<TaskGroup>>,
    pub type_field: String,
    pub update: Option<Update>,
    pub vault_namespace: Option<String>,
    pub vault_token: Option<String>,
    pub version: Option<i64>,
}

/// The model of a [`Job`].
pub struct JobView {
    pub affinities: Option<JsonView>,
    pub all_at_once: Option<bool>,
    pub constraints: Option<JsonView>,
    pub consul_namespace: Option<Seq<char>>,
    pub consul_token: Option<Seq<char>>,
    pub create_index: i64,
    pub datacenters: Option<Seq<Seq<char>>>,
    pub dispatched: Option<bool>,
    pub id: Seq<char>,
    pub job_modify_index: i64,
    pub meta: Option<JsonView>,
    pub modify_index: i64,
    pub multiregion: Option<JsonView>,
    pub name: Seq<char>,
    pub namespace: Option<Seq<char>>,
    pub nomad_token_id: Option<Seq<char>>,
    pub parameterized_job: Option<JsonView>,
    pub parent_id: Option<Seq<char>>,
    pub payload: Option<JsonView>,
    pub periodic: Option<JsonView>,
    pub priority: i64,
    pub region: Option<Seq<char>>,
    pub spreads: Option<JsonView>,
    pub stable: Option<bool>,
    pub status: RunningStatus,
    pub status_description: Option<Seq<char>>,
    pub stop: bool,
    pub submit_time: Option<i64>,
    pub task_groups: Option<Seq<TaskGroupView>>,
    pub type_field: Seq<char>,
    pub update: Option<UpdateView>,
    pub vault_namespace: Option<Seq<char>>,
    pub vault_token: Option<Seq<char>>,
    pub version: Option<i64>,
}

impl DeepView for Job {
    type V = JobView;

    open spec fn deep_view(&self) -> JobView {
        JobView {
            affinities: self.affinities.deep_view(),
            all_at_once: self.all_at_once.deep_view(),
            constraints: self.constraints.deep_view(),
            consul_namespace: self.consul_namespace.deep_view(),
            consul_token: self.consul_token.deep_view(),
            create_index: self.create_index,
            datacenters: self.datacenters.deep_view(),
            dispatched: self.dispatched.deep_view(),
            id: self.id.deep_view(),
            job_modify_index: self.job_modify_index,
            meta: self.meta.deep_view(),
            modify_index: self.modify_index,
            multiregion: self.multiregion.deep_view(),
            name: self.name.deep_view(),
            namespace: self.namespace.deep_view(),
            nomad_token_id: self.nomad_token_id.deep_view(),
            parameterized_job: self.parameterized_job.deep_view(),
            parent_id: self.parent_id.deep_view(),
            payload: self.payload.deep_view(),
            periodic: self.periodic.deep_view(),
            priority: self.priority,
            region: self.region.deep_view(),
            spreads: self.spreads.deep_view(),
            stable: self.stable.deep_view(),
            status: self.status,
            status_description: self.status_description.deep_view(),
            stop: self.stop,
            submit_time: self.submit_time.deep_view(),
            task_groups: self.task_groups.deep_view(),
            type_field: self.type_field.deep_view(),
            update: self.update.deep_view(),
            vault_namespace: self.vault_namespace.deep_view(),
            vault_token: self.vault_token.deep_view(),
            version: self.version.deep_view(),
        }
    }
}

impl JobView {
    /// The value with every field at its zero: a number `0`, a flag `false`,
    /// a text, a list or a map empty, a status pending, an untyped tree
    /// `null`, and whatever may be left out absent.
    pub open spec fn zero() -> JobView {
        JobView {
            affinities: None,
            all_at_once: None,
            constraints: None,
            consul_namespace: None,
            consul_token: None,
            create_index: 0,
            datacenters: None,
            dispatched: None,
            id: Seq::empty(),
            job_modify_index: 0,
            meta: None,
            modify_index: 0,
            multiregion: None,
            name: Seq::empty(),
            namespace: None,
            nomad_token_id: None,
            parameterized_job: None,
            parent_id: None,
            payload: None,
            periodic: None,
            priority: 0,
            region: None,
            spreads: None,
            stable: None,
            status: RunningStatus::Pending,
            status_description: None,
            stop: false,
            submit_time: None,
            task_groups: None,
            type_field: Seq::empty(),
            update: None,
            vault_namespace: None,
            vault_token: None,
            version: None,
        }
    }
}

impl Default for Job {
    fn default() -> (r: Job)
        ensures
            r.deep_view() == JobView::zero(),
    {
        Job {
            affinities: None,
            all_at_once: None,
            constraints: None,
            consul_namespace: None,
            consul_token: None,
            create_index: 0,
            datacenters: None,
            dispatched: None,
            id: String::new(),
            job_modify_index: 0,
            meta: None,
            modify_index: 0,
            multiregion: None,
            name: String::new(),
            namespace: None,
            nomad_token_id: None,
            parameterized_job: None,
            parent_id: None,
            payload: None,
            periodic: None,
            priority: 0,
            region: None,
            spreads: None,
            stable: None,
            status: RunningStatus::Pending,
            status_description: None,
            stop: false,
            submit_time: None,
            task_groups: None,
            type_field: String::new(),
            update: None,
            vault_namespace: None,
            vault_token: None,
            version: None,
        }
    }
}

/// The body of a request to register a job.
#[derive(Debug, Clone, PartialEq)]
pub struct CreateJobRequest {
    pub job: Job,
}

/// The model of a [`CreateJobRequest`].
pub struct CreateJobRequestView {
    pub job: JobView,
}

impl DeepView for CreateJobRequest {
    type V = CreateJobRequestView;

    open spec fn deep_view(&self) -> CreateJobRequestView {
        CreateJobRequestView {
            job: self.job.deep_view(),
        }
    }
}

impl CreateJobRequestView {
    /// The value with every field at its zero: a number `0`, a flag `false`,
    /// a text, a list or a map empty, a status pending, an untyped tree
    /// `null`, and whatever may be left out absent.
    pub open spec fn zero() -> CreateJobRequestView {
        CreateJobRequestView {
            job: JobView::zero(),
        }
    }
}

impl Default for CreateJobRequest {
    fn default() -> (r: CreateJobRequest)
        ensures
            r.deep_view() == CreateJobRequestView::zero(),
    {
        CreateJobRequest {
            job: Job::default(),
        }
    }
}

/// What the scheduler answers when a job is registered.
#[derive(Debug, Clone, PartialEq)]
pub struct CreateJobResponse {
    pub eval_id: String,
    pub eval_create_index: i64,
    pub job_modify_index: i64,
    pub warnings: String,
    pub index: i64,
    pub last_contact: i64,
    pub known_leader: bool,
}

/// The model of a [`CreateJobResponse`].
pub struct CreateJobResponseView {
    pub eval_id: Seq<char>,
    pub eval_create_index: i64,
    pub job_modify_index: i64,
    pub warnings: Seq<char>,
    pub index: i64,
    pub last_contact: i64,
    pub known_leader: bool,
}

impl DeepView for CreateJobResponse {
    type V = CreateJobResponseView;

    open spec fn deep_view(&self) -> CreateJobResponseView {
        CreateJobResponseView {
            eval_id: self.eval_id.deep_view(),
            eval_create_index: self.eval_create_index,
            job_modify_index: self.job_modify_index,
            warnings: self.warnings.deep_view(),
            index: self.index,
            last_contact: self.last_contact,
            known_leader: self.known_leader,
        }
    }
}

impl CreateJobResponseView {
    /// The value with every field at its zero: a number `0`, a flag `false`,
    /// a text, a list or a map empty, a status pending, an untyped tree
    /// `null`, and whatever may be left out absent.
    pub open spec fn zero() -> CreateJobResponseView {
        CreateJobResponseView {
            eval_id: Seq::empty(),
            eval_create_index: 0,
            job_modify_index: 0,
            warnings: Seq::empty(),
            index: 0,
            last_contact: 0,
            known_leader: false,
        }
    }
}

impl Default for CreateJobResponse {
    fn default() -> (r: CreateJobResponse)
        ensures
            r.deep_view() == CreateJobResponseView::zero(),
    {
        CreateJobResponse {
            eval_id: String::new(),
            eval_create_index: 0,
            job_modify_index: 0,
            warnings: String::new(),
            index: 0,
            last_contact: 0,
            known_leader: false,
        }
    }
}

/// A group of tasks of a job that are placed together and scaled together.
#[derive(Debug, Clone, PartialEq)]
pub struct TaskGroup {
    pub affinities: Option<Json>,
    pub constraints: Option<Json>,
    pub consul: Option<Consul>,
    pub count: i64,
    pub ephemeral_disk: Option<EphemeralDisk>,
    pub meta: Option<Json>,
    pub migrate: Option<Migrate>,
    pub name: String,
    pub networks: Option<Vec<Network>>,
    pub reschedule_policy: Option<ReschedulePolicy>,
    pub restart_policy: Option<RestartPolicy>,
    pub scaling: Option<Json>,
    pub services: Option<Json>,
    pub shutdown_delay: Option<Json>,
    pub spreads: Option<Json>,
    pub stop_after_client_disconnect: Option<Json>,
    pub tasks: Option<Vec<Task>>,
    pub update: Option<Update>,
    pub volumes: Option<Json>,
}

/// The model of a [`TaskGroup`].
pub struct TaskGroupView {
    pub affinities: Option<JsonView>,
    pub constraints: Option<JsonView>,
    pub consul: Option<ConsulView>,
    pub count: i64,
    pub ephemeral_disk: Option<EphemeralDiskView>,
    pub meta: Option<JsonView>,
    pub migrate: Option<MigrateView>,
    pub name: Seq<char>,
    pub networks: Option<Seq<NetworkView>>,
    pub reschedule_policy: Option<ReschedulePolicyView>,
    pub restart_policy: Option<RestartPolicyView>,
    pub scaling: Option<JsonView>,
    pub services: Option<JsonView>,
    pub shutdown_delay: Option<JsonView>,
    pub spreads: Option<JsonView>,
    pub stop_after_client_disconnect: Option<JsonView>,
    pub tasks: Option<Seq<TaskView>>,
    pub update: Option<UpdateView>,
    pub volumes: Option<JsonView>,
}

impl DeepView for TaskGroup {
    type V = TaskGroupView;

    open spec fn deep_view(&self) -> TaskGroupView {
        TaskGroupView {
            affinities: self.affinities.deep_view(),
            constraints: self.constraints.deep_view(),
            consul: self.consul.deep_view(),
            count: self.count,
            ephemeral_disk: self.ephemeral_disk.deep_view(),
            meta: self.meta.deep_view(),
            migrate: self.migrate.deep_view(),
            name: self.name.deep_view(),
            networks: self.networks.deep_view(),
            reschedule_policy: self.reschedule_policy.deep_view(),
            restart_policy: self.restart_policy.deep_view(),
            scaling: self.scaling.deep_view(),
            services: self.services.deep_view(),
            shutdown_delay: self.shutdown_delay.deep_view(),
            spreads: self.spreads.deep_view(),
            stop_after_client_disconnect: self.stop_after_client_disconnect.deep_view(),
            tasks: self.tasks.deep_view(),
            update: self.update.deep_view(),
            volumes: self.volumes.deep_view(),
        }
    }
}

impl TaskGroupView {
    /// The value with every field at its zero: a number `0`, a flag `false`,
    /// a text, a list or a map empty, a status pending, an untyped tree
    /// `null`, and whatever may be left out absent.
    pub open spec fn zero() -> TaskGroupView {
        TaskGroupView {
            affinities: None,
            constraints: None,
            consul: None,
            count: 0,
            ephemeral_disk: None,
            meta: None,
            migrate: None,
            name: Seq::empty(),
            networks: None,
            reschedule_policy: None,
            restart_policy: None,
            scaling: None,
            services: None,
            shutdown_delay: None,
            spreads: None,
            stop_after_client_disconnect: None,
            tasks: None,
            update: None,
            volumes: None,
        }
    }
}

impl Default for TaskGroup {
    fn default() -> (r: TaskGroup)
        ensures
            r.deep_view() == TaskGroupView::zero(),
    {
        TaskGroup {
            affinities: None,
            constraints: None,
            consul: None,
            count: 0,
            ephemeral_disk: None,
            meta: None,
            migrate: None,
            name: String::new(),
            networks: None,
            reschedule_policy: None,
            restart_policy: None,
            scaling: None,
            services: None,
            shutdown_delay: None,
            spreads: None,
            stop_after_client_disconnect: None,
            tasks: None,
            update: None,
            volumes: None,
        }
    }
}

/// The service-catalog namespace of a task group.
#[derive(Debug, Clone, PartialEq)]
pub struct Consul {
    pub namespace: String,
}

/// The model of a [`Consul`].
pub struct ConsulView {
    pub namespace: Seq<char>,
}

impl DeepView for Consul {
    type V = ConsulView;

    open spec fn deep_view(&self) -> ConsulView {
        ConsulView {
            namespace: self.namespace.deep_view(),
        }
    }
}

impl ConsulView {
    /// The value with every field at its zero: a number `0`, a flag `false`,
    /// a text, a list or a map empty, a status pending, an untyped tree
    /// `null`, and whatever may be left out absent.
    pub open spec fn zero() -> ConsulView {
        ConsulView {
            namespace: Seq::empty(),
        }
    }
}

impl Default for Consul {
    fn default() -> (r: Consul)
        ensures
            r.deep_view() == ConsulView::zero(),
    {
        Consul {
            namespace: String::new(),
        }
    }
}

/// The scratch disk of a task group.
#[derive(Debug, Clone, PartialEq)]
pub struct EphemeralDisk {
    pub migrate: bool,
    pub size_mb: i64,
    pub sticky: bool,
}

/// The model of a [`EphemeralDisk`].
pub struct EphemeralDiskView {
    pub migrate: bool,
    pub size_mb: i64,
    pub sticky: bool,
}

impl DeepView for EphemeralDisk {
    type V = EphemeralDiskView;

    open spec fn deep_view(&self) -> EphemeralDiskView {
        EphemeralDiskView {
            migrate: self.migrate,
            size_mb: self.size_mb,
            sticky: self.sticky,
        }
    }
}

impl EphemeralDiskView {
    /// The value with every field at its zero: a number `0`, a flag `false`,
    /// a text, a list or a map empty, a status pending, an untyped tree
    /// `null`, and whatever may be left out absent.
    pub open spec fn zero() -> EphemeralDiskView {
        EphemeralDiskView {
            migrate: false,
            size_mb: 0,
            sticky: false,
        }
    }
}

impl Default for EphemeralDisk {
    fn default() -> (r: EphemeralDisk)
        ensures
            r.deep_view() == EphemeralDiskView::zero(),
    {
        EphemeralDisk {
            migrate: false,
            size_mb: 0,
            sticky: false,
        }
    }
}

/// How the allocations of a task group move off a draining node.
#[derive(Debug, Clone, PartialEq)]
pub struct Migrate {
    pub health_check: String,
    pub healthy_deadline: i64,
    pub max_parallel: i64,
    pub min_healthy_time: i64,
}

/// The model of a [`Migrate`].
pub struct MigrateView {
    pub health_check: Seq<char>,
    pub healthy_deadline: i64,
    pub max_parallel: i64,
    pub min_healthy_time: i64,
}

impl DeepView for Migrate {
    type V = MigrateView;

    open spec fn deep_view(&self) -> MigrateView {
        MigrateView {
            health_check: self.health_check.deep_view(),
            healthy_deadline: self.healthy_deadline,
            max_parallel: self.max_parallel,
            min_healthy_time: self.min_healthy_time,
        }
    }
}

impl MigrateView {
    /// The value with every field at its zero: a number `0`, a flag `false`,
    /// a text, a list or a map empty, a status pending, an untyped tree
    /// `null`, and whatever may be left out absent.
    pub open spec fn zero() -> MigrateView {
        MigrateView {
            health_check: Seq::empty(),
            healthy_deadline: 0,
            max_parallel: 0,
            min_healthy_time: 0,
        }
    }
}

impl Default for Migrate {
    fn default() -> (r: Migrate)
        ensures
            r.deep_view() == MigrateView::zero(),
    {
        Migrate {
            health_check: String::new(),
            healthy_deadline: 0,
            max_parallel: 0,
            min_healthy_time: 0,
        }
    }
}

/// When and how often a failed allocation is placed again.
#[derive(Debug, Clone, PartialEq)]
pub struct ReschedulePolicy {
    pub attempts: i64,
    pub delay: i64,
    pub delay_function: Option<String>,
    pub interval: i64,
    pub max_delay: i64,
    pub unlimited: bool,
}

/// The model of a [`ReschedulePolicy`].
pub struct ReschedulePolicyView {
    pub attempts: i64,
    pub delay: i64,
    pub delay_function: Option<Seq<char>>,
    pub interval: i64,
    pub max_delay: i64,
    pub unlimited: bool,
}

impl DeepView for ReschedulePolicy {
    type V = ReschedulePolicyView;

    open spec fn deep_view(&self) -> ReschedulePolicyView {
        ReschedulePolicyView {
            attempts: self.attempts,
            delay: self.delay,
            delay_function: self.delay_function.deep_view(),
            interval: self.interval,
            max_delay: self.max_delay,
            unlimited: self.unlimited,
        }
    }
}

impl ReschedulePolicyView {
    /// The value with every field at its zero: a number `0`, a flag `false`,
    /// a text, a list or a map empty, a status pending, an untyped tree
    /// `null`, and whatever may be left out absent.
    pub open spec fn zero() -> ReschedulePolicyView {
        ReschedulePolicyView {
            attempts: 0,
            delay: 0,
            delay_function: None,
            interval: 0,
            max_delay: 0,
            unlimited: false,
        }
    }
}

impl Default for ReschedulePolicy {
    fn default() -> (r: ReschedulePolicy)
        ensures
            r.deep_view() == ReschedulePolicyView::zero(),
    {
        ReschedulePolicy {
            attempts: 0,
            delay: 0,
            delay_function: None,
            interval: 0,
            max_delay: 0,
            unlimited: false,
        }
    }
}

/// When and how often a failed task is started again in place.
#[derive(Debug, Clone, PartialEq)]
pub struct RestartPolicy {
    pub attempts: i64,
    pub delay: i64,
    pub interval: i64,
    pub mode: String,
}

/// The model of a [`RestartPolicy`].
pub struct RestartPolicyView {
    pub attempts: i64,
    pub delay: i64,
    pub interval: i64,
    pub mode: Seq<char>,
}

impl DeepView for RestartPolicy {
    type V = RestartPolicyView;

    open spec fn deep_view(&self) -> RestartPolicyView {
        RestartPolicyView {
            attempts: self.attempts,
            delay: self.delay,
            interval: self.interval,
            mode: self.mode.deep_view(),
        }
    }
}

impl RestartPolicyView {
    /// The value with every field at its zero: a number `0`, a flag `false`,
    /// a text, a list or a map empty, a status pending, an untyped tree
    /// `null`, and whatever may be left out absent.
    pub open spec fn zero() -> RestartPolicyView {
        RestartPolicyView {
            attempts: 0,
            delay: 0,
            interval: 0,
            mode: Seq::empty(),
        }
    }
}

impl Default for RestartPolicy {
    fn default() -> (r: RestartPolicy)
        ensures
            r.deep_view() == RestartPolicyView::zero(),
    {
        RestartPolicy {
            attempts: 0,
            delay: 0,
            interval: 0,
            mode: String::new(),
        }
    }
}

/// One executable unit of a task group.
#[derive(Debug, Clone, PartialEq)]
pub struct Task {
    pub affinities: Option<Json>,
    pub artifacts: Option<Json>,
    pub csiplugin_config: Option<Json>,
    pub config: Config,
    pub constraints: Option<Json>,
    pub dispatch_payload: Option<Json>,
    pub driver: String,
    pub env: Option<Vec<(String, String)>>,
    pub kill_signal: String,
    pub kill_timeout: i64,
    pub kind: String,
    pub leader: bool,
    pub lifecycle: Option<Json>,
    pub log_config: LogConfig,
    pub meta: Option<Json>,
    pub name: String,
    pub resources: Resources,
    pub restart_policy: RestartPolicy,
    pub scaling_policies: Option<Json>,
    pub services: Option<Json>,
    pub shutdown_delay: i64,
    pub templates: Option<Json>,
    pub user: String,
    pub vault: Option<Json>,
    pub volume_mounts: Option<Json>,
}

/// The model of a [`Task`].
pub struct TaskView {
    pub affinities: Option<JsonView>,
    pub artifacts: Option<JsonView>,
    pub csiplugin_config: Option<JsonView>,
    pub config: ConfigView,
    pub constraints: Option<JsonView>,
    pub dispatch_payload: Option<JsonView>,
    pub driver: Seq<char>,
    pub env: Option<Seq<(Seq<char>, Seq<char>)>>,
    pub kill_signal: Seq<char>,
    pub kill_timeout: i64,
    pub kind: Seq<char>,
    pub leader: bool,
    pub lifecycle: Option<JsonView>,
    pub log_config: LogConfigView,
    pub meta: Option<JsonView>,
    pub name: Seq<char>,
    pub resources: ResourcesView,
    pub restart_policy: RestartPolicyView,
    pub scaling_policies: Option<JsonView>,
    pub services: Option<JsonView>,
    pub shutdown_delay: i64,
    pub templates: Option<JsonView>,
    pub user: Seq<char>,
    pub vault: Option<JsonView>,
    pub volume_mounts: Option<JsonView>,
}

impl DeepView for Task {
    type V = TaskView;

    open spec fn deep_view(&self) -> TaskView {
        TaskView {
            affinities: self.affinities.deep_view(),
            artifacts: self.artifacts.deep_view(),
            csiplugin_config: self.csiplugin_config.deep_view(),
            config: self.config.deep_view(),
            constraints: self.constraints.deep_view(),
            dispatch_payload: self.dispatch_payload.deep_view(),
            driver: self.driver.deep_view(),
            env: self.env.deep_view(),
            kill_signal: self.kill_signal.deep_view(),
            kill_timeout: self.kill_timeout,
            kind: self.kind.deep_view(),
            leader: self.leader,
            lifecycle: self.lifecycle.deep_view(),
            log_config: self.log_config.deep_view(),
            meta: self.meta.deep_view(),
            name: self.name.deep_view(),
            resources: self.resources.deep_view(),
            restart_policy: self.restart_policy.deep_view(),
            scaling_policies: self.scaling_policies.deep_view(),
            services: self.services.deep_view(),
            shutdown_delay: self.shutdown_delay,
            templates: self.templates.deep_view(),
            user: self.user.deep_view(),
            vault: self.vault.deep_view(),
            volume_mounts: self.volume_mounts.deep_view(),
        }
    }
}

impl TaskView {
    /// The value with every field at its zero: a number `0`, a flag `false`,
    /// a text, a list or a map empty, a status pending, an untyped tree
    /// `null`, and whatever may be left out absent.
    pub open spec fn zero() -> TaskView {
        TaskView {
            affinities: None,
            artifacts: None,
            csiplugin_config: None,
            config: ConfigView::zero(),
            constraints: None,
            dispatch_payload: None,
            driver: Seq::empty(),
            env: None,
            kill_signal: Seq::empty(),
            kill_timeout: 0,
            kind: Seq::empty(),
            leader: false,
            lifecycle: None,
            log_config: LogConfigView::zero(),
            meta: None,
            name: Seq::empty(),
            resources: ResourcesView::zero(),
            restart_policy: RestartPolicyView::zero(),
            scaling_policies: None,
            services: None,
            shutdown_delay: 0,
            templates: None,
            user: Seq::empty(),
            vault: None,
            volume_mounts: None,
        }
    }
}

impl Default for Task {
    fn default() -> (r: Task)
        ensures
            r.deep_view() == TaskView::zero(),
    {
        Task {
            affinities: None,
            artifacts: None,
            csiplugin_config: None,
            config: Config::default(),
            constraints: None,
            dispatch_payload: None,
            driver: String::new(),
            env: None,
            kill_signal: String::new(),
            kill_timeout: 0,
            kind: String::new(),
            leader: false,
            lifecycle: None,
            log_config: LogConfig::default(),
            meta: None,
            name: String::new(),
            resources: Resources::default(),
            restart_policy: RestartPolicy::default(),
            scaling_policies: None,
            services: None,
            shutdown_delay: 0,
            templates: None,
            user: String::new(),
            vault: None,
            volume_mounts: None,
        }
    }
}

/// The driver configuration of a task.
#[derive(Debug, Clone, PartialEq)]
pub struct Config {
    pub image: String,
    pub network_mode: Option<String>,
    pub ports: Option<Vec<String>>,
}

/// The model of a [`Config`].
pub struct ConfigView {
    pub image: Seq<char>,
    pub network_mode: Option<Seq<char>>,
    pub ports: Option<Seq<Seq<char>>>,
}

impl DeepView for Config {
    type V = ConfigView;

    open spec fn deep_view(&self) -> ConfigView {
        ConfigView {
            image: self.image.deep_view(),
            network_mode: self.network_mode.deep_view(),
            ports: self.ports.deep_view(),
        }
    }
}

impl ConfigView {
    /// The value with every field at its zero: a number `0`, a flag `false`,
    /// a text, a list or a map empty, a status pending, an untyped tree
    /// `null`, and whatever may be left out absent.
    pub open spec fn zero() -> ConfigView {
        ConfigView {
            image: Seq::empty(),
            network_mode: None,
            ports: None,
        }
    }
}

impl Default for Config {
    fn default() -> (r: Config)
        ensures
            r.deep_view() == ConfigView::zero(),
    {
        Config {
            image: String::new(),
            network_mode: None,
            ports: None,
        }
    }
}

/// How much log output of a task is kept.
#[derive(Debug, Clone, PartialEq)]
pub struct LogConfig {
    pub max_file_size_mb: i64,
    pub max_files: i64,
}

/// The model of a [`LogConfig`].
pub struct LogConfigView {
    pub max_file_size_mb: i64,
    pub max_files: i64,
}

impl DeepView for LogConfig {
    type V = LogConfigView;

    open spec fn deep_view(&self) -> LogConfigView {
        LogConfigView {
            max_file_size_mb: self.max_file_size_mb,
            max_files: self.max_files,
        }
    }
}

impl LogConfigView {
    /// The value with every field at its zero: a number `0`, a flag `false`,
    /// a text, a list or a map empty, a status pending, an untyped tree
    /// `null`, and whatever may be left out absent.
    pub open spec fn zero() -> LogConfigView {
        LogConfigView {
            max_file_size_mb: 0,
            max_files: 0,
        }
    }
}

impl Default for LogConfig {
    fn default() -> (r: LogConfig)
        ensures
            r.deep_view() == LogConfigView::zero(),
    {
        LogConfig {
            max_file_size_mb: 0,
            max_files: 0,
        }
    }
}

/// A device that a task asks for.
#[derive(Debug, Clone, PartialEq)]
pub struct Device {
    pub affinities: Option<Json>,
    pub constraints: Option<Json>,
    pub count: i64,
    pub name: String,
}

/// The model of a [`Device`].
pub struct DeviceView {
    pub affinities: Option<JsonView>,
    pub constraints: Option<JsonView>,
    pub count: i64,
    pub name: Seq<char>,
}

impl DeepView for Device {
    type V = DeviceView;

    open spec fn deep_view(&self) -> DeviceView {
        DeviceView {
            affinities: self.affinities.deep_view(),
            constraints: self.constraints.deep_view(),
            count: self.count,
            name: self.name.deep_view(),
        }
    }
}

impl DeviceView {
    /// The value with every field at its zero: a number `0`, a flag `false`,
    /// a text, a list or a map empty, a status pending, an untyped tree
    /// `null`, and whatever may be left out absent.
    pub open spec fn zero() -> DeviceView {
        DeviceView {
            affinities: None,
            constraints: None,
            count: 0,
            name: Seq::empty(),
        }
    }
}

impl Default for Device {
    fn default() -> (r: Device)
        ensures
            r.deep_view() == DeviceView::zero(),
    {
        Device {
            affinities: None,
            constraints: None,
            count: 0,
            name: String::new(),
        }
    }
}

/// A device that a task was granted.
#[derive(Debug, Clone, PartialEq)]
pub struct SharedDevice {
    pub device_ids: Vec<String>,
    pub name: String,
    pub device_type: String,
    pub vendor: String,
}

/// The model of a [`SharedDevice`].
pub struct SharedDeviceView {
    pub device_ids: Seq<Seq<char>>,
    pub name: Seq<char>,
    pub device_type: Seq<char>,
    pub vendor: Seq<char>,
}

impl DeepView for SharedDevice {
    type V = SharedDeviceView;

    open spec fn deep_view(&self) -> SharedDeviceView {
        SharedDeviceView {
            device_ids: self.device_ids.deep_view(),
            name: self.name.deep_view(),
            device_type: self.device_type.deep_view(),
            vendor: self.vendor.deep_view(),
        }
    }
}

impl SharedDeviceView {
    /// The value with every field at its zero: a number `0`, a flag `false`,
    /// a text, a list or a map empty, a status pending, an untyped tree
    /// `null`, and whatever may be left out absent.
    pub open spec fn zero() -> SharedDeviceView {
        SharedDeviceView {
            device_ids: Seq::empty(),
            name: Seq::empty(),
            device_type: Seq::empty(),
            vendor: Seq::empty(),
        }
    }
}

impl Default for SharedDevice {
    fn default() -> (r: SharedDevice)
        ensures
            r.deep_view() == SharedDeviceView::zero(),
    {
        SharedDevice {
            device_ids: empty_list(),
            name: String::new(),
            device_type: String::new(),
            vendor: String::new(),
        }
    }
}

/// How a job or task group rolls out a new version.
#[derive(Debug, Clone, PartialEq)]
pub struct Update {
    pub auto_promote: bool,
    pub auto_revert: bool,
    pub canary: i64,
    pub health_check: String,
    pub healthy_deadline: i64,
    pub max_parallel: i64,
    pub min_healthy_time: i64,
    pub progress_deadline: i64,
    pub stagger: i64,
}

/// The model of a [`Update`].
pub struct UpdateView {
    pub auto_promote: bool,
    pub auto_revert: bool,
    pub canary: i64,
    pub health_check: Seq<char>,
    pub healthy_deadline: i64,
    pub max_parallel: i64,
    pub min_healthy_time: i64,
    pub progress_deadline: i64,
    pub stagger: i64,
}

impl DeepView for Update {
    type V = UpdateView;

    open spec fn deep_view(&self) -> UpdateView {
        UpdateView {
            auto_promote: self.auto_promote,
            auto_revert: self.auto_revert,
            canary: self.canary,
            health_check: self.health_check.deep_view(),
            healthy_deadline: self.healthy_deadline,
            max_parallel: self.max_parallel,
            min_healthy_time: self.min_healthy_time,
            progress_deadline: self.progress_deadline,
            stagger: self.stagger,
        }
    }
}

impl UpdateView {
    /// The value with every field at its zero: a number `0`, a flag `false`,
    /// a text, a list or a map empty, a status pending, an untyped tree
    /// `null`, and whatever may be left out absent.
    pub open spec fn zero() -> UpdateView {
        UpdateView {
            auto_promote: false,
            auto_revert: false,
            canary: 0,
            health_check: Seq::empty(),
            healthy_deadline: 0,
            max_parallel: 0,
            min_healthy_time: 0,
            progress_deadline: 0,
            stagger: 0,
        }
    }
}

impl Default for Update {
    fn default() -> (r: Update)
        ensures
            r.deep_view() == UpdateView::zero(),
    {
        Update {
            auto_promote: false,
            auto_revert: false,
            canary: 0,
            health_check: String::new(),
            healthy_deadline: 0,
            max_parallel: 0,
            min_healthy_time: 0,
            progress_deadline: 0,
            stagger: 0,
        }
    }
}

/// What the scheduler recorded while it placed an allocation.
#[derive(Debug, Clone, PartialEq)]
pub struct Metrics {
    pub allocation_time: i64,
    pub class_exhausted: Option<Json>,
    pub class_filtered: Option<Json>,
    pub coalesced_failures: i64,
    pub constraint_filtered: Option<Json>,
    pub dimension_exhausted: Option<DimensionExhausted>,
    pub nodes_available: Option<NodesAvailable>,
    pub nodes_evaluated: i64,
    pub nodes_exhausted: i64,
    pub nodes_filtered: i64,
    pub quota_exhausted: Option<Json>,
    pub resources_exhausted: Option<Json>,
    pub score_meta_data: Option<Vec<ScoreMetaDaum>>,
    pub scores: Option<Json>,
}

/// The model of a [`Metrics`].
pub struct MetricsView {
    pub allocation_time: i64,
    pub class_exhausted: Option<JsonView>,
    pub class_filtered: Option<JsonView>,
    pub coalesced_failures: i64,
    pub constraint_filtered: Option<JsonView>,
    pub dimension_exhausted: Option<DimensionExhaustedView>,
    pub nodes_available: Option<NodesAvailableView>,
    pub nodes_evaluated: i64,
    pub nodes_exhausted: i64,
    pub nodes_filtered: i64,
    pub quota_exhausted: Option<JsonView>,
    pub resources_exhausted: Option<JsonView>,
    pub score_meta_data: Option<Seq<ScoreMetaDaumView>>,
    pub scores: Option<JsonView>,
}

impl DeepView for Metrics {
    type V = MetricsView;

    open spec fn deep_view(&self) -> MetricsView {
        MetricsView {
            allocation_time: self.allocation_time,
            class_exhausted: self.class_exhausted.deep_view(),
            class_filtered: self.class_filtered.deep_view(),
            coalesced_failures: self.coalesced_failures,
            constraint_filtered: self.constraint_filtered.deep_view(),
            dimension_exhausted: self.dimension_exhausted.deep_view(),
            nodes_available: self.nodes_available.deep_view(),
            nodes_evaluated: self.nodes_evaluated,
            nodes_exhausted: self.nodes_exhausted,
            nodes_filtered: self.nodes_filtered,
            quota_exhausted: self.quota_exhausted.deep_view(),
            resources_exhausted: self.resources_exhausted.deep_view(),
            score_meta_data: self.score_meta_data.deep_view(),
            scores: self.scores.deep_view(),
        }
    }
}

impl MetricsView {
    /// The value with every field at its zero: a number `0`, a flag `false`,
    /// a text, a list or a map empty, a status pending, an untyped tree
    /// `null`, and whatever may be left out absent.
    pub open spec fn zero() -> MetricsView {
        MetricsView {
            allocation_time: 0,
            class_exhausted: None,
            class_filtered: None,
            coalesced_failures: 0,
            constraint_filtered: None,
            dimension_exhausted: None,
            nodes_available: None,
            nodes_evaluated: 0,
            nodes_exhausted: 0,
            nodes_filtered: 0,
            quota_exhausted: None,
            resources_exhausted: None,
            score_meta_data: None,
            scores: None,
        }
    }
}

impl Default for Metrics {
    fn default() -> (r: Metrics)
        ensures
            r.deep_view() == MetricsView::zero(),
    {
        Metrics {
            allocation_time: 0,
            class_exhausted: None,
            class_filtered: None,
            coalesced_failures: 0,
            constraint_filtered: None,
            dimension_exhausted: None,
            nodes_available: None,
            nodes_evaluated: 0,
            nodes_exhausted: 0,
            nodes_filtered: 0,
            quota_exhausted: None,
            resources_exhausted: None,
            score_meta_data: None,
            scores: None,
        }
    }
}

/// How many nodes ran out of each resource dimension.
#[derive(Debug, Clone, PartialEq)]
pub struct DimensionExhausted {
    pub disk: Option<i64>,
}

/// The model of a [`DimensionExhausted`].
pub struct DimensionExhaustedView {
    pub disk: Option<i64>,
}

impl DeepView for DimensionExhausted {
    type V = DimensionExhaustedView;

    open spec fn deep_view(&self) -> DimensionExhaustedView {
        DimensionExhaustedView {
            disk: self.disk.deep_view(),
        }
    }
}

impl DimensionExhaustedView {
    /// The value with every field at its zero: a number `0`, a flag `false`,
    /// a text, a list or a map empty, a status pending, an untyped tree
    /// `null`, and whatever may be left out absent.
    pub open spec fn zero() -> DimensionExhaustedView {
        DimensionExhaustedView {
            disk: None,
        }
    }
}

impl Default for DimensionExhausted {
    fn default() -> (r: DimensionExhausted)
        ensures
            r.deep_view() == DimensionExhaustedView::zero(),
    {
        DimensionExhausted {
            disk: None,
        }
    }
}

/// How many nodes each datacenter offered.
#[derive(Debug, Clone, PartialEq)]
pub struct NodesAvailable {
    pub dc1: i64,
}

/// The model of a [`NodesAvailable`].
pub struct NodesAvailableView {
    pub dc1: i64,
}

impl DeepView for NodesAvailable {
    type V = NodesAvailableView;

    open spec fn deep_view(&self) -> NodesAvailableView {
        NodesAvailableView {
            dc1: self.dc1,
        }
    }
}

impl NodesAvailableView {
    /// The value with every field at its zero: a number `0`, a flag `false`,
    /// a text, a list or a map empty, a status pending, an untyped tree
    /// `null`, and whatever may be left out absent.
    pub open spec fn zero() -> NodesAvailableView {
        NodesAvailableView {
            dc1: 0,
        }
    }
}

impl Default for NodesAvailable {
    fn default() -> (r: NodesAvailable)
        ensures
            r.deep_view() == NodesAvailableView::zero(),
    {
        NodesAvailable {
            dc1: 0,
        }
    }
}

/// The score that one node got for a placement. The score is a fraction,
/// held as the number that was written.
#[derive(Debug, Clone, PartialEq)]
pub struct ScoreMetaDaum {
    pub node_id: String,
    pub norm_score: Number,
    pub scores: Scores,
}

/// The model of a [`ScoreMetaDaum`].
pub struct ScoreMetaDaumView {
    pub node_id: Seq<char>,
    pub norm_score: NumberView,
    pub scores: ScoresView,
}

impl DeepView for ScoreMetaDaum {
    type V = ScoreMetaDaumView;

    open spec fn deep_view(&self) -> ScoreMetaDaumView {
        ScoreMetaDaumView {
            node_id: self.node_id.deep_view(),
            norm_score: self.norm_score.deep_view(),
            scores: self.scores.deep_view(),
        }
    }
}

impl ScoreMetaDaumView {
    /// The value with every field at its zero: a number `0`, a flag `false`,
    /// a text, a list or a map empty, a status pending, an untyped tree
    /// `null`, and whatever may be left out absent.
    pub open spec fn zero() -> ScoreMetaDaumView {
        ScoreMetaDaumView {
            node_id: Seq::empty(),
            norm_score: NumberView::Integer(0),
            scores: ScoresView::zero(),
        }
    }
}

impl Default for ScoreMetaDaum {
    fn default() -> (r: ScoreMetaDaum)
        ensures
            r.deep_view() == ScoreMetaDaumView::zero(),
    {
        ScoreMetaDaum {
            node_id: String::new(),
            norm_score: Number::Int(0),
            scores: Scores::default(),
        }
    }
}

/// The parts that a node's placement score is made of, each a fraction, held as
/// the number that was written.
#[derive(Debug, Clone, PartialEq)]
pub struct Scores {
    pub binpack: Number,
    pub job_anti_affinity: Number,
    pub node_affinity: Number,
    pub node_reschedule_penalty: Number,
}

/// The model of a [`Scores`].
pub struct ScoresView {
    pub binpack: NumberView,
    pub job_anti_affinity: NumberView,
    pub node_affinity: NumberView,
    pub node_reschedule_penalty: NumberView,
}

impl DeepView for Scores {
    type V = ScoresView;

    open spec fn deep_view(&self) -> ScoresView {
        ScoresView {
            binpack: self.binpack.deep_view(),
            job_anti_affinity: self.job_anti_affinity.deep_view(),
            node_affinity: self.node_affinity.deep_view(),
            node_reschedule_penalty: self.node_reschedule_penalty.deep_view(),
        }
    }
}

impl ScoresView {
    /// The value with every field at its zero: a number `0`, a flag `false`,
    /// a text, a list or a map empty, a status pending, an untyped tree
    /// `null`, and whatever may be left out absent.
    pub open spec fn zero() -> ScoresView {
        ScoresView {
            binpack: NumberView::Integer(0),
            job_anti_affinity: NumberView::Integer(0),
            node_affinity: NumberView::Integer(0),
            node_reschedule_penalty: NumberView::Integer(0),
        }
    }
}

impl Default for Scores {
    fn default() -> (r: Scores)
        ensures
            r.deep_view() == ScoresView::zero(),
    {
        Scores {
            binpack: Number::Int(0),
            job_anti_affinity: Number::Int(0),
            node_affinity: Number::Int(0),
            node_reschedule_penalty: Number::Int(0),
        }
    }
}

/// The network that an allocation runs in.
#[derive(Debug, Clone, PartialEq)]
pub struct NetworkStatus {
    pub address: String,
    pub dns: Option<Json>,
    pub interface_name: String,
}

/// The model of a [`NetworkStatus`].
pub struct NetworkStatusView {
    pub address: Seq<char>,
    pub dns: Option<JsonView>,
    pub interface_name: Seq<char>,
}

impl DeepView for NetworkStatus {
    type V = NetworkStatusView;

    open spec fn deep_view(&self) -> NetworkStatusView {
        NetworkStatusView {
            address: self.address.deep_view(),
            dns: self.dns.deep_view(),
            interface_name: self.interface_name.deep_view(),
        }
    }
}

impl NetworkStatusView {
    /// The value with every field at its zero: a number `0`, a flag `false`,
    /// a text, a list or a map empty, a status pending, an untyped tree
    /// `null`, and whatever may be left out absent.
    pub open spec fn zero() -> NetworkStatusView {
        NetworkStatusView {
            address: Seq::empty(),
            dns: None,
            interface_name: Seq::empty(),
        }
    }
}

impl Default for NetworkStatus {
    fn default() -> (r: NetworkStatus)
        ensures
            r.deep_view() == NetworkStatusView::zero(),
    {
        NetworkStatus {
            address: String::new(),
            dns: None,
            interface_name: String::new(),
        }
    }
}

/// The resources that a task asks for.
#[derive(Debug, Clone, PartialEq)]
pub struct Resources {
    pub cpu: i64,
    pub cores: i64,
    pub devices: Option<Vec<Device>>,
    pub disk_mb: Option<i64>,
    pub iops: Option<i64>,
    pub memory_mb: i64,
    pub memory_max_mb: Option<i64>,
    pub networks: Option<Vec<Network>>,
}

/// The model of a [`Resources`].
pub struct ResourcesView {
    pub cpu: i64,
    pub cores: i64,
    pub devices: Option<Seq<DeviceView>>,
    pub disk_mb: Option<i64>,
    pub iops: Option<i64>,
    pub memory_mb: i64,
    pub memory_max_mb: Option<i64>,
    pub networks: Option<Seq<NetworkView>>,
}

impl DeepView for Resources {
    type V = ResourcesView;

    open spec fn deep_view(&self) -> ResourcesView {
        ResourcesView {
            cpu: self.cpu,
            cores: self.cores,
            devices: self.devices.deep_view(),
            disk_mb: self.disk_mb.deep_view(),
            iops: self.iops.deep_view(),
            memory_mb: self.memory_mb,
            memory_max_mb: self.memory_max_mb.deep_view(),
            networks: self.networks.deep_view(),
        }
    }
}

impl ResourcesView {
    /// The value with every field at its zero: a number `0`, a flag `false`,
    /// a text, a list or a map empty, a status pending, an untyped tree
    /// `null`, and whatever may be left out absent.
    pub open spec fn zero() -> ResourcesView {
        ResourcesView {
            cpu: 0,
            cores: 0,
            devices: None,
            disk_mb: None,
            iops: None,
            memory_mb: 0,
            memory_max_mb: None,
            networks: None,
        }
    }
}

impl Default for Resources {
    fn default() -> (r: Resources)
        ensures
            r.deep_view() == ResourcesView::zero(),
    {
        Resources {
            cpu: 0,
            cores: 0,
            devices: None,
            disk_mb: None,
            iops: None,
            memory_mb: 0,
            memory_max_mb: None,
            networks: None,
        }
    }
}

/// The resources that a task was granted.
#[derive(Debug, Clone, PartialEq)]
pub struct SharedResources {
    pub cpu: Cpu,
    pub devices: Option<Vec<SharedDevice>>,
    pub disk_mb: Option<i64>,
    pub iops: Option<i64>,
    pub memory: Option<Memory>,
    pub networks: Option<Vec<Network>>,
}

/// The model of a [`SharedResources`].
pub struct SharedResourcesView {
    pub cpu: CpuView,
    pub devices: Option<Seq<SharedDeviceView>>,
    pub disk_mb: Option<i64>,
    pub iops: Option<i64>,
    pub memory: Option<MemoryView>,
    pub networks: Option<Seq<NetworkView>>,
}

impl DeepView for SharedResources {
    type V = SharedResourcesView;

    open spec fn deep_view(&self) -> SharedResourcesView {
        SharedResourcesView {
            cpu: self.cpu.deep_view(),
            devices: self.devices.deep_view(),
            disk_mb: self.disk_mb.deep_view(),
            iops: self.iops.deep_view(),
            memory: self.memory.deep_view(),
            networks: self.networks.deep_view(),
        }
    }
}

impl SharedResourcesView {
    /// The value with every field at its zero: a number `0`, a flag `false`,
    /// a text, a list or a map empty, a status pending, an untyped tree
    /// `null`, and whatever may be left out absent.
    pub open spec fn zero() -> SharedResourcesView {
        SharedResourcesView {
            cpu: CpuView::zero(),
            devices: None,
            disk_mb: None,
            iops: None,
            memory: None,
            networks: None,
        }
    }
}

impl Default for SharedResources {
    fn default() -> (r: SharedResources)
        ensures
            r.deep_view() == SharedResourcesView::zero(),
    {
        SharedResources {
            cpu: Cpu::default(),
            devices: None,
            disk_mb: None,
            iops: None,
            memory: None,
            networks: None,
        }
    }
}

/// The state of one task of an allocation, with what happened to it.
#[derive(Debug, Clone, PartialEq)]
pub struct TaskState {
    pub events: Option<Vec<Event>>,
    pub failed: Option<bool>,
    pub finished_at: Option<Json>,
    pub last_restart: Option<String>,
    pub restarts: i64,
    pub started_at: Option<String>,
    pub state: RunningStatus,
    pub task_handle: Option<Json>,
}

/// The model of a [`TaskState`].
pub struct TaskStateView {
    pub events: Option<Seq<EventView>>,
    pub failed: Option<bool>,
    pub finished_at: Option<JsonView>,
    pub last_restart: Option<Seq<char>>,
    pub restarts: i64,
    pub started_at: Option<Seq<char>>,
    pub state: RunningStatus,
    pub task_handle: Option<JsonView>,
}

impl DeepView for TaskState {
    type V = TaskStateView;

    open spec fn deep_view(&self) -> TaskStateView {
        TaskStateView {
            events: self.events.deep_view(),
            failed: self.failed.deep_view(),
            finished_at: self.finished_at.deep_view(),
            last_restart: self.last_restart.deep_view(),
            restarts: self.restarts,
            started_at: self.started_at.deep_view(),
            state: self.state,
            task_handle: self.task_handle.deep_view(),
        }
    }
}

impl TaskStateView {
    /// The value with every field at its zero: a number `0`, a flag `false`,
    /// a text, a list or a map empty, a status pending, an untyped tree
    /// `null`, and whatever may be left out absent.
    pub open spec fn zero() -> TaskStateView {
        TaskStateView {
            events: None,
            failed: None,
            finished_at: None,
            last_restart: None,
            restarts: 0,
            started_at: None,
            state: RunningStatus::Pending,
            task_handle: None,
        }
    }
}

impl Default for TaskState {
    fn default() -> (r: TaskState)
        ensures
            r.deep_view() == TaskStateView::zero(),
    {
        TaskState {
            events: None,
            failed: None,
            finished_at: None,
            last_restart: None,
            restarts: 0,
            started_at: None,
            state: RunningStatus::Pending,
            task_handle: None,
        }
    }
}

/// One thing that happened to a task.
#[derive(Debug, Clone, PartialEq)]
pub struct Event {
    pub details: Details,
    pub disk_limit: i64,
    pub display_message: String,
    pub download_error: String,
    pub driver_error: String,
    pub driver_message: String,
    pub exit_code: i64,
    pub failed_sibling: String,
    pub fails_task: bool,
    pub generic_source: String,
    pub kill_error: String,
    pub kill_reason: String,
    pub kill_timeout: i64,
    pub message: String,
    pub restart_reason: String,
    pub setup_error: String,
    pub signal: i64,
    pub start_delay: i64,
    pub task_signal: String,
    pub task_signal_reason: String,
    pub time: i64,
    pub type_field: String,
    pub validation_error: String,
    pub vault_error: String,
}

/// The model of a [`Event`].
pub struct EventView {
    pub details: DetailsView,
    pub disk_limit: i64,
    pub display_message: Seq<char>,
    pub download_error: Seq<char>,
    pub driver_error: Seq<char>,
    pub driver_message: Seq<char>,
    pub exit_code: i64,
    pub failed_sibling: Seq<char>,
    pub fails_task: bool,
    pub generic_source: Seq<char>,
    pub kill_error: Seq<char>,
    pub kill_reason: Seq<char>,
    pub kill_timeout: i64,
    pub message: Seq<char>,
    pub restart_reason: Seq<char>,
    pub setup_error: Seq<char>,
    pub signal: i64,
    pub start_delay: i64,
    pub task_signal: Seq<char>,
    pub task_signal_reason: Seq<char>,
    pub time: i64,
    pub type_field: Seq<char>,
    pub validation_error: Seq<char>,
    pub vault_error: Seq<char>,
}

impl DeepView for Event {
    type V = EventView;

    open spec fn deep_view(&self) -> EventView {
        EventView {
            details: self.details.deep_view(),
            disk_limit: self.disk_limit,
            display_message: self.display_message.deep_view(),
            download_error: self.download_error.deep_view(),
            driver_error: self.driver_error.deep_view(),
            driver_message: self.driver_message.deep_view(),
            exit_code: self.exit_code,
            failed_sibling: self.failed_sibling.deep_view(),
            fails_task: self.fails_task,
            generic_source: self.generic_source.deep_view(),
            kill_error: self.kill_error.deep_view(),
            kill_reason: self.kill_reason.deep_view(),
            kill_timeout: self.kill_timeout,
            message: self.message.deep_view(),
            restart_reason: self.restart_reason.deep_view(),
            setup_error: self.setup_error.deep_view(),
            signal: self.signal,
            start_delay: self.start_delay,
            task_signal: self.task_signal.deep_view(),
            task_signal_reason: self.task_signal_reason.deep_view(),
            time: self.time,
            type_field: self.type_field.deep_view(),
            validation_error: self.validation_error.deep_view(),
            vault_error: self.vault_error.deep_view(),
        }
    }
}

impl EventView {
    /// The value with every field at its zero: a number `0`, a flag `false`,
    /// a text, a list or a map empty, a status pending, an untyped tree
    /// `null`, and whatever may be left out absent.
    pub open spec fn zero() -> EventView {
        EventView {
            details: DetailsView::zero(),
            disk_limit: 0,
            display_message: Seq::empty(),
            download_error: Seq::empty(),
            driver_error: Seq::empty(),
            driver_message: Seq::empty(),
            exit_code: 0,
            failed_sibling: Seq::empty(),
            fails_task: false,
            generic_source: Seq::empty(),
            kill_error: Seq::empty(),
            kill_reason: Seq::empty(),
            kill_timeout: 0,
            message: Seq::empty(),
            restart_reason: Seq::empty(),
            setup_error: Seq::empty(),
            signal: 0,
            start_delay: 0,
            task_signal: Seq::empty(),
            task_signal_reason: Seq::empty(),
            time: 0,
            type_field: Seq::empty(),
            validation_error: Seq::empty(),
            vault_error: Seq::empty(),
        }
    }
}

impl Default for Event {
    fn default() -> (r: Event)
        ensures
            r.deep_view() == EventView::zero(),
    {
        Event {
            details: Details::default(),
            disk_limit: 0,
            display_message: String::new(),
            download_error: String::new(),
            driver_error: String::new(),
            driver_message: String::new(),
            exit_code: 0,
            failed_sibling: String::new(),
            fails_task: false,
            generic_source: String::new(),
            kill_error: String::new(),
            kill_reason: String::new(),
            kill_timeout: 0,
            message: String::new(),
            restart_reason: String::new(),
            setup_error: String::new(),
            signal: 0,
            start_delay: 0,
            task_signal: String::new(),
            task_signal_reason: String::new(),
            time: 0,
            type_field: String::new(),
            validation_error: String::new(),
            vault_error: String::new(),
        }
    }
}

/// The free-form details of a task event.
#[derive(Debug, Clone, PartialEq)]
pub struct Details {
    pub message: Option<String>,
    pub image: Option<String>,
    pub restart_reason: Option<String>,
    pub exit_code: Option<String>,
    pub exit_message: Option<String>,
    pub oom_killed: Option<String>,
    pub signal: Option<String>,
    pub start_delay: Option<String>,
}

/// The model of a [`Details`].
pub struct DetailsView {
    pub message: Option<Seq<char>>,
    pub image: Option<Seq<char>>,
    pub restart_reason: Option<Seq<char>>,
    pub exit_code: Option<Seq<char>>,
    pub exit_message: Option<Seq<char>>,
    pub oom_killed: Option<Seq<char>>,
    pub signal: Option<Seq<char>>,
    pub start_delay: Option<Seq<char>>,
}

impl DeepView for Details {
    type V = DetailsView;

    open spec fn deep_view(&self) -> DetailsView {
        DetailsView {
            message: self.message.deep_view(),
            image: self.image.deep_view(),
            restart_reason: self.restart_reason.deep_view(),
            exit_code: self.exit_code.deep_view(),
            exit_message: self.exit_message.deep_view(),
            oom_killed: self.oom_killed.deep_view(),
            signal: self.signal.deep_view(),
            start_delay: self.start_delay.deep_view(),
        }
    }
}

impl DetailsView {
    /// The value with every field at its zero: a number `0`, a flag `false`,
    /// a text, a list or a map empty, a status pending, an untyped tree
    /// `null`, and whatever may be left out absent.
    pub open spec fn zero() -> DetailsView {
        DetailsView {
            message: None,
            image: None,
            restart_reason: None,
            exit_code: None,
            exit_message: None,
            oom_killed: None,
            signal: None,
            start_delay: None,
        }
    }
}

impl Default for Details {
    fn default() -> (r: Details)
        ensures
            r.deep_view() == DetailsView::zero(),
    {
        Details {
            message: None,
            image: None,
            restart_reason: None,
            exit_code: None,
            exit_message: None,
            oom_killed: None,
            signal: None,
            start_delay: None,
        }
    }
}

/// The body of a request to parse a job specification.
#[derive(Debug, Clone, PartialEq)]
pub struct ParseJobPayload {
    pub job_hcl: String,
    pub canonicalize: bool,
}

/// The model of a [`ParseJobPayload`].
pub struct ParseJobPayloadView {
    pub job_hcl: Seq<char>,
    pub canonicalize: bool,
}

impl DeepView for ParseJobPayload {
    type V = ParseJobPayloadView;

    open spec fn deep_view(&self) -> ParseJobPayloadView {
        ParseJobPayloadView {
            job_hcl: self.job_hcl.deep_view(),
            canonicalize: self.canonicalize,
        }
    }
}

impl ParseJobPayloadView {
    /// The value with every field at its zero: a number `0`, a flag `false`,
    /// a text, a list or a map empty, a status pending, an untyped tree
    /// `null`, and whatever may be left out absent.
    pub open spec fn zero() -> ParseJobPayloadView {
        ParseJobPayloadView {
            job_hcl: Seq::empty(),
            canonicalize: false,
        }
    }
}

impl Default for ParseJobPayload {
    fn default() -> (r: ParseJobPayload)
        ensures
            r.deep_view() == ParseJobPayloadView::zero(),
    {
        ParseJobPayload {
            job_hcl: String::new(),
            canonicalize: false,
        }
    }
}

} // verus!
