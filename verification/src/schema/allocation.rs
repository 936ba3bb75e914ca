//! The wire schema of allocations and placement metrics.

use vstd::prelude::*;
use crate::containers::{empty_list, lemma_empty_map_round_trip, lemma_empty_map_writable};
use crate::jobs::{
    AllocatedResources, Allocation, AllocationView, DeploymentStatus, DeploymentStatusView,
    DesiredTransition, DesiredTransitionView, DimensionExhausted, DimensionExhaustedView, Job,
    ListJobAllocationsResponse, ListJobAllocationsResponseView, Metrics, MetricsView, NetworkStatus,
    NodesAvailable, NodesAvailableView, Resources, RunningStatus, ScoreMetaDaum, ScoreMetaDaumView,
    Scores, ScoresView, TaskState,
};
use crate::json::{members_view, Json, JsonView, Number};
use crate::schema::status::status_of;
use crate::text::{lemma_writable_empty, lemma_writable_object, lemma_writable_push, writable};
use crate::wire::{
    field, field_or, lemma_field_or_round_trip, lemma_field_or_writable, lemma_field_round_trip,
    lemma_field_writable, lemma_lookup_empty, lemma_lookup_push, lookup, put, spec_field,
    spec_field_or, DecodeError, Members, Wire,
};

verus! {

/// How the names of the fields of a [`DesiredTransition`] are spelled: of each its length
/// and, where another is as long, a letter in which the two differ.
proof fn lemma_desired_transition_names()
    ensures
        "Migrate"@.len() == 7,
        "Reschedule"@.len() == 10,
        "ForceReschedule"@.len() == 15,
{
    reveal_strlit("Migrate");
    reveal_strlit("Reschedule");
    reveal_strlit("ForceReschedule");
}

/// Each member of a written [`DesiredTransition`] is found under its name.
proof fn lemma_desired_transition_members(x: DesiredTransitionView)
    ensures
        lookup(DesiredTransition::spec_encode(x)->Object_0, "Migrate"@) == Some(
            <Option<Json>>::spec_encode(x.migrate),
        ),
        lookup(DesiredTransition::spec_encode(x)->Object_0, "Reschedule"@) == Some(
            <Option<Json>>::spec_encode(x.reschedule),
        ),
        lookup(DesiredTransition::spec_encode(x)->Object_0, "ForceReschedule"@) == Some(
            <Option<Json>>::spec_encode(x.force_reschedule),
        ),
{
    broadcast use {lemma_lookup_push, lemma_lookup_empty};

    lemma_desired_transition_names();
}

/// A [`DesiredTransition`] is written as a tree that can be written as text where each of
/// its fields is.
proof fn lemma_desired_transition_written(x: DesiredTransitionView)
    requires
        writable(<Option<Json>>::spec_encode(x.migrate)),
        writable(<Option<Json>>::spec_encode(x.reschedule)),
        writable(<Option<Json>>::spec_encode(x.force_reschedule)),
    ensures
        writable(DesiredTransition::spec_encode(x)),
{
    broadcast use {
        lemma_writable_push,
        lemma_writable_empty,
        lemma_lookup_push,
        lemma_lookup_empty,
    };

    lemma_desired_transition_names();
    lemma_writable_object(DesiredTransition::spec_encode(x)->Object_0);
}

impl Wire for DesiredTransition {
    open spec fn spec_decode(v: JsonView) -> Result<DesiredTransitionView, DecodeError> {
        if let Err(e) = spec_field::<Option<Json>>(v, "Migrate"@) {
            Err(e)
        } else if let Err(e) = spec_field::<Option<Json>>(v, "Reschedule"@) {
            Err(e)
        } else if let Err(e) = spec_field::<Option<Json>>(v, "ForceReschedule"@) {
            Err(e)
        } else {
            Ok(
                DesiredTransitionView {
                    migrate: spec_field::<Option<Json>>(v, "Migrate"@)->Ok_0,
                    reschedule: spec_field::<Option<Json>>(v, "Reschedule"@)->Ok_0,
                    force_reschedule: spec_field::<Option<Json>>(v, "ForceReschedule"@)->Ok_0,
                },
            )
        }
    }

    open spec fn spec_absent() -> Result<DesiredTransitionView, DecodeError> {
        Err(DecodeError::MissingField)
    }

    open spec fn spec_encode(x: DesiredTransitionView) -> JsonView {
        JsonView::Object(
            Seq::empty()
                .push(("Migrate"@, <Option<Json>>::spec_encode(x.migrate)))
                .push(("Reschedule"@, <Option<Json>>::spec_encode(x.reschedule)))
                .push(("ForceReschedule"@, <Option<Json>>::spec_encode(x.force_reschedule))),
        )
    }

    fn decode(v: &Json) -> (r: Result<DesiredTransition, DecodeError>) {
        let migrate = field::<Option<Json>>(v, "Migrate")?;
        let reschedule = field::<Option<Json>>(v, "Reschedule")?;
        let force_reschedule = field::<Option<Json>>(v, "ForceReschedule")?;
        Ok(DesiredTransition { migrate, reschedule, force_reschedule })
    }

    fn absent() -> (r: Result<DesiredTransition, DecodeError>) {
        Err(DecodeError::MissingField)
    }

    fn encode(&self) -> (r: Json) {
        let mut members: Vec<(String, Json)> = Vec::new();
        proof {
            assert(members_view(members@) =~= Seq::empty());
        }
        put(&mut members, "Migrate", self.migrate.encode());
        put(&mut members, "Reschedule", self.reschedule.encode());
        put(&mut members, "ForceReschedule", self.force_reschedule.encode());
        Json::Object(members)
    }

    proof fn lemma_round_trip(v: JsonView) {
        let x = Self::spec_decode(v)->Ok_0;
        let w = Self::spec_encode(x);
        lemma_desired_transition_members(x);
        lemma_field_round_trip::<Option<Json>>(v, "Migrate"@);
        lemma_field_round_trip::<Option<Json>>(v, "Reschedule"@);
        lemma_field_round_trip::<Option<Json>>(v, "ForceReschedule"@);
        assert(spec_field::<Option<Json>>(w, "Migrate"@)
            == spec_field::<Option<Json>>(v, "Migrate"@));
        assert(spec_field::<Option<Json>>(w, "Reschedule"@)
            == spec_field::<Option<Json>>(v, "Reschedule"@));
        assert(spec_field::<Option<Json>>(w, "ForceReschedule"@)
            == spec_field::<Option<Json>>(v, "ForceReschedule"@));
    }

    proof fn lemma_absent_round_trip() {
    }

    proof fn lemma_writable(v: JsonView) {
        lemma_field_writable::<Option<Json>>(v, "Migrate"@);
        lemma_field_writable::<Option<Json>>(v, "Reschedule"@);
        lemma_field_writable::<Option<Json>>(v, "ForceReschedule"@);
        lemma_desired_transition_written(Self::spec_decode(v)->Ok_0);
    }
}

/// How the names of the fields of a [`DeploymentStatus`] are spelled: of each its length
/// and, where another is as long, a letter in which the two differ.
proof fn lemma_deployment_status_names()
    ensures
        "Canary"@.len() == 6,
        "Healthy"@.len() == 7,
        "ModifyIndex"@.len() == 11,
        "Timestamp"@.len() == 9,
{
    reveal_strlit("Canary");
    reveal_strlit("Healthy");
    reveal_strlit("ModifyIndex");
    reveal_strlit("Timestamp");
}

/// Each member of a written [`DeploymentStatus`] is found under its name.
proof fn lemma_deployment_status_members(x: DeploymentStatusView)
    ensures
        lookup(DeploymentStatus::spec_encode(x)->Object_0, "Canary"@) == Some(
            bool::spec_encode(x.canary),
        ),
        lookup(DeploymentStatus::spec_encode(x)->Object_0, "Healthy"@) == Some(
            bool::spec_encode(x.healthy),
        ),
        lookup(DeploymentStatus::spec_encode(x)->Object_0, "ModifyIndex"@) == Some(
            i64::spec_encode(x.modify_index),
        ),
        lookup(DeploymentStatus::spec_encode(x)->Object_0, "Timestamp"@) == Some(
            String::spec_encode(x.timestamp),
        ),
{
    broadcast use {lemma_lookup_push, lemma_lookup_empty};

    lemma_deployment_status_names();
}

/// A [`DeploymentStatus`] is written as a tree that can be written as text where each of
/// its fields is.
proof fn lemma_deployment_status_written(x: DeploymentStatusView)
    requires
        writable(bool::spec_encode(x.canary)),
        writable(bool::spec_encode(x.healthy)),
        writable(i64::spec_encode(x.modify_index)),
        writable(String::spec_encode(x.timestamp)),
    ensures
        writable(DeploymentStatus::spec_encode(x)),
{
    broadcast use {
        lemma_writable_push,
        lemma_writable_empty,
        lemma_lookup_push,
        lemma_lookup_empty,
    };

    lemma_deployment_status_names();
    lemma_writable_object(DeploymentStatus::spec_encode(x)->Object_0);
}

impl Wire for DeploymentStatus {
    open spec fn spec_decode(v: JsonView) -> Result<DeploymentStatusView, DecodeError> {
        if let Err(e) = spec_field::<bool>(v, "Canary"@) {
            Err(e)
        } else if let Err(e) = spec_field::<bool>(v, "Healthy"@) {
            Err(e)
        } else if let Err(e) = spec_field::<i64>(v, "ModifyIndex"@) {
            Err(e)
        } else if let Err(e) = spec_field::<String>(v, "Timestamp"@) {
            Err(e)
        } else {
            Ok(
                DeploymentStatusView {
                    canary: spec_field::<bool>(v, "Canary"@)->Ok_0,
                    healthy: spec_field::<bool>(v, "Healthy"@)->Ok_0,
                    modify_index: spec_field::<i64>(v, "ModifyIndex"@)->Ok_0,
                    timestamp: spec_field::<String>(v, "Timestamp"@)->Ok_0,
                },
            )
        }
    }

    open spec fn spec_absent() -> Result<DeploymentStatusView, DecodeError> {
        Err(DecodeError::MissingField)
    }

    open spec fn spec_encode(x: DeploymentStatusView) -> JsonView {
        JsonView::Object(
            Seq::empty()
                .push(("Canary"@, bool::spec_encode(x.canary)))
                .push(("Healthy"@, bool::spec_encode(x.healthy)))
                .push(("ModifyIndex"@, i64::spec_encode(x.modify_index)))
                .push(("Timestamp"@, String::spec_encode(x.timestamp))),
        )
    }

    fn decode(v: &Json) -> (r: Result<DeploymentStatus, DecodeError>) {
        let canary = field::<bool>(v, "Canary")?;
        let healthy = field::<bool>(v, "Healthy")?;
        let modify_index = field::<i64>(v, "ModifyIndex")?;
        let timestamp = field::<String>(v, "Timestamp")?;
        Ok(DeploymentStatus { canary, healthy, modify_index, timestamp })
    }

    fn absent() -> (r: Result<DeploymentStatus, DecodeError>) {
        Err(DecodeError::MissingField)
    }

    fn encode(&self) -> (r: Json) {
        let mut members: Vec<(String, Json)> = Vec::new();
        proof {
            assert(members_view(members@) =~= Seq::empty());
        }
        put(&mut members, "Canary", self.canary.encode());
        put(&mut members, "Healthy", self.healthy.encode());
        put(&mut members, "ModifyIndex", self.modify_index.encode());
        put(&mut members, "Timestamp", self.timestamp.encode());
        Json::Object(members)
    }

    proof fn lemma_round_trip(v: JsonView) {
        let x = Self::spec_decode(v)->Ok_0;
        let w = Self::spec_encode(x);
        lemma_deployment_status_members(x);
        lemma_field_round_trip::<bool>(v, "Canary"@);
        lemma_field_round_trip::<bool>(v, "Healthy"@);
        lemma_field_round_trip::<i64>(v, "ModifyIndex"@);
        lemma_field_round_trip::<String>(v, "Timestamp"@);
        assert(spec_field::<bool>(w, "Canary"@) == spec_field::<bool>(v, "Canary"@));
        assert(spec_field::<bool>(w, "Healthy"@) == spec_field::<bool>(v, "Healthy"@));
        assert(spec_field::<i64>(w, "ModifyIndex"@) == spec_field::<i64>(v, "ModifyIndex"@));
        assert(spec_field::<String>(w, "Timestamp"@) == spec_field::<String>(v, "Timestamp"@));
    }

    proof fn lemma_absent_round_trip() {
    }

    proof fn lemma_writable(v: JsonView) {
        lemma_field_writable::<bool>(v, "Canary"@);
        lemma_field_writable::<bool>(v, "Healthy"@);
        lemma_field_writable::<i64>(v, "ModifyIndex"@);
        lemma_field_writable::<String>(v, "Timestamp"@);
        lemma_deployment_status_written(Self::spec_decode(v)->Ok_0);
    }
}

/// How the names of the fields of a [`DimensionExhausted`] are spelled: of each its length
/// and, where another is as long, a letter in which the two differ.
proof fn lemma_dimension_exhausted_names()
    ensures
        "disk"@.len() == 4,
{
    reveal_strlit("disk");
}

/// Each member of a written [`DimensionExhausted`] is found under its name.
proof fn lemma_dimension_exhausted_members(x: DimensionExhaustedView)
    ensures
        lookup(DimensionExhausted::spec_encode(x)->Object_0, "disk"@) == Some(
            <Option<i64>>::spec_encode(x.disk),
        ),
{
    broadcast use {lemma_lookup_push, lemma_lookup_empty};

    lemma_dimension_exhausted_names();
}

/// A [`DimensionExhausted`] is written as a tree that can be written as text where each of
/// its fields is.
proof fn lemma_dimension_exhausted_written(x: DimensionExhaustedView)
    requires
        writable(<Option<i64>>::spec_encode(x.disk)),
    ensures
        writable(DimensionExhausted::spec_encode(x)),
{
    broadcast use {
        lemma_writable_push,
        lemma_writable_empty,
        lemma_lookup_push,
        lemma_lookup_empty,
    };

    lemma_dimension_exhausted_names();
    lemma_writable_object(DimensionExhausted::spec_encode(x)->Object_0);
}

impl Wire for DimensionExhausted {
    open spec fn spec_decode(v: JsonView) -> Result<DimensionExhaustedView, DecodeError> {
        if let Err(e) = spec_field::<Option<i64>>(v, "disk"@) {
            Err(e)
        } else {
            Ok(
                DimensionExhaustedView {
                    disk: spec_field::<Option<i64>>(v, "disk"@)->Ok_0,
                },
            )
        }
    }

    open spec fn spec_absent() -> Result<DimensionExhaustedView, DecodeError> {
        Err(DecodeError::MissingField)
    }

    open spec fn spec_encode(x: DimensionExhaustedView) -> JsonView {
        JsonView::Object(
            Seq::empty()
                .push(("disk"@, <Option<i64>>::spec_encode(x.disk))),
        )
    }

    fn decode(v: &Json) -> (r: Result<DimensionExhausted, DecodeError>) {
        let disk = field::<Option<i64>>(v, "disk")?;
        Ok(DimensionExhausted { disk })
    }

    fn absent() -> (r: Result<DimensionExhausted, DecodeError>) {
        Err(DecodeError::MissingField)
    }

    fn encode(&self) -> (r: Json) {
        let mut members: Vec<(String, Json)> = Vec::new();
        proof {
            assert(members_view(members@) =~= Seq::empty());
        }
        put(&mut members, "disk", self.disk.encode());
        Json::Object(members)
    }

    proof fn lemma_round_trip(v: JsonView) {
        let x = Self::spec_decode(v)->Ok_0;
        let w = Self::spec_encode(x);
        lemma_dimension_exhausted_members(x);
        lemma_field_round_trip::<Option<i64>>(v, "disk"@);
        assert(spec_field::<Option<i64>>(w, "disk"@) == spec_field::<Option<i64>>(v, "disk"@));
    }

    proof fn lemma_absent_round_trip() {
    }

    proof fn lemma_writable(v: JsonView) {
        lemma_field_writable::<Option<i64>>(v, "disk"@);
        lemma_dimension_exhausted_written(Self::spec_decode(v)->Ok_0);
    }
}

/// How the names of the fields of a [`NodesAvailable`] are spelled: of each its length
/// and, where another is as long, a letter in which the two differ.
proof fn lemma_nodes_available_names()
    ensures
        "dc1"@.len() == 3,
{
    reveal_strlit("dc1");
}

/// Each member of a written [`NodesAvailable`] is found under its name.
proof fn lemma_nodes_available_members(x: NodesAvailableView)
    ensures
        lookup(NodesAvailable::spec_encode(x)->Object_0, "dc1"@) == Some(
            i64::spec_encode(x.dc1),
        ),
{
    broadcast use {lemma_lookup_push, lemma_lookup_empty};

    lemma_nodes_available_names();
}

/// A [`NodesAvailable`] is written as a tree that can be written as text where each of
/// its fields is.
proof fn lemma_nodes_available_written(x: NodesAvailableView)
    requires
        writable(i64::spec_encode(x.dc1)),
    ensures
        writable(NodesAvailable::spec_encode(x)),
{
    broadcast use {
        lemma_writable_push,
        lemma_writable_empty,
        lemma_lookup_push,
        lemma_lookup_empty,
    };

    lemma_nodes_available_names();
    lemma_writable_object(NodesAvailable::spec_encode(x)->Object_0);
}

impl Wire for NodesAvailable {
    open spec fn spec_decode(v: JsonView) -> Result<NodesAvailableView, DecodeError> {
        if let Err(e) = spec_field::<i64>(v, "dc1"@) {
            Err(e)
        } else {
            Ok(
                NodesAvailableView {
                    dc1: spec_field::<i64>(v, "dc1"@)->Ok_0,
                },
            )
        }
    }

    open spec fn spec_absent() -> Result<NodesAvailableView, DecodeError> {
        Err(DecodeError::MissingField)
    }

    open spec fn spec_encode(x: NodesAvailableView) -> JsonView {
        JsonView::Object(
            Seq::empty()
                .push(("dc1"@, i64::spec_encode(x.dc1))),
        )
    }

    fn decode(v: &Json) -> (r: Result<NodesAvailable, DecodeError>) {
        let dc1 = field::<i64>(v, "dc1")?;
        Ok(NodesAvailable { dc1 })
    }

    fn absent() -> (r: Result<NodesAvailable, DecodeError>) {
        Err(DecodeError::MissingField)
    }

    fn encode(&self) -> (r: Json) {
        let mut members: Vec<(String, Json)> = Vec::new();
        proof {
            assert(members_view(members@) =~= Seq::empty());
        }
        put(&mut members, "dc1", self.dc1.encode());
        Json::Object(members)
    }

    proof fn lemma_round_trip(v: JsonView) {
        let x = Self::spec_decode(v)->Ok_0;
        let w = Self::spec_encode(x);
        lemma_nodes_available_members(x);
        lemma_field_round_trip::<i64>(v, "dc1"@);
        assert(spec_field::<i64>(w, "dc1"@) == spec_field::<i64>(v, "dc1"@));
    }

    proof fn lemma_absent_round_trip() {
    }

    proof fn lemma_writable(v: JsonView) {
        lemma_field_writable::<i64>(v, "dc1"@);
        lemma_nodes_available_written(Self::spec_decode(v)->Ok_0);
    }
}

/// How the names of the fields of a [`Scores`] are spelled: of each its length
/// and, where another is as long, a letter in which the two differ.
proof fn lemma_scores_names()
    ensures
        "binpack"@.len() == 7,
        "job-anti-affinity"@.len() == 17,
        "node-affinity"@.len() == 13,
        "node-reschedule-penalty"@.len() == 23,
{
    reveal_strlit("binpack");
    reveal_strlit("job-anti-affinity");
    reveal_strlit("node-affinity");
    reveal_strlit("node-reschedule-penalty");
}

/// Each member of a written [`Scores`] is found under its name.
proof fn lemma_scores_members(x: ScoresView)
    ensures
        lookup(Scores::spec_encode(x)->Object_0, "binpack"@) == Some(
            Number::spec_encode(x.binpack),
        ),
        lookup(Scores::spec_encode(x)->Object_0, "job-anti-affinity"@) == Some(
            Number::spec_encode(x.job_anti_affinity),
        ),
        lookup(Scores::spec_encode(x)->Object_0, "node-affinity"@) == Some(
            Number::spec_encode(x.node_affinity),
        ),
        lookup(Scores::spec_encode(x)->Object_0, "node-reschedule-penalty"@) == Some(
            Number::spec_encode(x.node_reschedule_penalty),
        ),
{
    broadcast use {lemma_lookup_push, lemma_lookup_empty};

    lemma_scores_names();
}

/// A [`Scores`] is written as a tree that can be written as text where each of
/// its fields is.
proof fn lemma_scores_written(x: ScoresView)
    requires
        writable(Number::spec_encode(x.binpack)),
        writable(Number::spec_encode(x.job_anti_affinity)),
        writable(Number::spec_encode(x.node_affinity)),
        writable(Number::spec_encode(x.node_reschedule_penalty)),
    ensures
        writable(Scores::spec_encode(x)),
{
    broadcast use {
        lemma_writable_push,
        lemma_writable_empty,
        lemma_lookup_push,
        lemma_lookup_empty,
    };

    lemma_scores_names();
    lemma_writable_object(Scores::spec_encode(x)->Object_0);
}

impl Wire for Scores {
    open spec fn spec_decode(v: JsonView) -> Result<ScoresView, DecodeError> {
        if let Err(e) = spec_field::<Number>(v, "binpack"@) {
            Err(e)
        } else if let Err(e) = spec_field::<Number>(v, "job-anti-affinity"@) {
            Err(e)
        } else if let Err(e) = spec_field::<Number>(v, "node-affinity"@) {
            Err(e)
        } else if let Err(e) = spec_field::<Number>(v, "node-reschedule-penalty"@) {
            Err(e)
        } else {
            Ok(
                ScoresView {
                    binpack: spec_field::<Number>(v, "binpack"@)->Ok_0,
                    job_anti_affinity: spec_field::<Number>(v, "job-anti-affinity"@)->Ok_0,
                    node_affinity: spec_field::<Number>(v, "node-affinity"@)->Ok_0,
                    node_reschedule_penalty: spec_field::<Number>(
                        v, "node-reschedule-penalty"@,
                    )->Ok_0,
                },
            )
        }
    }

    open spec fn spec_absent() -> Result<ScoresView, DecodeError> {
        Err(DecodeError::MissingField)
    }

    open spec fn spec_encode(x: ScoresView) -> JsonView {
        JsonView::Object(
            Seq::empty()
                .push(("binpack"@, Number::spec_encode(x.binpack)))
                .push(("job-anti-affinity"@, Number::spec_encode(x.job_anti_affinity)))
                .push(("node-affinity"@, Number::spec_encode(x.node_affinity)))
                .push(("node-reschedule-penalty"@, Number::spec_encode(x.node_reschedule_penalty))),
        )
    }

    fn decode(v: &Json) -> (r: Result<Scores, DecodeError>) {
        let binpack = field::<Number>(v, "binpack")?;
        let job_anti_affinity = field::<Number>(v, "job-anti-affinity")?;
        let node_affinity = field::<Number>(v, "node-affinity")?;
        let node_reschedule_penalty = field::<Number>(v, "node-reschedule-penalty")?;
        Ok(Scores { binpack, job_anti_affinity, node_affinity, node_reschedule_penalty })
    }

    fn absent() -> (r: Result<Scores, DecodeError>) {
        Err(DecodeError::MissingField)
    }

    fn encode(&self) -> (r: Json) {
        let mut members: Vec<(String, Json)> = Vec::new();
        proof {
            assert(members_view(members@) =~= Seq::empty());
        }
        put(&mut members, "binpack", self.binpack.encode());
        put(&mut members, "job-anti-affinity", self.job_anti_affinity.encode());
        put(&mut members, "node-affinity", self.node_affinity.encode());
        put(&mut members, "node-reschedule-penalty", self.node_reschedule_penalty.encode());
        Json::Object(members)
    }

    proof fn lemma_round_trip(v: JsonView) {
        let x = Self::spec_decode(v)->Ok_0;
        let w = Self::spec_encode(x);
        lemma_scores_members(x);
        lemma_field_round_trip::<Number>(v, "binpack"@);
        lemma_field_round_trip::<Number>(v, "job-anti-affinity"@);
        lemma_field_round_trip::<Number>(v, "node-affinity"@);
        lemma_field_round_trip::<Number>(v, "node-reschedule-penalty"@);
        assert(spec_field::<Number>(w, "binpack"@) == spec_field::<Number>(v, "binpack"@));
        assert(spec_field::<Number>(w, "job-anti-affinity"@)
            == spec_field::<Number>(v, "job-anti-affinity"@));
        assert(spec_field::<Number>(w, "node-affinity"@)
            == spec_field::<Number>(v, "node-affinity"@));
        assert(spec_field::<Number>(w, "node-reschedule-penalty"@)
            == spec_field::<Number>(v, "node-reschedule-penalty"@));
    }

    proof fn lemma_absent_round_trip() {
    }

    proof fn lemma_writable(v: JsonView) {
        lemma_field_writable::<Number>(v, "binpack"@);
        lemma_field_writable::<Number>(v, "job-anti-affinity"@);
        lemma_field_writable::<Number>(v, "node-affinity"@);
        lemma_field_writable::<Number>(v, "node-reschedule-penalty"@);
        lemma_scores_written(Self::spec_decode(v)->Ok_0);
    }
}

/// How the names of the fields of a [`ScoreMetaDaum`] are spelled: of each its length
/// and, where another is as long, a letter in which the two differ.
proof fn lemma_score_meta_daum_names()
    ensures
        "NodeID"@.len() == 6 && "NodeID"@[0] == 'N',
        "NormScore"@.len() == 9,
        "Scores"@.len() == 6 && "Scores"@[0] == 'S',
{
    reveal_strlit("NodeID");
    reveal_strlit("NormScore");
    reveal_strlit("Scores");
}

/// Each member of a written [`ScoreMetaDaum`] is found under its name.
proof fn lemma_score_meta_daum_members(x: ScoreMetaDaumView)
    ensures
        lookup(ScoreMetaDaum::spec_encode(x)->Object_0, "NodeID"@) == Some(
            String::spec_encode(x.node_id),
        ),
        lookup(ScoreMetaDaum::spec_encode(x)->Object_0, "NormScore"@) == Some(
            Number::spec_encode(x.norm_score),
        ),
        lookup(ScoreMetaDaum::spec_encode(x)->Object_0, "Scores"@) == Some(
            Scores::spec_encode(x.scores),
        ),
{
    broadcast use {lemma_lookup_push, lemma_lookup_empty};

    lemma_score_meta_daum_names();
}

/// A [`ScoreMetaDaum`] is written as a tree that can be written as text where each of
/// its fields is.
proof fn lemma_score_meta_daum_written(x: ScoreMetaDaumView)
    requires
        writable(String::spec_encode(x.node_id)),
        writable(Number::spec_encode(x.norm_score)),
        writable(Scores::spec_encode(x.scores)),
    ensures
        writable(ScoreMetaDaum::spec_encode(x)),
{
    broadcast use {
        lemma_writable_push,
        lemma_writable_empty,
        lemma_lookup_push,
        lemma_lookup_empty,
    };

    lemma_score_meta_daum_names();
    lemma_writable_object(ScoreMetaDaum::spec_encode(x)->Object_0);
}

impl Wire for ScoreMetaDaum {
    open spec fn spec_decode(v: JsonView) -> Result<ScoreMetaDaumView, DecodeError> {
        if let Err(e) = spec_field::<String>(v, "NodeID"@) {
            Err(e)
        } else if let Err(e) = spec_field::<Number>(v, "NormScore"@) {
            Err(e)
        } else if let Err(e) = spec_field::<Scores>(v, "Scores"@) {
            Err(e)
        } else {
            Ok(
                ScoreMetaDaumView {
                    node_id: spec_field::<String>(v, "NodeID"@)->Ok_0,
                    norm_score: spec_field::<Number>(v, "NormScore"@)->Ok_0,
                    scores: spec_field::<Scores>(v, "Scores"@)->Ok_0,
                },
            )
        }
    }

    open spec fn spec_absent() -> Result<ScoreMetaDaumView, DecodeError> {
        Err(DecodeError::MissingField)
    }

    open spec fn spec_encode(x: ScoreMetaDaumView) -> JsonView {
        JsonView::Object(
            Seq::empty()
                .push(("NodeID"@, String::spec_encode(x.node_id)))
                .push(("NormScore"@, Number::spec_encode(x.norm_score)))
                .push(("Scores"@, Scores::spec_encode(x.scores))),
        )
    }

    fn decode(v: &Json) -> (r: Result<ScoreMetaDaum, DecodeError>) {
        let node_id = field::<String>(v, "NodeID")?;
        let norm_score = field::<Number>(v, "NormScore")?;
        let scores = field::<Scores>(v, "Scores")?;
        Ok(ScoreMetaDaum { node_id, norm_score, scores })
    }

    fn absent() -> (r: Result<ScoreMetaDaum, DecodeError>) {
        Err(DecodeError::MissingField)
    }

    fn encode(&self) -> (r: Json) {
        let mut members: Vec<(String, Json)> = Vec::new();
        proof {
            assert(members_view(members@) =~= Seq::empty());
        }
        put(&mut members, "NodeID", self.node_id.encode());
        put(&mut members, "NormScore", self.norm_score.encode());
        put(&mut members, "Scores", self.scores.encode());
        Json::Object(members)
    }

    proof fn lemma_round_trip(v: JsonView) {
        let x = Self::spec_decode(v)->Ok_0;
        let w = Self::spec_encode(x);
        lemma_score_meta_daum_members(x);
        lemma_field_round_trip::<String>(v, "NodeID"@);
        lemma_field_round_trip::<Number>(v, "NormScore"@);
        lemma_field_round_trip::<Scores>(v, "Scores"@);
        assert(spec_field::<String>(w, "NodeID"@) == spec_field::<String>(v, "NodeID"@));
        assert(spec_field::<Number>(w, "NormScore"@) == spec_field::<Number>(v, "NormScore"@));
        assert(spec_field::<Scores>(w, "Scores"@) == spec_field::<Scores>(v, "Scores"@));
    }

    proof fn lemma_absent_round_trip() {
    }

    proof fn lemma_writable(v: JsonView) {
        lemma_field_writable::<String>(v, "NodeID"@);
        lemma_field_writable::<Number>(v, "NormScore"@);
        lemma_field_writable::<Scores>(v, "Scores"@);
        lemma_score_meta_daum_written(Self::spec_decode(v)->Ok_0);
    }
}

/// How the names of the fields of a [`Metrics`] are spelled: of each its length
/// and, where another is as long, a letter in which the two differ.
proof fn lemma_metrics_names()
    ensures
        "AllocationTime"@.len() == 14 && "AllocationTime"@[0] == 'A',
        "ClassExhausted"@.len() == 14 && "ClassExhausted"@[0] == 'C',
        "ClassFiltered"@.len() == 13 && "ClassFiltered"@[0] == 'C',
        "CoalescedFailures"@.len() == 17,
        "ConstraintFiltered"@.len() == 18 && "ConstraintFiltered"@[0] == 'C',
        "DimensionExhausted"@.len() == 18 && "DimensionExhausted"@[0] == 'D',
        "NodesAvailable"@.len() == 14 && "NodesAvailable"@[0] == 'N' && "NodesAvailable"@[5] == 'A',
        "NodesEvaluated"@.len() == 14
            && "NodesEvaluated"@[0] == 'N'
            && "NodesEvaluated"@[5] == 'E'
            && "NodesEvaluated"@[6] == 'v',
        "NodesExhausted"@.len() == 14
            && "NodesExhausted"@[0] == 'N'
            && "NodesExhausted"@[5] == 'E'
            && "NodesExhausted"@[6] == 'x',
        "NodesFiltered"@.len() == 13 && "NodesFiltered"@[0] == 'N',
        "QuotaExhausted"@.len() == 14 && "QuotaExhausted"@[0] == 'Q',
        "ResourcesExhausted"@.len() == 18 && "ResourcesExhausted"@[0] == 'R',
        "ScoreMetaData"@.len() == 13 && "ScoreMetaData"@[0] == 'S',
        "Scores"@.len() == 6,
{
    reveal_strlit("AllocationTime");
    reveal_strlit("ClassExhausted");
    reveal_strlit("ClassFiltered");
    reveal_strlit("CoalescedFailures");
    reveal_strlit("ConstraintFiltered");
    reveal_strlit("DimensionExhausted");
    reveal_strlit("NodesAvailable");
    reveal_strlit("NodesEvaluated");
    reveal_strlit("NodesExhausted");
    reveal_strlit("NodesFiltered");
    reveal_strlit("QuotaExhausted");
    reveal_strlit("ResourcesExhausted");
    reveal_strlit("ScoreMetaData");
    reveal_strlit("Scores");
}

/// Each member of a written [`Metrics`] is found under its name.
proof fn lemma_metrics_members(x: MetricsView)
    ensures
        lookup(Metrics::spec_encode(x)->Object_0, "AllocationTime"@) == Some(
            i64::spec_encode(x.allocation_time),
        ),
        lookup(Metrics::spec_encode(x)->Object_0, "ClassExhausted"@) == Some(
            <Option<Json>>::spec_encode(x.class_exhausted),
        ),
        lookup(Metrics::spec_encode(x)->Object_0, "ClassFiltered"@) == Some(
            <Option<Json>>::spec_encode(x.class_filtered),
        ),
        lookup(Metrics::spec_encode(x)->Object_0, "CoalescedFailures"@) == Some(
            i64::spec_encode(x.coalesced_failures),
        ),
        lookup(Metrics::spec_encode(x)->Object_0, "ConstraintFiltered"@) == Some(
            <Option<Json>>::spec_encode(x.constraint_filtered),
        ),
        lookup(Metrics::spec_encode(x)->Object_0, "DimensionExhausted"@) == Some(
            <Option<DimensionExhausted>>::spec_encode(x.dimension_exhausted),
        ),
        lookup(Metrics::spec_encode(x)->Object_0, "NodesAvailable"@) == Some(
            <Option<NodesAvailable>>::spec_encode(x.nodes_available),
        ),
        lookup(Metrics::spec_encode(x)->Object_0, "NodesEvaluated"@) == Some(
            i64::spec_encode(x.nodes_evaluated),
        ),
        lookup(Metrics::spec_encode(x)->Object_0, "NodesExhausted"@) == Some(
            i64::spec_encode(x.nodes_exhausted),
        ),
        lookup(Metrics::spec_encode(x)->Object_0, "NodesFiltered"@) == Some(
            i64::spec_encode(x.nodes_filtered),
        ),
        lookup(Metrics::spec_encode(x)->Object_0, "QuotaExhausted"@) == Some(
            <Option<Json>>::spec_encode(x.quota_exhausted),
        ),
        lookup(Metrics::spec_encode(x)->Object_0, "ResourcesExhausted"@) == Some(
            <Option<Json>>::spec_encode(x.resources_exhausted),
        ),
        lookup(Metrics::spec_encode(x)->Object_0, "ScoreMetaData"@) == Some(
            <Option<Vec<ScoreMetaDaum>>>::spec_encode(x.score_meta_data),
        ),
        lookup(Metrics::spec_encode(x)->Object_0, "Scores"@) == Some(
            <Option<Json>>::spec_encode(x.scores),
        ),
{
    broadcast use {lemma_lookup_push, lemma_lookup_empty};

    lemma_metrics_names();
}

/// A [`Metrics`] is written as a tree that can be written as text where each of
/// its fields is.
proof fn lemma_metrics_written(x: MetricsView)
    requires
        writable(i64::spec_encode(x.allocation_time)),
        writable(<Option<Json>>::spec_encode(x.class_exhausted)),
        writable(<Option<Json>>::spec_encode(x.class_filtered)),
        writable(i64::spec_encode(x.coalesced_failures)),
        writable(<Option<Json>>::spec_encode(x.constraint_filtered)),
        writable(<Option<DimensionExhausted>>::spec_encode(x.dimension_exhausted)),
        writable(<Option<NodesAvailable>>::spec_encode(x.nodes_available)),
        writable(i64::spec_encode(x.nodes_evaluated)),
        writable(i64::spec_encode(x.nodes_exhausted)),
        writable(i64::spec_encode(x.nodes_filtered)),
        writable(<Option<Json>>::spec_encode(x.quota_exhausted)),
        writable(<Option<Json>>::spec_encode(x.resources_exhausted)),
        writable(<Option<Vec<ScoreMetaDaum>>>::spec_encode(x.score_meta_data)),
        writable(<Option<Json>>::spec_encode(x.scores)),
    ensures
        writable(Metrics::spec_encode(x)),
{
    broadcast use {
        lemma_writable_push,
        lemma_writable_empty,
        lemma_lookup_push,
        lemma_lookup_empty,
    };

    lemma_metrics_names();
    lemma_writable_object(Metrics::spec_encode(x)->Object_0);
}

impl Wire for Metrics {
    open spec fn spec_decode(v: JsonView) -> Result<MetricsView, DecodeError> {
        if let Err(e) = spec_field::<i64>(v, "AllocationTime"@) {
            Err(e)
        } else if let Err(e) = spec_field::<Option<Json>>(v, "ClassExhausted"@) {
            Err(e)
        } else if let Err(e) = spec_field::<Option<Json>>(v, "ClassFiltered"@) {
            Err(e)
        } else if let Err(e) = spec_field::<i64>(v, "CoalescedFailures"@) {
            Err(e)
        } else if let Err(e) = spec_field::<Option<Json>>(v, "ConstraintFiltered"@) {
            Err(e)
        } else if let Err(e) = spec_field::<Option<DimensionExhausted>>(v, "DimensionExhausted"@) {
            Err(e)
        } else if let Err(e) = spec_field::<Option<NodesAvailable>>(v, "NodesAvailable"@) {
            Err(e)
        } else if let Err(e) = spec_field::<i64>(v, "NodesEvaluated"@) {
            Err(e)
        } else if let Err(e) = spec_field::<i64>(v, "NodesExhausted"@) {
            Err(e)
        } else if let Err(e) = spec_field::<i64>(v, "NodesFiltered"@) {
            Err(e)
        } else if let Err(e) = spec_field::<Option<Json>>(v, "QuotaExhausted"@) {
            Err(e)
        } else if let Err(e) = spec_field::<Option<Json>>(v, "ResourcesExhausted"@) {
            Err(e)
        } else if let Err(e) = spec_field::<Option<Vec<ScoreMetaDaum>>>(v, "ScoreMetaData"@) {
            Err(e)
        } else if let Err(e) = spec_field::<Option<Json>>(v, "Scores"@) {
            Err(e)
        } else {
            Ok(
                MetricsView {
                    allocation_time: spec_field::<i64>(v, "AllocationTime"@)->Ok_0,
                    class_exhausted: spec_field::<Option<Json>>(v, "ClassExhausted"@)->Ok_0,
                    class_filtered: spec_field::<Option<Json>>(v, "ClassFiltered"@)->Ok_0,
                    coalesced_failures: spec_field::<i64>(v, "CoalescedFailures"@)->Ok_0,
                    constraint_filtered: spec_field::<Option<Json>>(v, "ConstraintFiltered"@)->Ok_0,
                    dimension_exhausted: spec_field::<Option<DimensionExhausted>>(
                        v, "DimensionExhausted"@,
                    )->Ok_0,
                    nodes_available: spec_field::<Option<NodesAvailable>>(
                        v, "NodesAvailable"@,
                    )->Ok_0,
                    nodes_evaluated: spec_field::<i64>(v, "NodesEvaluated"@)->Ok_0,
                    nodes_exhausted: spec_field::<i64>(v, "NodesExhausted"@)->Ok_0,
                    nodes_filtered: spec_field::<i64>(v, "NodesFiltered"@)->Ok_0,
                    quota_exhausted: spec_field::<Option<Json>>(v, "QuotaExhausted"@)->Ok_0,
                    resources_exhausted: spec_field::<Option<Json>>(v, "ResourcesExhausted"@)->Ok_0,
                    score_meta_data: spec_field::<Option<Vec<ScoreMetaDaum>>>(
                        v, "ScoreMetaData"@,
                    )->Ok_0,
                    scores: spec_field::<Option<Json>>(v, "Scores"@)->Ok_0,
                },
            )
        }
    }

    open spec fn spec_absent() -> Result<MetricsView, DecodeError> {
        Err(DecodeError::MissingField)
    }

    open spec fn spec_encode(x: MetricsView) -> JsonView {
        JsonView::Object(
            Seq::empty()
                .push(("AllocationTime"@, i64::spec_encode(x.allocation_time)))
                .push(("ClassExhausted"@, <Option<Json>>::spec_encode(x.class_exhausted)))
                .push(("ClassFiltered"@, <Option<Json>>::spec_encode(x.class_filtered)))
                .push(("CoalescedFailures"@, i64::spec_encode(x.coalesced_failures)))
                .push(("ConstraintFiltered"@, <Option<Json>>::spec_encode(x.constraint_filtered)))
                .push(("DimensionExhausted"@, <Option<DimensionExhausted>>::spec_encode(x.dimension_exhausted)))
                .push(("NodesAvailable"@, <Option<NodesAvailable>>::spec_encode(x.nodes_available)))
                .push(("NodesEvaluated"@, i64::spec_encode(x.nodes_evaluated)))
                .push(("NodesExhausted"@, i64::spec_encode(x.nodes_exhausted)))
                .push(("NodesFiltered"@, i64::spec_encode(x.nodes_filtered)))
                .push(("QuotaExhausted"@, <Option<Json>>::spec_encode(x.quota_exhausted)))
                .push(("ResourcesExhausted"@, <Option<Json>>::spec_encode(x.resources_exhausted)))
                .push(("ScoreMetaData"@, <Option<Vec<ScoreMetaDaum>>>::spec_encode(x.score_meta_data)))
                .push(("Scores"@, <Option<Json>>::spec_encode(x.scores))),
        )
    }

    fn decode(v: &Json) -> (r: Result<Metrics, DecodeError>) {
        let allocation_time = field::<i64>(v, "AllocationTime")?;
        let class_exhausted = field::<Option<Json>>(v, "ClassExhausted")?;
        let class_filtered = field::<Option<Json>>(v, "ClassFiltered")?;
        let coalesced_failures = field::<i64>(v, "CoalescedFailures")?;
        let constraint_filtered = field::<Option<Json>>(v, "ConstraintFiltered")?;
        let dimension_exhausted = field::<Option<DimensionExhausted>>(v, "DimensionExhausted")?;
        let nodes_available = field::<Option<NodesAvailable>>(v, "NodesAvailable")?;
        let nodes_evaluated = field::<i64>(v, "NodesEvaluated")?;
        let nodes_exhausted = field::<i64>(v, "NodesExhausted")?;
        let nodes_filtered = field::<i64>(v, "NodesFiltered")?;
        let quota_exhausted = field::<Option<Json>>(v, "QuotaExhausted")?;
        let resources_exhausted = field::<Option<Json>>(v, "ResourcesExhausted")?;
        let score_meta_data = field::<Option<Vec<ScoreMetaDaum>>>(v, "ScoreMetaData")?;
        let scores = field::<Option<Json>>(v, "Scores")?;
        Ok(Metrics {
            allocation_time,
            class_exhausted,
            class_filtered,
            coalesced_failures,
            constraint_filtered,
            dimension_exhausted,
            nodes_available,
            nodes_evaluated,
            nodes_exhausted,
            nodes_filtered,
            quota_exhausted,
            resources_exhausted,
            score_meta_data,
            scores,
        })
    }

    fn absent() -> (r: Result<Metrics, DecodeError>) {
        Err(DecodeError::MissingField)
    }

    fn encode(&self) -> (r: Json) {
        let mut members: Vec<(String, Json)> = Vec::new();
        proof {
            assert(members_view(members@) =~= Seq::empty());
        }
        put(&mut members, "AllocationTime", self.allocation_time.encode());
        put(&mut members, "ClassExhausted", self.class_exhausted.encode());
        put(&mut members, "ClassFiltered", self.class_filtered.encode());
        put(&mut members, "CoalescedFailures", self.coalesced_failures.encode());
        put(&mut members, "ConstraintFiltered", self.constraint_filtered.encode());
        put(&mut members, "DimensionExhausted", self.dimension_exhausted.encode());
        put(&mut members, "NodesAvailable", self.nodes_available.encode());
        put(&mut members, "NodesEvaluated", self.nodes_evaluated.encode());
        put(&mut members, "NodesExhausted", self.nodes_exhausted.encode());
        put(&mut members, "NodesFiltered", self.nodes_filtered.encode());
        put(&mut members, "QuotaExhausted", self.quota_exhausted.encode());
        put(&mut members, "ResourcesExhausted", self.resources_exhausted.encode());
        put(&mut members, "ScoreMetaData", self.score_meta_data.encode());
        put(&mut members, "Scores", self.scores.encode());
        Json::Object(members)
    }

    proof fn lemma_round_trip(v: JsonView) {
        let x = Self::spec_decode(v)->Ok_0;
        let w = Self::spec_encode(x);
        lemma_metrics_members(x);
        lemma_field_round_trip::<i64>(v, "AllocationTime"@);
        lemma_field_round_trip::<Option<Json>>(v, "ClassExhausted"@);
        lemma_field_round_trip::<Option<Json>>(v, "ClassFiltered"@);
        lemma_field_round_trip::<i64>(v, "CoalescedFailures"@);
        lemma_field_round_trip::<Option<Json>>(v, "ConstraintFiltered"@);
        lemma_field_round_trip::<Option<DimensionExhausted>>(v, "DimensionExhausted"@);
        lemma_field_round_trip::<Option<NodesAvailable>>(v, "NodesAvailable"@);
        lemma_field_round_trip::<i64>(v, "NodesEvaluated"@);
        lemma_field_round_trip::<i64>(v, "NodesExhausted"@);
        lemma_field_round_trip::<i64>(v, "NodesFiltered"@);
        lemma_field_round_trip::<Option<Json>>(v, "QuotaExhausted"@);
        lemma_field_round_trip::<Option<Json>>(v, "ResourcesExhausted"@);
        lemma_field_round_trip::<Option<Vec<ScoreMetaDaum>>>(v, "ScoreMetaData"@);
        lemma_field_round_trip::<Option<Json>>(v, "Scores"@);
        assert(spec_field::<i64>(w, "AllocationTime"@) == spec_field::<i64>(v, "AllocationTime"@));
        assert(spec_field::<Option<Json>>(w, "ClassExhausted"@)
            == spec_field::<Option<Json>>(v, "ClassExhausted"@));
        assert(spec_field::<Option<Json>>(w, "ClassFiltered"@)
            == spec_field::<Option<Json>>(v, "ClassFiltered"@));
        assert(spec_field::<i64>(w, "CoalescedFailures"@)
            == spec_field::<i64>(v, "CoalescedFailures"@));
        assert(spec_field::<Option<Json>>(w, "ConstraintFiltered"@)
            == spec_field::<Option<Json>>(v, "ConstraintFiltered"@));
        assert(spec_field::<Option<DimensionExhausted>>(w, "DimensionExhausted"@)
            == spec_field::<Option<DimensionExhausted>>(v, "DimensionExhausted"@));
        assert(spec_field::<Option<NodesAvailable>>(w, "NodesAvailable"@)
            == spec_field::<Option<NodesAvailable>>(v, "NodesAvailable"@));
        assert(spec_field::<i64>(w, "NodesEvaluated"@) == spec_field::<i64>(v, "NodesEvaluated"@));
        assert(spec_field::<i64>(w, "NodesExhausted"@) == spec_field::<i64>(v, "NodesExhausted"@));
        assert(spec_field::<i64>(w, "NodesFiltered"@) == spec_field::<i64>(v, "NodesFiltered"@));
        assert(spec_field::<Option<Json>>(w, "QuotaExhausted"@)
            == spec_field::<Option<Json>>(v, "QuotaExhausted"@));
        assert(spec_field::<Option<Json>>(w, "ResourcesExhausted"@)
            == spec_field::<Option<Json>>(v, "ResourcesExhausted"@));
        assert(spec_field::<Option<Vec<ScoreMetaDaum>>>(w, "ScoreMetaData"@)
            == spec_field::<Option<Vec<ScoreMetaDaum>>>(v, "ScoreMetaData"@));
        assert(spec_field::<Option<Json>>(w, "Scores"@)
            == spec_field::<Option<Json>>(v, "Scores"@));
    }

    proof fn lemma_absent_round_trip() {
    }

    proof fn lemma_writable(v: JsonView) {
        lemma_field_writable::<i64>(v, "AllocationTime"@);
        lemma_field_writable::<Option<Json>>(v, "ClassExhausted"@);
        lemma_field_writable::<Option<Json>>(v, "ClassFiltered"@);
        lemma_field_writable::<i64>(v, "CoalescedFailures"@);
        lemma_field_writable::<Option<Json>>(v, "ConstraintFiltered"@);
        lemma_field_writable::<Option<DimensionExhausted>>(v, "DimensionExhausted"@);
        lemma_field_writable::<Option<NodesAvailable>>(v, "NodesAvailable"@);
        lemma_field_writable::<i64>(v, "NodesEvaluated"@);
        lemma_field_writable::<i64>(v, "NodesExhausted"@);
        lemma_field_writable::<i64>(v, "NodesFiltered"@);
        lemma_field_writable::<Option<Json>>(v, "QuotaExhausted"@);
        lemma_field_writable::<Option<Json>>(v, "ResourcesExhausted"@);
        lemma_field_writable::<Option<Vec<ScoreMetaDaum>>>(v, "ScoreMetaData"@);
        lemma_field_writable::<Option<Json>>(v, "Scores"@);
        lemma_metrics_written(Self::spec_decode(v)->Ok_0);
    }
}

/// How the names of the fields of a [`Allocation`] are spelled: of each its length
/// and, where another is as long, a letter in which the two differ.
proof fn lemma_allocation_names()
    ensures
        "AllocModifyIndex"@.len() == 16 && "AllocModifyIndex"@[0] == 'A',
        "AllocatedResources"@.len() == 18,
        "ClientDescription"@.len() == 17,
        "ClientStatus"@.len() == 12 && "ClientStatus"@[0] == 'C',
        "CreateIndex"@.len() == 11 && "CreateIndex"@[0] == 'C',
        "CreateTime"@.len() == 10 && "CreateTime"@[0] == 'C',
        "DeploymentID"@.len() == 12 && "DeploymentID"@[0] == 'D',
        "DeploymentStatus"@.len() == 16 && "DeploymentStatus"@[0] == 'D',
        "DesiredStatus"@.len() == 13 && "DesiredStatus"@[0] == 'D',
        "EvalID"@.len() == 6 && "EvalID"@[0] == 'E',
        "ID"@.len() == 2,
        "Job"@.len() == 3,
        "JobID"@.len() == 5,
        "Metrics"@.len() == 7,
        "ModifyIndex"@.len() == 11 && "ModifyIndex"@[0] == 'M',
        "ModifyTime"@.len() == 10 && "ModifyTime"@[0] == 'M',
        "Name"@.len() == 4,
        "Namespace"@.len() == 9 && "Namespace"@[0] == 'N',
        "NetworkStatus"@.len() == 13 && "NetworkStatus"@[0] == 'N',
        "NodeID"@.len() == 6 && "NodeID"@[0] == 'N',
        "NodeName"@.len() == 8,
        "Resources"@.len() == 9 && "Resources"@[0] == 'R',
        "SharedResources"@.len() == 15,
        "TaskGroup"@.len() == 9 && "TaskGroup"@[0] == 'T',
        "TaskResources"@.len() == 13 && "TaskResources"@[0] == 'T',
        "TaskStates"@.len() == 10 && "TaskStates"@[0] == 'T',
{
    reveal_strlit("AllocModifyIndex");
    reveal_strlit("AllocatedResources");
    reveal_strlit("ClientDescription");
    reveal_strlit("ClientStatus");
    reveal_strlit("CreateIndex");
    reveal_strlit("CreateTime");
    reveal_strlit("DeploymentID");
    reveal_strlit("DeploymentStatus");
    reveal_strlit("DesiredStatus");
    reveal_strlit("EvalID");
    reveal_strlit("ID");
    reveal_strlit("Job");
    reveal_strlit("JobID");
    reveal_strlit("Metrics");
    reveal_strlit("ModifyIndex");
    reveal_strlit("ModifyTime");
    reveal_strlit("Name");
    reveal_strlit("Namespace");
    reveal_strlit("NetworkStatus");
    reveal_strlit("NodeID");
    reveal_strlit("NodeName");
    reveal_strlit("Resources");
    reveal_strlit("SharedResources");
    reveal_strlit("TaskGroup");
    reveal_strlit("TaskResources");
    reveal_strlit("TaskStates");
}

/// Each member of a written [`Allocation`] is found under its name.
proof fn lemma_allocation_members(x: AllocationView)
    ensures
        lookup(Allocation::spec_encode(x)->Object_0, "AllocModifyIndex"@) == Some(
            i64::spec_encode(x.alloc_modify_index),
        ),
        lookup(Allocation::spec_encode(x)->Object_0, "AllocatedResources"@) == Some(
            AllocatedResources::spec_encode(x.allocated_resources),
        ),
        lookup(Allocation::spec_encode(x)->Object_0, "ClientDescription"@) == Some(
            <Option<String>>::spec_encode(x.client_description),
        ),
        lookup(Allocation::spec_encode(x)->Object_0, "ClientStatus"@) == Some(
            RunningStatus::spec_encode(x.client_status),
        ),
        lookup(Allocation::spec_encode(x)->Object_0, "CreateIndex"@) == Some(
            i64::spec_encode(x.create_index),
        ),
        lookup(Allocation::spec_encode(x)->Object_0, "CreateTime"@) == Some(
            i64::spec_encode(x.create_time),
        ),
        lookup(Allocation::spec_encode(x)->Object_0, "DeploymentID"@) == Some(
            <Option<String>>::spec_encode(x.deployment_id),
        ),
        lookup(Allocation::spec_encode(x)->Object_0, "DeploymentStatus"@) == Some(
            <Option<DeploymentStatus>>::spec_encode(x.deployment_status),
        ),
        lookup(Allocation::spec_encode(x)->Object_0, "DesiredStatus"@) == Some(
            String::spec_encode(x.desired_status),
        ),
        lookup(Allocation::spec_encode(x)->Object_0, "EvalID"@) == Some(
            <Option<String>>::spec_encode(x.eval_id),
        ),
        lookup(Allocation::spec_encode(x)->Object_0, "ID"@) == Some(
            String::spec_encode(x.id),
        ),
        lookup(Allocation::spec_encode(x)->Object_0, "Job"@) == Some(
            Job::spec_encode(x.job),
        ),
        lookup(Allocation::spec_encode(x)->Object_0, "JobID"@) == Some(
            String::spec_encode(x.job_id),
        ),
        lookup(Allocation::spec_encode(x)->Object_0, "Metrics"@) == Some(
            Metrics::spec_encode(x.metrics),
        ),
        lookup(Allocation::spec_encode(x)->Object_0, "ModifyIndex"@) == Some(
            i64::spec_encode(x.modify_index),
        ),
        lookup(Allocation::spec_encode(x)->Object_0, "ModifyTime"@) == Some(
            i64::spec_encode(x.modify_time),
        ),
        lookup(Allocation::spec_encode(x)->Object_0, "Name"@) == Some(
            String::spec_encode(x.name),
        ),
        lookup(Allocation::spec_encode(x)->Object_0, "Namespace"@) == Some(
            String::spec_encode(x.namespace),
        ),
        lookup(Allocation::spec_encode(x)->Object_0, "NetworkStatus"@) == Some(
            <Option<NetworkStatus>>::spec_encode(x.network_status),
        ),
        lookup(Allocation::spec_encode(x)->Object_0, "NodeID"@) == Some(
            String::spec_encode(x.node_id),
        ),
        lookup(Allocation::spec_encode(x)->Object_0, "NodeName"@) == Some(
            String::spec_encode(x.node_name),
        ),
        lookup(Allocation::spec_encode(x)->Object_0, "Resources"@) == Some(
            Resources::spec_encode(x.resources),
        ),
        lookup(Allocation::spec_encode(x)->Object_0, "SharedResources"@) == Some(
            Resources::spec_encode(x.shared_resources),
        ),
        lookup(Allocation::spec_encode(x)->Object_0, "TaskGroup"@) == Some(
            String::spec_encode(x.task_group),
        ),
        lookup(Allocation::spec_encode(x)->Object_0, "TaskResources"@) == Some(
            <Vec<(String, Resources)>>::spec_encode(x.task_resources),
        ),
        lookup(Allocation::spec_encode(x)->Object_0, "TaskStates"@) == Some(
            <Vec<(String, TaskState)>>::spec_encode(x.task_states),
        ),
{
    broadcast use {lemma_lookup_push, lemma_lookup_empty};

    lemma_allocation_names();
}

/// A [`Allocation`] is written as a tree that can be written as text where each of
/// its fields is.
proof fn lemma_allocation_written(x: AllocationView)
    requires
        writable(i64::spec_encode(x.alloc_modify_index)),
        writable(AllocatedResources::spec_encode(x.allocated_resources)),
        writable(<Option<String>>::spec_encode(x.client_description)),
        writable(RunningStatus::spec_encode(x.client_status)),
        writable(i64::spec_encode(x.create_index)),
        writable(i64::spec_encode(x.create_time)),
        writable(<Option<String>>::spec_encode(x.deployment_id)),
        writable(<Option<DeploymentStatus>>::spec_encode(x.deployment_status)),
        writable(String::spec_encode(x.desired_status)),
        writable(<Option<String>>::spec_encode(x.eval_id)),
        writable(String::spec_encode(x.id)),
        writable(Job::spec_encode(x.job)),
        writable(String::spec_encode(x.job_id)),
        writable(Metrics::spec_encode(x.metrics)),
        writable(i64::spec_encode(x.modify_index)),
        writable(i64::spec_encode(x.modify_time)),
        writable(String::spec_encode(x.name)),
        writable(String::spec_encode(x.namespace)),
        writable(<Option<NetworkStatus>>::spec_encode(x.network_status)),
        writable(String::spec_encode(x.node_id)),
        writable(String::spec_encode(x.node_name)),
        writable(Resources::spec_encode(x.resources)),
        writable(Resources::spec_encode(x.shared_resources)),
        writable(String::spec_encode(x.task_group)),
        writable(<Vec<(String, Resources)>>::spec_encode(x.task_resources)),
        writable(<Vec<(String, TaskState)>>::spec_encode(x.task_states)),
    ensures
        writable(Allocation::spec_encode(x)),
{
    broadcast use {
        lemma_writable_push,
        lemma_writable_empty,
        lemma_lookup_push,
        lemma_lookup_empty,
    };

    lemma_allocation_names();
    lemma_writable_object(Allocation::spec_encode(x)->Object_0);
}

impl Wire for Allocation {
    open spec fn spec_decode(v: JsonView) -> Result<AllocationView, DecodeError> {
        if let Err(e) = spec_field::<i64>(v, "AllocModifyIndex"@) {
            Err(e)
        } else if let Err(e) = spec_field::<AllocatedResources>(v, "AllocatedResources"@) {
            Err(e)
        } else if let Err(e) = spec_field::<Option<String>>(v, "ClientDescription"@) {
            Err(e)
        } else if let Err(e) = spec_field::<RunningStatus>(v, "ClientStatus"@) {
            Err(e)
        } else if let Err(e) = spec_field::<i64>(v, "CreateIndex"@) {
            Err(e)
        } else if let Err(e) = spec_field::<i64>(v, "CreateTime"@) {
            Err(e)
        } else if let Err(e) = spec_field::<Option<String>>(v, "DeploymentID"@) {
            Err(e)
        } else if let Err(e) = spec_field::<Option<DeploymentStatus>>(v, "DeploymentStatus"@) {
            Err(e)
        } else if let Err(e) = spec_field::<String>(v, "DesiredStatus"@) {
            Err(e)
        } else if let Err(e) = spec_field::<Option<String>>(v, "EvalID"@) {
            Err(e)
        } else if let Err(e) = spec_field::<String>(v, "ID"@) {
            Err(e)
        } else if let Err(e) = spec_field::<Job>(v, "Job"@) {
            Err(e)
        } else if let Err(e) = spec_field::<String>(v, "JobID"@) {
            Err(e)
        } else if let Err(e) = spec_field::<Metrics>(v, "Metrics"@) {
            Err(e)
        } else if let Err(e) = spec_field::<i64>(v, "ModifyIndex"@) {
            Err(e)
        } else if let Err(e) = spec_field::<i64>(v, "ModifyTime"@) {
            Err(e)
        } else if let Err(e) = spec_field::<String>(v, "Name"@) {
            Err(e)
        } else if let Err(e) = spec_field::<String>(v, "Namespace"@) {
            Err(e)
        } else if let Err(e) = spec_field::<Option<NetworkStatus>>(v, "NetworkStatus"@) {
            Err(e)
        } else if let Err(e) = spec_field::<String>(v, "NodeID"@) {
            Err(e)
        } else if let Err(e) = spec_field::<String>(v, "NodeName"@) {
            Err(e)
        } else if let Err(e) = spec_field::<Resources>(v, "Resources"@) {
            Err(e)
        } else if let Err(e) = spec_field::<Resources>(v, "SharedResources"@) {
            Err(e)
        } else if let Err(e) = spec_field::<String>(v, "TaskGroup"@) {
            Err(e)
        } else if let Err(e) = spec_field_or::<Vec<(
            String, Resources)>>(v, "TaskResources"@, Seq::empty(),
        ) {
            Err(e)
        } else if let Err(e) = spec_field_or::<Vec<(
            String, TaskState)>>(v, "TaskStates"@, Seq::empty(),
        ) {
            Err(e)
        } else {
            Ok(
                AllocationView {
                    alloc_modify_index: spec_field::<i64>(v, "AllocModifyIndex"@)->Ok_0,
                    allocated_resources: spec_field::<AllocatedResources>(
                        v, "AllocatedResources"@,
                    )->Ok_0,
                    client_description: spec_field::<Option<String>>(v, "ClientDescription"@)->Ok_0,
                    client_status: spec_field::<RunningStatus>(v, "ClientStatus"@)->Ok_0,
                    create_index: spec_field::<i64>(v, "CreateIndex"@)->Ok_0,
                    create_time: spec_field::<i64>(v, "CreateTime"@)->Ok_0,
                    deployment_id: spec_field::<Option<String>>(v, "DeploymentID"@)->Ok_0,
                    deployment_status: spec_field::<Option<DeploymentStatus>>(
                        v, "DeploymentStatus"@,
                    )->Ok_0,
                    desired_status: spec_field::<String>(v, "DesiredStatus"@)->Ok_0,
                    eval_id: spec_field::<Option<String>>(v, "EvalID"@)->Ok_0,
                    id: spec_field::<String>(v, "ID"@)->Ok_0,
                    job: spec_field::<Job>(v, "Job"@)->Ok_0,
                    job_id: spec_field::<String>(v, "JobID"@)->Ok_0,
                    metrics: spec_field::<Metrics>(v, "Metrics"@)->Ok_0,
                    modify_index: spec_field::<i64>(v, "ModifyIndex"@)->Ok_0,
                    modify_time: spec_field::<i64>(v, "ModifyTime"@)->Ok_0,
                    name: spec_field::<String>(v, "Name"@)->Ok_0,
                    namespace: spec_field::<String>(v, "Namespace"@)->Ok_0,
                    network_status: spec_field::<Option<NetworkStatus>>(v, "NetworkStatus"@)->Ok_0,
                    node_id: spec_field::<String>(v, "NodeID"@)->Ok_0,
                    node_name: spec_field::<String>(v, "NodeName"@)->Ok_0,
                    resources: spec_field::<Resources>(v, "Resources"@)->Ok_0,
                    shared_resources: spec_field::<Resources>(v, "SharedResources"@)->Ok_0,
                    task_group: spec_field::<String>(v, "TaskGroup"@)->Ok_0,
                    task_resources: spec_field_or::<Vec<(
                        String, Resources)>>(v, "TaskResources"@, Seq::empty(),
                    )->Ok_0,
                    task_states: spec_field_or::<Vec<(
                        String, TaskState)>>(v, "TaskStates"@, Seq::empty(),
                    )->Ok_0,
                },
            )
        }
    }

    open spec fn spec_absent() -> Result<AllocationView, DecodeError> {
        Err(DecodeError::MissingField)
    }

    open spec fn spec_encode(x: AllocationView) -> JsonView {
        JsonView::Object(
            Seq::empty()
                .push(("AllocModifyIndex"@, i64::spec_encode(x.alloc_modify_index)))
                .push(("AllocatedResources"@, AllocatedResources::spec_encode(x.allocated_resources)))
                .push(("ClientDescription"@, <Option<String>>::spec_encode(x.client_description)))
                .push(("ClientStatus"@, RunningStatus::spec_encode(x.client_status)))
                .push(("CreateIndex"@, i64::spec_encode(x.create_index)))
                .push(("CreateTime"@, i64::spec_encode(x.create_time)))
                .push(("DeploymentID"@, <Option<String>>::spec_encode(x.deployment_id)))
                .push(("DeploymentStatus"@, <Option<DeploymentStatus>>::spec_encode(x.deployment_status)))
                .push(("DesiredStatus"@, String::spec_encode(x.desired_status)))
                .push(("EvalID"@, <Option<String>>::spec_encode(x.eval_id)))
                .push(("ID"@, String::spec_encode(x.id)))
                .push(("Job"@, Job::spec_encode(x.job)))
                .push(("JobID"@, String::spec_encode(x.job_id)))
                .push(("Metrics"@, Metrics::spec_encode(x.metrics)))
                .push(("ModifyIndex"@, i64::spec_encode(x.modify_index)))
                .push(("ModifyTime"@, i64::spec_encode(x.modify_time)))
                .push(("Name"@, String::spec_encode(x.name)))
                .push(("Namespace"@, String::spec_encode(x.namespace)))
                .push(("NetworkStatus"@, <Option<NetworkStatus>>::spec_encode(x.network_status)))
                .push(("NodeID"@, String::spec_encode(x.node_id)))
                .push(("NodeName"@, String::spec_encode(x.node_name)))
                .push(("Resources"@, Resources::spec_encode(x.resources)))
                .push(("SharedResources"@, Resources::spec_encode(x.shared_resources)))
                .push(("TaskGroup"@, String::spec_encode(x.task_group)))
                .push(("TaskResources"@, <Vec<(String, Resources)>>::spec_encode(x.task_resources)))
                .push(("TaskStates"@, <Vec<(String, TaskState)>>::spec_encode(x.task_states))),
        )
    }

    fn decode(v: &Json) -> (r: Result<Allocation, DecodeError>) {
        let alloc_modify_index = field::<i64>(v, "AllocModifyIndex")?;
        let allocated_resources = field::<AllocatedResources>(v, "AllocatedResources")?;
        let client_description = field::<Option<String>>(v, "ClientDescription")?;
        let client_status = field::<RunningStatus>(v, "ClientStatus")?;
        let create_index = field::<i64>(v, "CreateIndex")?;
        let create_time = field::<i64>(v, "CreateTime")?;
        let deployment_id = field::<Option<String>>(v, "DeploymentID")?;
        let deployment_status = field::<Option<DeploymentStatus>>(v, "DeploymentStatus")?;
        let desired_status = field::<String>(v, "DesiredStatus")?;
        let eval_id = field::<Option<String>>(v, "EvalID")?;
        let id = field::<String>(v, "ID")?;
        let job = field::<Job>(v, "Job")?;
        let job_id = field::<String>(v, "JobID")?;
        let metrics = field::<Metrics>(v, "Metrics")?;
        let modify_index = field::<i64>(v, "ModifyIndex")?;
        let modify_time = field::<i64>(v, "ModifyTime")?;
        let name = field::<String>(v, "Name")?;
        let namespace = field::<String>(v, "Namespace")?;
        let network_status = field::<Option<NetworkStatus>>(v, "NetworkStatus")?;
        let node_id = field::<String>(v, "NodeID")?;
        let node_name = field::<String>(v, "NodeName")?;
        let resources = field::<Resources>(v, "Resources")?;
        let shared_resources = field::<Resources>(v, "SharedResources")?;
        let task_group = field::<String>(v, "TaskGroup")?;
        let task_resources = field_or::<Vec<(String, Resources)>>(v, "TaskResources", empty_list())?;
        let task_states = field_or::<Vec<(String, TaskState)>>(v, "TaskStates", empty_list())?;
        Ok(Allocation {
            alloc_modify_index,
            allocated_resources,
            client_description,
            client_status,
            create_index,
            create_time,
            deployment_id,
            deployment_status,
            desired_status,
            eval_id,
            id,
            job,
            job_id,
            metrics,
            modify_index,
            modify_time,
            name,
            namespace,
            network_status,
            node_id,
            node_name,
            resources,
            shared_resources,
            task_group,
            task_resources,
            task_states,
        })
    }

    fn absent() -> (r: Result<Allocation, DecodeError>) {
        Err(DecodeError::MissingField)
    }

    fn encode(&self) -> (r: Json) {
        let mut members: Vec<(String, Json)> = Vec::new();
        proof {
            assert(members_view(members@) =~= Seq::empty());
        }
        put(&mut members, "AllocModifyIndex", self.alloc_modify_index.encode());
        put(&mut members, "AllocatedResources", self.allocated_resources.encode());
        put(&mut members, "ClientDescription", self.client_description.encode());
        put(&mut members, "ClientStatus", self.client_status.encode());
        put(&mut members, "CreateIndex", self.create_index.encode());
        put(&mut members, "CreateTime", self.create_time.encode());
        put(&mut members, "DeploymentID", self.deployment_id.encode());
        put(&mut members, "DeploymentStatus", self.deployment_status.encode());
        put(&mut members, "DesiredStatus", self.desired_status.encode());
        put(&mut members, "EvalID", self.eval_id.encode());
        put(&mut members, "ID", self.id.encode());
        put(&mut members, "Job", self.job.encode());
        put(&mut members, "JobID", self.job_id.encode());
        put(&mut members, "Metrics", self.metrics.encode());
        put(&mut members, "ModifyIndex", self.modify_index.encode());
        put(&mut members, "ModifyTime", self.modify_time.encode());
        put(&mut members, "Name", self.name.encode());
        put(&mut members, "Namespace", self.namespace.encode());
        put(&mut members, "NetworkStatus", self.network_status.encode());
        put(&mut members, "NodeID", self.node_id.encode());
        put(&mut members, "NodeName", self.node_name.encode());
        put(&mut members, "Resources", self.resources.encode());
        put(&mut members, "SharedResources", self.shared_resources.encode());
        put(&mut members, "TaskGroup", self.task_group.encode());
        put(&mut members, "TaskResources", self.task_resources.encode());
        put(&mut members, "TaskStates", self.task_states.encode());
        Json::Object(members)
    }

    proof fn lemma_round_trip(v: JsonView) {
        let x = Self::spec_decode(v)->Ok_0;
        let w = Self::spec_encode(x);
        lemma_allocation_members(x);
        lemma_field_round_trip::<i64>(v, "AllocModifyIndex"@);
        lemma_field_round_trip::<AllocatedResources>(v, "AllocatedResources"@);
        lemma_field_round_trip::<Option<String>>(v, "ClientDescription"@);
        lemma_field_round_trip::<RunningStatus>(v, "ClientStatus"@);
        lemma_field_round_trip::<i64>(v, "CreateIndex"@);
        lemma_field_round_trip::<i64>(v, "CreateTime"@);
        lemma_field_round_trip::<Option<String>>(v, "DeploymentID"@);
        lemma_field_round_trip::<Option<DeploymentStatus>>(v, "DeploymentStatus"@);
        lemma_field_round_trip::<String>(v, "DesiredStatus"@);
        lemma_field_round_trip::<Option<String>>(v, "EvalID"@);
        lemma_field_round_trip::<String>(v, "ID"@);
        lemma_field_round_trip::<Job>(v, "Job"@);
        lemma_field_round_trip::<String>(v, "JobID"@);
        lemma_field_round_trip::<Metrics>(v, "Metrics"@);
        lemma_field_round_trip::<i64>(v, "ModifyIndex"@);
        lemma_field_round_trip::<i64>(v, "ModifyTime"@);
        lemma_field_round_trip::<String>(v, "Name"@);
        lemma_field_round_trip::<String>(v, "Namespace"@);
        lemma_field_round_trip::<Option<NetworkStatus>>(v, "NetworkStatus"@);
        lemma_field_round_trip::<String>(v, "NodeID"@);
        lemma_field_round_trip::<String>(v, "NodeName"@);
        lemma_field_round_trip::<Resources>(v, "Resources"@);
        lemma_field_round_trip::<Resources>(v, "SharedResources"@);
        lemma_field_round_trip::<String>(v, "TaskGroup"@);
        lemma_empty_map_round_trip::<Resources>();
        lemma_field_or_round_trip::<Vec<(String, Resources)>>(v, "TaskResources"@, Seq::empty());
        lemma_empty_map_round_trip::<TaskState>();
        lemma_field_or_round_trip::<Vec<(String, TaskState)>>(v, "TaskStates"@, Seq::empty());
        assert(spec_field::<i64>(w, "AllocModifyIndex"@)
            == spec_field::<i64>(v, "AllocModifyIndex"@));
        assert(spec_field::<AllocatedResources>(w, "AllocatedResources"@)
            == spec_field::<AllocatedResources>(v, "AllocatedResources"@));
        assert(spec_field::<Option<String>>(w, "ClientDescription"@)
            == spec_field::<Option<String>>(v, "ClientDescription"@));
        assert(spec_field::<RunningStatus>(w, "ClientStatus"@)
            == spec_field::<RunningStatus>(v, "ClientStatus"@));
        assert(spec_field::<i64>(w, "CreateIndex"@) == spec_field::<i64>(v, "CreateIndex"@));
        assert(spec_field::<i64>(w, "CreateTime"@) == spec_field::<i64>(v, "CreateTime"@));
        assert(spec_field::<Option<String>>(w, "DeploymentID"@)
            == spec_field::<Option<String>>(v, "DeploymentID"@));
        assert(spec_field::<Option<DeploymentStatus>>(w, "DeploymentStatus"@)
            == spec_field::<Option<DeploymentStatus>>(v, "DeploymentStatus"@));
        assert(spec_field::<String>(w, "DesiredStatus"@)
            == spec_field::<String>(v, "DesiredStatus"@));
        assert(spec_field::<Option<String>>(w, "EvalID"@)
            == spec_field::<Option<String>>(v, "EvalID"@));
        assert(spec_field::<String>(w, "ID"@) == spec_field::<String>(v, "ID"@));
        assert(spec_field::<Job>(w, "Job"@) == spec_field::<Job>(v, "Job"@));
        assert(spec_field::<String>(w, "JobID"@) == spec_field::<String>(v, "JobID"@));
        assert(spec_field::<Metrics>(w, "Metrics"@) == spec_field::<Metrics>(v, "Metrics"@));
        assert(spec_field::<i64>(w, "ModifyIndex"@) == spec_field::<i64>(v, "ModifyIndex"@));
        assert(spec_field::<i64>(w, "ModifyTime"@) == spec_field::<i64>(v, "ModifyTime"@));
        assert(spec_field::<String>(w, "Name"@) == spec_field::<String>(v, "Name"@));
        assert(spec_field::<String>(w, "Namespace"@) == spec_field::<String>(v, "Namespace"@));
        assert(spec_field::<Option<NetworkStatus>>(w, "NetworkStatus"@)
            == spec_field::<Option<NetworkStatus>>(v, "NetworkStatus"@));
        assert(spec_field::<String>(w, "NodeID"@) == spec_field::<String>(v, "NodeID"@));
        assert(spec_field::<String>(w, "NodeName"@) == spec_field::<String>(v, "NodeName"@));
        assert(spec_field::<Resources>(w, "Resources"@)
            == spec_field::<Resources>(v, "Resources"@));
        assert(spec_field::<Resources>(w, "SharedResources"@)
            == spec_field::<Resources>(v, "SharedResources"@));
        assert(spec_field::<String>(w, "TaskGroup"@) == spec_field::<String>(v, "TaskGroup"@));
        assert(spec_field_or::<Vec<(String, Resources)>>(w, "TaskResources"@, Seq::empty())
            == spec_field_or::<Vec<(String, Resources)>>(v, "TaskResources"@, Seq::empty()));
        assert(spec_field_or::<Vec<(String, TaskState)>>(w, "TaskStates"@, Seq::empty())
            == spec_field_or::<Vec<(String, TaskState)>>(v, "TaskStates"@, Seq::empty()));
    }

    proof fn lemma_absent_round_trip() {
    }

    proof fn lemma_writable(v: JsonView) {
        lemma_field_writable::<i64>(v, "AllocModifyIndex"@);
        lemma_field_writable::<AllocatedResources>(v, "AllocatedResources"@);
        lemma_field_writable::<Option<String>>(v, "ClientDescription"@);
        lemma_field_writable::<RunningStatus>(v, "ClientStatus"@);
        lemma_field_writable::<i64>(v, "CreateIndex"@);
        lemma_field_writable::<i64>(v, "CreateTime"@);
        lemma_field_writable::<Option<String>>(v, "DeploymentID"@);
        lemma_field_writable::<Option<DeploymentStatus>>(v, "DeploymentStatus"@);
        lemma_field_writable::<String>(v, "DesiredStatus"@);
        lemma_field_writable::<Option<String>>(v, "EvalID"@);
        lemma_field_writable::<String>(v, "ID"@);
        lemma_field_writable::<Job>(v, "Job"@);
        lemma_field_writable::<String>(v, "JobID"@);
        lemma_field_writable::<Metrics>(v, "Metrics"@);
        lemma_field_writable::<i64>(v, "ModifyIndex"@);
        lemma_field_writable::<i64>(v, "ModifyTime"@);
        lemma_field_writable::<String>(v, "Name"@);
        lemma_field_writable::<String>(v, "Namespace"@);
        lemma_field_writable::<Option<NetworkStatus>>(v, "NetworkStatus"@);
        lemma_field_writable::<String>(v, "NodeID"@);
        lemma_field_writable::<String>(v, "NodeName"@);
        lemma_field_writable::<Resources>(v, "Resources"@);
        lemma_field_writable::<Resources>(v, "SharedResources"@);
        lemma_field_writable::<String>(v, "TaskGroup"@);
        lemma_empty_map_writable::<Resources>();
        lemma_field_or_writable::<Vec<(String, Resources)>>(v, "TaskResources"@, Seq::empty());
        lemma_empty_map_writable::<TaskState>();
        lemma_field_or_writable::<Vec<(String, TaskState)>>(v, "TaskStates"@, Seq::empty());
        lemma_allocation_written(Self::spec_decode(v)->Ok_0);
    }
}

/// Whatever word stands as the status of an allocation, it is read: where an object
/// is read as an allocation, it still is with any word written over its status, and
/// the word decides nothing but the status.
pub proof fn lemma_allocation_any_status(m: Members, word: Seq<char>)
    requires
        Allocation::spec_decode(JsonView::Object(m)) is Ok,
    ensures
        Allocation::spec_decode(JsonView::Object(m.push(("ClientStatus"@, JsonView::Str(word))))) == Ok::<
            AllocationView,
            DecodeError,
        >(
            AllocationView {
                client_status: status_of(word),
                ..Allocation::spec_decode(JsonView::Object(m))->Ok_0
            },
        ),
{
    broadcast use lemma_lookup_push;

    let v = JsonView::Object(m);
    let w = JsonView::Object(m.push(("ClientStatus"@, JsonView::Str(word))));
    lemma_allocation_names();
    assert(spec_field::<i64>(w, "AllocModifyIndex"@) == spec_field::<i64>(v, "AllocModifyIndex"@));
    assert(spec_field::<AllocatedResources>(w, "AllocatedResources"@)
        == spec_field::<AllocatedResources>(v, "AllocatedResources"@));
    assert(spec_field::<Option<String>>(w, "ClientDescription"@)
        == spec_field::<Option<String>>(v, "ClientDescription"@));
    assert(spec_field::<i64>(w, "CreateIndex"@) == spec_field::<i64>(v, "CreateIndex"@));
    assert(spec_field::<i64>(w, "CreateTime"@) == spec_field::<i64>(v, "CreateTime"@));
    assert(spec_field::<Option<String>>(w, "DeploymentID"@)
        == spec_field::<Option<String>>(v, "DeploymentID"@));
    assert(spec_field::<Option<DeploymentStatus>>(w, "DeploymentStatus"@)
        == spec_field::<Option<DeploymentStatus>>(v, "DeploymentStatus"@));
    assert(spec_field::<String>(w, "DesiredStatus"@) == spec_field::<String>(v, "DesiredStatus"@));
    assert(spec_field::<Option<String>>(w, "EvalID"@)
        == spec_field::<Option<String>>(v, "EvalID"@));
    assert(spec_field::<String>(w, "ID"@) == spec_field::<String>(v, "ID"@));
    assert(spec_field::<Job>(w, "Job"@) == spec_field::<Job>(v, "Job"@));
    assert(spec_field::<String>(w, "JobID"@) == spec_field::<String>(v, "JobID"@));
    assert(spec_field::<Metrics>(w, "Metrics"@) == spec_field::<Metrics>(v, "Metrics"@));
    assert(spec_field::<i64>(w, "ModifyIndex"@) == spec_field::<i64>(v, "ModifyIndex"@));
    assert(spec_field::<i64>(w, "ModifyTime"@) == spec_field::<i64>(v, "ModifyTime"@));
    assert(spec_field::<String>(w, "Name"@) == spec_field::<String>(v, "Name"@));
    assert(spec_field::<String>(w, "Namespace"@) == spec_field::<String>(v, "Namespace"@));
    assert(spec_field::<Option<NetworkStatus>>(w, "NetworkStatus"@)
        == spec_field::<Option<NetworkStatus>>(v, "NetworkStatus"@));
    assert(spec_field::<String>(w, "NodeID"@) == spec_field::<String>(v, "NodeID"@));
    assert(spec_field::<String>(w, "NodeName"@) == spec_field::<String>(v, "NodeName"@));
    assert(spec_field::<Resources>(w, "Resources"@) == spec_field::<Resources>(v, "Resources"@));
    assert(spec_field::<Resources>(w, "SharedResources"@)
        == spec_field::<Resources>(v, "SharedResources"@));
    assert(spec_field::<String>(w, "TaskGroup"@) == spec_field::<String>(v, "TaskGroup"@));
    assert(spec_field_or::<Vec<(String, Resources)>>(w, "TaskResources"@, Seq::empty())
        == spec_field_or::<Vec<(String, Resources)>>(v, "TaskResources"@, Seq::empty()));
    assert(spec_field_or::<Vec<(String, TaskState)>>(w, "TaskStates"@, Seq::empty())
        == spec_field_or::<Vec<(String, TaskState)>>(v, "TaskStates"@, Seq::empty()));
}

/// Nothing is read as an allocation that does not name one: what is read has
/// the identifier that the object holds, and an object without members, like
/// a value that is no object, is not read.
pub proof fn lemma_allocation_has_id(v: JsonView)
    ensures
        Allocation::spec_decode(v) matches Ok(x) ==> v matches JsonView::Object(m) && lookup(
            m,
            "ID"@,
        ) == Some(JsonView::Str(x.id)),
        Allocation::spec_decode(JsonView::Object(Seq::empty())) == Err::<
            AllocationView,
            DecodeError,
        >(DecodeError::MissingField),
        !(v is Object) ==> Allocation::spec_decode(v) == Err::<AllocationView, DecodeError>(
            DecodeError::TypeMismatch,
        ),
{
    broadcast use lemma_lookup_empty;

}

/// How the names of the fields of a [`ListJobAllocationsResponse`] are spelled: of each its length
/// and, where another is as long, a letter in which the two differ.
proof fn lemma_list_job_allocations_response_names()
    ensures
        "ID"@.len() == 2,
        "EvalID"@.len() == 6 && "EvalID"@[0] == 'E',
        "Name"@.len() == 4,
        "Namespace"@.len() == 9 && "Namespace"@[0] == 'N',
        "NodeID"@.len() == 6 && "NodeID"@[0] == 'N',
        "NodeName"@.len() == 8,
        "JobID"@.len() == 5,
        "JobType"@.len() == 7,
        "JobVersion"@.len() == 10 && "JobVersion"@[0] == 'J',
        "TaskGroup"@.len() == 9 && "TaskGroup"@[0] == 'T',
        "AllocatedResources"@.len() == 18 && "AllocatedResources"@[0] == 'A',
        "DesiredStatus"@.len() == 13,
        "DesiredDescription"@.len() == 18 && "DesiredDescription"@[0] == 'D',
        "ClientStatus"@.len() == 12,
        "ClientDescription"@.len() == 17 && "ClientDescription"@[0] == 'C',
        "DesiredTransition"@.len() == 17 && "DesiredTransition"@[0] == 'D',
        "TaskStates"@.len() == 10 && "TaskStates"@[0] == 'T',
        "DeploymentStatus"@.len() == 16,
        "FollowupEvalID"@.len() == 14,
        "RescheduleTracker"@.len() == 17 && "RescheduleTracker"@[0] == 'R',
        "PreemptedAllocations"@.len() == 20,
        "PreemptedByAllocation"@.len() == 21,
        "CreateIndex"@.len() == 11 && "CreateIndex"@[0] == 'C',
        "ModifyIndex"@.len() == 11 && "ModifyIndex"@[0] == 'M',
        "CreateTime"@.len() == 10 && "CreateTime"@[0] == 'C',
        "ModifyTime"@.len() == 10 && "ModifyTime"@[0] == 'M',
{
    reveal_strlit("ID");
    reveal_strlit("EvalID");
    reveal_strlit("Name");
    reveal_strlit("Namespace");
    reveal_strlit("NodeID");
    reveal_strlit("NodeName");
    reveal_strlit("JobID");
    reveal_strlit("JobType");
    reveal_strlit("JobVersion");
    reveal_strlit("TaskGroup");
    reveal_strlit("AllocatedResources");
    reveal_strlit("DesiredStatus");
    reveal_strlit("DesiredDescription");
    reveal_strlit("ClientStatus");
    reveal_strlit("ClientDescription");
    reveal_strlit("DesiredTransition");
    reveal_strlit("TaskStates");
    reveal_strlit("DeploymentStatus");
    reveal_strlit("FollowupEvalID");
    reveal_strlit("RescheduleTracker");
    reveal_strlit("PreemptedAllocations");
    reveal_strlit("PreemptedByAllocation");
    reveal_strlit("CreateIndex");
    reveal_strlit("ModifyIndex");
    reveal_strlit("CreateTime");
    reveal_strlit("ModifyTime");
}

/// Each member of a written [`ListJobAllocationsResponse`] is found under its name.
proof fn lemma_list_job_allocations_response_members(x: ListJobAllocationsResponseView)
    ensures
        lookup(ListJobAllocationsResponse::spec_encode(x)->Object_0, "ID"@) == Some(
            String::spec_encode(x.id),
        ),
        lookup(ListJobAllocationsResponse::spec_encode(x)->Object_0, "EvalID"@) == Some(
            String::spec_encode(x.eval_id),
        ),
        lookup(ListJobAllocationsResponse::spec_encode(x)->Object_0, "Name"@) == Some(
            String::spec_encode(x.name),
        ),
        lookup(ListJobAllocationsResponse::spec_encode(x)->Object_0, "Namespace"@) == Some(
            String::spec_encode(x.namespace),
        ),
        lookup(ListJobAllocationsResponse::spec_encode(x)->Object_0, "NodeID"@) == Some(
            String::spec_encode(x.node_id),
        ),
        lookup(ListJobAllocationsResponse::spec_encode(x)->Object_0, "NodeName"@) == Some(
            String::spec_encode(x.node_name),
        ),
        lookup(ListJobAllocationsResponse::spec_encode(x)->Object_0, "JobID"@) == Some(
            String::spec_encode(x.job_id),
        ),
        lookup(ListJobAllocationsResponse::spec_encode(x)->Object_0, "JobType"@) == Some(
            String::spec_encode(x.job_type),
        ),
        lookup(ListJobAllocationsResponse::spec_encode(x)->Object_0, "JobVersion"@) == Some(
            i64::spec_encode(x.job_version),
        ),
        lookup(ListJobAllocationsResponse::spec_encode(x)->Object_0, "TaskGroup"@) == Some(
            String::spec_encode(x.task_group),
        ),
        lookup(ListJobAllocationsResponse::spec_encode(x)->Object_0, "AllocatedResources"@) == Some(
            Json::spec_encode(x.allocated_resources),
        ),
        lookup(ListJobAllocationsResponse::spec_encode(x)->Object_0, "DesiredStatus"@) == Some(
            String::spec_encode(x.desired_status),
        ),
        lookup(ListJobAllocationsResponse::spec_encode(x)->Object_0, "DesiredDescription"@) == Some(
            String::spec_encode(x.desired_description),
        ),
        lookup(ListJobAllocationsResponse::spec_encode(x)->Object_0, "ClientStatus"@) == Some(
            String::spec_encode(x.client_status),
        ),
        lookup(ListJobAllocationsResponse::spec_encode(x)->Object_0, "ClientDescription"@) == Some(
            <Option<String>>::spec_encode(x.client_description),
        ),
        lookup(ListJobAllocationsResponse::spec_encode(x)->Object_0, "DesiredTransition"@) == Some(
            DesiredTransition::spec_encode(x.desired_transition),
        ),
        lookup(ListJobAllocationsResponse::spec_encode(x)->Object_0, "TaskStates"@) == Some(
            <Option<Vec<(String, TaskState)>>>::spec_encode(x.task_states),
        ),
        lookup(ListJobAllocationsResponse::spec_encode(x)->Object_0, "DeploymentStatus"@) == Some(
            <Option<Json>>::spec_encode(x.deployment_status),
        ),
        lookup(ListJobAllocationsResponse::spec_encode(x)->Object_0, "FollowupEvalID"@) == Some(
            <Option<String>>::spec_encode(x.followup_eval_id),
        ),
        lookup(ListJobAllocationsResponse::spec_encode(x)->Object_0, "RescheduleTracker"@) == Some(
            Json::spec_encode(x.reschedule_tracker),
        ),
        lookup(ListJobAllocationsResponse::spec_encode(x)->Object_0, "PreemptedAllocations"@) == Some(
            Json::spec_encode(x.preempted_allocations),
        ),
        lookup(ListJobAllocationsResponse::spec_encode(x)->Object_0, "PreemptedByAllocation"@) == Some(
            String::spec_encode(x.preempted_by_allocation),
        ),
        lookup(ListJobAllocationsResponse::spec_encode(x)->Object_0, "CreateIndex"@) == Some(
            i64::spec_encode(x.create_index),
        ),
        lookup(ListJobAllocationsResponse::spec_encode(x)->Object_0, "ModifyIndex"@) == Some(
            i64::spec_encode(x.modify_index),
        ),
        lookup(ListJobAllocationsResponse::spec_encode(x)->Object_0, "CreateTime"@) == Some(
            i64::spec_encode(x.create_time),
        ),
        lookup(ListJobAllocationsResponse::spec_encode(x)->Object_0, "ModifyTime"@) == Some(
            i64::spec_encode(x.modify_time),
        ),
{
    broadcast use {lemma_lookup_push, lemma_lookup_empty};

    lemma_list_job_allocations_response_names();
}

/// A [`ListJobAllocationsResponse`] is written as a tree that can be written as text where each of
/// its fields is.
proof fn lemma_list_job_allocations_response_written(x: ListJobAllocationsResponseView)
    requires
        writable(String::spec_encode(x.id)),
        writable(String::spec_encode(x.eval_id)),
        writable(String::spec_encode(x.name)),
        writable(String::spec_encode(x.namespace)),
        writable(String::spec_encode(x.node_id)),
        writable(String::spec_encode(x.node_name)),
        writable(String::spec_encode(x.job_id)),
        writable(String::spec_encode(x.job_type)),
        writable(i64::spec_encode(x.job_version)),
        writable(String::spec_encode(x.task_group)),
        writable(Json::spec_encode(x.allocated_resources)),
        writable(String::spec_encode(x.desired_status)),
        writable(String::spec_encode(x.desired_description)),
        writable(String::spec_encode(x.client_status)),
        writable(<Option<String>>::spec_encode(x.client_description)),
        writable(DesiredTransition::spec_encode(x.desired_transition)),
        writable(<Option<Vec<(String, TaskState)>>>::spec_encode(x.task_states)),
        writable(<Option<Json>>::spec_encode(x.deployment_status)),
        writable(<Option<String>>::spec_encode(x.followup_eval_id)),
        writable(Json::spec_encode(x.reschedule_tracker)),
        writable(Json::spec_encode(x.preempted_allocations)),
        writable(String::spec_encode(x.preempted_by_allocation)),
        writable(i64::spec_encode(x.create_index)),
        writable(i64::spec_encode(x.modify_index)),
        writable(i64::spec_encode(x.create_time)),
        writable(i64::spec_encode(x.modify_time)),
    ensures
        writable(ListJobAllocationsResponse::spec_encode(x)),
{
    broadcast use {
        lemma_writable_push,
        lemma_writable_empty,
        lemma_lookup_push,
        lemma_lookup_empty,
    };

    lemma_list_job_allocations_response_names();
    lemma_writable_object(ListJobAllocationsResponse::spec_encode(x)->Object_0);
}

impl Wire for ListJobAllocationsResponse {
    open spec fn spec_decode(v: JsonView) -> Result<ListJobAllocationsResponseView, DecodeError> {
        if let Err(e) = spec_field::<String>(v, "ID"@) {
            Err(e)
        } else if let Err(e) = spec_field::<String>(v, "EvalID"@) {
            Err(e)
        } else if let Err(e) = spec_field::<String>(v, "Name"@) {
            Err(e)
        } else if let Err(e) = spec_field::<String>(v, "Namespace"@) {
            Err(e)
        } else if let Err(e) = spec_field::<String>(v, "NodeID"@) {
            Err(e)
        } else if let Err(e) = spec_field::<String>(v, "NodeName"@) {
            Err(e)
        } else if let Err(e) = spec_field::<String>(v, "JobID"@) {
            Err(e)
        } else if let Err(e) = spec_field::<String>(v, "JobType"@) {
            Err(e)
        } else if let Err(e) = spec_field::<i64>(v, "JobVersion"@) {
            Err(e)
        } else if let Err(e) = spec_field::<String>(v, "TaskGroup"@) {
            Err(e)
        } else if let Err(e) = spec_field::<Json>(v, "AllocatedResources"@) {
            Err(e)
        } else if let Err(e) = spec_field::<String>(v, "DesiredStatus"@) {
            Err(e)
        } else if let Err(e) = spec_field::<String>(v, "DesiredDescription"@) {
            Err(e)
        } else if let Err(e) = spec_field::<String>(v, "ClientStatus"@) {
            Err(e)
        } else if let Err(e) = spec_field::<Option<String>>(v, "ClientDescription"@) {
            Err(e)
        } else if let Err(e) = spec_field::<DesiredTransition>(v, "DesiredTransition"@) {
            Err(e)
        } else if let Err(e) = spec_field::<Option<Vec<(String, TaskState)>>>(v, "TaskStates"@) {
            Err(e)
        } else if let Err(e) = spec_field::<Option<Json>>(v, "DeploymentStatus"@) {
            Err(e)
        } else if let Err(e) = spec_field::<Option<String>>(v, "FollowupEvalID"@) {
            Err(e)
        } else if let Err(e) = spec_field::<Json>(v, "RescheduleTracker"@) {
            Err(e)
        } else if let Err(e) = spec_field::<Json>(v, "PreemptedAllocations"@) {
            Err(e)
        } else if let Err(e) = spec_field::<String>(v, "PreemptedByAllocation"@) {
            Err(e)
        } else if let Err(e) = spec_field::<i64>(v, "CreateIndex"@) {
            Err(e)
        } else if let Err(e) = spec_field::<i64>(v, "ModifyIndex"@) {
            Err(e)
        } else if let Err(e) = spec_field::<i64>(v, "CreateTime"@) {
            Err(e)
        } else if let Err(e) = spec_field::<i64>(v, "ModifyTime"@) {
            Err(e)
        } else {
            Ok(
                ListJobAllocationsResponseView {
                    id: spec_field::<String>(v, "ID"@)->Ok_0,
                    eval_id: spec_field::<String>(v, "EvalID"@)->Ok_0,
                    name: spec_field::<String>(v, "Name"@)->Ok_0,
                    namespace: spec_field::<String>(v, "Namespace"@)->Ok_0,
                    node_id: spec_field::<String>(v, "NodeID"@)->Ok_0,
                    node_name: spec_field::<String>(v, "NodeName"@)->Ok_0,
                    job_id: spec_field::<String>(v, "JobID"@)->Ok_0,
                    job_type: spec_field::<String>(v, "JobType"@)->Ok_0,
                    job_version: spec_field::<i64>(v, "JobVersion"@)->Ok_0,
                    task_group: spec_field::<String>(v, "TaskGroup"@)->Ok_0,
                    allocated_resources: spec_field::<Json>(v, "AllocatedResources"@)->Ok_0,
                    desired_status: spec_field::<String>(v, "DesiredStatus"@)->Ok_0,
                    desired_description: spec_field::<String>(v, "DesiredDescription"@)->Ok_0,
                    client_status: spec_field::<String>(v, "ClientStatus"@)->Ok_0,
                    client_description: spec_field::<Option<String>>(v, "ClientDescription"@)->Ok_0,
                    desired_transition: spec_field::<DesiredTransition>(
                        v, "DesiredTransition"@,
                    )->Ok_0,
                    task_states: spec_field::<Option<Vec<(
                        String, TaskState)>>>(v, "TaskStates"@,
                    )->Ok_0,
                    deployment_status: spec_field::<Option<Json>>(v, "DeploymentStatus"@)->Ok_0,
                    followup_eval_id: spec_field::<Option<String>>(v, "FollowupEvalID"@)->Ok_0,
                    reschedule_tracker: spec_field::<Json>(v, "RescheduleTracker"@)->Ok_0,
                    preempted_allocations: spec_field::<Json>(v, "PreemptedAllocations"@)->Ok_0,
                    preempted_by_allocation: spec_field::<String>(
                        v, "PreemptedByAllocation"@,
                    )->Ok_0,
                    create_index: spec_field::<i64>(v, "CreateIndex"@)->Ok_0,
                    modify_index: spec_field::<i64>(v, "ModifyIndex"@)->Ok_0,
                    create_time: spec_field::<i64>(v, "CreateTime"@)->Ok_0,
                    modify_time: spec_field::<i64>(v, "ModifyTime"@)->Ok_0,
                },
            )
        }
    }

    open spec fn spec_absent() -> Result<ListJobAllocationsResponseView, DecodeError> {
        Err(DecodeError::MissingField)
    }

    open spec fn spec_encode(x: ListJobAllocationsResponseView) -> JsonView {
        JsonView::Object(
            Seq::empty()
                .push(("ID"@, String::spec_encode(x.id)))
                .push(("EvalID"@, String::spec_encode(x.eval_id)))
                .push(("Name"@, String::spec_encode(x.name)))
                .push(("Namespace"@, String::spec_encode(x.namespace)))
                .push(("NodeID"@, String::spec_encode(x.node_id)))
                .push(("NodeName"@, String::spec_encode(x.node_name)))
                .push(("JobID"@, String::spec_encode(x.job_id)))
                .push(("JobType"@, String::spec_encode(x.job_type)))
                .push(("JobVersion"@, i64::spec_encode(x.job_version)))
                .push(("TaskGroup"@, String::spec_encode(x.task_group)))
                .push(("AllocatedResources"@, Json::spec_encode(x.allocated_resources)))
                .push(("DesiredStatus"@, String::spec_encode(x.desired_status)))
                .push(("DesiredDescription"@, String::spec_encode(x.desired_description)))
                .push(("ClientStatus"@, String::spec_encode(x.client_status)))
                .push(("ClientDescription"@, <Option<String>>::spec_encode(x.client_description)))
                .push(("DesiredTransition"@, DesiredTransition::spec_encode(x.desired_transition)))
                .push(("TaskStates"@, <Option<Vec<(String, TaskState)>>>::spec_encode(x.task_states)))
                .push(("DeploymentStatus"@, <Option<Json>>::spec_encode(x.deployment_status)))
                .push(("FollowupEvalID"@, <Option<String>>::spec_encode(x.followup_eval_id)))
                .push(("RescheduleTracker"@, Json::spec_encode(x.reschedule_tracker)))
                .push(("PreemptedAllocations"@, Json::spec_encode(x.preempted_allocations)))
                .push(("PreemptedByAllocation"@, String::spec_encode(x.preempted_by_allocation)))
                .push(("CreateIndex"@, i64::spec_encode(x.create_index)))
                .push(("ModifyIndex"@, i64::spec_encode(x.modify_index)))
                .push(("CreateTime"@, i64::spec_encode(x.create_time)))
                .push(("ModifyTime"@, i64::spec_encode(x.modify_time))),
        )
    }

    fn decode(v: &Json) -> (r: Result<ListJobAllocationsResponse, DecodeError>) {
        let id = field::<String>(v, "ID")?;
        let eval_id = field::<String>(v, "EvalID")?;
        let name = field::<String>(v, "Name")?;
        let namespace = field::<String>(v, "Namespace")?;
        let node_id = field::<String>(v, "NodeID")?;
        let node_name = field::<String>(v, "NodeName")?;
        let job_id = field::<String>(v, "JobID")?;
        let job_type = field::<String>(v, "JobType")?;
        let job_version = field::<i64>(v, "JobVersion")?;
        let task_group = field::<String>(v, "TaskGroup")?;
        let allocated_resources = field::<Json>(v, "AllocatedResources")?;
        let desired_status = field::<String>(v, "DesiredStatus")?;
        let desired_description = field::<String>(v, "DesiredDescription")?;
        let client_status = field::<String>(v, "ClientStatus")?;
        let client_description = field::<Option<String>>(v, "ClientDescription")?;
        let desired_transition = field::<DesiredTransition>(v, "DesiredTransition")?;
        let task_states = field::<Option<Vec<(String, TaskState)>>>(v, "TaskStates")?;
        let deployment_status = field::<Option<Json>>(v, "DeploymentStatus")?;
        let followup_eval_id = field::<Option<String>>(v, "FollowupEvalID")?;
        let reschedule_tracker = field::<Json>(v, "RescheduleTracker")?;
        let preempted_allocations = field::<Json>(v, "PreemptedAllocations")?;
        let preempted_by_allocation = field::<String>(v, "PreemptedByAllocation")?;
        let create_index = field::<i64>(v, "CreateIndex")?;
        let modify_index = field::<i64>(v, "ModifyIndex")?;
        let create_time = field::<i64>(v, "CreateTime")?;
        let modify_time = field::<i64>(v, "ModifyTime")?;
        Ok(ListJobAllocationsResponse {
            id,
            eval_id,
            name,
            namespace,
            node_id,
            node_name,
            job_id,
            job_type,
            job_version,
            task_group,
            allocated_resources,
            desired_status,
            desired_description,
            client_status,
            client_description,
            desired_transition,
            task_states,
            deployment_status,
            followup_eval_id,
            reschedule_tracker,
            preempted_allocations,
            preempted_by_allocation,
            create_index,
            modify_index,
            create_time,
            modify_time,
        })
    }

    fn absent() -> (r: Result<ListJobAllocationsResponse, DecodeError>) {
        Err(DecodeError::MissingField)
    }

    fn encode(&self) -> (r: Json) {
        let mut members: Vec<(String, Json)> = Vec::new();
        proof {
            assert(members_view(members@) =~= Seq::empty());
        }
        put(&mut members, "ID", self.id.encode());
        put(&mut members, "EvalID", self.eval_id.encode());
        put(&mut members, "Name", self.name.encode());
        put(&mut members, "Namespace", self.namespace.encode());
        put(&mut members, "NodeID", self.node_id.encode());
        put(&mut members, "NodeName", self.node_name.encode());
        put(&mut members, "JobID", self.job_id.encode());
        put(&mut members, "JobType", self.job_type.encode());
        put(&mut members, "JobVersion", self.job_version.encode());
        put(&mut members, "TaskGroup", self.task_group.encode());
        put(&mut members, "AllocatedResources", self.allocated_resources.encode());
        put(&mut members, "DesiredStatus", self.desired_status.encode());
        put(&mut members, "DesiredDescription", self.desired_description.encode());
        put(&mut members, "ClientStatus", self.client_status.encode());
        put(&mut members, "ClientDescription", self.client_description.encode());
        put(&mut members, "DesiredTransition", self.desired_transition.encode());
        put(&mut members, "TaskStates", self.task_states.encode());
        put(&mut members, "DeploymentStatus", self.deployment_status.encode());
        put(&mut members, "FollowupEvalID", self.followup_eval_id.encode());
        put(&mut members, "RescheduleTracker", self.reschedule_tracker.encode());
        put(&mut members, "PreemptedAllocations", self.preempted_allocations.encode());
        put(&mut members, "PreemptedByAllocation", self.preempted_by_allocation.encode());
        put(&mut members, "CreateIndex", self.create_index.encode());
        put(&mut members, "ModifyIndex", self.modify_index.encode());
        put(&mut members, "CreateTime", self.create_time.encode());
        put(&mut members, "ModifyTime", self.modify_time.encode());
        Json::Object(members)
    }

    proof fn lemma_round_trip(v: JsonView) {
        let x = Self::spec_decode(v)->Ok_0;
        let w = Self::spec_encode(x);
        lemma_list_job_allocations_response_members(x);
        lemma_field_round_trip::<String>(v, "ID"@);
        lemma_field_round_trip::<String>(v, "EvalID"@);
        lemma_field_round_trip::<String>(v, "Name"@);
        lemma_field_round_trip::<String>(v, "Namespace"@);
        lemma_field_round_trip::<String>(v, "NodeID"@);
        lemma_field_round_trip::<String>(v, "NodeName"@);
        lemma_field_round_trip::<String>(v, "JobID"@);
        lemma_field_round_trip::<String>(v, "JobType"@);
        lemma_field_round_trip::<i64>(v, "JobVersion"@);
        lemma_field_round_trip::<String>(v, "TaskGroup"@);
        lemma_field_round_trip::<Json>(v, "AllocatedResources"@);
        lemma_field_round_trip::<String>(v, "DesiredStatus"@);
        lemma_field_round_trip::<String>(v, "DesiredDescription"@);
        lemma_field_round_trip::<String>(v, "ClientStatus"@);
        lemma_field_round_trip::<Option<String>>(v, "ClientDescription"@);
        lemma_field_round_trip::<DesiredTransition>(v, "DesiredTransition"@);
        lemma_field_round_trip::<Option<Vec<(String, TaskState)>>>(v, "TaskStates"@);
        lemma_field_round_trip::<Option<Json>>(v, "DeploymentStatus"@);
        lemma_field_round_trip::<Option<String>>(v, "FollowupEvalID"@);
        lemma_field_round_trip::<Json>(v, "RescheduleTracker"@);
        lemma_field_round_trip::<Json>(v, "PreemptedAllocations"@);
        lemma_field_round_trip::<String>(v, "PreemptedByAllocation"@);
        lemma_field_round_trip::<i64>(v, "CreateIndex"@);
        lemma_field_round_trip::<i64>(v, "ModifyIndex"@);
        lemma_field_round_trip::<i64>(v, "CreateTime"@);
        lemma_field_round_trip::<i64>(v, "ModifyTime"@);
        assert(spec_field::<String>(w, "ID"@) == spec_field::<String>(v, "ID"@));
        assert(spec_field::<String>(w, "EvalID"@) == spec_field::<String>(v, "EvalID"@));
        assert(spec_field::<String>(w, "Name"@) == spec_field::<String>(v, "Name"@));
        assert(spec_field::<String>(w, "Namespace"@) == spec_field::<String>(v, "Namespace"@));
        assert(spec_field::<String>(w, "NodeID"@) == spec_field::<String>(v, "NodeID"@));
        assert(spec_field::<String>(w, "NodeName"@) == spec_field::<String>(v, "NodeName"@));
        assert(spec_field::<String>(w, "JobID"@) == spec_field::<String>(v, "JobID"@));
        assert(spec_field::<String>(w, "JobType"@) == spec_field::<String>(v, "JobType"@));
        assert(spec_field::<i64>(w, "JobVersion"@) == spec_field::<i64>(v, "JobVersion"@));
        assert(spec_field::<String>(w, "TaskGroup"@) == spec_field::<String>(v, "TaskGroup"@));
        assert(spec_field::<Json>(w, "AllocatedResources"@)
            == spec_field::<Json>(v, "AllocatedResources"@));
        assert(spec_field::<String>(w, "DesiredStatus"@)
            == spec_field::<String>(v, "DesiredStatus"@));
        assert(spec_field::<String>(w, "DesiredDescription"@)
            == spec_field::<String>(v, "DesiredDescription"@));
        assert(spec_field::<String>(w, "ClientStatus"@)
            == spec_field::<String>(v, "ClientStatus"@));
        assert(spec_field::<Option<String>>(w, "ClientDescription"@)
            == spec_field::<Option<String>>(v, "ClientDescription"@));
        assert(spec_field::<DesiredTransition>(w, "DesiredTransition"@)
            == spec_field::<DesiredTransition>(v, "DesiredTransition"@));
        assert(spec_field::<Option<Vec<(String, TaskState)>>>(w, "TaskStates"@)
            == spec_field::<Option<Vec<(String, TaskState)>>>(v, "TaskStates"@));
        assert(spec_field::<Option<Json>>(w, "DeploymentStatus"@)
            == spec_field::<Option<Json>>(v, "DeploymentStatus"@));
        assert(spec_field::<Option<String>>(w, "FollowupEvalID"@)
            == spec_field::<Option<String>>(v, "FollowupEvalID"@));
        assert(spec_field::<Json>(w, "RescheduleTracker"@)
            == spec_field::<Json>(v, "RescheduleTracker"@));
        assert(spec_field::<Json>(w, "PreemptedAllocations"@)
            == spec_field::<Json>(v, "PreemptedAllocations"@));
        assert(spec_field::<String>(w, "PreemptedByAllocation"@)
            == spec_field::<String>(v, "PreemptedByAllocation"@));
        assert(spec_field::<i64>(w, "CreateIndex"@) == spec_field::<i64>(v, "CreateIndex"@));
        assert(spec_field::<i64>(w, "ModifyIndex"@) == spec_field::<i64>(v, "ModifyIndex"@));
        assert(spec_field::<i64>(w, "CreateTime"@) == spec_field::<i64>(v, "CreateTime"@));
        assert(spec_field::<i64>(w, "ModifyTime"@) == spec_field::<i64>(v, "ModifyTime"@));
    }

    proof fn lemma_absent_round_trip() {
    }

    proof fn lemma_writable(v: JsonView) {
        lemma_field_writable::<String>(v, "ID"@);
        lemma_field_writable::<String>(v, "EvalID"@);
        lemma_field_writable::<String>(v, "Name"@);
        lemma_field_writable::<String>(v, "Namespace"@);
        lemma_field_writable::<String>(v, "NodeID"@);
        lemma_field_writable::<String>(v, "NodeName"@);
        lemma_field_writable::<String>(v, "JobID"@);
        lemma_field_writable::<String>(v, "JobType"@);
        lemma_field_writable::<i64>(v, "JobVersion"@);
        lemma_field_writable::<String>(v, "TaskGroup"@);
        lemma_field_writable::<Json>(v, "AllocatedResources"@);
        lemma_field_writable::<String>(v, "DesiredStatus"@);
        lemma_field_writable::<String>(v, "DesiredDescription"@);
        lemma_field_writable::<String>(v, "ClientStatus"@);
        lemma_field_writable::<Option<String>>(v, "ClientDescription"@);
        lemma_field_writable::<DesiredTransition>(v, "DesiredTransition"@);
        lemma_field_writable::<Option<Vec<(String, TaskState)>>>(v, "TaskStates"@);
        lemma_field_writable::<Option<Json>>(v, "DeploymentStatus"@);
        lemma_field_writable::<Option<String>>(v, "FollowupEvalID"@);
        lemma_field_writable::<Json>(v, "RescheduleTracker"@);
        lemma_field_writable::<Json>(v, "PreemptedAllocations"@);
        lemma_field_writable::<String>(v, "PreemptedByAllocation"@);
        lemma_field_writable::<i64>(v, "CreateIndex"@);
        lemma_field_writable::<i64>(v, "ModifyIndex"@);
        lemma_field_writable::<i64>(v, "CreateTime"@);
        lemma_field_writable::<i64>(v, "ModifyTime"@);
        lemma_list_job_allocations_response_written(Self::spec_decode(v)->Ok_0);
    }
}

} // verus!
