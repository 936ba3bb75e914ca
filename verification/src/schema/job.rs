//! The wire schema of jobs.

use vstd::prelude::*;
use crate::jobs::{Job, JobView, RunningStatus, TaskGroup, Update};
use crate::json::{members_view, Json, JsonView};
use crate::schema::status::status_of;
use crate::text::{lemma_writable_empty, lemma_writable_object, lemma_writable_push, writable};
use crate::wire::{
    field, lemma_field_round_trip, lemma_field_writable, lemma_lookup_empty, lemma_lookup_push,
    lookup, put, spec_field, DecodeError, Members, Wire,
};

verus! {

/// How the names of the fields of a [`Job`] are spelled: of each its length
/// and, where another is as long, a letter in which the two differ.
proof fn lemma_job_names()
    ensures
        "Affinities"@.len() == 10 && "Affinities"@[0] == 'A',
        "AllAtOnce"@.len() == 9 && "AllAtOnce"@[0] == 'A',
        "Constraints"@.len() == 11
            && "Constraints"@[0] == 'C'
            && "Constraints"@[1] == 'o'
            && "Constraints"@[4] == 't',
        "ConsulNamespace"@.len() == 15,
        "ConsulToken"@.len() == 11
            && "ConsulToken"@[0] == 'C'
            && "ConsulToken"@[1] == 'o'
            && "ConsulToken"@[4] == 'u',
        "CreateIndex"@.len() == 11 && "CreateIndex"@[0] == 'C' && "CreateIndex"@[1] == 'r',
        "Datacenters"@.len() == 11 && "Datacenters"@[0] == 'D',
        "Dispatched"@.len() == 10 && "Dispatched"@[0] == 'D',
        "ID"@.len() == 2,
        "JobModifyIndex"@.len() == 14 && "JobModifyIndex"@[0] == 'J',
        "Meta"@.len() == 4 && "Meta"@[0] == 'M',
        "ModifyIndex"@.len() == 11 && "ModifyIndex"@[0] == 'M' && "ModifyIndex"@[1] == 'o',
        "Multiregion"@.len() == 11 && "Multiregion"@[0] == 'M' && "Multiregion"@[1] == 'u',
        "Name"@.len() == 4 && "Name"@[0] == 'N',
        "Namespace"@.len() == 9 && "Namespace"@[0] == 'N',
        "NomadTokenID"@.len() == 12,
        "ParameterizedJob"@.len() == 16,
        "ParentID"@.len() == 8 && "ParentID"@[1] == 'a',
        "Payload"@.len() == 7 && "Payload"@[0] == 'P',
        "Periodic"@.len() == 8 && "Periodic"@[1] == 'e',
        "Priority"@.len() == 8 && "Priority"@[1] == 'r',
        "Region"@.len() == 6 && "Region"@[0] == 'R',
        "Spreads"@.len() == 7 && "Spreads"@[0] == 'S',
        "Stable"@.len() == 6 && "Stable"@[0] == 'S' && "Stable"@[3] == 'b',
        "Status"@.len() == 6 && "Status"@[0] == 'S' && "Status"@[3] == 't',
        "StatusDescription"@.len() == 17,
        "Stop"@.len() == 4 && "Stop"@[0] == 'S',
        "SubmitTime"@.len() == 10 && "SubmitTime"@[0] == 'S',
        "TaskGroups"@.len() == 10 && "TaskGroups"@[0] == 'T',
        "Type"@.len() == 4 && "Type"@[0] == 'T',
        "Update"@.len() == 6 && "Update"@[0] == 'U',
        "VaultNamespace"@.len() == 14 && "VaultNamespace"@[0] == 'V',
        "VaultToken"@.len() == 10 && "VaultToken"@[0] == 'V',
        "Version"@.len() == 7 && "Version"@[0] == 'V',
{
    reveal_strlit("Affinities");
    reveal_strlit("AllAtOnce");
    reveal_strlit("Constraints");
    reveal_strlit("ConsulNamespace");
    reveal_strlit("ConsulToken");
    reveal_strlit("CreateIndex");
    reveal_strlit("Datacenters");
    reveal_strlit("Dispatched");
    reveal_strlit("ID");
    reveal_strlit("JobModifyIndex");
    reveal_strlit("Meta");
    reveal_strlit("ModifyIndex");
    reveal_strlit("Multiregion");
    reveal_strlit("Name");
    reveal_strlit("Namespace");
    reveal_strlit("NomadTokenID");
    reveal_strlit("ParameterizedJob");
    reveal_strlit("ParentID");
    reveal_strlit("Payload");
    reveal_strlit("Periodic");
    reveal_strlit("Priority");
    reveal_strlit("Region");
    reveal_strlit("Spreads");
    reveal_strlit("Stable");
    reveal_strlit("Status");
    reveal_strlit("StatusDescription");
    reveal_strlit("Stop");
    reveal_strlit("SubmitTime");
    reveal_strlit("TaskGroups");
    reveal_strlit("Type");
    reveal_strlit("Update");
    reveal_strlit("VaultNamespace");
    reveal_strlit("VaultToken");
    reveal_strlit("Version");
}

/// Each member of a written [`Job`] is found under its name.
proof fn lemma_job_members(x: JobView)
    ensures
        lookup(Job::spec_encode(x)->Object_0, "Affinities"@) == Some(
            <Option<Json>>::spec_encode(x.affinities),
        ),
        lookup(Job::spec_encode(x)->Object_0, "AllAtOnce"@) == Some(
            <Option<bool>>::spec_encode(x.all_at_once),
        ),
        lookup(Job::spec_encode(x)->Object_0, "Constraints"@) == Some(
            <Option<Json>>::spec_encode(x.constraints),
        ),
        lookup(Job::spec_encode(x)->Object_0, "ConsulNamespace"@) == Some(
            <Option<String>>::spec_encode(x.consul_namespace),
        ),
        lookup(Job::spec_encode(x)->Object_0, "ConsulToken"@) == Some(
            <Option<String>>::spec_encode(x.consul_token),
        ),
        lookup(Job::spec_encode(x)->Object_0, "CreateIndex"@) == Some(
            i64::spec_encode(x.create_index),
        ),
        lookup(Job::spec_encode(x)->Object_0, "Datacenters"@) == Some(
            <Option<Vec<String>>>::spec_encode(x.datacenters),
        ),
        lookup(Job::spec_encode(x)->Object_0, "Dispatched"@) == Some(
            <Option<bool>>::spec_encode(x.dispatched),
        ),
        lookup(Job::spec_encode(x)->Object_0, "ID"@) == Some(
            String::spec_encode(x.id),
        ),
        lookup(Job::spec_encode(x)->Object_0, "JobModifyIndex"@) == Some(
            i64::spec_encode(x.job_modify_index),
        ),
        lookup(Job::spec_encode(x)->Object_0, "Meta"@) == Some(
            <Option<Json>>::spec_encode(x.meta),
        ),
        lookup(Job::spec_encode(x)->Object_0, "ModifyIndex"@) == Some(
            i64::spec_encode(x.modify_index),
        ),
        lookup(Job::spec_encode(x)->Object_0, "Multiregion"@) == Some(
            <Option<Json>>::spec_encode(x.multiregion),
        ),
        lookup(Job::spec_encode(x)->Object_0, "Name"@) == Some(
            String::spec_encode(x.name),
        ),
        lookup(Job::spec_encode(x)->Object_0, "Namespace"@) == Some(
            <Option<String>>::spec_encode(x.namespace),
        ),
        lookup(Job::spec_encode(x)->Object_0, "NomadTokenID"@) == Some(
            <Option<String>>::spec_encode(x.nomad_token_id),
        ),
        lookup(Job::spec_encode(x)->Object_0, "ParameterizedJob"@) == Some(
            <Option<Json>>::spec_encode(x.parameterized_job),
        ),
        lookup(Job::spec_encode(x)->Object_0, "ParentID"@) == Some(
            <Option<String>>::spec_encode(x.parent_id),
        ),
        lookup(Job::spec_encode(x)->Object_0, "Payload"@) == Some(
            <Option<Json>>::spec_encode(x.payload),
        ),
        lookup(Job::spec_encode(x)->Object_0, "Periodic"@) == Some(
            <Option<Json>>::spec_encode(x.periodic),
        ),
        lookup(Job::spec_encode(x)->Object_0, "Priority"@) == Some(
            i64::spec_encode(x.priority),
        ),
        lookup(Job::spec_encode(x)->Object_0, "Region"@) == Some(
            <Option<String>>::spec_encode(x.region),
        ),
        lookup(Job::spec_encode(x)->Object_0, "Spreads"@) == Some(
            <Option<Json>>::spec_encode(x.spreads),
        ),
        lookup(Job::spec_encode(x)->Object_0, "Stable"@) == Some(
            <Option<bool>>::spec_encode(x.stable),
        ),
        lookup(Job::spec_encode(x)->Object_0, "Status"@) == Some(
            RunningStatus::spec_encode(x.status),
        ),
        lookup(Job::spec_encode(x)->Object_0, "StatusDescription"@) == Some(
            <Option<String>>::spec_encode(x.status_description),
        ),
        lookup(Job::spec_encode(x)->Object_0, "Stop"@) == Some(
            bool::spec_encode(x.stop),
        ),
        lookup(Job::spec_encode(x)->Object_0, "SubmitTime"@) == Some(
            <Option<i64>>::spec_encode(x.submit_time),
        ),
        lookup(Job::spec_encode(x)->Object_0, "TaskGroups"@) == Some(
            <Option<Vec<TaskGroup>>>::spec_encode(x.task_groups),
        ),
        lookup(Job::spec_encode(x)->Object_0, "Type"@) == Some(
            String::spec_encode(x.type_field),
        ),
        lookup(Job::spec_encode(x)->Object_0, "Update"@) == Some(
            <Option<Update>>::spec_encode(x.update),
        ),
        lookup(Job::spec_encode(x)->Object_0, "VaultNamespace"@) == Some(
            <Option<String>>::spec_encode(x.vault_namespace),
        ),
        lookup(Job::spec_encode(x)->Object_0, "VaultToken"@) == Some(
            <Option<String>>::spec_encode(x.vault_token),
        ),
        lookup(Job::spec_encode(x)->Object_0, "Version"@) == Some(
            <Option<i64>>::spec_encode(x.version),
        ),
{
    broadcast use {lemma_lookup_push, lemma_lookup_empty};

    lemma_job_names();
}

/// A [`Job`] is written as a tree that can be written as text where each of
/// its fields is.
proof fn lemma_job_written(x: JobView)
    requires
        writable(<Option<Json>>::spec_encode(x.affinities)),
        writable(<Option<bool>>::spec_encode(x.all_at_once)),
        writable(<Option<Json>>::spec_encode(x.constraints)),
        writable(<Option<String>>::spec_encode(x.consul_namespace)),
        writable(<Option<String>>::spec_encode(x.consul_token)),
        writable(i64::spec_encode(x.create_index)),
        writable(<Option<Vec<String>>>::spec_encode(x.datacenters)),
        writable(<Option<bool>>::spec_encode(x.dispatched)),
        writable(String::spec_encode(x.id)),
        writable(i64::spec_encode(x.job_modify_index)),
        writable(<Option<Json>>::spec_encode(x.meta)),
        writable(i64::spec_encode(x.modify_index)),
        writable(<Option<Json>>::spec_encode(x.multiregion)),
        writable(String::spec_encode(x.name)),
        writable(<Option<String>>::spec_encode(x.namespace)),
        writable(<Option<String>>::spec_encode(x.nomad_token_id)),
        writable(<Option<Json>>::spec_encode(x.parameterized_job)),
        writable(<Option<String>>::spec_encode(x.parent_id)),
        writable(<Option<Json>>::spec_encode(x.payload)),
        writable(<Option<Json>>::spec_encode(x.periodic)),
        writable(i64::spec_encode(x.priority)),
        writable(<Option<String>>::spec_encode(x.region)),
        writable(<Option<Json>>::spec_encode(x.spreads)),
        writable(<Option<bool>>::spec_encode(x.stable)),
        writable(RunningStatus::spec_encode(x.status)),
        writable(<Option<String>>::spec_encode(x.status_description)),
        writable(bool::spec_encode(x.stop)),
        writable(<Option<i64>>::spec_encode(x.submit_time)),
        writable(<Option<Vec<TaskGroup>>>::spec_encode(x.task_groups)),
        writable(String::spec_encode(x.type_field)),
        writable(<Option<Update>>::spec_encode(x.update)),
        writable(<Option<String>>::spec_encode(x.vault_namespace)),
        writable(<Option<String>>::spec_encode(x.vault_token)),
        writable(<Option<i64>>::spec_encode(x.version)),
    ensures
        writable(Job::spec_encode(x)),
{
    broadcast use {
        lemma_writable_push,
        lemma_writable_empty,
        lemma_lookup_push,
        lemma_lookup_empty,
    };

    lemma_job_names();
    lemma_writable_object(Job::spec_encode(x)->Object_0);
}

impl Wire for Job {
    open spec fn spec_decode(v: JsonView) -> Result<JobView, DecodeError> {
        if let Err(e) = spec_field::<Option<Json>>(v, "Affinities"@) {
            Err(e)
        } else if let Err(e) = spec_field::<Option<bool>>(v, "AllAtOnce"@) {
            Err(e)
        } else if let Err(e) = spec_field::<Option<Json>>(v, "Constraints"@) {
            Err(e)
        } else if let Err(e) = spec_field::<Option<String>>(v, "ConsulNamespace"@) {
            Err(e)
        } else if let Err(e) = spec_field::<Option<String>>(v, "ConsulToken"@) {
            Err(e)
        } else if let Err(e) = spec_field::<i64>(v, "CreateIndex"@) {
            Err(e)
        } else if let Err(e) = spec_field::<Option<Vec<String>>>(v, "Datacenters"@) {
            Err(e)
        } else if let Err(e) = spec_field::<Option<bool>>(v, "Dispatched"@) {
            Err(e)
        } else if let Err(e) = spec_field::<String>(v, "ID"@) {
            Err(e)
        } else if let Err(e) = spec_field::<i64>(v, "JobModifyIndex"@) {
            Err(e)
        } else if let Err(e) = spec_field::<Option<Json>>(v, "Meta"@) {
            Err(e)
        } else if let Err(e) = spec_field::<i64>(v, "ModifyIndex"@) {
            Err(e)
        } else if let Err(e) = spec_field::<Option<Json>>(v, "Multiregion"@) {
            Err(e)
        } else if let Err(e) = spec_field::<String>(v, "Name"@) {
            Err(e)
        } else if let Err(e) = spec_field::<Option<String>>(v, "Namespace"@) {
            Err(e)
        } else if let Err(e) = spec_field::<Option<String>>(v, "NomadTokenID"@) {
            Err(e)
        } else if let Err(e) = spec_field::<Option<Json>>(v, "ParameterizedJob"@) {
            Err(e)
        } else if let Err(e) = spec_field::<Option<String>>(v, "ParentID"@) {
            Err(e)
        } else if let Err(e) = spec_field::<Option<Json>>(v, "Payload"@) {
            Err(e)
        } else if let Err(e) = spec_field::<Option<Json>>(v, "Periodic"@) {
            Err(e)
        } else if let Err(e) = spec_field::<i64>(v, "Priority"@) {
            Err(e)
        } else if let Err(e) = spec_field::<Option<String>>(v, "Region"@) {
            Err(e)
        } else if let Err(e) = spec_field::<Option<Json>>(v, "Spreads"@) {
            Err(e)
        } else if let Err(e) = spec_field::<Option<bool>>(v, "Stable"@) {
            Err(e)
        } else if let Err(e) = spec_field::<RunningStatus>(v, "Status"@) {
            Err(e)
        } else if let Err(e) = spec_field::<Option<String>>(v, "StatusDescription"@) {
            Err(e)
        } else if let Err(e) = spec_field::<bool>(v, "Stop"@) {
            Err(e)
        } else if let Err(e) = spec_field::<Option<i64>>(v, "SubmitTime"@) {
            Err(e)
        } else if let Err(e) = spec_field::<Option<Vec<TaskGroup>>>(v, "TaskGroups"@) {
            Err(e)
        } else if let Err(e) = spec_field::<String>(v, "Type"@) {
            Err(e)
        } else if let Err(e) = spec_field::<Option<Update>>(v, "Update"@) {
            Err(e)
        } else if let Err(e) = spec_field::<Option<String>>(v, "VaultNamespace"@) {
            Err(e)
        } else if let Err(e) = spec_field::<Option<String>>(v, "VaultToken"@) {
            Err(e)
        } else if let Err(e) = spec_field::<Option<i64>>(v, "Version"@) {
            Err(e)
        } else {
            Ok(
                JobView {
                    affinities: spec_field::<Option<Json>>(v, "Affinities"@)->Ok_0,
                    all_at_once: spec_field::<Option<bool>>(v, "AllAtOnce"@)->Ok_0,
                    constraints: spec_field::<Option<Json>>(v, "Constraints"@)->Ok_0,
                    consul_namespace: spec_field::<Option<String>>(v, "ConsulNamespace"@)->Ok_0,
                    consul_token: spec_field::<Option<String>>(v, "ConsulToken"@)->Ok_0,
                    create_index: spec_field::<i64>(v, "CreateIndex"@)->Ok_0,
                    datacenters: spec_field::<Option<Vec<String>>>(v, "Datacenters"@)->Ok_0,
                    dispatched: spec_field::<Option<bool>>(v, "Dispatched"@)->Ok_0,
                    id: spec_field::<String>(v, "ID"@)->Ok_0,
                    job_modify_index: spec_field::<i64>(v, "JobModifyIndex"@)->Ok_0,
                    meta: spec_field::<Option<Json>>(v, "Meta"@)->Ok_0,
                    modify_index: spec_field::<i64>(v, "ModifyIndex"@)->Ok_0,
                    multiregion: spec_field::<Option<Json>>(v, "Multiregion"@)->Ok_0,
                    name: spec_field::<String>(v, "Name"@)->Ok_0,
                    namespace: spec_field::<Option<String>>(v, "Namespace"@)->Ok_0,
                    nomad_token_id: spec_field::<Option<String>>(v, "NomadTokenID"@)->Ok_0,
                    parameterized_job: spec_field::<Option<Json>>(v, "ParameterizedJob"@)->Ok_0,
                    parent_id: spec_field::<Option<String>>(v, "ParentID"@)->Ok_0,
                    payload: spec_field::<Option<Json>>(v, "Payload"@)->Ok_0,
                    periodic: spec_field::<Option<Json>>(v, "Periodic"@)->Ok_0,
                    priority: spec_field::<i64>(v, "Priority"@)->Ok_0,
                    region: spec_field::<Option<String>>(v, "Region"@)->Ok_0,
                    spreads: spec_field::<Option<Json>>(v, "Spreads"@)->Ok_0,
                    stable: spec_field::<Option<bool>>(v, "Stable"@)->Ok_0,
                    status: spec_field::<RunningStatus>(v, "Status"@)->Ok_0,
                    status_description: spec_field::<Option<String>>(v, "StatusDescription"@)->Ok_0,
                    stop: spec_field::<bool>(v, "Stop"@)->Ok_0,
                    submit_time: spec_field::<Option<i64>>(v, "SubmitTime"@)->Ok_0,
                    task_groups: spec_field::<Option<Vec<TaskGroup>>>(v, "TaskGroups"@)->Ok_0,
                    type_field: spec_field::<String>(v, "Type"@)->Ok_0,
                    update: spec_field::<Option<Update>>(v, "Update"@)->Ok_0,
                    vault_namespace: spec_field::<Option<String>>(v, "VaultNamespace"@)->Ok_0,
                    vault_token: spec_field::<Option<String>>(v, "VaultToken"@)->Ok_0,
                    version: spec_field::<Option<i64>>(v, "Version"@)->Ok_0,
                },
            )
        }
    }

    open spec fn spec_absent() -> Result<JobView, DecodeError> {
        Err(DecodeError::MissingField)
    }

    open spec fn spec_encode(x: JobView) -> JsonView {
        JsonView::Object(
            Seq::empty()
                .push(("Affinities"@, <Option<Json>>::spec_encode(x.affinities)))
                .push(("AllAtOnce"@, <Option<bool>>::spec_encode(x.all_at_once)))
                .push(("Constraints"@, <Option<Json>>::spec_encode(x.constraints)))
                .push(("ConsulNamespace"@, <Option<String>>::spec_encode(x.consul_namespace)))
                .push(("ConsulToken"@, <Option<String>>::spec_encode(x.consul_token)))
                .push(("CreateIndex"@, i64::spec_encode(x.create_index)))
                .push(("Datacenters"@, <Option<Vec<String>>>::spec_encode(x.datacenters)))
                .push(("Dispatched"@, <Option<bool>>::spec_encode(x.dispatched)))
                .push(("ID"@, String::spec_encode(x.id)))
                .push(("JobModifyIndex"@, i64::spec_encode(x.job_modify_index)))
                .push(("Meta"@, <Option<Json>>::spec_encode(x.meta)))
                .push(("ModifyIndex"@, i64::spec_encode(x.modify_index)))
                .push(("Multiregion"@, <Option<Json>>::spec_encode(x.multiregion)))
                .push(("Name"@, String::spec_encode(x.name)))
                .push(("Namespace"@, <Option<String>>::spec_encode(x.namespace)))
                .push(("NomadTokenID"@, <Option<String>>::spec_encode(x.nomad_token_id)))
                .push(("ParameterizedJob"@, <Option<Json>>::spec_encode(x.parameterized_job)))
                .push(("ParentID"@, <Option<String>>::spec_encode(x.parent_id)))
                .push(("Payload"@, <Option<Json>>::spec_encode(x.payload)))
                .push(("Periodic"@, <Option<Json>>::spec_encode(x.periodic)))
                .push(("Priority"@, i64::spec_encode(x.priority)))
                .push(("Region"@, <Option<String>>::spec_encode(x.region)))
                .push(("Spreads"@, <Option<Json>>::spec_encode(x.spreads)))
                .push(("Stable"@, <Option<bool>>::spec_encode(x.stable)))
                .push(("Status"@, RunningStatus::spec_encode(x.status)))
                .push(("StatusDescription"@, <Option<String>>::spec_encode(x.status_description)))
                .push(("Stop"@, bool::spec_encode(x.stop)))
                .push(("SubmitTime"@, <Option<i64>>::spec_encode(x.submit_time)))
                .push(("TaskGroups"@, <Option<Vec<TaskGroup>>>::spec_encode(x.task_groups)))
                .push(("Type"@, String::spec_encode(x.type_field)))
                .push(("Update"@, <Option<Update>>::spec_encode(x.update)))
                .push(("VaultNamespace"@, <Option<String>>::spec_encode(x.vault_namespace)))
                .push(("VaultToken"@, <Option<String>>::spec_encode(x.vault_token)))
                .push(("Version"@, <Option<i64>>::spec_encode(x.version))),
        )
    }

    fn decode(v: &Json) -> (r: Result<Job, DecodeError>) {
        let affinities = field::<Option<Json>>(v, "Affinities")?;
        let all_at_once = field::<Option<bool>>(v, "AllAtOnce")?;
        let constraints = field::<Option<Json>>(v, "Constraints")?;
        let consul_namespace = field::<Option<String>>(v, "ConsulNamespace")?;
        let consul_token = field::<Option<String>>(v, "ConsulToken")?;
        let create_index = field::<i64>(v, "CreateIndex")?;
        let datacenters = field::<Option<Vec<String>>>(v, "Datacenters")?;
        let dispatched = field::<Option<bool>>(v, "Dispatched")?;
        let id = field::<String>(v, "ID")?;
        let job_modify_index = field::<i64>(v, "JobModifyIndex")?;
        let meta = field::<Option<Json>>(v, "Meta")?;
        let modify_index = field::<i64>(v, "ModifyIndex")?;
        let multiregion = field::<Option<Json>>(v, "Multiregion")?;
        let name = field::<String>(v, "Name")?;
        let namespace = field::<Option<String>>(v, "Namespace")?;
        let nomad_token_id = field::<Option<String>>(v, "NomadTokenID")?;
        let parameterized_job = field::<Option<Json>>(v, "ParameterizedJob")?;
        let parent_id = field::<Option<String>>(v, "ParentID")?;
        let payload = field::<Option<Json>>(v, "Payload")?;
        let periodic = field::<Option<Json>>(v, "Periodic")?;
        let priority = field::<i64>(v, "Priority")?;
        let region = field::<Option<String>>(v, "Region")?;
        let spreads = field::<Option<Json>>(v, "Spreads")?;
        let stable = field::<Option<bool>>(v, "Stable")?;
        let status = field::<RunningStatus>(v, "Status")?;
        let status_description = field::<Option<String>>(v, "StatusDescription")?;
        let stop = field::<bool>(v, "Stop")?;
        let submit_time = field::<Option<i64>>(v, "SubmitTime")?;
        let task_groups = field::<Option<Vec<TaskGroup>>>(v, "TaskGroups")?;
        let type_field = field::<String>(v, "Type")?;
        let update = field::<Option<Update>>(v, "Update")?;
        let vault_namespace = field::<Option<String>>(v, "VaultNamespace")?;
        let vault_token = field::<Option<String>>(v, "VaultToken")?;
        let version = field::<Option<i64>>(v, "Version")?;
        Ok(Job {
            affinities,
            all_at_once,
            constraints,
            consul_namespace,
            consul_token,
            create_index,
            datacenters,
            dispatched,
            id,
            job_modify_index,
            meta,
            modify_index,
            multiregion,
            name,
            namespace,
            nomad_token_id,
            parameterized_job,
            parent_id,
            payload,
            periodic,
            priority,
            region,
            spreads,
            stable,
            status,
            status_description,
            stop,
            submit_time,
            task_groups,
            type_field,
            update,
            vault_namespace,
            vault_token,
            version,
        })
    }

    fn absent() -> (r: Result<Job, DecodeError>) {
        Err(DecodeError::MissingField)
    }

    fn encode(&self) -> (r: Json) {
        let mut members: Vec<(String, Json)> = Vec::new();
        proof {
            assert(members_view(members@) =~= Seq::empty());
        }
        put(&mut members, "Affinities", self.affinities.encode());
        put(&mut members, "AllAtOnce", self.all_at_once.encode());
        put(&mut members, "Constraints", self.constraints.encode());
        put(&mut members, "ConsulNamespace", self.consul_namespace.encode());
        put(&mut members, "ConsulToken", self.consul_token.encode());
        put(&mut members, "CreateIndex", self.create_index.encode());
        put(&mut members, "Datacenters", self.datacenters.encode());
        put(&mut members, "Dispatched", self.dispatched.encode());
        put(&mut members, "ID", self.id.encode());
        put(&mut members, "JobModifyIndex", self.job_modify_index.encode());
        put(&mut members, "Meta", self.meta.encode());
        put(&mut members, "ModifyIndex", self.modify_index.encode());
        put(&mut members, "Multiregion", self.multiregion.encode());
        put(&mut members, "Name", self.name.encode());
        put(&mut members, "Namespace", self.namespace.encode());
        put(&mut members, "NomadTokenID", self.nomad_token_id.encode());
        put(&mut members, "ParameterizedJob", self.parameterized_job.encode());
        put(&mut members, "ParentID", self.parent_id.encode());
        put(&mut members, "Payload", self.payload.encode());
        put(&mut members, "Periodic", self.periodic.encode());
        put(&mut members, "Priority", self.priority.encode());
        put(&mut members, "Region", self.region.encode());
        put(&mut members, "Spreads", self.spreads.encode());
        put(&mut members, "Stable", self.stable.encode());
        put(&mut members, "Status", self.status.encode());
        put(&mut members, "StatusDescription", self.status_description.encode());
        put(&mut members, "Stop", self.stop.encode());
        put(&mut members, "SubmitTime", self.submit_time.encode());
        put(&mut members, "TaskGroups", self.task_groups.encode());
        put(&mut members, "Type", self.type_field.encode());
        put(&mut members, "Update", self.update.encode());
        put(&mut members, "VaultNamespace", self.vault_namespace.encode());
        put(&mut members, "VaultToken", self.vault_token.encode());
        put(&mut members, "Version", self.version.encode());
        Json::Object(members)
    }

    proof fn lemma_round_trip(v: JsonView) {
        let x = Self::spec_decode(v)->Ok_0;
        let w = Self::spec_encode(x);
        lemma_job_members(x);
        lemma_field_round_trip::<Option<Json>>(v, "Affinities"@);
        lemma_field_round_trip::<Option<bool>>(v, "AllAtOnce"@);
        lemma_field_round_trip::<Option<Json>>(v, "Constraints"@);
        lemma_field_round_trip::<Option<String>>(v, "ConsulNamespace"@);
        lemma_field_round_trip::<Option<String>>(v, "ConsulToken"@);
        lemma_field_round_trip::<i64>(v, "CreateIndex"@);
        lemma_field_round_trip::<Option<Vec<String>>>(v, "Datacenters"@);
        lemma_field_round_trip::<Option<bool>>(v, "Dispatched"@);
        lemma_field_round_trip::<String>(v, "ID"@);
        lemma_field_round_trip::<i64>(v, "JobModifyIndex"@);
        lemma_field_round_trip::<Option<Json>>(v, "Meta"@);
        lemma_field_round_trip::<i64>(v, "ModifyIndex"@);
        lemma_field_round_trip::<Option<Json>>(v, "Multiregion"@);
        lemma_field_round_trip::<String>(v, "Name"@);
        lemma_field_round_trip::<Option<String>>(v, "Namespace"@);
        lemma_field_round_trip::<Option<String>>(v, "NomadTokenID"@);
        lemma_field_round_trip::<Option<Json>>(v, "ParameterizedJob"@);
        lemma_field_round_trip::<Option<String>>(v, "ParentID"@);
        lemma_field_round_trip::<Option<Json>>(v, "Payload"@);
        lemma_field_round_trip::<Option<Json>>(v, "Periodic"@);
        lemma_field_round_trip::<i64>(v, "Priority"@);
        lemma_field_round_trip::<Option<String>>(v, "Region"@);
        lemma_field_round_trip::<Option<Json>>(v, "Spreads"@);
        lemma_field_round_trip::<Option<bool>>(v, "Stable"@);
        lemma_field_round_trip::<RunningStatus>(v, "Status"@);
        lemma_field_round_trip::<Option<String>>(v, "StatusDescription"@);
        lemma_field_round_trip::<bool>(v, "Stop"@);
        lemma_field_round_trip::<Option<i64>>(v, "SubmitTime"@);
        lemma_field_round_trip::<Option<Vec<TaskGroup>>>(v, "TaskGroups"@);
        lemma_field_round_trip::<String>(v, "Type"@);
        lemma_field_round_trip::<Option<Update>>(v, "Update"@);
        lemma_field_round_trip::<Option<String>>(v, "VaultNamespace"@);
        lemma_field_round_trip::<Option<String>>(v, "VaultToken"@);
        lemma_field_round_trip::<Option<i64>>(v, "Version"@);
        assert(spec_field::<Option<Json>>(w, "Affinities"@)
            == spec_field::<Option<Json>>(v, "Affinities"@));
        assert(spec_field::<Option<bool>>(w, "AllAtOnce"@)
            == spec_field::<Option<bool>>(v, "AllAtOnce"@));
        assert(spec_field::<Option<Json>>(w, "Constraints"@)
            == spec_field::<Option<Json>>(v, "Constraints"@));
        assert(spec_field::<Option<String>>(w, "ConsulNamespace"@)
            == spec_field::<Option<String>>(v, "ConsulNamespace"@));
        assert(spec_field::<Option<String>>(w, "ConsulToken"@)
            == spec_field::<Option<String>>(v, "ConsulToken"@));
        assert(spec_field::<i64>(w, "CreateIndex"@) == spec_field::<i64>(v, "CreateIndex"@));
        assert(spec_field::<Option<Vec<String>>>(w, "Datacenters"@)
            == spec_field::<Option<Vec<String>>>(v, "Datacenters"@));
        assert(spec_field::<Option<bool>>(w, "Dispatched"@)
            == spec_field::<Option<bool>>(v, "Dispatched"@));
        assert(spec_field::<String>(w, "ID"@) == spec_field::<String>(v, "ID"@));
        assert(spec_field::<i64>(w, "JobModifyIndex"@) == spec_field::<i64>(v, "JobModifyIndex"@));
        assert(spec_field::<Option<Json>>(w, "Meta"@) == spec_field::<Option<Json>>(v, "Meta"@));
        assert(spec_field::<i64>(w, "ModifyIndex"@) == spec_field::<i64>(v, "ModifyIndex"@));
        assert(spec_field::<Option<Json>>(w, "Multiregion"@)
            == spec_field::<Option<Json>>(v, "Multiregion"@));
        assert(spec_field::<String>(w, "Name"@) == spec_field::<String>(v, "Name"@));
        assert(spec_field::<Option<String>>(w, "Namespace"@)
            == spec_field::<Option<String>>(v, "Namespace"@));
        assert(spec_field::<Option<String>>(w, "NomadTokenID"@)
            == spec_field::<Option<String>>(v, "NomadTokenID"@));
        assert(spec_field::<Option<Json>>(w, "ParameterizedJob"@)
            == spec_field::<Option<Json>>(v, "ParameterizedJob"@));
        assert(spec_field::<Option<String>>(w, "ParentID"@)
            == spec_field::<Option<String>>(v, "ParentID"@));
        assert(spec_field::<Option<Json>>(w, "Payload"@)
            == spec_field::<Option<Json>>(v, "Payload"@));
        assert(spec_field::<Option<Json>>(w, "Periodic"@)
            == spec_field::<Option<Json>>(v, "Periodic"@));
        assert(spec_field::<i64>(w, "Priority"@) == spec_field::<i64>(v, "Priority"@));
        assert(spec_field::<Option<String>>(w, "Region"@)
            == spec_field::<Option<String>>(v, "Region"@));
        assert(spec_field::<Option<Json>>(w, "Spreads"@)
            == spec_field::<Option<Json>>(v, "Spreads"@));
        assert(spec_field::<Option<bool>>(w, "Stable"@)
            == spec_field::<Option<bool>>(v, "Stable"@));
        assert(spec_field::<RunningStatus>(w, "Status"@)
            == spec_field::<RunningStatus>(v, "Status"@));
        assert(spec_field::<Option<String>>(w, "StatusDescription"@)
            == spec_field::<Option<String>>(v, "StatusDescription"@));
        assert(spec_field::<bool>(w, "Stop"@) == spec_field::<bool>(v, "Stop"@));
        assert(spec_field::<Option<i64>>(w, "SubmitTime"@)
            == spec_field::<Option<i64>>(v, "SubmitTime"@));
        assert(spec_field::<Option<Vec<TaskGroup>>>(w, "TaskGroups"@)
            == spec_field::<Option<Vec<TaskGroup>>>(v, "TaskGroups"@));
        assert(spec_field::<String>(w, "Type"@) == spec_field::<String>(v, "Type"@));
        assert(spec_field::<Option<Update>>(w, "Update"@)
            == spec_field::<Option<Update>>(v, "Update"@));
        assert(spec_field::<Option<String>>(w, "VaultNamespace"@)
            == spec_field::<Option<String>>(v, "VaultNamespace"@));
        assert(spec_field::<Option<String>>(w, "VaultToken"@)
            == spec_field::<Option<String>>(v, "VaultToken"@));
        assert(spec_field::<Option<i64>>(w, "Version"@)
            == spec_field::<Option<i64>>(v, "Version"@));
    }

    proof fn lemma_absent_round_trip() {
    }

    proof fn lemma_writable(v: JsonView) {
        lemma_field_writable::<Option<Json>>(v, "Affinities"@);
        lemma_field_writable::<Option<bool>>(v, "AllAtOnce"@);
        lemma_field_writable::<Option<Json>>(v, "Constraints"@);
        lemma_field_writable::<Option<String>>(v, "ConsulNamespace"@);
        lemma_field_writable::<Option<String>>(v, "ConsulToken"@);
        lemma_field_writable::<i64>(v, "CreateIndex"@);
        lemma_field_writable::<Option<Vec<String>>>(v, "Datacenters"@);
        lemma_field_writable::<Option<bool>>(v, "Dispatched"@);
        lemma_field_writable::<String>(v, "ID"@);
        lemma_field_writable::<i64>(v, "JobModifyIndex"@);
        lemma_field_writable::<Option<Json>>(v, "Meta"@);
        lemma_field_writable::<i64>(v, "ModifyIndex"@);
        lemma_field_writable::<Option<Json>>(v, "Multiregion"@);
        lemma_field_writable::<String>(v, "Name"@);
        lemma_field_writable::<Option<String>>(v, "Namespace"@);
        lemma_field_writable::<Option<String>>(v, "NomadTokenID"@);
        lemma_field_writable::<Option<Json>>(v, "ParameterizedJob"@);
        lemma_field_writable::<Option<String>>(v, "ParentID"@);
        lemma_field_writable::<Option<Json>>(v, "Payload"@);
        lemma_field_writable::<Option<Json>>(v, "Periodic"@);
        lemma_field_writable::<i64>(v, "Priority"@);
        lemma_field_writable::<Option<String>>(v, "Region"@);
        lemma_field_writable::<Option<Json>>(v, "Spreads"@);
        lemma_field_writable::<Option<bool>>(v, "Stable"@);
        lemma_field_writable::<RunningStatus>(v, "Status"@);
        lemma_field_writable::<Option<String>>(v, "StatusDescription"@);
        lemma_field_writable::<bool>(v, "Stop"@);
        lemma_field_writable::<Option<i64>>(v, "SubmitTime"@);
        lemma_field_writable::<Option<Vec<TaskGroup>>>(v, "TaskGroups"@);
        lemma_field_writable::<String>(v, "Type"@);
        lemma_field_writable::<Option<Update>>(v, "Update"@);
        lemma_field_writable::<Option<String>>(v, "VaultNamespace"@);
        lemma_field_writable::<Option<String>>(v, "VaultToken"@);
        lemma_field_writable::<Option<i64>>(v, "Version"@);
        lemma_job_written(Self::spec_decode(v)->Ok_0);
    }
}

/// Whatever word stands as the status of a job, it is read: where an object
/// is read as a job, it still is with any word written over its status, and
/// the word decides nothing but the status.
pub proof fn lemma_job_any_status(m: Members, word: Seq<char>)
    requires
        Job::spec_decode(JsonView::Object(m)) is Ok,
    ensures
        Job::spec_decode(JsonView::Object(m.push(("Status"@, JsonView::Str(word))))) == Ok::<
            JobView,
            DecodeError,
        >(
            JobView {
                status: status_of(word),
                ..Job::spec_decode(JsonView::Object(m))->Ok_0
            },
        ),
{
    broadcast use lemma_lookup_push;

    let v = JsonView::Object(m);
    let w = JsonView::Object(m.push(("Status"@, JsonView::Str(word))));
    lemma_job_names();
    assert(spec_field::<Option<Json>>(w, "Affinities"@)
        == spec_field::<Option<Json>>(v, "Affinities"@));
    assert(spec_field::<Option<bool>>(w, "AllAtOnce"@)
        == spec_field::<Option<bool>>(v, "AllAtOnce"@));
    assert(spec_field::<Option<Json>>(w, "Constraints"@)
        == spec_field::<Option<Json>>(v, "Constraints"@));
    assert(spec_field::<Option<String>>(w, "ConsulNamespace"@)
        == spec_field::<Option<String>>(v, "ConsulNamespace"@));
    assert(spec_field::<Option<String>>(w, "ConsulToken"@)
        == spec_field::<Option<String>>(v, "ConsulToken"@));
    assert(spec_field::<i64>(w, "CreateIndex"@) == spec_field::<i64>(v, "CreateIndex"@));
    assert(spec_field::<Option<Vec<String>>>(w, "Datacenters"@)
        == spec_field::<Option<Vec<String>>>(v, "Datacenters"@));
    assert(spec_field::<Option<bool>>(w, "Dispatched"@)
        == spec_field::<Option<bool>>(v, "Dispatched"@));
    assert(spec_field::<String>(w, "ID"@) == spec_field::<String>(v, "ID"@));
    assert(spec_field::<i64>(w, "JobModifyIndex"@) == spec_field::<i64>(v, "JobModifyIndex"@));
    assert(spec_field::<Option<Json>>(w, "Meta"@) == spec_field::<Option<Json>>(v, "Meta"@));
    assert(spec_field::<i64>(w, "ModifyIndex"@) == spec_field::<i64>(v, "ModifyIndex"@));
    assert(spec_field::<Option<Json>>(w, "Multiregion"@)
        == spec_field::<Option<Json>>(v, "Multiregion"@));
    assert(spec_field::<String>(w, "Name"@) == spec_field::<String>(v, "Name"@));
    assert(spec_field::<Option<String>>(w, "Namespace"@)
        == spec_field::<Option<String>>(v, "Namespace"@));
    assert(spec_field::<Option<String>>(w, "NomadTokenID"@)
        == spec_field::<Option<String>>(v, "NomadTokenID"@));
    assert(spec_field::<Option<Json>>(w, "ParameterizedJob"@)
        == spec_field::<Option<Json>>(v, "ParameterizedJob"@));
    assert(spec_field::<Option<String>>(w, "ParentID"@)
        == spec_field::<Option<String>>(v, "ParentID"@));
    assert(spec_field::<Option<Json>>(w, "Payload"@) == spec_field::<Option<Json>>(v, "Payload"@));
    assert(spec_field::<Option<Json>>(w, "Periodic"@)
        == spec_field::<Option<Json>>(v, "Periodic"@));
    assert(spec_field::<i64>(w, "Priority"@) == spec_field::<i64>(v, "Priority"@));
    assert(spec_field::<Option<String>>(w, "Region"@)
        == spec_field::<Option<String>>(v, "Region"@));
    assert(spec_field::<Option<Json>>(w, "Spreads"@) == spec_field::<Option<Json>>(v, "Spreads"@));
    assert(spec_field::<Option<bool>>(w, "Stable"@) == spec_field::<Option<bool>>(v, "Stable"@));
    assert(spec_field::<Option<String>>(w, "StatusDescription"@)
        == spec_field::<Option<String>>(v, "StatusDescription"@));
    assert(spec_field::<bool>(w, "Stop"@) == spec_field::<bool>(v, "Stop"@));
    assert(spec_field::<Option<i64>>(w, "SubmitTime"@)
        == spec_field::<Option<i64>>(v, "SubmitTime"@));
    assert(spec_field::<Option<Vec<TaskGroup>>>(w, "TaskGroups"@)
        == spec_field::<Option<Vec<TaskGroup>>>(v, "TaskGroups"@));
    assert(spec_field::<String>(w, "Type"@) == spec_field::<String>(v, "Type"@));
    assert(spec_field::<Option<Update>>(w, "Update"@)
        == spec_field::<Option<Update>>(v, "Update"@));
    assert(spec_field::<Option<String>>(w, "VaultNamespace"@)
        == spec_field::<Option<String>>(v, "VaultNamespace"@));
    assert(spec_field::<Option<String>>(w, "VaultToken"@)
        == spec_field::<Option<String>>(v, "VaultToken"@));
    assert(spec_field::<Option<i64>>(w, "Version"@) == spec_field::<Option<i64>>(v, "Version"@));
}

} // verus!
