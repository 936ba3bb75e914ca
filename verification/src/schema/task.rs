//! The wire schema of tasks and their state.

use vstd::prelude::*;
use crate::jobs::{
    Config, ConfigView, Details, DetailsView, Event, EventView, LogConfig, LogConfigView, Resources,
    RestartPolicy, RestartPolicyView, RunningStatus, Task, TaskState, TaskStateView, TaskView,
};
use crate::json::{members_view, Json, JsonView};
use crate::schema::status::status_of;
use crate::text::{lemma_writable_empty, lemma_writable_object, lemma_writable_push, writable};
use crate::wire::{
    field, lemma_field_round_trip, lemma_field_writable, lemma_lookup_empty, lemma_lookup_push,
    lookup, put, spec_field, DecodeError, Members, Wire,
};

verus! {

/// How the names of the fields of a [`Config`] are spelled: of each its length
/// and, where another is as long, a letter in which the two differ.
proof fn lemma_config_names()
    ensures
        "image"@.len() == 5 && "image"@[0] == 'i',
        "network_mode"@.len() == 12,
        "ports"@.len() == 5 && "ports"@[0] == 'p',
{
    reveal_strlit("image");
    reveal_strlit("network_mode");
    reveal_strlit("ports");
}

/// Each member of a written [`Config`] is found under its name.
proof fn lemma_config_members(x: ConfigView)
    ensures
        lookup(Config::spec_encode(x)->Object_0, "image"@) == Some(
            String::spec_encode(x.image),
        ),
        lookup(Config::spec_encode(x)->Object_0, "network_mode"@) == Some(
            <Option<String>>::spec_encode(x.network_mode),
        ),
        lookup(Config::spec_encode(x)->Object_0, "ports"@) == Some(
            <Option<Vec<String>>>::spec_encode(x.ports),
        ),
{
    broadcast use {lemma_lookup_push, lemma_lookup_empty};

    lemma_config_names();
}

/// A [`Config`] is written as a tree that can be written as text where each of
/// its fields is.
proof fn lemma_config_written(x: ConfigView)
    requires
        writable(String::spec_encode(x.image)),
        writable(<Option<String>>::spec_encode(x.network_mode)),
        writable(<Option<Vec<String>>>::spec_encode(x.ports)),
    ensures
        writable(Config::spec_encode(x)),
{
    broadcast use {
        lemma_writable_push,
        lemma_writable_empty,
        lemma_lookup_push,
        lemma_lookup_empty,
    };

    lemma_config_names();
    lemma_writable_object(Config::spec_encode(x)->Object_0);
}

impl Wire for Config {
    open spec fn spec_decode(v: JsonView) -> Result<ConfigView, DecodeError> {
        if let Err(e) = spec_field::<String>(v, "image"@) {
            Err(e)
        } else if let Err(e) = spec_field::<Option<String>>(v, "network_mode"@) {
            Err(e)
        } else if let Err(e) = spec_field::<Option<Vec<String>>>(v, "ports"@) {
            Err(e)
        } else {
            Ok(
                ConfigView {
                    image: spec_field::<String>(v, "image"@)->Ok_0,
                    network_mode: spec_field::<Option<String>>(v, "network_mode"@)->Ok_0,
                    ports: spec_field::<Option<Vec<String>>>(v, "ports"@)->Ok_0,
                },
            )
        }
    }

    open spec fn spec_absent() -> Result<ConfigView, DecodeError> {
        Err(DecodeError::MissingField)
    }

    open spec fn spec_encode(x: ConfigView) -> JsonView {
        JsonView::Object(
            Seq::empty()
                .push(("image"@, String::spec_encode(x.image)))
                .push(("network_mode"@, <Option<String>>::spec_encode(x.network_mode)))
                .push(("ports"@, <Option<Vec<String>>>::spec_encode(x.ports))),
        )
    }

    fn decode(v: &Json) -> (r: Result<Config, DecodeError>) {
        let image = field::<String>(v, "image")?;
        let network_mode = field::<Option<String>>(v, "network_mode")?;
        let ports = field::<Option<Vec<String>>>(v, "ports")?;
        Ok(Config { image, network_mode, ports })
    }

    fn absent() -> (r: Result<Config, DecodeError>) {
        Err(DecodeError::MissingField)
    }

    fn encode(&self) -> (r: Json) {
        let mut members: Vec<(String, Json)> = Vec::new();
        proof {
            assert(members_view(members@) =~= Seq::empty());
        }
        put(&mut members, "image", self.image.encode());
        put(&mut members, "network_mode", self.network_mode.encode());
        put(&mut members, "ports", self.ports.encode());
        Json::Object(members)
    }

    proof fn lemma_round_trip(v: JsonView) {
        let x = Self::spec_decode(v)->Ok_0;
        let w = Self::spec_encode(x);
        lemma_config_members(x);
        lemma_field_round_trip::<String>(v, "image"@);
        lemma_field_round_trip::<Option<String>>(v, "network_mode"@);
        lemma_field_round_trip::<Option<Vec<String>>>(v, "ports"@);
        assert(spec_field::<String>(w, "image"@) == spec_field::<String>(v, "image"@));
        assert(spec_field::<Option<String>>(w, "network_mode"@)
            == spec_field::<Option<String>>(v, "network_mode"@));
        assert(spec_field::<Option<Vec<String>>>(w, "ports"@)
            == spec_field::<Option<Vec<String>>>(v, "ports"@));
    }

    proof fn lemma_absent_round_trip() {
    }

    proof fn lemma_writable(v: JsonView) {
        lemma_field_writable::<String>(v, "image"@);
        lemma_field_writable::<Option<String>>(v, "network_mode"@);
        lemma_field_writable::<Option<Vec<String>>>(v, "ports"@);
        lemma_config_written(Self::spec_decode(v)->Ok_0);
    }
}

/// How the names of the fields of a [`LogConfig`] are spelled: of each its length
/// and, where another is as long, a letter in which the two differ.
proof fn lemma_log_config_names()
    ensures
        "MaxFileSizeMB"@.len() == 13,
        "MaxFiles"@.len() == 8,
{
    reveal_strlit("MaxFileSizeMB");
    reveal_strlit("MaxFiles");
}

/// Each member of a written [`LogConfig`] is found under its name.
proof fn lemma_log_config_members(x: LogConfigView)
    ensures
        lookup(LogConfig::spec_encode(x)->Object_0, "MaxFileSizeMB"@) == Some(
            i64::spec_encode(x.max_file_size_mb),
        ),
        lookup(LogConfig::spec_encode(x)->Object_0, "MaxFiles"@) == Some(
            i64::spec_encode(x.max_files),
        ),
{
    broadcast use {lemma_lookup_push, lemma_lookup_empty};

    lemma_log_config_names();
}

/// A [`LogConfig`] is written as a tree that can be written as text where each of
/// its fields is.
proof fn lemma_log_config_written(x: LogConfigView)
    requires
        writable(i64::spec_encode(x.max_file_size_mb)),
        writable(i64::spec_encode(x.max_files)),
    ensures
        writable(LogConfig::spec_encode(x)),
{
    broadcast use {
        lemma_writable_push,
        lemma_writable_empty,
        lemma_lookup_push,
        lemma_lookup_empty,
    };

    lemma_log_config_names();
    lemma_writable_object(LogConfig::spec_encode(x)->Object_0);
}

impl Wire for LogConfig {
    open spec fn spec_decode(v: JsonView) -> Result<LogConfigView, DecodeError> {
        if let Err(e) = spec_field::<i64>(v, "MaxFileSizeMB"@) {
            Err(e)
        } else if let Err(e) = spec_field::<i64>(v, "MaxFiles"@) {
            Err(e)
        } else {
            Ok(
                LogConfigView {
                    max_file_size_mb: spec_field::<i64>(v, "MaxFileSizeMB"@)->Ok_0,
                    max_files: spec_field::<i64>(v, "MaxFiles"@)->Ok_0,
                },
            )
        }
    }

    open spec fn spec_absent() -> Result<LogConfigView, DecodeError> {
        Err(DecodeError::MissingField)
    }

    open spec fn spec_encode(x: LogConfigView) -> JsonView {
        JsonView::Object(
            Seq::empty()
                .push(("MaxFileSizeMB"@, i64::spec_encode(x.max_file_size_mb)))
                .push(("MaxFiles"@, i64::spec_encode(x.max_files))),
        )
    }

    fn decode(v: &Json) -> (r: Result<LogConfig, DecodeError>) {
        let max_file_size_mb = field::<i64>(v, "MaxFileSizeMB")?;
        let max_files = field::<i64>(v, "MaxFiles")?;
        Ok(LogConfig { max_file_size_mb, max_files })
    }

    fn absent() -> (r: Result<LogConfig, DecodeError>) {
        Err(DecodeError::MissingField)
    }

    fn encode(&self) -> (r: Json) {
        let mut members: Vec<(String, Json)> = Vec::new();
        proof {
            assert(members_view(members@) =~= Seq::empty());
        }
        put(&mut members, "MaxFileSizeMB", self.max_file_size_mb.encode());
        put(&mut members, "MaxFiles", self.max_files.encode());
        Json::Object(members)
    }

    proof fn lemma_round_trip(v: JsonView) {
        let x = Self::spec_decode(v)->Ok_0;
        let w = Self::spec_encode(x);
        lemma_log_config_members(x);
        lemma_field_round_trip::<i64>(v, "MaxFileSizeMB"@);
        lemma_field_round_trip::<i64>(v, "MaxFiles"@);
        assert(spec_field::<i64>(w, "MaxFileSizeMB"@) == spec_field::<i64>(v, "MaxFileSizeMB"@));
        assert(spec_field::<i64>(w, "MaxFiles"@) == spec_field::<i64>(v, "MaxFiles"@));
    }

    proof fn lemma_absent_round_trip() {
    }

    proof fn lemma_writable(v: JsonView) {
        lemma_field_writable::<i64>(v, "MaxFileSizeMB"@);
        lemma_field_writable::<i64>(v, "MaxFiles"@);
        lemma_log_config_written(Self::spec_decode(v)->Ok_0);
    }
}

/// How the names of the fields of a [`RestartPolicy`] are spelled: of each its length
/// and, where another is as long, a letter in which the two differ.
proof fn lemma_restart_policy_names()
    ensures
        "Attempts"@.len() == 8 && "Attempts"@[0] == 'A',
        "Delay"@.len() == 5,
        "Interval"@.len() == 8 && "Interval"@[0] == 'I',
        "Mode"@.len() == 4,
{
    reveal_strlit("Attempts");
    reveal_strlit("Delay");
    reveal_strlit("Interval");
    reveal_strlit("Mode");
}

/// Each member of a written [`RestartPolicy`] is found under its name.
proof fn lemma_restart_policy_members(x: RestartPolicyView)
    ensures
        lookup(RestartPolicy::spec_encode(x)->Object_0, "Attempts"@) == Some(
            i64::spec_encode(x.attempts),
        ),
        lookup(RestartPolicy::spec_encode(x)->Object_0, "Delay"@) == Some(
            i64::spec_encode(x.delay),
        ),
        lookup(RestartPolicy::spec_encode(x)->Object_0, "Interval"@) == Some(
            i64::spec_encode(x.interval),
        ),
        lookup(RestartPolicy::spec_encode(x)->Object_0, "Mode"@) == Some(
            String::spec_encode(x.mode),
        ),
{
    broadcast use {lemma_lookup_push, lemma_lookup_empty};

    lemma_restart_policy_names();
}

/// A [`RestartPolicy`] is written as a tree that can be written as text where each of
/// its fields is.
proof fn lemma_restart_policy_written(x: RestartPolicyView)
    requires
        writable(i64::spec_encode(x.attempts)),
        writable(i64::spec_encode(x.delay)),
        writable(i64::spec_encode(x.interval)),
        writable(String::spec_encode(x.mode)),
    ensures
        writable(RestartPolicy::spec_encode(x)),
{
    broadcast use {
        lemma_writable_push,
        lemma_writable_empty,
        lemma_lookup_push,
        lemma_lookup_empty,
    };

    lemma_restart_policy_names();
    lemma_writable_object(RestartPolicy::spec_encode(x)->Object_0);
}

impl Wire for RestartPolicy {
    open spec fn spec_decode(v: JsonView) -> Result<RestartPolicyView, DecodeError> {
        if let Err(e) = spec_field::<i64>(v, "Attempts"@) {
            Err(e)
        } else if let Err(e) = spec_field::<i64>(v, "Delay"@) {
            Err(e)
        } else if let Err(e) = spec_field::<i64>(v, "Interval"@) {
            Err(e)
        } else if let Err(e) = spec_field::<String>(v, "Mode"@) {
            Err(e)
        } else {
            Ok(
                RestartPolicyView {
                    attempts: spec_field::<i64>(v, "Attempts"@)->Ok_0,
                    delay: spec_field::<i64>(v, "Delay"@)->Ok_0,
                    interval: spec_field::<i64>(v, "Interval"@)->Ok_0,
                    mode: spec_field::<String>(v, "Mode"@)->Ok_0,
                },
            )
        }
    }

    open spec fn spec_absent() -> Result<RestartPolicyView, DecodeError> {
        Err(DecodeError::MissingField)
    }

    open spec fn spec_encode(x: RestartPolicyView) -> JsonView {
        JsonView::Object(
            Seq::empty()
                .push(("Attempts"@, i64::spec_encode(x.attempts)))
                .push(("Delay"@, i64::spec_encode(x.delay)))
                .push(("Interval"@, i64::spec_encode(x.interval)))
                .push(("Mode"@, String::spec_encode(x.mode))),
        )
    }

    fn decode(v: &Json) -> (r: Result<RestartPolicy, DecodeError>) {
        let attempts = field::<i64>(v, "Attempts")?;
        let delay = field::<i64>(v, "Delay")?;
        let interval = field::<i64>(v, "Interval")?;
        let mode = field::<String>(v, "Mode")?;
        Ok(RestartPolicy { attempts, delay, interval, mode })
    }

    fn absent() -> (r: Result<RestartPolicy, DecodeError>) {
        Err(DecodeError::MissingField)
    }

    fn encode(&self) -> (r: Json) {
        let mut members: Vec<(String, Json)> = Vec::new();
        proof {
            assert(members_view(members@) =~= Seq::empty());
        }
        put(&mut members, "Attempts", self.attempts.encode());
        put(&mut members, "Delay", self.delay.encode());
        put(&mut members, "Interval", self.interval.encode());
        put(&mut members, "Mode", self.mode.encode());
        Json::Object(members)
    }

    proof fn lemma_round_trip(v: JsonView) {
        let x = Self::spec_decode(v)->Ok_0;
        let w = Self::spec_encode(x);
        lemma_restart_policy_members(x);
        lemma_field_round_trip::<i64>(v, "Attempts"@);
        lemma_field_round_trip::<i64>(v, "Delay"@);
        lemma_field_round_trip::<i64>(v, "Interval"@);
        lemma_field_round_trip::<String>(v, "Mode"@);
        assert(spec_field::<i64>(w, "Attempts"@) == spec_field::<i64>(v, "Attempts"@));
        assert(spec_field::<i64>(w, "Delay"@) == spec_field::<i64>(v, "Delay"@));
        assert(spec_field::<i64>(w, "Interval"@) == spec_field::<i64>(v, "Interval"@));
        assert(spec_field::<String>(w, "Mode"@) == spec_field::<String>(v, "Mode"@));
    }

    proof fn lemma_absent_round_trip() {
    }

    proof fn lemma_writable(v: JsonView) {
        lemma_field_writable::<i64>(v, "Attempts"@);
        lemma_field_writable::<i64>(v, "Delay"@);
        lemma_field_writable::<i64>(v, "Interval"@);
        lemma_field_writable::<String>(v, "Mode"@);
        lemma_restart_policy_written(Self::spec_decode(v)->Ok_0);
    }
}

/// How the names of the fields of a [`Task`] are spelled: of each its length
/// and, where another is as long, a letter in which the two differ.
proof fn lemma_task_names()
    ensures
        "Affinities"@.len() == 10 && "Affinities"@[0] == 'A',
        "Artifacts"@.len() == 9 && "Artifacts"@[0] == 'A',
        "CSIPluginConfig"@.len() == 15 && "CSIPluginConfig"@[0] == 'C',
        "Config"@.len() == 6 && "Config"@[0] == 'C',
        "Constraints"@.len() == 11 && "Constraints"@[0] == 'C',
        "DispatchPayload"@.len() == 15 && "DispatchPayload"@[0] == 'D',
        "Driver"@.len() == 6 && "Driver"@[0] == 'D',
        "Env"@.len() == 3,
        "KillSignal"@.len() == 10 && "KillSignal"@[0] == 'K',
        "KillTimeout"@.len() == 11 && "KillTimeout"@[0] == 'K',
        "Kind"@.len() == 4 && "Kind"@[0] == 'K',
        "Leader"@.len() == 6 && "Leader"@[0] == 'L',
        "Lifecycle"@.len() == 9 && "Lifecycle"@[0] == 'L' && "Lifecycle"@[1] == 'i',
        "LogConfig"@.len() == 9 && "LogConfig"@[0] == 'L' && "LogConfig"@[1] == 'o',
        "Meta"@.len() == 4 && "Meta"@[0] == 'M',
        "Name"@.len() == 4 && "Name"@[0] == 'N',
        "Resources"@.len() == 9 && "Resources"@[0] == 'R',
        "RestartPolicy"@.len() == 13 && "RestartPolicy"@[0] == 'R',
        "ScalingPolicies"@.len() == 15 && "ScalingPolicies"@[0] == 'S',
        "Services"@.len() == 8,
        "ShutdownDelay"@.len() == 13 && "ShutdownDelay"@[0] == 'S',
        "Templates"@.len() == 9 && "Templates"@[0] == 'T',
        "User"@.len() == 4 && "User"@[0] == 'U',
        "Vault"@.len() == 5,
        "VolumeMounts"@.len() == 12,
{
    reveal_strlit("Affinities");
    reveal_strlit("Artifacts");
    reveal_strlit("CSIPluginConfig");
    reveal_strlit("Config");
    reveal_strlit("Constraints");
    reveal_strlit("DispatchPayload");
    reveal_strlit("Driver");
    reveal_strlit("Env");
    reveal_strlit("KillSignal");
    reveal_strlit("KillTimeout");
    reveal_strlit("Kind");
    reveal_strlit("Leader");
    reveal_strlit("Lifecycle");
    reveal_strlit("LogConfig");
    reveal_strlit("Meta");
    reveal_strlit("Name");
    reveal_strlit("Resources");
    reveal_strlit("RestartPolicy");
    reveal_strlit("ScalingPolicies");
    reveal_strlit("Services");
    reveal_strlit("ShutdownDelay");
    reveal_strlit("Templates");
    reveal_strlit("User");
    reveal_strlit("Vault");
    reveal_strlit("VolumeMounts");
}

/// Each member of a written [`Task`] is found under its name.
proof fn lemma_task_members(x: TaskView)
    ensures
        lookup(Task::spec_encode(x)->Object_0, "Affinities"@) == Some(
            <Option<Json>>::spec_encode(x.affinities),
        ),
        lookup(Task::spec_encode(x)->Object_0, "Artifacts"@) == Some(
            <Option<Json>>::spec_encode(x.artifacts),
        ),
        lookup(Task::spec_encode(x)->Object_0, "CSIPluginConfig"@) == Some(
            <Option<Json>>::spec_encode(x.csiplugin_config),
        ),
        lookup(Task::spec_encode(x)->Object_0, "Config"@) == Some(
            Config::spec_encode(x.config),
        ),
        lookup(Task::spec_encode(x)->Object_0, "Constraints"@) == Some(
            <Option<Json>>::spec_encode(x.constraints),
        ),
        lookup(Task::spec_encode(x)->Object_0, "DispatchPayload"@) == Some(
            <Option<Json>>::spec_encode(x.dispatch_payload),
        ),
        lookup(Task::spec_encode(x)->Object_0, "Driver"@) == Some(
            String::spec_encode(x.driver),
        ),
        lookup(Task::spec_encode(x)->Object_0, "Env"@) == Some(
            <Option<Vec<(String, String)>>>::spec_encode(x.env),
        ),
        lookup(Task::spec_encode(x)->Object_0, "KillSignal"@) == Some(
            String::spec_encode(x.kill_signal),
        ),
        lookup(Task::spec_encode(x)->Object_0, "KillTimeout"@) == Some(
            i64::spec_encode(x.kill_timeout),
        ),
        lookup(Task::spec_encode(x)->Object_0, "Kind"@) == Some(
            String::spec_encode(x.kind),
        ),
        lookup(Task::spec_encode(x)->Object_0, "Leader"@) == Some(
            bool::spec_encode(x.leader),
        ),
        lookup(Task::spec_encode(x)->Object_0, "Lifecycle"@) == Some(
            <Option<Json>>::spec_encode(x.lifecycle),
        ),
        lookup(Task::spec_encode(x)->Object_0, "LogConfig"@) == Some(
            LogConfig::spec_encode(x.log_config),
        ),
        lookup(Task::spec_encode(x)->Object_0, "Meta"@) == Some(
            <Option<Json>>::spec_encode(x.meta),
        ),
        lookup(Task::spec_encode(x)->Object_0, "Name"@) == Some(
            String::spec_encode(x.name),
        ),
        lookup(Task::spec_encode(x)->Object_0, "Resources"@) == Some(
            Resources::spec_encode(x.resources),
        ),
        lookup(Task::spec_encode(x)->Object_0, "RestartPolicy"@) == Some(
            RestartPolicy::spec_encode(x.restart_policy),
        ),
        lookup(Task::spec_encode(x)->Object_0, "ScalingPolicies"@) == Some(
            <Option<Json>>::spec_encode(x.scaling_policies),
        ),
        lookup(Task::spec_encode(x)->Object_0, "Services"@) == Some(
            <Option<Json>>::spec_encode(x.services),
        ),
        lookup(Task::spec_encode(x)->Object_0, "ShutdownDelay"@) == Some(
            i64::spec_encode(x.shutdown_delay),
        ),
        lookup(Task::spec_encode(x)->Object_0, "Templates"@) == Some(
            <Option<Json>>::spec_encode(x.templates),
        ),
        lookup(Task::spec_encode(x)->Object_0, "User"@) == Some(
            String::spec_encode(x.user),
        ),
        lookup(Task::spec_encode(x)->Object_0, "Vault"@) == Some(
            <Option<Json>>::spec_encode(x.vault),
        ),
        lookup(Task::spec_encode(x)->Object_0, "VolumeMounts"@) == Some(
            <Option<Json>>::spec_encode(x.volume_mounts),
        ),
{
    broadcast use {lemma_lookup_push, lemma_lookup_empty};

    lemma_task_names();
}

/// A [`Task`] is written as a tree that can be written as text where each of
/// its fields is.
proof fn lemma_task_written(x: TaskView)
    requires
        writable(<Option<Json>>::spec_encode(x.affinities)),
        writable(<Option<Json>>::spec_encode(x.artifacts)),
        writable(<Option<Json>>::spec_encode(x.csiplugin_config)),
        writable(Config::spec_encode(x.config)),
        writable(<Option<Json>>::spec_encode(x.constraints)),
        writable(<Option<Json>>::spec_encode(x.dispatch_payload)),
        writable(String::spec_encode(x.driver)),
        writable(<Option<Vec<(String, String)>>>::spec_encode(x.env)),
        writable(String::spec_encode(x.kill_signal)),
        writable(i64::spec_encode(x.kill_timeout)),
        writable(String::spec_encode(x.kind)),
        writable(bool::spec_encode(x.leader)),
        writable(<Option<Json>>::spec_encode(x.lifecycle)),
        writable(LogConfig::spec_encode(x.log_config)),
        writable(<Option<Json>>::spec_encode(x.meta)),
        writable(String::spec_encode(x.name)),
        writable(Resources::spec_encode(x.resources)),
        writable(RestartPolicy::spec_encode(x.restart_policy)),
        writable(<Option<Json>>::spec_encode(x.scaling_policies)),
        writable(<Option<Json>>::spec_encode(x.services)),
        writable(i64::spec_encode(x.shutdown_delay)),
        writable(<Option<Json>>::spec_encode(x.templates)),
        writable(String::spec_encode(x.user)),
        writable(<Option<Json>>::spec_encode(x.vault)),
        writable(<Option<Json>>::spec_encode(x.volume_mounts)),
    ensures
        writable(Task::spec_encode(x)),
{
    broadcast use {
        lemma_writable_push,
        lemma_writable_empty,
        lemma_lookup_push,
        lemma_lookup_empty,
    };

    lemma_task_names();
    lemma_writable_object(Task::spec_encode(x)->Object_0);
}

impl Wire for Task {
    open spec fn spec_decode(v: JsonView) -> Result<TaskView, DecodeError> {
        if let Err(e) = spec_field::<Option<Json>>(v, "Affinities"@) {
            Err(e)
        } else if let Err(e) = spec_field::<Option<Json>>(v, "Artifacts"@) {
            Err(e)
        } else if let Err(e) = spec_field::<Option<Json>>(v, "CSIPluginConfig"@) {
            Err(e)
        } else if let Err(e) = spec_field::<Config>(v, "Config"@) {
            Err(e)
        } else if let Err(e) = spec_field::<Option<Json>>(v, "Constraints"@) {
            Err(e)
        } else if let Err(e) = spec_field::<Option<Json>>(v, "DispatchPayload"@) {
            Err(e)
        } else if let Err(e) = spec_field::<String>(v, "Driver"@) {
            Err(e)
        } else if let Err(e) = spec_field::<Option<Vec<(String, String)>>>(v, "Env"@) {
            Err(e)
        } else if let Err(e) = spec_field::<String>(v, "KillSignal"@) {
            Err(e)
        } else if let Err(e) = spec_field::<i64>(v, "KillTimeout"@) {
            Err(e)
        } else if let Err(e) = spec_field::<String>(v, "Kind"@) {
            Err(e)
        } else if let Err(e) = spec_field::<bool>(v, "Leader"@) {
            Err(e)
        } else if let Err(e) = spec_field::<Option<Json>>(v, "Lifecycle"@) {
            Err(e)
        } else if let Err(e) = spec_field::<LogConfig>(v, "LogConfig"@) {
            Err(e)
        } else if let Err(e) = spec_field::<Option<Json>>(v, "Meta"@) {
            Err(e)
        } else if let Err(e) = spec_field::<String>(v, "Name"@) {
            Err(e)
        } else if let Err(e) = spec_field::<Resources>(v, "Resources"@) {
            Err(e)
        } else if let Err(e) = spec_field::<RestartPolicy>(v, "RestartPolicy"@) {
            Err(e)
        } else if let Err(e) = spec_field::<Option<Json>>(v, "ScalingPolicies"@) {
            Err(e)
        } else if let Err(e) = spec_field::<Option<Json>>(v, "Services"@) {
            Err(e)
        } else if let Err(e) = spec_field::<i64>(v, "ShutdownDelay"@) {
            Err(e)
        } else if let Err(e) = spec_field::<Option<Json>>(v, "Templates"@) {
            Err(e)
        } else if let Err(e) = spec_field::<String>(v, "User"@) {
            Err(e)
        } else if let Err(e) = spec_field::<Option<Json>>(v, "Vault"@) {
            Err(e)
        } else if let Err(e) = spec_field::<Option<Json>>(v, "VolumeMounts"@) {
            Err(e)
        } else {
            Ok(
                TaskView {
                    affinities: spec_field::<Option<Json>>(v, "Affinities"@)->Ok_0,
                    artifacts: spec_field::<Option<Json>>(v, "Artifacts"@)->Ok_0,
                    csiplugin_config: spec_field::<Option<Json>>(v, "CSIPluginConfig"@)->Ok_0,
                    config: spec_field::<Config>(v, "Config"@)->Ok_0,
                    constraints: spec_field::<Option<Json>>(v, "Constraints"@)->Ok_0,
                    dispatch_payload: spec_field::<Option<Json>>(v, "DispatchPayload"@)->Ok_0,
                    driver: spec_field::<String>(v, "Driver"@)->Ok_0,
                    env: spec_field::<Option<Vec<(String, String)>>>(v, "Env"@)->Ok_0,
                    kill_signal: spec_field::<String>(v, "KillSignal"@)->Ok_0,
                    kill_timeout: spec_field::<i64>(v, "KillTimeout"@)->Ok_0,
                    kind: spec_field::<String>(v, "Kind"@)->Ok_0,
                    leader: spec_field::<bool>(v, "Leader"@)->Ok_0,
                    lifecycle: spec_field::<Option<Json>>(v, "Lifecycle"@)->Ok_0,
                    log_config: spec_field::<LogConfig>(v, "LogConfig"@)->Ok_0,
                    meta: spec_field::<Option<Json>>(v, "Meta"@)->Ok_0,
                    name: spec_field::<String>(v, "Name"@)->Ok_0,
                    resources: spec_field::<Resources>(v, "Resources"@)->Ok_0,
                    restart_policy: spec_field::<RestartPolicy>(v, "RestartPolicy"@)->Ok_0,
                    scaling_policies: spec_field::<Option<Json>>(v, "ScalingPolicies"@)->Ok_0,
                    services: spec_field::<Option<Json>>(v, "Services"@)->Ok_0,
                    shutdown_delay: spec_field::<i64>(v, "ShutdownDelay"@)->Ok_0,
                    templates: spec_field::<Option<Json>>(v, "Templates"@)->Ok_0,
                    user: spec_field::<String>(v, "User"@)->Ok_0,
                    vault: spec_field::<Option<Json>>(v, "Vault"@)->Ok_0,
                    volume_mounts: spec_field::<Option<Json>>(v, "VolumeMounts"@)->Ok_0,
                },
            )
        }
    }

    open spec fn spec_absent() -> Result<TaskView, DecodeError> {
        Err(DecodeError::MissingField)
    }

    open spec fn spec_encode(x: TaskView) -> JsonView {
        JsonView::Object(
            Seq::empty()
                .push(("Affinities"@, <Option<Json>>::spec_encode(x.affinities)))
                .push(("Artifacts"@, <Option<Json>>::spec_encode(x.artifacts)))
                .push(("CSIPluginConfig"@, <Option<Json>>::spec_encode(x.csiplugin_config)))
                .push(("Config"@, Config::spec_encode(x.config)))
                .push(("Constraints"@, <Option<Json>>::spec_encode(x.constraints)))
                .push(("DispatchPayload"@, <Option<Json>>::spec_encode(x.dispatch_payload)))
                .push(("Driver"@, String::spec_encode(x.driver)))
                .push(("Env"@, <Option<Vec<(String, String)>>>::spec_encode(x.env)))
                .push(("KillSignal"@, String::spec_encode(x.kill_signal)))
                .push(("KillTimeout"@, i64::spec_encode(x.kill_timeout)))
                .push(("Kind"@, String::spec_encode(x.kind)))
                .push(("Leader"@, bool::spec_encode(x.leader)))
                .push(("Lifecycle"@, <Option<Json>>::spec_encode(x.lifecycle)))
                .push(("LogConfig"@, LogConfig::spec_encode(x.log_config)))
                .push(("Meta"@, <Option<Json>>::spec_encode(x.meta)))
                .push(("Name"@, String::spec_encode(x.name)))
                .push(("Resources"@, Resources::spec_encode(x.resources)))
                .push(("RestartPolicy"@, RestartPolicy::spec_encode(x.restart_policy)))
                .push(("ScalingPolicies"@, <Option<Json>>::spec_encode(x.scaling_policies)))
                .push(("Services"@, <Option<Json>>::spec_encode(x.services)))
                .push(("ShutdownDelay"@, i64::spec_encode(x.shutdown_delay)))
                .push(("Templates"@, <Option<Json>>::spec_encode(x.templates)))
                .push(("User"@, String::spec_encode(x.user)))
                .push(("Vault"@, <Option<Json>>::spec_encode(x.vault)))
                .push(("VolumeMounts"@, <Option<Json>>::spec_encode(x.volume_mounts))),
        )
    }

    fn decode(v: &Json) -> (r: Result<Task, DecodeError>) {
        let affinities = field::<Option<Json>>(v, "Affinities")?;
        let artifacts = field::<Option<Json>>(v, "Artifacts")?;
        let csiplugin_config = field::<Option<Json>>(v, "CSIPluginConfig")?;
        let config = field::<Config>(v, "Config")?;
        let constraints = field::<Option<Json>>(v, "Constraints")?;
        let dispatch_payload = field::<Option<Json>>(v, "DispatchPayload")?;
        let driver = field::<String>(v, "Driver")?;
        let env = field::<Option<Vec<(String, String)>>>(v, "Env")?;
        let kill_signal = field::<String>(v, "KillSignal")?;
        let kill_timeout = field::<i64>(v, "KillTimeout")?;
        let kind = field::<String>(v, "Kind")?;
        let leader = field::<bool>(v, "Leader")?;
        let lifecycle = field::<Option<Json>>(v, "Lifecycle")?;
        let log_config = field::<LogConfig>(v, "LogConfig")?;
        let meta = field::<Option<Json>>(v, "Meta")?;
        let name = field::<String>(v, "Name")?;
        let resources = field::<Resources>(v, "Resources")?;
        let restart_policy = field::<RestartPolicy>(v, "RestartPolicy")?;
        let scaling_policies = field::<Option<Json>>(v, "ScalingPolicies")?;
        let services = field::<Option<Json>>(v, "Services")?;
        let shutdown_delay = field::<i64>(v, "ShutdownDelay")?;
        let templates = field::<Option<Json>>(v, "Templates")?;
        let user = field::<String>(v, "User")?;
        let vault = field::<Option<Json>>(v, "Vault")?;
        let volume_mounts = field::<Option<Json>>(v, "VolumeMounts")?;
        Ok(Task {
            affinities,
            artifacts,
            csiplugin_config,
            config,
            constraints,
            dispatch_payload,
            driver,
            env,
            kill_signal,
            kill_timeout,
            kind,
            leader,
            lifecycle,
            log_config,
            meta,
            name,
            resources,
            restart_policy,
            scaling_policies,
            services,
            shutdown_delay,
            templates,
            user,
            vault,
            volume_mounts,
        })
    }

    fn absent() -> (r: Result<Task, DecodeError>) {
        Err(DecodeError::MissingField)
    }

    fn encode(&self) -> (r: Json) {
        let mut members: Vec<(String, Json)> = Vec::new();
        proof {
            assert(members_view(members@) =~= Seq::empty());
        }
        put(&mut members, "Affinities", self.affinities.encode());
        put(&mut members, "Artifacts", self.artifacts.encode());
        put(&mut members, "CSIPluginConfig", self.csiplugin_config.encode());
        put(&mut members, "Config", self.config.encode());
        put(&mut members, "Constraints", self.constraints.encode());
        put(&mut members, "DispatchPayload", self.dispatch_payload.encode());
        put(&mut members, "Driver", self.driver.encode());
        put(&mut members, "Env", self.env.encode());
        put(&mut members, "KillSignal", self.kill_signal.encode());
        put(&mut members, "KillTimeout", self.kill_timeout.encode());
        put(&mut members, "Kind", self.kind.encode());
        put(&mut members, "Leader", self.leader.encode());
        put(&mut members, "Lifecycle", self.lifecycle.encode());
        put(&mut members, "LogConfig", self.log_config.encode());
        put(&mut members, "Meta", self.meta.encode());
        put(&mut members, "Name", self.name.encode());
        put(&mut members, "Resources", self.resources.encode());
        put(&mut members, "RestartPolicy", self.restart_policy.encode());
        put(&mut members, "ScalingPolicies", self.scaling_policies.encode());
        put(&mut members, "Services", self.services.encode());
        put(&mut members, "ShutdownDelay", self.shutdown_delay.encode());
        put(&mut members, "Templates", self.templates.encode());
        put(&mut members, "User", self.user.encode());
        put(&mut members, "Vault", self.vault.encode());
        put(&mut members, "VolumeMounts", self.volume_mounts.encode());
        Json::Object(members)
    }

    proof fn lemma_round_trip(v: JsonView) {
        let x = Self::spec_decode(v)->Ok_0;
        let w = Self::spec_encode(x);
        lemma_task_members(x);
        lemma_field_round_trip::<Option<Json>>(v, "Affinities"@);
        lemma_field_round_trip::<Option<Json>>(v, "Artifacts"@);
        lemma_field_round_trip::<Option<Json>>(v, "CSIPluginConfig"@);
        lemma_field_round_trip::<Config>(v, "Config"@);
        lemma_field_round_trip::<Option<Json>>(v, "Constraints"@);
        lemma_field_round_trip::<Option<Json>>(v, "DispatchPayload"@);
        lemma_field_round_trip::<String>(v, "Driver"@);
        lemma_field_round_trip::<Option<Vec<(String, String)>>>(v, "Env"@);
        lemma_field_round_trip::<String>(v, "KillSignal"@);
        lemma_field_round_trip::<i64>(v, "KillTimeout"@);
        lemma_field_round_trip::<String>(v, "Kind"@);
        lemma_field_round_trip::<bool>(v, "Leader"@);
        lemma_field_round_trip::<Option<Json>>(v, "Lifecycle"@);
        lemma_field_round_trip::<LogConfig>(v, "LogConfig"@);
        lemma_field_round_trip::<Option<Json>>(v, "Meta"@);
        lemma_field_round_trip::<String>(v, "Name"@);
        lemma_field_round_trip::<Resources>(v, "Resources"@);
        lemma_field_round_trip::<RestartPolicy>(v, "RestartPolicy"@);
        lemma_field_round_trip::<Option<Json>>(v, "ScalingPolicies"@);
        lemma_field_round_trip::<Option<Json>>(v, "Services"@);
        lemma_field_round_trip::<i64>(v, "ShutdownDelay"@);
        lemma_field_round_trip::<Option<Json>>(v, "Templates"@);
        lemma_field_round_trip::<String>(v, "User"@);
        lemma_field_round_trip::<Option<Json>>(v, "Vault"@);
        lemma_field_round_trip::<Option<Json>>(v, "VolumeMounts"@);
        assert(spec_field::<Option<Json>>(w, "Affinities"@)
            == spec_field::<Option<Json>>(v, "Affinities"@));
        assert(spec_field::<Option<Json>>(w, "Artifacts"@)
            == spec_field::<Option<Json>>(v, "Artifacts"@));
        assert(spec_field::<Option<Json>>(w, "CSIPluginConfig"@)
            == spec_field::<Option<Json>>(v, "CSIPluginConfig"@));
        assert(spec_field::<Config>(w, "Config"@) == spec_field::<Config>(v, "Config"@));
        assert(spec_field::<Option<Json>>(w, "Constraints"@)
            == spec_field::<Option<Json>>(v, "Constraints"@));
        assert(spec_field::<Option<Json>>(w, "DispatchPayload"@)
            == spec_field::<Option<Json>>(v, "DispatchPayload"@));
        assert(spec_field::<String>(w, "Driver"@) == spec_field::<String>(v, "Driver"@));
        assert(spec_field::<Option<Vec<(String, String)>>>(w, "Env"@)
            == spec_field::<Option<Vec<(String, String)>>>(v, "Env"@));
        assert(spec_field::<String>(w, "KillSignal"@) == spec_field::<String>(v, "KillSignal"@));
        assert(spec_field::<i64>(w, "KillTimeout"@) == spec_field::<i64>(v, "KillTimeout"@));
        assert(spec_field::<String>(w, "Kind"@) == spec_field::<String>(v, "Kind"@));
        assert(spec_field::<bool>(w, "Leader"@) == spec_field::<bool>(v, "Leader"@));
        assert(spec_field::<Option<Json>>(w, "Lifecycle"@)
            == spec_field::<Option<Json>>(v, "Lifecycle"@));
        assert(spec_field::<LogConfig>(w, "LogConfig"@)
            == spec_field::<LogConfig>(v, "LogConfig"@));
        assert(spec_field::<Option<Json>>(w, "Meta"@) == spec_field::<Option<Json>>(v, "Meta"@));
        assert(spec_field::<String>(w, "Name"@) == spec_field::<String>(v, "Name"@));
        assert(spec_field::<Resources>(w, "Resources"@)
            == spec_field::<Resources>(v, "Resources"@));
        assert(spec_field::<RestartPolicy>(w, "RestartPolicy"@)
            == spec_field::<RestartPolicy>(v, "RestartPolicy"@));
        assert(spec_field::<Option<Json>>(w, "ScalingPolicies"@)
            == spec_field::<Option<Json>>(v, "ScalingPolicies"@));
        assert(spec_field::<Option<Json>>(w, "Services"@)
            == spec_field::<Option<Json>>(v, "Services"@));
        assert(spec_field::<i64>(w, "ShutdownDelay"@) == spec_field::<i64>(v, "ShutdownDelay"@));
        assert(spec_field::<Option<Json>>(w, "Templates"@)
            == spec_field::<Option<Json>>(v, "Templates"@));
        assert(spec_field::<String>(w, "User"@) == spec_field::<String>(v, "User"@));
        assert(spec_field::<Option<Json>>(w, "Vault"@) == spec_field::<Option<Json>>(v, "Vault"@));
        assert(spec_field::<Option<Json>>(w, "VolumeMounts"@)
            == spec_field::<Option<Json>>(v, "VolumeMounts"@));
    }

    proof fn lemma_absent_round_trip() {
    }

    proof fn lemma_writable(v: JsonView) {
        lemma_field_writable::<Option<Json>>(v, "Affinities"@);
        lemma_field_writable::<Option<Json>>(v, "Artifacts"@);
        lemma_field_writable::<Option<Json>>(v, "CSIPluginConfig"@);
        lemma_field_writable::<Config>(v, "Config"@);
        lemma_field_writable::<Option<Json>>(v, "Constraints"@);
        lemma_field_writable::<Option<Json>>(v, "DispatchPayload"@);
        lemma_field_writable::<String>(v, "Driver"@);
        lemma_field_writable::<Option<Vec<(String, String)>>>(v, "Env"@);
        lemma_field_writable::<String>(v, "KillSignal"@);
        lemma_field_writable::<i64>(v, "KillTimeout"@);
        lemma_field_writable::<String>(v, "Kind"@);
        lemma_field_writable::<bool>(v, "Leader"@);
        lemma_field_writable::<Option<Json>>(v, "Lifecycle"@);
        lemma_field_writable::<LogConfig>(v, "LogConfig"@);
        lemma_field_writable::<Option<Json>>(v, "Meta"@);
        lemma_field_writable::<String>(v, "Name"@);
        lemma_field_writable::<Resources>(v, "Resources"@);
        lemma_field_writable::<RestartPolicy>(v, "RestartPolicy"@);
        lemma_field_writable::<Option<Json>>(v, "ScalingPolicies"@);
        lemma_field_writable::<Option<Json>>(v, "Services"@);
        lemma_field_writable::<i64>(v, "ShutdownDelay"@);
        lemma_field_writable::<Option<Json>>(v, "Templates"@);
        lemma_field_writable::<String>(v, "User"@);
        lemma_field_writable::<Option<Json>>(v, "Vault"@);
        lemma_field_writable::<Option<Json>>(v, "VolumeMounts"@);
        lemma_task_written(Self::spec_decode(v)->Ok_0);
    }
}

/// How the names of the fields of a [`Details`] are spelled: of each its length
/// and, where another is as long, a letter in which the two differ.
proof fn lemma_details_names()
    ensures
        "message"@.len() == 7,
        "image"@.len() == 5,
        "restart_reason"@.len() == 14,
        "exit_code"@.len() == 9,
        "exit_message"@.len() == 12,
        "oom_killed"@.len() == 10,
        "signal"@.len() == 6,
        "start_delay"@.len() == 11,
{
    reveal_strlit("message");
    reveal_strlit("image");
    reveal_strlit("restart_reason");
    reveal_strlit("exit_code");
    reveal_strlit("exit_message");
    reveal_strlit("oom_killed");
    reveal_strlit("signal");
    reveal_strlit("start_delay");
}

/// Each member of a written [`Details`] is found under its name.
proof fn lemma_details_members(x: DetailsView)
    ensures
        lookup(Details::spec_encode(x)->Object_0, "message"@) == Some(
            <Option<String>>::spec_encode(x.message),
        ),
        lookup(Details::spec_encode(x)->Object_0, "image"@) == Some(
            <Option<String>>::spec_encode(x.image),
        ),
        lookup(Details::spec_encode(x)->Object_0, "restart_reason"@) == Some(
            <Option<String>>::spec_encode(x.restart_reason),
        ),
        lookup(Details::spec_encode(x)->Object_0, "exit_code"@) == Some(
            <Option<String>>::spec_encode(x.exit_code),
        ),
        lookup(Details::spec_encode(x)->Object_0, "exit_message"@) == Some(
            <Option<String>>::spec_encode(x.exit_message),
        ),
        lookup(Details::spec_encode(x)->Object_0, "oom_killed"@) == Some(
            <Option<String>>::spec_encode(x.oom_killed),
        ),
        lookup(Details::spec_encode(x)->Object_0, "signal"@) == Some(
            <Option<String>>::spec_encode(x.signal),
        ),
        lookup(Details::spec_encode(x)->Object_0, "start_delay"@) == Some(
            <Option<String>>::spec_encode(x.start_delay),
        ),
{
    broadcast use {lemma_lookup_push, lemma_lookup_empty};

    lemma_details_names();
}

/// A [`Details`] is written as a tree that can be written as text where each of
/// its fields is.
proof fn lemma_details_written(x: DetailsView)
    requires
        writable(<Option<String>>::spec_encode(x.message)),
        writable(<Option<String>>::spec_encode(x.image)),
        writable(<Option<String>>::spec_encode(x.restart_reason)),
        writable(<Option<String>>::spec_encode(x.exit_code)),
        writable(<Option<String>>::spec_encode(x.exit_message)),
        writable(<Option<String>>::spec_encode(x.oom_killed)),
        writable(<Option<String>>::spec_encode(x.signal)),
        writable(<Option<String>>::spec_encode(x.start_delay)),
    ensures
        writable(Details::spec_encode(x)),
{
    broadcast use {
        lemma_writable_push,
        lemma_writable_empty,
        lemma_lookup_push,
        lemma_lookup_empty,
    };

    lemma_details_names();
    lemma_writable_object(Details::spec_encode(x)->Object_0);
}

impl Wire for Details {
    open spec fn spec_decode(v: JsonView) -> Result<DetailsView, DecodeError> {
        if let Err(e) = spec_field::<Option<String>>(v, "message"@) {
            Err(e)
        } else if let Err(e) = spec_field::<Option<String>>(v, "image"@) {
            Err(e)
        } else if let Err(e) = spec_field::<Option<String>>(v, "restart_reason"@) {
            Err(e)
        } else if let Err(e) = spec_field::<Option<String>>(v, "exit_code"@) {
            Err(e)
        } else if let Err(e) = spec_field::<Option<String>>(v, "exit_message"@) {
            Err(e)
        } else if let Err(e) = spec_field::<Option<String>>(v, "oom_killed"@) {
            Err(e)
        } else if let Err(e) = spec_field::<Option<String>>(v, "signal"@) {
            Err(e)
        } else if let Err(e) = spec_field::<Option<String>>(v, "start_delay"@) {
            Err(e)
        } else {
            Ok(
                DetailsView {
                    message: spec_field::<Option<String>>(v, "message"@)->Ok_0,
                    image: spec_field::<Option<String>>(v, "image"@)->Ok_0,
                    restart_reason: spec_field::<Option<String>>(v, "restart_reason"@)->Ok_0,
                    exit_code: spec_field::<Option<String>>(v, "exit_code"@)->Ok_0,
                    exit_message: spec_field::<Option<String>>(v, "exit_message"@)->Ok_0,
                    oom_killed: spec_field::<Option<String>>(v, "oom_killed"@)->Ok_0,
                    signal: spec_field::<Option<String>>(v, "signal"@)->Ok_0,
                    start_delay: spec_field::<Option<String>>(v, "start_delay"@)->Ok_0,
                },
            )
        }
    }

    open spec fn spec_absent() -> Result<DetailsView, DecodeError> {
        Err(DecodeError::MissingField)
    }

    open spec fn spec_encode(x: DetailsView) -> JsonView {
        JsonView::Object(
            Seq::empty()
                .push(("message"@, <Option<String>>::spec_encode(x.message)))
                .push(("image"@, <Option<String>>::spec_encode(x.image)))
                .push(("restart_reason"@, <Option<String>>::spec_encode(x.restart_reason)))
                .push(("exit_code"@, <Option<String>>::spec_encode(x.exit_code)))
                .push(("exit_message"@, <Option<String>>::spec_encode(x.exit_message)))
                .push(("oom_killed"@, <Option<String>>::spec_encode(x.oom_killed)))
                .push(("signal"@, <Option<String>>::spec_encode(x.signal)))
                .push(("start_delay"@, <Option<String>>::spec_encode(x.start_delay))),
        )
    }

    fn decode(v: &Json) -> (r: Result<Details, DecodeError>) {
        let message = field::<Option<String>>(v, "message")?;
        let image = field::<Option<String>>(v, "image")?;
        let restart_reason = field::<Option<String>>(v, "restart_reason")?;
        let exit_code = field::<Option<String>>(v, "exit_code")?;
        let exit_message = field::<Option<String>>(v, "exit_message")?;
        let oom_killed = field::<Option<String>>(v, "oom_killed")?;
        let signal = field::<Option<String>>(v, "signal")?;
        let start_delay = field::<Option<String>>(v, "start_delay")?;
        Ok(Details {
            message,
            image,
            restart_reason,
            exit_code,
            exit_message,
            oom_killed,
            signal,
            start_delay,
        })
    }

    fn absent() -> (r: Result<Details, DecodeError>) {
        Err(DecodeError::MissingField)
    }

    fn encode(&self) -> (r: Json) {
        let mut members: Vec<(String, Json)> = Vec::new();
        proof {
            assert(members_view(members@) =~= Seq::empty());
        }
        put(&mut members, "message", self.message.encode());
        put(&mut members, "image", self.image.encode());
        put(&mut members, "restart_reason", self.restart_reason.encode());
        put(&mut members, "exit_code", self.exit_code.encode());
        put(&mut members, "exit_message", self.exit_message.encode());
        put(&mut members, "oom_killed", self.oom_killed.encode());
        put(&mut members, "signal", self.signal.encode());
        put(&mut members, "start_delay", self.start_delay.encode());
        Json::Object(members)
    }

    proof fn lemma_round_trip(v: JsonView) {
        let x = Self::spec_decode(v)->Ok_0;
        let w = Self::spec_encode(x);
        lemma_details_members(x);
        lemma_field_round_trip::<Option<String>>(v, "message"@);
        lemma_field_round_trip::<Option<String>>(v, "image"@);
        lemma_field_round_trip::<Option<String>>(v, "restart_reason"@);
        lemma_field_round_trip::<Option<String>>(v, "exit_code"@);
        lemma_field_round_trip::<Option<String>>(v, "exit_message"@);
        lemma_field_round_trip::<Option<String>>(v, "oom_killed"@);
        lemma_field_round_trip::<Option<String>>(v, "signal"@);
        lemma_field_round_trip::<Option<String>>(v, "start_delay"@);
        assert(spec_field::<Option<String>>(w, "message"@)
            == spec_field::<Option<String>>(v, "message"@));
        assert(spec_field::<Option<String>>(w, "image"@)
            == spec_field::<Option<String>>(v, "image"@));
        assert(spec_field::<Option<String>>(w, "restart_reason"@)
            == spec_field::<Option<String>>(v, "restart_reason"@));
        assert(spec_field::<Option<String>>(w, "exit_code"@)
            == spec_field::<Option<String>>(v, "exit_code"@));
        assert(spec_field::<Option<String>>(w, "exit_message"@)
            == spec_field::<Option<String>>(v, "exit_message"@));
        assert(spec_field::<Option<String>>(w, "oom_killed"@)
            == spec_field::<Option<String>>(v, "oom_killed"@));
        assert(spec_field::<Option<String>>(w, "signal"@)
            == spec_field::<Option<String>>(v, "signal"@));
        assert(spec_field::<Option<String>>(w, "start_delay"@)
            == spec_field::<Option<String>>(v, "start_delay"@));
    }

    proof fn lemma_absent_round_trip() {
    }

    proof fn lemma_writable(v: JsonView) {
        lemma_field_writable::<Option<String>>(v, "message"@);
        lemma_field_writable::<Option<String>>(v, "image"@);
        lemma_field_writable::<Option<String>>(v, "restart_reason"@);
        lemma_field_writable::<Option<String>>(v, "exit_code"@);
        lemma_field_writable::<Option<String>>(v, "exit_message"@);
        lemma_field_writable::<Option<String>>(v, "oom_killed"@);
        lemma_field_writable::<Option<String>>(v, "signal"@);
        lemma_field_writable::<Option<String>>(v, "start_delay"@);
        lemma_details_written(Self::spec_decode(v)->Ok_0);
    }
}

/// How the names of the fields of a [`Event`] are spelled: of each its length
/// and, where another is as long, a letter in which the two differ.
proof fn lemma_event_names()
    ensures
        "Details"@.len() == 7 && "Details"@[0] == 'D',
        "DiskLimit"@.len() == 9 && "DiskLimit"@[0] == 'D',
        "DisplayMessage"@.len() == 14,
        "DownloadError"@.len() == 13 && "DownloadError"@[0] == 'D' && "DownloadError"@[1] == 'o',
        "DriverError"@.len() == 11 && "DriverError"@[0] == 'D',
        "DriverMessage"@.len() == 13 && "DriverMessage"@[0] == 'D' && "DriverMessage"@[1] == 'r',
        "ExitCode"@.len() == 8,
        "FailedSibling"@.len() == 13 && "FailedSibling"@[0] == 'F',
        "FailsTask"@.len() == 9 && "FailsTask"@[0] == 'F',
        "GenericSource"@.len() == 13 && "GenericSource"@[0] == 'G',
        "KillError"@.len() == 9 && "KillError"@[0] == 'K',
        "KillReason"@.len() == 10 && "KillReason"@[0] == 'K',
        "KillTimeout"@.len() == 11 && "KillTimeout"@[0] == 'K',
        "Message"@.len() == 7 && "Message"@[0] == 'M',
        "RestartReason"@.len() == 13 && "RestartReason"@[0] == 'R',
        "SetupError"@.len() == 10 && "SetupError"@[0] == 'S' && "SetupError"@[1] == 'e',
        "Signal"@.len() == 6,
        "StartDelay"@.len() == 10 && "StartDelay"@[0] == 'S' && "StartDelay"@[1] == 't',
        "TaskSignal"@.len() == 10 && "TaskSignal"@[0] == 'T',
        "TaskSignalReason"@.len() == 16,
        "Time"@.len() == 4 && "Time"@[1] == 'i',
        "Type"@.len() == 4 && "Type"@[1] == 'y',
        "ValidationError"@.len() == 15,
        "VaultError"@.len() == 10 && "VaultError"@[0] == 'V',
{
    reveal_strlit("Details");
    reveal_strlit("DiskLimit");
    reveal_strlit("DisplayMessage");
    reveal_strlit("DownloadError");
    reveal_strlit("DriverError");
    reveal_strlit("DriverMessage");
    reveal_strlit("ExitCode");
    reveal_strlit("FailedSibling");
    reveal_strlit("FailsTask");
    reveal_strlit("GenericSource");
    reveal_strlit("KillError");
    reveal_strlit("KillReason");
    reveal_strlit("KillTimeout");
    reveal_strlit("Message");
    reveal_strlit("RestartReason");
    reveal_strlit("SetupError");
    reveal_strlit("Signal");
    reveal_strlit("StartDelay");
    reveal_strlit("TaskSignal");
    reveal_strlit("TaskSignalReason");
    reveal_strlit("Time");
    reveal_strlit("Type");
    reveal_strlit("ValidationError");
    reveal_strlit("VaultError");
}

/// Each member of a written [`Event`] is found under its name.
proof fn lemma_event_members(x: EventView)
    ensures
        lookup(Event::spec_encode(x)->Object_0, "Details"@) == Some(
            Details::spec_encode(x.details),
        ),
        lookup(Event::spec_encode(x)->Object_0, "DiskLimit"@) == Some(
            i64::spec_encode(x.disk_limit),
        ),
        lookup(Event::spec_encode(x)->Object_0, "DisplayMessage"@) == Some(
            String::spec_encode(x.display_message),
        ),
        lookup(Event::spec_encode(x)->Object_0, "DownloadError"@) == Some(
            String::spec_encode(x.download_error),
        ),
        lookup(Event::spec_encode(x)->Object_0, "DriverError"@) == Some(
            String::spec_encode(x.driver_error),
        ),
        lookup(Event::spec_encode(x)->Object_0, "DriverMessage"@) == Some(
            String::spec_encode(x.driver_message),
        ),
        lookup(Event::spec_encode(x)->Object_0, "ExitCode"@) == Some(
            i64::spec_encode(x.exit_code),
        ),
        lookup(Event::spec_encode(x)->Object_0, "FailedSibling"@) == Some(
            String::spec_encode(x.failed_sibling),
        ),
        lookup(Event::spec_encode(x)->Object_0, "FailsTask"@) == Some(
            bool::spec_encode(x.fails_task),
        ),
        lookup(Event::spec_encode(x)->Object_0, "GenericSource"@) == Some(
            String::spec_encode(x.generic_source),
        ),
        lookup(Event::spec_encode(x)->Object_0, "KillError"@) == Some(
            String::spec_encode(x.kill_error),
        ),
        lookup(Event::spec_encode(x)->Object_0, "KillReason"@) == Some(
            String::spec_encode(x.kill_reason),
        ),
        lookup(Event::spec_encode(x)->Object_0, "KillTimeout"@) == Some(
            i64::spec_encode(x.kill_timeout),
        ),
        lookup(Event::spec_encode(x)->Object_0, "Message"@) == Some(
            String::spec_encode(x.message),
        ),
        lookup(Event::spec_encode(x)->Object_0, "RestartReason"@) == Some(
            String::spec_encode(x.restart_reason),
        ),
        lookup(Event::spec_encode(x)->Object_0, "SetupError"@) == Some(
            String::spec_encode(x.setup_error),
        ),
        lookup(Event::spec_encode(x)->Object_0, "Signal"@) == Some(
            i64::spec_encode(x.signal),
        ),
        lookup(Event::spec_encode(x)->Object_0, "StartDelay"@) == Some(
            i64::spec_encode(x.start_delay),
        ),
        lookup(Event::spec_encode(x)->Object_0, "TaskSignal"@) == Some(
            String::spec_encode(x.task_signal),
        ),
        lookup(Event::spec_encode(x)->Object_0, "TaskSignalReason"@) == Some(
            String::spec_encode(x.task_signal_reason),
        ),
        lookup(Event::spec_encode(x)->Object_0, "Time"@) == Some(
            i64::spec_encode(x.time),
        ),
        lookup(Event::spec_encode(x)->Object_0, "Type"@) == Some(
            String::spec_encode(x.type_field),
        ),
        lookup(Event::spec_encode(x)->Object_0, "ValidationError"@) == Some(
            String::spec_encode(x.validation_error),
        ),
        lookup(Event::spec_encode(x)->Object_0, "VaultError"@) == Some(
            String::spec_encode(x.vault_error),
        ),
{
    broadcast use {lemma_lookup_push, lemma_lookup_empty};

    lemma_event_names();
}

/// A [`Event`] is written as a tree that can be written as text where each of
/// its fields is.
proof fn lemma_event_written(x: EventView)
    requires
        writable(Details::spec_encode(x.details)),
        writable(i64::spec_encode(x.disk_limit)),
        writable(String::spec_encode(x.display_message)),
        writable(String::spec_encode(x.download_error)),
        writable(String::spec_encode(x.driver_error)),
        writable(String::spec_encode(x.driver_message)),
        writable(i64::spec_encode(x.exit_code)),
        writable(String::spec_encode(x.failed_sibling)),
        writable(bool::spec_encode(x.fails_task)),
        writable(String::spec_encode(x.generic_source)),
        writable(String::spec_encode(x.kill_error)),
        writable(String::spec_encode(x.kill_reason)),
        writable(i64::spec_encode(x.kill_timeout)),
        writable(String::spec_encode(x.message)),
        writable(String::spec_encode(x.restart_reason)),
        writable(String::spec_encode(x.setup_error)),
        writable(i64::spec_encode(x.signal)),
        writable(i64::spec_encode(x.start_delay)),
        writable(String::spec_encode(x.task_signal)),
        writable(String::spec_encode(x.task_signal_reason)),
        writable(i64::spec_encode(x.time)),
        writable(String::spec_encode(x.type_field)),
        writable(String::spec_encode(x.validation_error)),
        writable(String::spec_encode(x.vault_error)),
    ensures
        writable(Event::spec_encode(x)),
{
    broadcast use {
        lemma_writable_push,
        lemma_writable_empty,
        lemma_lookup_push,
        lemma_lookup_empty,
    };

    lemma_event_names();
    lemma_writable_object(Event::spec_encode(x)->Object_0);
}

impl Wire for Event {
    open spec fn spec_decode(v: JsonView) -> Result<EventView, DecodeError> {
        if let Err(e) = spec_field::<Details>(v, "Details"@) {
            Err(e)
        } else if let Err(e) = spec_field::<i64>(v, "DiskLimit"@) {
            Err(e)
        } else if let Err(e) = spec_field::<String>(v, "DisplayMessage"@) {
            Err(e)
        } else if let Err(e) = spec_field::<String>(v, "DownloadError"@) {
            Err(e)
        } else if let Err(e) = spec_field::<String>(v, "DriverError"@) {
            Err(e)
        } else if let Err(e) = spec_field::<String>(v, "DriverMessage"@) {
            Err(e)
        } else if let Err(e) = spec_field::<i64>(v, "ExitCode"@) {
            Err(e)
        } else if let Err(e) = spec_field::<String>(v, "FailedSibling"@) {
            Err(e)
        } else if let Err(e) = spec_field::<bool>(v, "FailsTask"@) {
            Err(e)
        } else if let Err(e) = spec_field::<String>(v, "GenericSource"@) {
            Err(e)
        } else if let Err(e) = spec_field::<String>(v, "KillError"@) {
            Err(e)
        } else if let Err(e) = spec_field::<String>(v, "KillReason"@) {
            Err(e)
        } else if let Err(e) = spec_field::<i64>(v, "KillTimeout"@) {
            Err(e)
        } else if let Err(e) = spec_field::<String>(v, "Message"@) {
            Err(e)
        } else if let Err(e) = spec_field::<String>(v, "RestartReason"@) {
            Err(e)
        } else if let Err(e) = spec_field::<String>(v, "SetupError"@) {
            Err(e)
        } else if let Err(e) = spec_field::<i64>(v, "Signal"@) {
            Err(e)
        } else if let Err(e) = spec_field::<i64>(v, "StartDelay"@) {
            Err(e)
        } else if let Err(e) = spec_field::<String>(v, "TaskSignal"@) {
            Err(e)
        } else if let Err(e) = spec_field::<String>(v, "TaskSignalReason"@) {
            Err(e)
        } else if let Err(e) = spec_field::<i64>(v, "Time"@) {
            Err(e)
        } else if let Err(e) = spec_field::<String>(v, "Type"@) {
            Err(e)
        } else if let Err(e) = spec_field::<String>(v, "ValidationError"@) {
            Err(e)
        } else if let Err(e) = spec_field::<String>(v, "VaultError"@) {
            Err(e)
        } else {
            Ok(
                EventView {
                    details: spec_field::<Details>(v, "Details"@)->Ok_0,
                    disk_limit: spec_field::<i64>(v, "DiskLimit"@)->Ok_0,
                    display_message: spec_field::<String>(v, "DisplayMessage"@)->Ok_0,
                    download_error: spec_field::<String>(v, "DownloadError"@)->Ok_0,
                    driver_error: spec_field::<String>(v, "DriverError"@)->Ok_0,
                    driver_message: spec_field::<String>(v, "DriverMessage"@)->Ok_0,
                    exit_code: spec_field::<i64>(v, "ExitCode"@)->Ok_0,
                    failed_sibling: spec_field::<String>(v, "FailedSibling"@)->Ok_0,
                    fails_task: spec_field::<bool>(v, "FailsTask"@)->Ok_0,
                    generic_source: spec_field::<String>(v, "GenericSource"@)->Ok_0,
                    kill_error: spec_field::<String>(v, "KillError"@)->Ok_0,
                    kill_reason: spec_field::<String>(v, "KillReason"@)->Ok_0,
                    kill_timeout: spec_field::<i64>(v, "KillTimeout"@)->Ok_0,
                    message: spec_field::<String>(v, "Message"@)->Ok_0,
                    restart_reason: spec_field::<String>(v, "RestartReason"@)->Ok_0,
                    setup_error: spec_field::<String>(v, "SetupError"@)->Ok_0,
                    signal: spec_field::<i64>(v, "Signal"@)->Ok_0,
                    start_delay: spec_field::<i64>(v, "StartDelay"@)->Ok_0,
                    task_signal: spec_field::<String>(v, "TaskSignal"@)->Ok_0,
                    task_signal_reason: spec_field::<String>(v, "TaskSignalReason"@)->Ok_0,
                    time: spec_field::<i64>(v, "Time"@)->Ok_0,
                    type_field: spec_field::<String>(v, "Type"@)->Ok_0,
                    validation_error: spec_field::<String>(v, "ValidationError"@)->Ok_0,
                    vault_error: spec_field::<String>(v, "VaultError"@)->Ok_0,
                },
            )
        }
    }

    open spec fn spec_absent() -> Result<EventView, DecodeError> {
        Err(DecodeError::MissingField)
    }

    open spec fn spec_encode(x: EventView) -> JsonView {
        JsonView::Object(
            Seq::empty()
                .push(("Details"@, Details::spec_encode(x.details)))
                .push(("DiskLimit"@, i64::spec_encode(x.disk_limit)))
                .push(("DisplayMessage"@, String::spec_encode(x.display_message)))
                .push(("DownloadError"@, String::spec_encode(x.download_error)))
                .push(("DriverError"@, String::spec_encode(x.driver_error)))
                .push(("DriverMessage"@, String::spec_encode(x.driver_message)))
                .push(("ExitCode"@, i64::spec_encode(x.exit_code)))
                .push(("FailedSibling"@, String::spec_encode(x.failed_sibling)))
                .push(("FailsTask"@, bool::spec_encode(x.fails_task)))
                .push(("GenericSource"@, String::spec_encode(x.generic_source)))
                .push(("KillError"@, String::spec_encode(x.kill_error)))
                .push(("KillReason"@, String::spec_encode(x.kill_reason)))
                .push(("KillTimeout"@, i64::spec_encode(x.kill_timeout)))
                .push(("Message"@, String::spec_encode(x.message)))
                .push(("RestartReason"@, String::spec_encode(x.restart_reason)))
                .push(("SetupError"@, String::spec_encode(x.setup_error)))
                .push(("Signal"@, i64::spec_encode(x.signal)))
                .push(("StartDelay"@, i64::spec_encode(x.start_delay)))
                .push(("TaskSignal"@, String::spec_encode(x.task_signal)))
                .push(("TaskSignalReason"@, String::spec_encode(x.task_signal_reason)))
                .push(("Time"@, i64::spec_encode(x.time)))
                .push(("Type"@, String::spec_encode(x.type_field)))
                .push(("ValidationError"@, String::spec_encode(x.validation_error)))
                .push(("VaultError"@, String::spec_encode(x.vault_error))),
        )
    }

    fn decode(v: &Json) -> (r: Result<Event, DecodeError>) {
        let details = field::<Details>(v, "Details")?;
        let disk_limit = field::<i64>(v, "DiskLimit")?;
        let display_message = field::<String>(v, "DisplayMessage")?;
        let download_error = field::<String>(v, "DownloadError")?;
        let driver_error = field::<String>(v, "DriverError")?;
        let driver_message = field::<String>(v, "DriverMessage")?;
        let exit_code = field::<i64>(v, "ExitCode")?;
        let failed_sibling = field::<String>(v, "FailedSibling")?;
        let fails_task = field::<bool>(v, "FailsTask")?;
        let generic_source = field::<String>(v, "GenericSource")?;
        let kill_error = field::<String>(v, "KillError")?;
        let kill_reason = field::<String>(v, "KillReason")?;
        let kill_timeout = field::<i64>(v, "KillTimeout")?;
        let message = field::<String>(v, "Message")?;
        let restart_reason = field::<String>(v, "RestartReason")?;
        let setup_error = field::<String>(v, "SetupError")?;
        let signal = field::<i64>(v, "Signal")?;
        let start_delay = field::<i64>(v, "StartDelay")?;
        let task_signal = field::<String>(v, "TaskSignal")?;
        let task_signal_reason = field::<String>(v, "TaskSignalReason")?;
        let time = field::<i64>(v, "Time")?;
        let type_field = field::<String>(v, "Type")?;
        let validation_error = field::<String>(v, "ValidationError")?;
        let vault_error = field::<String>(v, "VaultError")?;
        Ok(Event {
            details,
            disk_limit,
            display_message,
            download_error,
            driver_error,
            driver_message,
            exit_code,
            failed_sibling,
            fails_task,
            generic_source,
            kill_error,
            kill_reason,
            kill_timeout,
            message,
            restart_reason,
            setup_error,
            signal,
            start_delay,
            task_signal,
            task_signal_reason,
            time,
            type_field,
            validation_error,
            vault_error,
        })
    }

    fn absent() -> (r: Result<Event, DecodeError>) {
        Err(DecodeError::MissingField)
    }

    fn encode(&self) -> (r: Json) {
        let mut members: Vec<(String, Json)> = Vec::new();
        proof {
            assert(members_view(members@) =~= Seq::empty());
        }
        put(&mut members, "Details", self.details.encode());
        put(&mut members, "DiskLimit", self.disk_limit.encode());
        put(&mut members, "DisplayMessage", self.display_message.encode());
        put(&mut members, "DownloadError", self.download_error.encode());
        put(&mut members, "DriverError", self.driver_error.encode());
        put(&mut members, "DriverMessage", self.driver_message.encode());
        put(&mut members, "ExitCode", self.exit_code.encode());
        put(&mut members, "FailedSibling", self.failed_sibling.encode());
        put(&mut members, "FailsTask", self.fails_task.encode());
        put(&mut members, "GenericSource", self.generic_source.encode());
        put(&mut members, "KillError", self.kill_error.encode());
        put(&mut members, "KillReason", self.kill_reason.encode());
        put(&mut members, "KillTimeout", self.kill_timeout.encode());
        put(&mut members, "Message", self.message.encode());
        put(&mut members, "RestartReason", self.restart_reason.encode());
        put(&mut members, "SetupError", self.setup_error.encode());
        put(&mut members, "Signal", self.signal.encode());
        put(&mut members, "StartDelay", self.start_delay.encode());
        put(&mut members, "TaskSignal", self.task_signal.encode());
        put(&mut members, "TaskSignalReason", self.task_signal_reason.encode());
        put(&mut members, "Time", self.time.encode());
        put(&mut members, "Type", self.type_field.encode());
        put(&mut members, "ValidationError", self.validation_error.encode());
        put(&mut members, "VaultError", self.vault_error.encode());
        Json::Object(members)
    }

    proof fn lemma_round_trip(v: JsonView) {
        let x = Self::spec_decode(v)->Ok_0;
        let w = Self::spec_encode(x);
        lemma_event_members(x);
        lemma_field_round_trip::<Details>(v, "Details"@);
        lemma_field_round_trip::<i64>(v, "DiskLimit"@);
        lemma_field_round_trip::<String>(v, "DisplayMessage"@);
        lemma_field_round_trip::<String>(v, "DownloadError"@);
        lemma_field_round_trip::<String>(v, "DriverError"@);
        lemma_field_round_trip::<String>(v, "DriverMessage"@);
        lemma_field_round_trip::<i64>(v, "ExitCode"@);
        lemma_field_round_trip::<String>(v, "FailedSibling"@);
        lemma_field_round_trip::<bool>(v, "FailsTask"@);
        lemma_field_round_trip::<String>(v, "GenericSource"@);
        lemma_field_round_trip::<String>(v, "KillError"@);
        lemma_field_round_trip::<String>(v, "KillReason"@);
        lemma_field_round_trip::<i64>(v, "KillTimeout"@);
        lemma_field_round_trip::<String>(v, "Message"@);
        lemma_field_round_trip::<String>(v, "RestartReason"@);
        lemma_field_round_trip::<String>(v, "SetupError"@);
        lemma_field_round_trip::<i64>(v, "Signal"@);
        lemma_field_round_trip::<i64>(v, "StartDelay"@);
        lemma_field_round_trip::<String>(v, "TaskSignal"@);
        lemma_field_round_trip::<String>(v, "TaskSignalReason"@);
        lemma_field_round_trip::<i64>(v, "Time"@);
        lemma_field_round_trip::<String>(v, "Type"@);
        lemma_field_round_trip::<String>(v, "ValidationError"@);
        lemma_field_round_trip::<String>(v, "VaultError"@);
        assert(spec_field::<Details>(w, "Details"@) == spec_field::<Details>(v, "Details"@));
        assert(spec_field::<i64>(w, "DiskLimit"@) == spec_field::<i64>(v, "DiskLimit"@));
        assert(spec_field::<String>(w, "DisplayMessage"@)
            == spec_field::<String>(v, "DisplayMessage"@));
        assert(spec_field::<String>(w, "DownloadError"@)
            == spec_field::<String>(v, "DownloadError"@));
        assert(spec_field::<String>(w, "DriverError"@) == spec_field::<String>(v, "DriverError"@));
        assert(spec_field::<String>(w, "DriverMessage"@)
            == spec_field::<String>(v, "DriverMessage"@));
        assert(spec_field::<i64>(w, "ExitCode"@) == spec_field::<i64>(v, "ExitCode"@));
        assert(spec_field::<String>(w, "FailedSibling"@)
            == spec_field::<String>(v, "FailedSibling"@));
        assert(spec_field::<bool>(w, "FailsTask"@) == spec_field::<bool>(v, "FailsTask"@));
        assert(spec_field::<String>(w, "GenericSource"@)
            == spec_field::<String>(v, "GenericSource"@));
        assert(spec_field::<String>(w, "KillError"@) == spec_field::<String>(v, "KillError"@));
        assert(spec_field::<String>(w, "KillReason"@) == spec_field::<String>(v, "KillReason"@));
        assert(spec_field::<i64>(w, "KillTimeout"@) == spec_field::<i64>(v, "KillTimeout"@));
        assert(spec_field::<String>(w, "Message"@) == spec_field::<String>(v, "Message"@));
        assert(spec_field::<String>(w, "RestartReason"@)
            == spec_field::<String>(v, "RestartReason"@));
        assert(spec_field::<String>(w, "SetupError"@) == spec_field::<String>(v, "SetupError"@));
        assert(spec_field::<i64>(w, "Signal"@) == spec_field::<i64>(v, "Signal"@));
        assert(spec_field::<i64>(w, "StartDelay"@) == spec_field::<i64>(v, "StartDelay"@));
        assert(spec_field::<String>(w, "TaskSignal"@) == spec_field::<String>(v, "TaskSignal"@));
        assert(spec_field::<String>(w, "TaskSignalReason"@)
            == spec_field::<String>(v, "TaskSignalReason"@));
        assert(spec_field::<i64>(w, "Time"@) == spec_field::<i64>(v, "Time"@));
        assert(spec_field::<String>(w, "Type"@) == spec_field::<String>(v, "Type"@));
        assert(spec_field::<String>(w, "ValidationError"@)
            == spec_field::<String>(v, "ValidationError"@));
        assert(spec_field::<String>(w, "VaultError"@) == spec_field::<String>(v, "VaultError"@));
    }

    proof fn lemma_absent_round_trip() {
    }

    proof fn lemma_writable(v: JsonView) {
        lemma_field_writable::<Details>(v, "Details"@);
        lemma_field_writable::<i64>(v, "DiskLimit"@);
        lemma_field_writable::<String>(v, "DisplayMessage"@);
        lemma_field_writable::<String>(v, "DownloadError"@);
        lemma_field_writable::<String>(v, "DriverError"@);
        lemma_field_writable::<String>(v, "DriverMessage"@);
        lemma_field_writable::<i64>(v, "ExitCode"@);
        lemma_field_writable::<String>(v, "FailedSibling"@);
        lemma_field_writable::<bool>(v, "FailsTask"@);
        lemma_field_writable::<String>(v, "GenericSource"@);
        lemma_field_writable::<String>(v, "KillError"@);
        lemma_field_writable::<String>(v, "KillReason"@);
        lemma_field_writable::<i64>(v, "KillTimeout"@);
        lemma_field_writable::<String>(v, "Message"@);
        lemma_field_writable::<String>(v, "RestartReason"@);
        lemma_field_writable::<String>(v, "SetupError"@);
        lemma_field_writable::<i64>(v, "Signal"@);
        lemma_field_writable::<i64>(v, "StartDelay"@);
        lemma_field_writable::<String>(v, "TaskSignal"@);
        lemma_field_writable::<String>(v, "TaskSignalReason"@);
        lemma_field_writable::<i64>(v, "Time"@);
        lemma_field_writable::<String>(v, "Type"@);
        lemma_field_writable::<String>(v, "ValidationError"@);
        lemma_field_writable::<String>(v, "VaultError"@);
        lemma_event_written(Self::spec_decode(v)->Ok_0);
    }
}

/// How the names of the fields of a [`TaskState`] are spelled: of each its length
/// and, where another is as long, a letter in which the two differ.
proof fn lemma_task_state_names()
    ensures
        "Events"@.len() == 6 && "Events"@[0] == 'E',
        "Failed"@.len() == 6 && "Failed"@[0] == 'F',
        "FinishedAt"@.len() == 10 && "FinishedAt"@[0] == 'F',
        "LastRestart"@.len() == 11,
        "Restarts"@.len() == 8,
        "StartedAt"@.len() == 9,
        "State"@.len() == 5,
        "TaskHandle"@.len() == 10 && "TaskHandle"@[0] == 'T',
{
    reveal_strlit("Events");
    reveal_strlit("Failed");
    reveal_strlit("FinishedAt");
    reveal_strlit("LastRestart");
    reveal_strlit("Restarts");
    reveal_strlit("StartedAt");
    reveal_strlit("State");
    reveal_strlit("TaskHandle");
}

/// Each member of a written [`TaskState`] is found under its name.
proof fn lemma_task_state_members(x: TaskStateView)
    ensures
        lookup(TaskState::spec_encode(x)->Object_0, "Events"@) == Some(
            <Option<Vec<Event>>>::spec_encode(x.events),
        ),
        lookup(TaskState::spec_encode(x)->Object_0, "Failed"@) == Some(
            <Option<bool>>::spec_encode(x.failed),
        ),
        lookup(TaskState::spec_encode(x)->Object_0, "FinishedAt"@) == Some(
            <Option<Json>>::spec_encode(x.finished_at),
        ),
        lookup(TaskState::spec_encode(x)->Object_0, "LastRestart"@) == Some(
            <Option<String>>::spec_encode(x.last_restart),
        ),
        lookup(TaskState::spec_encode(x)->Object_0, "Restarts"@) == Some(
            i64::spec_encode(x.restarts),
        ),
        lookup(TaskState::spec_encode(x)->Object_0, "StartedAt"@) == Some(
            <Option<String>>::spec_encode(x.started_at),
        ),
        lookup(TaskState::spec_encode(x)->Object_0, "State"@) == Some(
            RunningStatus::spec_encode(x.state),
        ),
        lookup(TaskState::spec_encode(x)->Object_0, "TaskHandle"@) == Some(
            <Option<Json>>::spec_encode(x.task_handle),
        ),
{
    broadcast use {lemma_lookup_push, lemma_lookup_empty};

    lemma_task_state_names();
}

/// A [`TaskState`] is written as a tree that can be written as text where each of
/// its fields is.
proof fn lemma_task_state_written(x: TaskStateView)
    requires
        writable(<Option<Vec<Event>>>::spec_encode(x.events)),
        writable(<Option<bool>>::spec_encode(x.failed)),
        writable(<Option<Json>>::spec_encode(x.finished_at)),
        writable(<Option<String>>::spec_encode(x.last_restart)),
        writable(i64::spec_encode(x.restarts)),
        writable(<Option<String>>::spec_encode(x.started_at)),
        writable(RunningStatus::spec_encode(x.state)),
        writable(<Option<Json>>::spec_encode(x.task_handle)),
    ensures
        writable(TaskState::spec_encode(x)),
{
    broadcast use {
        lemma_writable_push,
        lemma_writable_empty,
        lemma_lookup_push,
        lemma_lookup_empty,
    };

    lemma_task_state_names();
    lemma_writable_object(TaskState::spec_encode(x)->Object_0);
}

impl Wire for TaskState {
    open spec fn spec_decode(v: JsonView) -> Result<TaskStateView, DecodeError> {
        if let Err(e) = spec_field::<Option<Vec<Event>>>(v, "Events"@) {
            Err(e)
        } else if let Err(e) = spec_field::<Option<bool>>(v, "Failed"@) {
            Err(e)
        } else if let Err(e) = spec_field::<Option<Json>>(v, "FinishedAt"@) {
            Err(e)
        } else if let Err(e) = spec_field::<Option<String>>(v, "LastRestart"@) {
            Err(e)
        } else if let Err(e) = spec_field::<i64>(v, "Restarts"@) {
            Err(e)
        } else if let Err(e) = spec_field::<Option<String>>(v, "StartedAt"@) {
            Err(e)
        } else if let Err(e) = spec_field::<RunningStatus>(v, "State"@) {
            Err(e)
        } else if let Err(e) = spec_field::<Option<Json>>(v, "TaskHandle"@) {
            Err(e)
        } else {
            Ok(
                TaskStateView {
                    events: spec_field::<Option<Vec<Event>>>(v, "Events"@)->Ok_0,
                    failed: spec_field::<Option<bool>>(v, "Failed"@)->Ok_0,
                    finished_at: spec_field::<Option<Json>>(v, "FinishedAt"@)->Ok_0,
                    last_restart: spec_field::<Option<String>>(v, "LastRestart"@)->Ok_0,
                    restarts: spec_field::<i64>(v, "Restarts"@)->Ok_0,
                    started_at: spec_field::<Option<String>>(v, "StartedAt"@)->Ok_0,
                    state: spec_field::<RunningStatus>(v, "State"@)->Ok_0,
                    task_handle: spec_field::<Option<Json>>(v, "TaskHandle"@)->Ok_0,
                },
            )
        }
    }

    open spec fn spec_absent() -> Result<TaskStateView, DecodeError> {
        Err(DecodeError::MissingField)
    }

    open spec fn spec_encode(x: TaskStateView) -> JsonView {
        JsonView::Object(
            Seq::empty()
                .push(("Events"@, <Option<Vec<Event>>>::spec_encode(x.events)))
                .push(("Failed"@, <Option<bool>>::spec_encode(x.failed)))
                .push(("FinishedAt"@, <Option<Json>>::spec_encode(x.finished_at)))
                .push(("LastRestart"@, <Option<String>>::spec_encode(x.last_restart)))
                .push(("Restarts"@, i64::spec_encode(x.restarts)))
                .push(("StartedAt"@, <Option<String>>::spec_encode(x.started_at)))
                .push(("State"@, RunningStatus::spec_encode(x.state)))
                .push(("TaskHandle"@, <Option<Json>>::spec_encode(x.task_handle))),
        )
    }

    fn decode(v: &Json) -> (r: Result<TaskState, DecodeError>) {
        let events = field::<Option<Vec<Event>>>(v, "Events")?;
        let failed = field::<Option<bool>>(v, "Failed")?;
        let finished_at = field::<Option<Json>>(v, "FinishedAt")?;
        let last_restart = field::<Option<String>>(v, "LastRestart")?;
        let restarts = field::<i64>(v, "Restarts")?;
        let started_at = field::<Option<String>>(v, "StartedAt")?;
        let state = field::<RunningStatus>(v, "State")?;
        let task_handle = field::<Option<Json>>(v, "TaskHandle")?;
        Ok(TaskState {
            events,
            failed,
            finished_at,
            last_restart,
            restarts,
            started_at,
            state,
            task_handle,
        })
    }

    fn absent() -> (r: Result<TaskState, DecodeError>) {
        Err(DecodeError::MissingField)
    }

    fn encode(&self) -> (r: Json) {
        let mut members: Vec<(String, Json)> = Vec::new();
        proof {
            assert(members_view(members@) =~= Seq::empty());
        }
        put(&mut members, "Events", self.events.encode());
        put(&mut members, "Failed", self.failed.encode());
        put(&mut members, "FinishedAt", self.finished_at.encode());
        put(&mut members, "LastRestart", self.last_restart.encode());
        put(&mut members, "Restarts", self.restarts.encode());
        put(&mut members, "StartedAt", self.started_at.encode());
        put(&mut members, "State", self.state.encode());
        put(&mut members, "TaskHandle", self.task_handle.encode());
        Json::Object(members)
    }

    proof fn lemma_round_trip(v: JsonView) {
        let x = Self::spec_decode(v)->Ok_0;
        let w = Self::spec_encode(x);
        lemma_task_state_members(x);
        lemma_field_round_trip::<Option<Vec<Event>>>(v, "Events"@);
        lemma_field_round_trip::<Option<bool>>(v, "Failed"@);
        lemma_field_round_trip::<Option<Json>>(v, "FinishedAt"@);
        lemma_field_round_trip::<Option<String>>(v, "LastRestart"@);
        lemma_field_round_trip::<i64>(v, "Restarts"@);
        lemma_field_round_trip::<Option<String>>(v, "StartedAt"@);
        lemma_field_round_trip::<RunningStatus>(v, "State"@);
        lemma_field_round_trip::<Option<Json>>(v, "TaskHandle"@);
        assert(spec_field::<Option<Vec<Event>>>(w, "Events"@)
            == spec_field::<Option<Vec<Event>>>(v, "Events"@));
        assert(spec_field::<Option<bool>>(w, "Failed"@)
            == spec_field::<Option<bool>>(v, "Failed"@));
        assert(spec_field::<Option<Json>>(w, "FinishedAt"@)
            == spec_field::<Option<Json>>(v, "FinishedAt"@));
        assert(spec_field::<Option<String>>(w, "LastRestart"@)
            == spec_field::<Option<String>>(v, "LastRestart"@));
        assert(spec_field::<i64>(w, "Restarts"@) == spec_field::<i64>(v, "Restarts"@));
        assert(spec_field::<Option<String>>(w, "StartedAt"@)
            == spec_field::<Option<String>>(v, "StartedAt"@));
        assert(spec_field::<RunningStatus>(w, "State"@)
            == spec_field::<RunningStatus>(v, "State"@));
        assert(spec_field::<Option<Json>>(w, "TaskHandle"@)
            == spec_field::<Option<Json>>(v, "TaskHandle"@));
    }

    proof fn lemma_absent_round_trip() {
    }

    proof fn lemma_writable(v: JsonView) {
        lemma_field_writable::<Option<Vec<Event>>>(v, "Events"@);
        lemma_field_writable::<Option<bool>>(v, "Failed"@);
        lemma_field_writable::<Option<Json>>(v, "FinishedAt"@);
        lemma_field_writable::<Option<String>>(v, "LastRestart"@);
        lemma_field_writable::<i64>(v, "Restarts"@);
        lemma_field_writable::<Option<String>>(v, "StartedAt"@);
        lemma_field_writable::<RunningStatus>(v, "State"@);
        lemma_field_writable::<Option<Json>>(v, "TaskHandle"@);
        lemma_task_state_written(Self::spec_decode(v)->Ok_0);
    }
}

/// Whatever word stands as the status of a task state, it is read: where an object
/// is read as a task state, it still is with any word written over its status, and
/// the word decides nothing but the status.
pub proof fn lemma_task_state_any_status(m: Members, word: Seq<char>)
    requires
        TaskState::spec_decode(JsonView::Object(m)) is Ok,
    ensures
        TaskState::spec_decode(JsonView::Object(m.push(("State"@, JsonView::Str(word))))) == Ok::<
            TaskStateView,
            DecodeError,
        >(
            TaskStateView {
                state: status_of(word),
                ..TaskState::spec_decode(JsonView::Object(m))->Ok_0
            },
        ),
{
    broadcast use lemma_lookup_push;

    let v = JsonView::Object(m);
    let w = JsonView::Object(m.push(("State"@, JsonView::Str(word))));
    lemma_task_state_names();
    assert(spec_field::<Option<Vec<Event>>>(w, "Events"@)
        == spec_field::<Option<Vec<Event>>>(v, "Events"@));
    assert(spec_field::<Option<bool>>(w, "Failed"@) == spec_field::<Option<bool>>(v, "Failed"@));
    assert(spec_field::<Option<Json>>(w, "FinishedAt"@)
        == spec_field::<Option<Json>>(v, "FinishedAt"@));
    assert(spec_field::<Option<String>>(w, "LastRestart"@)
        == spec_field::<Option<String>>(v, "LastRestart"@));
    assert(spec_field::<i64>(w, "Restarts"@) == spec_field::<i64>(v, "Restarts"@));
    assert(spec_field::<Option<String>>(w, "StartedAt"@)
        == spec_field::<Option<String>>(v, "StartedAt"@));
    assert(spec_field::<Option<Json>>(w, "TaskHandle"@)
        == spec_field::<Option<Json>>(v, "TaskHandle"@));
}

} // verus!
