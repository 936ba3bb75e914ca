//! The wire schema of task groups and their policies.

use vstd::prelude::*;
use crate::jobs::{
    Consul, ConsulView, EphemeralDisk, EphemeralDiskView, Migrate, MigrateView, Network,
    ReschedulePolicy, ReschedulePolicyView, RestartPolicy, Task, TaskGroup, TaskGroupView, Update,
    UpdateView,
};
use crate::json::{members_view, Json, JsonView};
use crate::text::{lemma_writable_empty, lemma_writable_object, lemma_writable_push, writable};
use crate::wire::{
    field, lemma_field_round_trip, lemma_field_writable, lemma_lookup_empty, lemma_lookup_push,
    lookup, put, spec_field, DecodeError, Wire,
};

verus! {

/// How the names of the fields of a [`Consul`] are spelled: of each its length
/// and, where another is as long, a letter in which the two differ.
proof fn lemma_consul_names()
    ensures
        "Namespace"@.len() == 9,
{
    reveal_strlit("Namespace");
}

/// Each member of a written [`Consul`] is found under its name.
proof fn lemma_consul_members(x: ConsulView)
    ensures
        lookup(Consul::spec_encode(x)->Object_0, "Namespace"@) == Some(
            String::spec_encode(x.namespace),
        ),
{
    broadcast use {lemma_lookup_push, lemma_lookup_empty};

    lemma_consul_names();
}

/// A [`Consul`] is written as a tree that can be written as text where each of
/// its fields is.
proof fn lemma_consul_written(x: ConsulView)
    requires
        writable(String::spec_encode(x.namespace)),
    ensures
        writable(Consul::spec_encode(x)),
{
    broadcast use {
        lemma_writable_push,
        lemma_writable_empty,
        lemma_lookup_push,
        lemma_lookup_empty,
    };

    lemma_consul_names();
    lemma_writable_object(Consul::spec_encode(x)->Object_0);
}

impl Wire for Consul {
    open spec fn spec_decode(v: JsonView) -> Result<ConsulView, DecodeError> {
        if let Err(e) = spec_field::<String>(v, "Namespace"@) {
            Err(e)
        } else {
            Ok(
                ConsulView {
                    namespace: spec_field::<String>(v, "Namespace"@)->Ok_0,
                },
            )
        }
    }

    open spec fn spec_absent() -> Result<ConsulView, DecodeError> {
        Err(DecodeError::MissingField)
    }

    open spec fn spec_encode(x: ConsulView) -> JsonView {
        JsonView::Object(
            Seq::empty()
                .push(("Namespace"@, String::spec_encode(x.namespace))),
        )
    }

    fn decode(v: &Json) -> (r: Result<Consul, DecodeError>) {
        let namespace = field::<String>(v, "Namespace")?;
        Ok(Consul { namespace })
    }

    fn absent() -> (r: Result<Consul, DecodeError>) {
        Err(DecodeError::MissingField)
    }

    fn encode(&self) -> (r: Json) {
        let mut members: Vec<(String, Json)> = Vec::new();
        proof {
            assert(members_view(members@) =~= Seq::empty());
        }
        put(&mut members, "Namespace", self.namespace.encode());
        Json::Object(members)
    }

    proof fn lemma_round_trip(v: JsonView) {
        let x = Self::spec_decode(v)->Ok_0;
        let w = Self::spec_encode(x);
        lemma_consul_members(x);
        lemma_field_round_trip::<String>(v, "Namespace"@);
        assert(spec_field::<String>(w, "Namespace"@) == spec_field::<String>(v, "Namespace"@));
    }

    proof fn lemma_absent_round_trip() {
    }

    proof fn lemma_writable(v: JsonView) {
        lemma_field_writable::<String>(v, "Namespace"@);
        lemma_consul_written(Self::spec_decode(v)->Ok_0);
    }
}

/// How the names of the fields of a [`EphemeralDisk`] are spelled: of each its length
/// and, where another is as long, a letter in which the two differ.
proof fn lemma_ephemeral_disk_names()
    ensures
        "Migrate"@.len() == 7,
        "SizeMB"@.len() == 6 && "SizeMB"@[1] == 'i',
        "Sticky"@.len() == 6 && "Sticky"@[1] == 't',
{
    reveal_strlit("Migrate");
    reveal_strlit("SizeMB");
    reveal_strlit("Sticky");
}

/// Each member of a written [`EphemeralDisk`] is found under its name.
proof fn lemma_ephemeral_disk_members(x: EphemeralDiskView)
    ensures
        lookup(EphemeralDisk::spec_encode(x)->Object_0, "Migrate"@) == Some(
            bool::spec_encode(x.migrate),
        ),
        lookup(EphemeralDisk::spec_encode(x)->Object_0, "SizeMB"@) == Some(
            i64::spec_encode(x.size_mb),
        ),
        lookup(EphemeralDisk::spec_encode(x)->Object_0, "Sticky"@) == Some(
            bool::spec_encode(x.sticky),
        ),
{
    broadcast use {lemma_lookup_push, lemma_lookup_empty};

    lemma_ephemeral_disk_names();
}

/// A [`EphemeralDisk`] is written as a tree that can be written as text where each of
/// its fields is.
proof fn lemma_ephemeral_disk_written(x: EphemeralDiskView)
    requires
        writable(bool::spec_encode(x.migrate)),
        writable(i64::spec_encode(x.size_mb)),
        writable(bool::spec_encode(x.sticky)),
    ensures
        writable(EphemeralDisk::spec_encode(x)),
{
    broadcast use {
        lemma_writable_push,
        lemma_writable_empty,
        lemma_lookup_push,
        lemma_lookup_empty,
    };

    lemma_ephemeral_disk_names();
    lemma_writable_object(EphemeralDisk::spec_encode(x)->Object_0);
}

impl Wire for EphemeralDisk {
    open spec fn spec_decode(v: JsonView) -> Result<EphemeralDiskView, DecodeError> {
        if let Err(e) = spec_field::<bool>(v, "Migrate"@) {
            Err(e)
        } else if let Err(e) = spec_field::<i64>(v, "SizeMB"@) {
            Err(e)
        } else if let Err(e) = spec_field::<bool>(v, "Sticky"@) {
            Err(e)
        } else {
            Ok(
                EphemeralDiskView {
                    migrate: spec_field::<bool>(v, "Migrate"@)->Ok_0,
                    size_mb: spec_field::<i64>(v, "SizeMB"@)->Ok_0,
                    sticky: spec_field::<bool>(v, "Sticky"@)->Ok_0,
                },
            )
        }
    }

    open spec fn spec_absent() -> Result<EphemeralDiskView, DecodeError> {
        Err(DecodeError::MissingField)
    }

    open spec fn spec_encode(x: EphemeralDiskView) -> JsonView {
        JsonView::Object(
            Seq::empty()
                .push(("Migrate"@, bool::spec_encode(x.migrate)))
                .push(("SizeMB"@, i64::spec_encode(x.size_mb)))
                .push(("Sticky"@, bool::spec_encode(x.sticky))),
        )
    }

    fn decode(v: &Json) -> (r: Result<EphemeralDisk, DecodeError>) {
        let migrate = field::<bool>(v, "Migrate")?;
        let size_mb = field::<i64>(v, "SizeMB")?;
        let sticky = field::<bool>(v, "Sticky")?;
        Ok(EphemeralDisk { migrate, size_mb, sticky })
    }

    fn absent() -> (r: Result<EphemeralDisk, DecodeError>) {
        Err(DecodeError::MissingField)
    }

    fn encode(&self) -> (r: Json) {
        let mut members: Vec<(String, Json)> = Vec::new();
        proof {
            assert(members_view(members@) =~= Seq::empty());
        }
        put(&mut members, "Migrate", self.migrate.encode());
        put(&mut members, "SizeMB", self.size_mb.encode());
        put(&mut members, "Sticky", self.sticky.encode());
        Json::Object(members)
    }

    proof fn lemma_round_trip(v: JsonView) {
        let x = Self::spec_decode(v)->Ok_0;
        let w = Self::spec_encode(x);
        lemma_ephemeral_disk_members(x);
        lemma_field_round_trip::<bool>(v, "Migrate"@);
        lemma_field_round_trip::<i64>(v, "SizeMB"@);
        lemma_field_round_trip::<bool>(v, "Sticky"@);
        assert(spec_field::<bool>(w, "Migrate"@) == spec_field::<bool>(v, "Migrate"@));
        assert(spec_field::<i64>(w, "SizeMB"@) == spec_field::<i64>(v, "SizeMB"@));
        assert(spec_field::<bool>(w, "Sticky"@) == spec_field::<bool>(v, "Sticky"@));
    }

    proof fn lemma_absent_round_trip() {
    }

    proof fn lemma_writable(v: JsonView) {
        lemma_field_writable::<bool>(v, "Migrate"@);
        lemma_field_writable::<i64>(v, "SizeMB"@);
        lemma_field_writable::<bool>(v, "Sticky"@);
        lemma_ephemeral_disk_written(Self::spec_decode(v)->Ok_0);
    }
}

/// How the names of the fields of a [`Migrate`] are spelled: of each its length
/// and, where another is as long, a letter in which the two differ.
proof fn lemma_migrate_names()
    ensures
        "HealthCheck"@.len() == 11 && "HealthCheck"@[0] == 'H',
        "HealthyDeadline"@.len() == 15,
        "MaxParallel"@.len() == 11 && "MaxParallel"@[0] == 'M',
        "MinHealthyTime"@.len() == 14,
{
    reveal_strlit("HealthCheck");
    reveal_strlit("HealthyDeadline");
    reveal_strlit("MaxParallel");
    reveal_strlit("MinHealthyTime");
}

/// Each member of a written [`Migrate`] is found under its name.
proof fn lemma_migrate_members(x: MigrateView)
    ensures
        lookup(Migrate::spec_encode(x)->Object_0, "HealthCheck"@) == Some(
            String::spec_encode(x.health_check),
        ),
        lookup(Migrate::spec_encode(x)->Object_0, "HealthyDeadline"@) == Some(
            i64::spec_encode(x.healthy_deadline),
        ),
        lookup(Migrate::spec_encode(x)->Object_0, "MaxParallel"@) == Some(
            i64::spec_encode(x.max_parallel),
        ),
        lookup(Migrate::spec_encode(x)->Object_0, "MinHealthyTime"@) == Some(
            i64::spec_encode(x.min_healthy_time),
        ),
{
    broadcast use {lemma_lookup_push, lemma_lookup_empty};

    lemma_migrate_names();
}

/// A [`Migrate`] is written as a tree that can be written as text where each of
/// its fields is.
proof fn lemma_migrate_written(x: MigrateView)
    requires
        writable(String::spec_encode(x.health_check)),
        writable(i64::spec_encode(x.healthy_deadline)),
        writable(i64::spec_encode(x.max_parallel)),
        writable(i64::spec_encode(x.min_healthy_time)),
    ensures
        writable(Migrate::spec_encode(x)),
{
    broadcast use {
        lemma_writable_push,
        lemma_writable_empty,
        lemma_lookup_push,
        lemma_lookup_empty,
    };

    lemma_migrate_names();
    lemma_writable_object(Migrate::spec_encode(x)->Object_0);
}

impl Wire for Migrate {
    open spec fn spec_decode(v: JsonView) -> Result<MigrateView, DecodeError> {
        if let Err(e) = spec_field::<String>(v, "HealthCheck"@) {
            Err(e)
        } else if let Err(e) = spec_field::<i64>(v, "HealthyDeadline"@) {
            Err(e)
        } else if let Err(e) = spec_field::<i64>(v, "MaxParallel"@) {
            Err(e)
        } else if let Err(e) = spec_field::<i64>(v, "MinHealthyTime"@) {
            Err(e)
        } else {
            Ok(
                MigrateView {
                    health_check: spec_field::<String>(v, "HealthCheck"@)->Ok_0,
                    healthy_deadline: spec_field::<i64>(v, "HealthyDeadline"@)->Ok_0,
                    max_parallel: spec_field::<i64>(v, "MaxParallel"@)->Ok_0,
                    min_healthy_time: spec_field::<i64>(v, "MinHealthyTime"@)->Ok_0,
                },
            )
        }
    }

    open spec fn spec_absent() -> Result<MigrateView, DecodeError> {
        Err(DecodeError::MissingField)
    }

    open spec fn spec_encode(x: MigrateView) -> JsonView {
        JsonView::Object(
            Seq::empty()
                .push(("HealthCheck"@, String::spec_encode(x.health_check)))
                .push(("HealthyDeadline"@, i64::spec_encode(x.healthy_deadline)))
                .push(("MaxParallel"@, i64::spec_encode(x.max_parallel)))
                .push(("MinHealthyTime"@, i64::spec_encode(x.min_healthy_time))),
        )
    }

    fn decode(v: &Json) -> (r: Result<Migrate, DecodeError>) {
        let health_check = field::<String>(v, "HealthCheck")?;
        let healthy_deadline = field::<i64>(v, "HealthyDeadline")?;
        let max_parallel = field::<i64>(v, "MaxParallel")?;
        let min_healthy_time = field::<i64>(v, "MinHealthyTime")?;
        Ok(Migrate { health_check, healthy_deadline, max_parallel, min_healthy_time })
    }

    fn absent() -> (r: Result<Migrate, DecodeError>) {
        Err(DecodeError::MissingField)
    }

    fn encode(&self) -> (r: Json) {
        let mut members: Vec<(String, Json)> = Vec::new();
        proof {
            assert(members_view(members@) =~= Seq::empty());
        }
        put(&mut members, "HealthCheck", self.health_check.encode());
        put(&mut members, "HealthyDeadline", self.healthy_deadline.encode());
        put(&mut members, "MaxParallel", self.max_parallel.encode());
        put(&mut members, "MinHealthyTime", self.min_healthy_time.encode());
        Json::Object(members)
    }

    proof fn lemma_round_trip(v: JsonView) {
        let x = Self::spec_decode(v)->Ok_0;
        let w = Self::spec_encode(x);
        lemma_migrate_members(x);
        lemma_field_round_trip::<String>(v, "HealthCheck"@);
        lemma_field_round_trip::<i64>(v, "HealthyDeadline"@);
        lemma_field_round_trip::<i64>(v, "MaxParallel"@);
        lemma_field_round_trip::<i64>(v, "MinHealthyTime"@);
        assert(spec_field::<String>(w, "HealthCheck"@) == spec_field::<String>(v, "HealthCheck"@));
        assert(spec_field::<i64>(w, "HealthyDeadline"@)
            == spec_field::<i64>(v, "HealthyDeadline"@));
        assert(spec_field::<i64>(w, "MaxParallel"@) == spec_field::<i64>(v, "MaxParallel"@));
        assert(spec_field::<i64>(w, "MinHealthyTime"@) == spec_field::<i64>(v, "MinHealthyTime"@));
    }

    proof fn lemma_absent_round_trip() {
    }

    proof fn lemma_writable(v: JsonView) {
        lemma_field_writable::<String>(v, "HealthCheck"@);
        lemma_field_writable::<i64>(v, "HealthyDeadline"@);
        lemma_field_writable::<i64>(v, "MaxParallel"@);
        lemma_field_writable::<i64>(v, "MinHealthyTime"@);
        lemma_migrate_written(Self::spec_decode(v)->Ok_0);
    }
}

/// How the names of the fields of a [`ReschedulePolicy`] are spelled: of each its length
/// and, where another is as long, a letter in which the two differ.
proof fn lemma_reschedule_policy_names()
    ensures
        "Attempts"@.len() == 8 && "Attempts"@[0] == 'A',
        "Delay"@.len() == 5,
        "DelayFunction"@.len() == 13,
        "Interval"@.len() == 8 && "Interval"@[0] == 'I',
        "MaxDelay"@.len() == 8 && "MaxDelay"@[0] == 'M',
        "Unlimited"@.len() == 9,
{
    reveal_strlit("Attempts");
    reveal_strlit("Delay");
    reveal_strlit("DelayFunction");
    reveal_strlit("Interval");
    reveal_strlit("MaxDelay");
    reveal_strlit("Unlimited");
}

/// Each member of a written [`ReschedulePolicy`] is found under its name.
proof fn lemma_reschedule_policy_members(x: ReschedulePolicyView)
    ensures
        lookup(ReschedulePolicy::spec_encode(x)->Object_0, "Attempts"@) == Some(
            i64::spec_encode(x.attempts),
        ),
        lookup(ReschedulePolicy::spec_encode(x)->Object_0, "Delay"@) == Some(
            i64::spec_encode(x.delay),
        ),
        lookup(ReschedulePolicy::spec_encode(x)->Object_0, "DelayFunction"@) == Some(
            <Option<String>>::spec_encode(x.delay_function),
        ),
        lookup(ReschedulePolicy::spec_encode(x)->Object_0, "Interval"@) == Some(
            i64::spec_encode(x.interval),
        ),
        lookup(ReschedulePolicy::spec_encode(x)->Object_0, "MaxDelay"@) == Some(
            i64::spec_encode(x.max_delay),
        ),
        lookup(ReschedulePolicy::spec_encode(x)->Object_0, "Unlimited"@) == Some(
            bool::spec_encode(x.unlimited),
        ),
{
    broadcast use {lemma_lookup_push, lemma_lookup_empty};

    lemma_reschedule_policy_names();
}

/// A [`ReschedulePolicy`] is written as a tree that can be written as text where each of
/// its fields is.
proof fn lemma_reschedule_policy_written(x: ReschedulePolicyView)
    requires
        writable(i64::spec_encode(x.attempts)),
        writable(i64::spec_encode(x.delay)),
        writable(<Option<String>>::spec_encode(x.delay_function)),
        writable(i64::spec_encode(x.interval)),
        writable(i64::spec_encode(x.max_delay)),
        writable(bool::spec_encode(x.unlimited)),
    ensures
        writable(ReschedulePolicy::spec_encode(x)),
{
    broadcast use {
        lemma_writable_push,
        lemma_writable_empty,
        lemma_lookup_push,
        lemma_lookup_empty,
    };

    lemma_reschedule_policy_names();
    lemma_writable_object(ReschedulePolicy::spec_encode(x)->Object_0);
}

impl Wire for ReschedulePolicy {
    open spec fn spec_decode(v: JsonView) -> Result<ReschedulePolicyView, DecodeError> {
        if let Err(e) = spec_field::<i64>(v, "Attempts"@) {
            Err(e)
        } else if let Err(e) = spec_field::<i64>(v, "Delay"@) {
            Err(e)
        } else if let Err(e) = spec_field::<Option<String>>(v, "DelayFunction"@) {
            Err(e)
        } else if let Err(e) = spec_field::<i64>(v, "Interval"@) {
            Err(e)
        } else if let Err(e) = spec_field::<i64>(v, "MaxDelay"@) {
            Err(e)
        } else if let Err(e) = spec_field::<bool>(v, "Unlimited"@) {
            Err(e)
        } else {
            Ok(
                ReschedulePolicyView {
                    attempts: spec_field::<i64>(v, "Attempts"@)->Ok_0,
                    delay: spec_field::<i64>(v, "Delay"@)->Ok_0,
                    delay_function: spec_field::<Option<String>>(v, "DelayFunction"@)->Ok_0,
                    interval: spec_field::<i64>(v, "Interval"@)->Ok_0,
                    max_delay: spec_field::<i64>(v, "MaxDelay"@)->Ok_0,
                    unlimited: spec_field::<bool>(v, "Unlimited"@)->Ok_0,
                },
            )
        }
    }

    open spec fn spec_absent() -> Result<ReschedulePolicyView, DecodeError> {
        Err(DecodeError::MissingField)
    }

    open spec fn spec_encode(x: ReschedulePolicyView) -> JsonView {
        JsonView::Object(
            Seq::empty()
                .push(("Attempts"@, i64::spec_encode(x.attempts)))
                .push(("Delay"@, i64::spec_encode(x.delay)))
                .push(("DelayFunction"@, <Option<String>>::spec_encode(x.delay_function)))
                .push(("Interval"@, i64::spec_encode(x.interval)))
                .push(("MaxDelay"@, i64::spec_encode(x.max_delay)))
                .push(("Unlimited"@, bool::spec_encode(x.unlimited))),
        )
    }

    fn decode(v: &Json) -> (r: Result<ReschedulePolicy, DecodeError>) {
        let attempts = field::<i64>(v, "Attempts")?;
        let delay = field::<i64>(v, "Delay")?;
        let delay_function = field::<Option<String>>(v, "DelayFunction")?;
        let interval = field::<i64>(v, "Interval")?;
        let max_delay = field::<i64>(v, "MaxDelay")?;
        let unlimited = field::<bool>(v, "Unlimited")?;
        Ok(ReschedulePolicy { attempts, delay, delay_function, interval, max_delay, unlimited })
    }

    fn absent() -> (r: Result<ReschedulePolicy, DecodeError>) {
        Err(DecodeError::MissingField)
    }

    fn encode(&self) -> (r: Json) {
        let mut members: Vec<(String, Json)> = Vec::new();
        proof {
            assert(members_view(members@) =~= Seq::empty());
        }
        put(&mut members, "Attempts", self.attempts.encode());
        put(&mut members, "Delay", self.delay.encode());
        put(&mut members, "DelayFunction", self.delay_function.encode());
        put(&mut members, "Interval", self.interval.encode());
        put(&mut members, "MaxDelay", self.max_delay.encode());
        put(&mut members, "Unlimited", self.unlimited.encode());
        Json::Object(members)
    }

    proof fn lemma_round_trip(v: JsonView) {
        let x = Self::spec_decode(v)->Ok_0;
        let w = Self::spec_encode(x);
        lemma_reschedule_policy_members(x);
        lemma_field_round_trip::<i64>(v, "Attempts"@);
        lemma_field_round_trip::<i64>(v, "Delay"@);
        lemma_field_round_trip::<Option<String>>(v, "DelayFunction"@);
        lemma_field_round_trip::<i64>(v, "Interval"@);
        lemma_field_round_trip::<i64>(v, "MaxDelay"@);
        lemma_field_round_trip::<bool>(v, "Unlimited"@);
        assert(spec_field::<i64>(w, "Attempts"@) == spec_field::<i64>(v, "Attempts"@));
        assert(spec_field::<i64>(w, "Delay"@) == spec_field::<i64>(v, "Delay"@));
        assert(spec_field::<Option<String>>(w, "DelayFunction"@)
            == spec_field::<Option<String>>(v, "DelayFunction"@));
        assert(spec_field::<i64>(w, "Interval"@) == spec_field::<i64>(v, "Interval"@));
        assert(spec_field::<i64>(w, "MaxDelay"@) == spec_field::<i64>(v, "MaxDelay"@));
        assert(spec_field::<bool>(w, "Unlimited"@) == spec_field::<bool>(v, "Unlimited"@));
    }

    proof fn lemma_absent_round_trip() {
    }

    proof fn lemma_writable(v: JsonView) {
        lemma_field_writable::<i64>(v, "Attempts"@);
        lemma_field_writable::<i64>(v, "Delay"@);
        lemma_field_writable::<Option<String>>(v, "DelayFunction"@);
        lemma_field_writable::<i64>(v, "Interval"@);
        lemma_field_writable::<i64>(v, "MaxDelay"@);
        lemma_field_writable::<bool>(v, "Unlimited"@);
        lemma_reschedule_policy_written(Self::spec_decode(v)->Ok_0);
    }
}

/// How the names of the fields of a [`Update`] are spelled: of each its length
/// and, where another is as long, a letter in which the two differ.
proof fn lemma_update_names()
    ensures
        "AutoPromote"@.len() == 11 && "AutoPromote"@[0] == 'A',
        "AutoRevert"@.len() == 10,
        "Canary"@.len() == 6,
        "HealthCheck"@.len() == 11 && "HealthCheck"@[0] == 'H',
        "HealthyDeadline"@.len() == 15,
        "MaxParallel"@.len() == 11 && "MaxParallel"@[0] == 'M',
        "MinHealthyTime"@.len() == 14,
        "ProgressDeadline"@.len() == 16,
        "Stagger"@.len() == 7,
{
    reveal_strlit("AutoPromote");
    reveal_strlit("AutoRevert");
    reveal_strlit("Canary");
    reveal_strlit("HealthCheck");
    reveal_strlit("HealthyDeadline");
    reveal_strlit("MaxParallel");
    reveal_strlit("MinHealthyTime");
    reveal_strlit("ProgressDeadline");
    reveal_strlit("Stagger");
}

/// Each member of a written [`Update`] is found under its name.
proof fn lemma_update_members(x: UpdateView)
    ensures
        lookup(Update::spec_encode(x)->Object_0, "AutoPromote"@) == Some(
            bool::spec_encode(x.auto_promote),
        ),
        lookup(Update::spec_encode(x)->Object_0, "AutoRevert"@) == Some(
            bool::spec_encode(x.auto_revert),
        ),
        lookup(Update::spec_encode(x)->Object_0, "Canary"@) == Some(
            i64::spec_encode(x.canary),
        ),
        lookup(Update::spec_encode(x)->Object_0, "HealthCheck"@) == Some(
            String::spec_encode(x.health_check),
        ),
        lookup(Update::spec_encode(x)->Object_0, "HealthyDeadline"@) == Some(
            i64::spec_encode(x.healthy_deadline),
        ),
        lookup(Update::spec_encode(x)->Object_0, "MaxParallel"@) == Some(
            i64::spec_encode(x.max_parallel),
        ),
        lookup(Update::spec_encode(x)->Object_0, "MinHealthyTime"@) == Some(
            i64::spec_encode(x.min_healthy_time),
        ),
        lookup(Update::spec_encode(x)->Object_0, "ProgressDeadline"@) == Some(
            i64::spec_encode(x.progress_deadline),
        ),
        lookup(Update::spec_encode(x)->Object_0, "Stagger"@) == Some(
            i64::spec_encode(x.stagger),
        ),
{
    broadcast use {lemma_lookup_push, lemma_lookup_empty};

    lemma_update_names();
}

/// A [`Update`] is written as a tree that can be written as text where each of
/// its fields is.
proof fn lemma_update_written(x: UpdateView)
    requires
        writable(bool::spec_encode(x.auto_promote)),
        writable(bool::spec_encode(x.auto_revert)),
        writable(i64::spec_encode(x.canary)),
        writable(String::spec_encode(x.health_check)),
        writable(i64::spec_encode(x.healthy_deadline)),
        writable(i64::spec_encode(x.max_parallel)),
        writable(i64::spec_encode(x.min_healthy_time)),
        writable(i64::spec_encode(x.progress_deadline)),
        writable(i64::spec_encode(x.stagger)),
    ensures
        writable(Update::spec_encode(x)),
{
    broadcast use {
        lemma_writable_push,
        lemma_writable_empty,
        lemma_lookup_push,
        lemma_lookup_empty,
    };

    lemma_update_names();
    lemma_writable_object(Update::spec_encode(x)->Object_0);
}

impl Wire for Update {
    open spec fn spec_decode(v: JsonView) -> Result<UpdateView, DecodeError> {
        if let Err(e) = spec_field::<bool>(v, "AutoPromote"@) {
            Err(e)
        } else if let Err(e) = spec_field::<bool>(v, "AutoRevert"@) {
            Err(e)
        } else if let Err(e) = spec_field::<i64>(v, "Canary"@) {
            Err(e)
        } else if let Err(e) = spec_field::<String>(v, "HealthCheck"@) {
            Err(e)
        } else if let Err(e) = spec_field::<i64>(v, "HealthyDeadline"@) {
            Err(e)
        } else if let Err(e) = spec_field::<i64>(v, "MaxParallel"@) {
            Err(e)
        } else if let Err(e) = spec_field::<i64>(v, "MinHealthyTime"@) {
            Err(e)
        } else if let Err(e) = spec_field::<i64>(v, "ProgressDeadline"@) {
            Err(e)
        } else if let Err(e) = spec_field::<i64>(v, "Stagger"@) {
            Err(e)
        } else {
            Ok(
                UpdateView {
                    auto_promote: spec_field::<bool>(v, "AutoPromote"@)->Ok_0,
                    auto_revert: spec_field::<bool>(v, "AutoRevert"@)->Ok_0,
                    canary: spec_field::<i64>(v, "Canary"@)->Ok_0,
                    health_check: spec_field::<String>(v, "HealthCheck"@)->Ok_0,
                    healthy_deadline: spec_field::<i64>(v, "HealthyDeadline"@)->Ok_0,
                    max_parallel: spec_field::<i64>(v, "MaxParallel"@)->Ok_0,
                    min_healthy_time: spec_field::<i64>(v, "MinHealthyTime"@)->Ok_0,
                    progress_deadline: spec_field::<i64>(v, "ProgressDeadline"@)->Ok_0,
                    stagger: spec_field::<i64>(v, "Stagger"@)->Ok_0,
                },
            )
        }
    }

    open spec fn spec_absent() -> Result<UpdateView, DecodeError> {
        Err(DecodeError::MissingField)
    }

    open spec fn spec_encode(x: UpdateView) -> JsonView {
        JsonView::Object(
            Seq::empty()
                .push(("AutoPromote"@, bool::spec_encode(x.auto_promote)))
                .push(("AutoRevert"@, bool::spec_encode(x.auto_revert)))
                .push(("Canary"@, i64::spec_encode(x.canary)))
                .push(("HealthCheck"@, String::spec_encode(x.health_check)))
                .push(("HealthyDeadline"@, i64::spec_encode(x.healthy_deadline)))
                .push(("MaxParallel"@, i64::spec_encode(x.max_parallel)))
                .push(("MinHealthyTime"@, i64::spec_encode(x.min_healthy_time)))
                .push(("ProgressDeadline"@, i64::spec_encode(x.progress_deadline)))
                .push(("Stagger"@, i64::spec_encode(x.stagger))),
        )
    }

    fn decode(v: &Json) -> (r: Result<Update, DecodeError>) {
        let auto_promote = field::<bool>(v, "AutoPromote")?;
        let auto_revert = field::<bool>(v, "AutoRevert")?;
        let canary = field::<i64>(v, "Canary")?;
        let health_check = field::<String>(v, "HealthCheck")?;
        let healthy_deadline = field::<i64>(v, "HealthyDeadline")?;
        let max_parallel = field::<i64>(v, "MaxParallel")?;
        let min_healthy_time = field::<i64>(v, "MinHealthyTime")?;
        let progress_deadline = field::<i64>(v, "ProgressDeadline")?;
        let stagger = field::<i64>(v, "Stagger")?;
        Ok(Update {
            auto_promote,
            auto_revert,
            canary,
            health_check,
            healthy_deadline,
            max_parallel,
            min_healthy_time,
            progress_deadline,
            stagger,
        })
    }

    fn absent() -> (r: Result<Update, DecodeError>) {
        Err(DecodeError::MissingField)
    }

    fn encode(&self) -> (r: Json) {
        let mut members: Vec<(String, Json)> = Vec::new();
        proof {
            assert(members_view(members@) =~= Seq::empty());
        }
        put(&mut members, "AutoPromote", self.auto_promote.encode());
        put(&mut members, "AutoRevert", self.auto_revert.encode());
        put(&mut members, "Canary", self.canary.encode());
        put(&mut members, "HealthCheck", self.health_check.encode());
        put(&mut members, "HealthyDeadline", self.healthy_deadline.encode());
        put(&mut members, "MaxParallel", self.max_parallel.encode());
        put(&mut members, "MinHealthyTime", self.min_healthy_time.encode());
        put(&mut members, "ProgressDeadline", self.progress_deadline.encode());
        put(&mut members, "Stagger", self.stagger.encode());
        Json::Object(members)
    }

    proof fn lemma_round_trip(v: JsonView) {
        let x = Self::spec_decode(v)->Ok_0;
        let w = Self::spec_encode(x);
        lemma_update_members(x);
        lemma_field_round_trip::<bool>(v, "AutoPromote"@);
        lemma_field_round_trip::<bool>(v, "AutoRevert"@);
        lemma_field_round_trip::<i64>(v, "Canary"@);
        lemma_field_round_trip::<String>(v, "HealthCheck"@);
        lemma_field_round_trip::<i64>(v, "HealthyDeadline"@);
        lemma_field_round_trip::<i64>(v, "MaxParallel"@);
        lemma_field_round_trip::<i64>(v, "MinHealthyTime"@);
        lemma_field_round_trip::<i64>(v, "ProgressDeadline"@);
        lemma_field_round_trip::<i64>(v, "Stagger"@);
        assert(spec_field::<bool>(w, "AutoPromote"@) == spec_field::<bool>(v, "AutoPromote"@));
        assert(spec_field::<bool>(w, "AutoRevert"@) == spec_field::<bool>(v, "AutoRevert"@));
        assert(spec_field::<i64>(w, "Canary"@) == spec_field::<i64>(v, "Canary"@));
        assert(spec_field::<String>(w, "HealthCheck"@) == spec_field::<String>(v, "HealthCheck"@));
        assert(spec_field::<i64>(w, "HealthyDeadline"@)
            == spec_field::<i64>(v, "HealthyDeadline"@));
        assert(spec_field::<i64>(w, "MaxParallel"@) == spec_field::<i64>(v, "MaxParallel"@));
        assert(spec_field::<i64>(w, "MinHealthyTime"@) == spec_field::<i64>(v, "MinHealthyTime"@));
        assert(spec_field::<i64>(w, "ProgressDeadline"@)
            == spec_field::<i64>(v, "ProgressDeadline"@));
        assert(spec_field::<i64>(w, "Stagger"@) == spec_field::<i64>(v, "Stagger"@));
    }

    proof fn lemma_absent_round_trip() {
    }

    proof fn lemma_writable(v: JsonView) {
        lemma_field_writable::<bool>(v, "AutoPromote"@);
        lemma_field_writable::<bool>(v, "AutoRevert"@);
        lemma_field_writable::<i64>(v, "Canary"@);
        lemma_field_writable::<String>(v, "HealthCheck"@);
        lemma_field_writable::<i64>(v, "HealthyDeadline"@);
        lemma_field_writable::<i64>(v, "MaxParallel"@);
        lemma_field_writable::<i64>(v, "MinHealthyTime"@);
        lemma_field_writable::<i64>(v, "ProgressDeadline"@);
        lemma_field_writable::<i64>(v, "Stagger"@);
        lemma_update_written(Self::spec_decode(v)->Ok_0);
    }
}

/// How the names of the fields of a [`TaskGroup`] are spelled: of each its length
/// and, where another is as long, a letter in which the two differ.
proof fn lemma_task_group_names()
    ensures
        "Affinities"@.len() == 10,
        "Constraints"@.len() == 11,
        "Consul"@.len() == 6 && "Consul"@[0] == 'C',
        "Count"@.len() == 5 && "Count"@[0] == 'C',
        "EphemeralDisk"@.len() == 13 && "EphemeralDisk"@[0] == 'E',
        "Meta"@.len() == 4 && "Meta"@[0] == 'M',
        "Migrate"@.len() == 7 && "Migrate"@[0] == 'M',
        "Name"@.len() == 4 && "Name"@[0] == 'N',
        "Networks"@.len() == 8 && "Networks"@[0] == 'N',
        "ReschedulePolicy"@.len() == 16,
        "RestartPolicy"@.len() == 13 && "RestartPolicy"@[0] == 'R',
        "Scaling"@.len() == 7 && "Scaling"@[0] == 'S' && "Scaling"@[1] == 'c',
        "Services"@.len() == 8 && "Services"@[0] == 'S',
        "ShutdownDelay"@.len() == 13 && "ShutdownDelay"@[0] == 'S',
        "Spreads"@.len() == 7 && "Spreads"@[0] == 'S' && "Spreads"@[1] == 'p',
        "StopAfterClientDisconnect"@.len() == 25,
        "Tasks"@.len() == 5 && "Tasks"@[0] == 'T',
        "Update"@.len() == 6 && "Update"@[0] == 'U',
        "Volumes"@.len() == 7 && "Volumes"@[0] == 'V',
{
    reveal_strlit("Affinities");
    reveal_strlit("Constraints");
    reveal_strlit("Consul");
    reveal_strlit("Count");
    reveal_strlit("EphemeralDisk");
    reveal_strlit("Meta");
    reveal_strlit("Migrate");
    reveal_strlit("Name");
    reveal_strlit("Networks");
    reveal_strlit("ReschedulePolicy");
    reveal_strlit("RestartPolicy");
    reveal_strlit("Scaling");
    reveal_strlit("Services");
    reveal_strlit("ShutdownDelay");
    reveal_strlit("Spreads");
    reveal_strlit("StopAfterClientDisconnect");
    reveal_strlit("Tasks");
    reveal_strlit("Update");
    reveal_strlit("Volumes");
}

/// Each member of a written [`TaskGroup`] is found under its name.
proof fn lemma_task_group_members(x: TaskGroupView)
    ensures
        lookup(TaskGroup::spec_encode(x)->Object_0, "Affinities"@) == Some(
            <Option<Json>>::spec_encode(x.affinities),
        ),
        lookup(TaskGroup::spec_encode(x)->Object_0, "Constraints"@) == Some(
            <Option<Json>>::spec_encode(x.constraints),
        ),
        lookup(TaskGroup::spec_encode(x)->Object_0, "Consul"@) == Some(
            <Option<Consul>>::spec_encode(x.consul),
        ),
        lookup(TaskGroup::spec_encode(x)->Object_0, "Count"@) == Some(
            i64::spec_encode(x.count),
        ),
        lookup(TaskGroup::spec_encode(x)->Object_0, "EphemeralDisk"@) == Some(
            <Option<EphemeralDisk>>::spec_encode(x.ephemeral_disk),
        ),
        lookup(TaskGroup::spec_encode(x)->Object_0, "Meta"@) == Some(
            <Option<Json>>::spec_encode(x.meta),
        ),
        lookup(TaskGroup::spec_encode(x)->Object_0, "Migrate"@) == Some(
            <Option<Migrate>>::spec_encode(x.migrate),
        ),
        lookup(TaskGroup::spec_encode(x)->Object_0, "Name"@) == Some(
            String::spec_encode(x.name),
        ),
        lookup(TaskGroup::spec_encode(x)->Object_0, "Networks"@) == Some(
            <Option<Vec<Network>>>::spec_encode(x.networks),
        ),
        lookup(TaskGroup::spec_encode(x)->Object_0, "ReschedulePolicy"@) == Some(
            <Option<ReschedulePolicy>>::spec_encode(x.reschedule_policy),
        ),
        lookup(TaskGroup::spec_encode(x)->Object_0, "RestartPolicy"@) == Some(
            <Option<RestartPolicy>>::spec_encode(x.restart_policy),
        ),
        lookup(TaskGroup::spec_encode(x)->Object_0, "Scaling"@) == Some(
            <Option<Json>>::spec_encode(x.scaling),
        ),
        lookup(TaskGroup::spec_encode(x)->Object_0, "Services"@) == Some(
            <Option<Json>>::spec_encode(x.services),
        ),
        lookup(TaskGroup::spec_encode(x)->Object_0, "ShutdownDelay"@) == Some(
            <Option<Json>>::spec_encode(x.shutdown_delay),
        ),
        lookup(TaskGroup::spec_encode(x)->Object_0, "Spreads"@) == Some(
            <Option<Json>>::spec_encode(x.spreads),
        ),
        lookup(TaskGroup::spec_encode(x)->Object_0, "StopAfterClientDisconnect"@) == Some(
            <Option<Json>>::spec_encode(x.stop_after_client_disconnect),
        ),
        lookup(TaskGroup::spec_encode(x)->Object_0, "Tasks"@) == Some(
            <Option<Vec<Task>>>::spec_encode(x.tasks),
        ),
        lookup(TaskGroup::spec_encode(x)->Object_0, "Update"@) == Some(
            <Option<Update>>::spec_encode(x.update),
        ),
        lookup(TaskGroup::spec_encode(x)->Object_0, "Volumes"@) == Some(
            <Option<Json>>::spec_encode(x.volumes),
        ),
{
    broadcast use {lemma_lookup_push, lemma_lookup_empty};

    lemma_task_group_names();
}

/// A [`TaskGroup`] is written as a tree that can be written as text where each of
/// its fields is.
proof fn lemma_task_group_written(x: TaskGroupView)
    requires
        writable(<Option<Json>>::spec_encode(x.affinities)),
        writable(<Option<Json>>::spec_encode(x.constraints)),
        writable(<Option<Consul>>::spec_encode(x.consul)),
        writable(i64::spec_encode(x.count)),
        writable(<Option<EphemeralDisk>>::spec_encode(x.ephemeral_disk)),
        writable(<Option<Json>>::spec_encode(x.meta)),
        writable(<Option<Migrate>>::spec_encode(x.migrate)),
        writable(String::spec_encode(x.name)),
        writable(<Option<Vec<Network>>>::spec_encode(x.networks)),
        writable(<Option<ReschedulePolicy>>::spec_encode(x.reschedule_policy)),
        writable(<Option<RestartPolicy>>::spec_encode(x.restart_policy)),
        writable(<Option<Json>>::spec_encode(x.scaling)),
        writable(<Option<Json>>::spec_encode(x.services)),
        writable(<Option<Json>>::spec_encode(x.shutdown_delay)),
        writable(<Option<Json>>::spec_encode(x.spreads)),
        writable(<Option<Json>>::spec_encode(x.stop_after_client_disconnect)),
        writable(<Option<Vec<Task>>>::spec_encode(x.tasks)),
        writable(<Option<Update>>::spec_encode(x.update)),
        writable(<Option<Json>>::spec_encode(x.volumes)),
    ensures
        writable(TaskGroup::spec_encode(x)),
{
    broadcast use {
        lemma_writable_push,
        lemma_writable_empty,
        lemma_lookup_push,
        lemma_lookup_empty,
    };

    lemma_task_group_names();
    lemma_writable_object(TaskGroup::spec_encode(x)->Object_0);
}

impl Wire for TaskGroup {
    open spec fn spec_decode(v: JsonView) -> Result<TaskGroupView, DecodeError> {
        if let Err(e) = spec_field::<Option<Json>>(v, "Affinities"@) {
            Err(e)
        } else if let Err(e) = spec_field::<Option<Json>>(v, "Constraints"@) {
            Err(e)
        } else if let Err(e) = spec_field::<Option<Consul>>(v, "Consul"@) {
            Err(e)
        } else if let Err(e) = spec_field::<i64>(v, "Count"@) {
            Err(e)
        } else if let Err(e) = spec_field::<Option<EphemeralDisk>>(v, "EphemeralDisk"@) {
            Err(e)
        } else if let Err(e) = spec_field::<Option<Json>>(v, "Meta"@) {
            Err(e)
        } else if let Err(e) = spec_field::<Option<Migrate>>(v, "Migrate"@) {
            Err(e)
        } else if let Err(e) = spec_field::<String>(v, "Name"@) {
            Err(e)
        } else if let Err(e) = spec_field::<Option<Vec<Network>>>(v, "Networks"@) {
            Err(e)
        } else if let Err(e) = spec_field::<Option<ReschedulePolicy>>(v, "ReschedulePolicy"@) {
            Err(e)
        } else if let Err(e) = spec_field::<Option<RestartPolicy>>(v, "RestartPolicy"@) {
            Err(e)
        } else if let Err(e) = spec_field::<Option<Json>>(v, "Scaling"@) {
            Err(e)
        } else if let Err(e) = spec_field::<Option<Json>>(v, "Services"@) {
            Err(e)
        } else if let Err(e) = spec_field::<Option<Json>>(v, "ShutdownDelay"@) {
            Err(e)
        } else if let Err(e) = spec_field::<Option<Json>>(v, "Spreads"@) {
            Err(e)
        } else if let Err(e) = spec_field::<Option<Json>>(v, "StopAfterClientDisconnect"@) {
            Err(e)
        } else if let Err(e) = spec_field::<Option<Vec<Task>>>(v, "Tasks"@) {
            Err(e)
        } else if let Err(e) = spec_field::<Option<Update>>(v, "Update"@) {
            Err(e)
        } else if let Err(e) = spec_field::<Option<Json>>(v, "Volumes"@) {
            Err(e)
        } else {
            Ok(
                TaskGroupView {
                    affinities: spec_field::<Option<Json>>(v, "Affinities"@)->Ok_0,
                    constraints: spec_field::<Option<Json>>(v, "Constraints"@)->Ok_0,
                    consul: spec_field::<Option<Consul>>(v, "Consul"@)->Ok_0,
                    count: spec_field::<i64>(v, "Count"@)->Ok_0,
                    ephemeral_disk: spec_field::<Option<EphemeralDisk>>(v, "EphemeralDisk"@)->Ok_0,
                    meta: spec_field::<Option<Json>>(v, "Meta"@)->Ok_0,
                    migrate: spec_field::<Option<Migrate>>(v, "Migrate"@)->Ok_0,
                    name: spec_field::<String>(v, "Name"@)->Ok_0,
                    networks: spec_field::<Option<Vec<Network>>>(v, "Networks"@)->Ok_0,
                    reschedule_policy: spec_field::<Option<ReschedulePolicy>>(
                        v, "ReschedulePolicy"@,
                    )->Ok_0,
                    restart_policy: spec_field::<Option<RestartPolicy>>(v, "RestartPolicy"@)->Ok_0,
                    scaling: spec_field::<Option<Json>>(v, "Scaling"@)->Ok_0,
                    services: spec_field::<Option<Json>>(v, "Services"@)->Ok_0,
                    shutdown_delay: spec_field::<Option<Json>>(v, "ShutdownDelay"@)->Ok_0,
                    spreads: spec_field::<Option<Json>>(v, "Spreads"@)->Ok_0,
                    stop_after_client_disconnect: spec_field::<Option<Json>>(
                        v, "StopAfterClientDisconnect"@,
                    )->Ok_0,
                    tasks: spec_field::<Option<Vec<Task>>>(v, "Tasks"@)->Ok_0,
                    update: spec_field::<Option<Update>>(v, "Update"@)->Ok_0,
                    volumes: spec_field::<Option<Json>>(v, "Volumes"@)->Ok_0,
                },
            )
        }
    }

    open spec fn spec_absent() -> Result<TaskGroupView, DecodeError> {
        Err(DecodeError::MissingField)
    }

    open spec fn spec_encode(x: TaskGroupView) -> JsonView {
        JsonView::Object(
            Seq::empty()
                .push(("Affinities"@, <Option<Json>>::spec_encode(x.affinities)))
                .push(("Constraints"@, <Option<Json>>::spec_encode(x.constraints)))
                .push(("Consul"@, <Option<Consul>>::spec_encode(x.consul)))
                .push(("Count"@, i64::spec_encode(x.count)))
                .push(("EphemeralDisk"@, <Option<EphemeralDisk>>::spec_encode(x.ephemeral_disk)))
                .push(("Meta"@, <Option<Json>>::spec_encode(x.meta)))
                .push(("Migrate"@, <Option<Migrate>>::spec_encode(x.migrate)))
                .push(("Name"@, String::spec_encode(x.name)))
                .push(("Networks"@, <Option<Vec<Network>>>::spec_encode(x.networks)))
                .push(("ReschedulePolicy"@, <Option<ReschedulePolicy>>::spec_encode(x.reschedule_policy)))
                .push(("RestartPolicy"@, <Option<RestartPolicy>>::spec_encode(x.restart_policy)))
                .push(("Scaling"@, <Option<Json>>::spec_encode(x.scaling)))
                .push(("Services"@, <Option<Json>>::spec_encode(x.services)))
                .push(("ShutdownDelay"@, <Option<Json>>::spec_encode(x.shutdown_delay)))
                .push(("Spreads"@, <Option<Json>>::spec_encode(x.spreads)))
                .push(("StopAfterClientDisconnect"@, <Option<Json>>::spec_encode(x.stop_after_client_disconnect)))
                .push(("Tasks"@, <Option<Vec<Task>>>::spec_encode(x.tasks)))
                .push(("Update"@, <Option<Update>>::spec_encode(x.update)))
                .push(("Volumes"@, <Option<Json>>::spec_encode(x.volumes))),
        )
    }

    fn decode(v: &Json) -> (r: Result<TaskGroup, DecodeError>) {
        let affinities = field::<Option<Json>>(v, "Affinities")?;
        let constraints = field::<Option<Json>>(v, "Constraints")?;
        let consul = field::<Option<Consul>>(v, "Consul")?;
        let count = field::<i64>(v, "Count")?;
        let ephemeral_disk = field::<Option<EphemeralDisk>>(v, "EphemeralDisk")?;
        let meta = field::<Option<Json>>(v, "Meta")?;
        let migrate = field::<Option<Migrate>>(v, "Migrate")?;
        let name = field::<String>(v, "Name")?;
        let networks = field::<Option<Vec<Network>>>(v, "Networks")?;
        let reschedule_policy = field::<Option<ReschedulePolicy>>(v, "ReschedulePolicy")?;
        let restart_policy = field::<Option<RestartPolicy>>(v, "RestartPolicy")?;
        let scaling = field::<Option<Json>>(v, "Scaling")?;
        let services = field::<Option<Json>>(v, "Services")?;
        let shutdown_delay = field::<Option<Json>>(v, "ShutdownDelay")?;
        let spreads = field::<Option<Json>>(v, "Spreads")?;
        let stop_after_client_disconnect = field::<Option<Json>>(v, "StopAfterClientDisconnect")?;
        let tasks = field::<Option<Vec<Task>>>(v, "Tasks")?;
        let update = field::<Option<Update>>(v, "Update")?;
        let volumes = field::<Option<Json>>(v, "Volumes")?;
        Ok(TaskGroup {
            affinities,
            constraints,
            consul,
            count,
            ephemeral_disk,
            meta,
            migrate,
            name,
            networks,
            reschedule_policy,
            restart_policy,
            scaling,
            services,
            shutdown_delay,
            spreads,
            stop_after_client_disconnect,
            tasks,
            update,
            volumes,
        })
    }

    fn absent() -> (r: Result<TaskGroup, DecodeError>) {
        Err(DecodeError::MissingField)
    }

    fn encode(&self) -> (r: Json) {
        let mut members: Vec<(String, Json)> = Vec::new();
        proof {
            assert(members_view(members@) =~= Seq::empty());
        }
        put(&mut members, "Affinities", self.affinities.encode());
        put(&mut members, "Constraints", self.constraints.encode());
        put(&mut members, "Consul", self.consul.encode());
        put(&mut members, "Count", self.count.encode());
        put(&mut members, "EphemeralDisk", self.ephemeral_disk.encode());
        put(&mut members, "Meta", self.meta.encode());
        put(&mut members, "Migrate", self.migrate.encode());
        put(&mut members, "Name", self.name.encode());
        put(&mut members, "Networks", self.networks.encode());
        put(&mut members, "ReschedulePolicy", self.reschedule_policy.encode());
        put(&mut members, "RestartPolicy", self.restart_policy.encode());
        put(&mut members, "Scaling", self.scaling.encode());
        put(&mut members, "Services", self.services.encode());
        put(&mut members, "ShutdownDelay", self.shutdown_delay.encode());
        put(&mut members, "Spreads", self.spreads.encode());
        put(&mut members, "StopAfterClientDisconnect", self.stop_after_client_disconnect.encode());
        put(&mut members, "Tasks", self.tasks.encode());
        put(&mut members, "Update", self.update.encode());
        put(&mut members, "Volumes", self.volumes.encode());
        Json::Object(members)
    }

    proof fn lemma_round_trip(v: JsonView) {
        let x = Self::spec_decode(v)->Ok_0;
        let w = Self::spec_encode(x);
        lemma_task_group_members(x);
        lemma_field_round_trip::<Option<Json>>(v, "Affinities"@);
        lemma_field_round_trip::<Option<Json>>(v, "Constraints"@);
        lemma_field_round_trip::<Option<Consul>>(v, "Consul"@);
        lemma_field_round_trip::<i64>(v, "Count"@);
        lemma_field_round_trip::<Option<EphemeralDisk>>(v, "EphemeralDisk"@);
        lemma_field_round_trip::<Option<Json>>(v, "Meta"@);
        lemma_field_round_trip::<Option<Migrate>>(v, "Migrate"@);
        lemma_field_round_trip::<String>(v, "Name"@);
        lemma_field_round_trip::<Option<Vec<Network>>>(v, "Networks"@);
        lemma_field_round_trip::<Option<ReschedulePolicy>>(v, "ReschedulePolicy"@);
        lemma_field_round_trip::<Option<RestartPolicy>>(v, "RestartPolicy"@);
        lemma_field_round_trip::<Option<Json>>(v, "Scaling"@);
        lemma_field_round_trip::<Option<Json>>(v, "Services"@);
        lemma_field_round_trip::<Option<Json>>(v, "ShutdownDelay"@);
        lemma_field_round_trip::<Option<Json>>(v, "Spreads"@);
        lemma_field_round_trip::<Option<Json>>(v, "StopAfterClientDisconnect"@);
        lemma_field_round_trip::<Option<Vec<Task>>>(v, "Tasks"@);
        lemma_field_round_trip::<Option<Update>>(v, "Update"@);
        lemma_field_round_trip::<Option<Json>>(v, "Volumes"@);
        assert(spec_field::<Option<Json>>(w, "Affinities"@)
            == spec_field::<Option<Json>>(v, "Affinities"@));
        assert(spec_field::<Option<Json>>(w, "Constraints"@)
            == spec_field::<Option<Json>>(v, "Constraints"@));
        assert(spec_field::<Option<Consul>>(w, "Consul"@)
            == spec_field::<Option<Consul>>(v, "Consul"@));
        assert(spec_field::<i64>(w, "Count"@) == spec_field::<i64>(v, "Count"@));
        assert(spec_field::<Option<EphemeralDisk>>(w, "EphemeralDisk"@)
            == spec_field::<Option<EphemeralDisk>>(v, "EphemeralDisk"@));
        assert(spec_field::<Option<Json>>(w, "Meta"@) == spec_field::<Option<Json>>(v, "Meta"@));
        assert(spec_field::<Option<Migrate>>(w, "Migrate"@)
            == spec_field::<Option<Migrate>>(v, "Migrate"@));
        assert(spec_field::<String>(w, "Name"@) == spec_field::<String>(v, "Name"@));
        assert(spec_field::<Option<Vec<Network>>>(w, "Networks"@)
            == spec_field::<Option<Vec<Network>>>(v, "Networks"@));
        assert(spec_field::<Option<ReschedulePolicy>>(w, "ReschedulePolicy"@)
            == spec_field::<Option<ReschedulePolicy>>(v, "ReschedulePolicy"@));
        assert(spec_field::<Option<RestartPolicy>>(w, "RestartPolicy"@)
            == spec_field::<Option<RestartPolicy>>(v, "RestartPolicy"@));
        assert(spec_field::<Option<Json>>(w, "Scaling"@)
            == spec_field::<Option<Json>>(v, "Scaling"@));
        assert(spec_field::<Option<Json>>(w, "Services"@)
            == spec_field::<Option<Json>>(v, "Services"@));
        assert(spec_field::<Option<Json>>(w, "ShutdownDelay"@)
            == spec_field::<Option<Json>>(v, "ShutdownDelay"@));
        assert(spec_field::<Option<Json>>(w, "Spreads"@)
            == spec_field::<Option<Json>>(v, "Spreads"@));
        assert(spec_field::<Option<Json>>(w, "StopAfterClientDisconnect"@)
            == spec_field::<Option<Json>>(v, "StopAfterClientDisconnect"@));
        assert(spec_field::<Option<Vec<Task>>>(w, "Tasks"@)
            == spec_field::<Option<Vec<Task>>>(v, "Tasks"@));
        assert(spec_field::<Option<Update>>(w, "Update"@)
            == spec_field::<Option<Update>>(v, "Update"@));
        assert(spec_field::<Option<Json>>(w, "Volumes"@)
            == spec_field::<Option<Json>>(v, "Volumes"@));
    }

    proof fn lemma_absent_round_trip() {
    }

    proof fn lemma_writable(v: JsonView) {
        lemma_field_writable::<Option<Json>>(v, "Affinities"@);
        lemma_field_writable::<Option<Json>>(v, "Constraints"@);
        lemma_field_writable::<Option<Consul>>(v, "Consul"@);
        lemma_field_writable::<i64>(v, "Count"@);
        lemma_field_writable::<Option<EphemeralDisk>>(v, "EphemeralDisk"@);
        lemma_field_writable::<Option<Json>>(v, "Meta"@);
        lemma_field_writable::<Option<Migrate>>(v, "Migrate"@);
        lemma_field_writable::<String>(v, "Name"@);
        lemma_field_writable::<Option<Vec<Network>>>(v, "Networks"@);
        lemma_field_writable::<Option<ReschedulePolicy>>(v, "ReschedulePolicy"@);
        lemma_field_writable::<Option<RestartPolicy>>(v, "RestartPolicy"@);
        lemma_field_writable::<Option<Json>>(v, "Scaling"@);
        lemma_field_writable::<Option<Json>>(v, "Services"@);
        lemma_field_writable::<Option<Json>>(v, "ShutdownDelay"@);
        lemma_field_writable::<Option<Json>>(v, "Spreads"@);
        lemma_field_writable::<Option<Json>>(v, "StopAfterClientDisconnect"@);
        lemma_field_writable::<Option<Vec<Task>>>(v, "Tasks"@);
        lemma_field_writable::<Option<Update>>(v, "Update"@);
        lemma_field_writable::<Option<Json>>(v, "Volumes"@);
        lemma_task_group_written(Self::spec_decode(v)->Ok_0);
    }
}

} // verus!
