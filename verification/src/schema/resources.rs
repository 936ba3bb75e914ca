//! The wire schema of resource requests and grants.

use vstd::prelude::*;
use crate::containers::{
    empty_list, lemma_empty_list_round_trip, lemma_empty_list_writable, lemma_empty_map_round_trip,
    lemma_empty_map_writable,
};
use crate::jobs::{
    AllocatedResources, AllocatedResourcesView, Cpu, CpuView, Device, DevicePlugin,
    DevicePluginView, DeviceView, Memory, MemoryView, Network, Port, Resources, ResourcesView,
    Shared, SharedDevice, SharedDeviceView, SharedResources, SharedResourcesView, SharedView,
};
use crate::json::{members_view, Json, JsonView};
use crate::text::{lemma_writable_empty, lemma_writable_object, lemma_writable_push, writable};
use crate::wire::{
    field, field_or, lemma_field_or_round_trip, lemma_field_or_writable, lemma_field_round_trip,
    lemma_field_writable, lemma_lookup_empty, lemma_lookup_push, lookup, put, spec_field,
    spec_field_or, DecodeError, Wire,
};

verus! {

/// How the names of the fields of a [`Cpu`] are spelled: of each its length
/// and, where another is as long, a letter in which the two differ.
proof fn lemma_cpu_names()
    ensures
        "CpuShares"@.len() == 9,
        "ReservedCores"@.len() == 13,
{
    reveal_strlit("CpuShares");
    reveal_strlit("ReservedCores");
}

/// Each member of a written [`Cpu`] is found under its name.
proof fn lemma_cpu_members(x: CpuView)
    ensures
        lookup(Cpu::spec_encode(x)->Object_0, "CpuShares"@) == Some(
            i64::spec_encode(x.cpu_shares),
        ),
        lookup(Cpu::spec_encode(x)->Object_0, "ReservedCores"@) == Some(
            <Option<Json>>::spec_encode(x.reserved_cores),
        ),
{
    broadcast use {lemma_lookup_push, lemma_lookup_empty};

    lemma_cpu_names();
}

/// A [`Cpu`] is written as a tree that can be written as text where each of
/// its fields is.
proof fn lemma_cpu_written(x: CpuView)
    requires
        writable(i64::spec_encode(x.cpu_shares)),
        writable(<Option<Json>>::spec_encode(x.reserved_cores)),
    ensures
        writable(Cpu::spec_encode(x)),
{
    broadcast use {
        lemma_writable_push,
        lemma_writable_empty,
        lemma_lookup_push,
        lemma_lookup_empty,
    };

    lemma_cpu_names();
    lemma_writable_object(Cpu::spec_encode(x)->Object_0);
}

impl Wire for Cpu {
    open spec fn spec_decode(v: JsonView) -> Result<CpuView, DecodeError> {
        if let Err(e) = spec_field::<i64>(v, "CpuShares"@) {
            Err(e)
        } else if let Err(e) = spec_field::<Option<Json>>(v, "ReservedCores"@) {
            Err(e)
        } else {
            Ok(
                CpuView {
                    cpu_shares: spec_field::<i64>(v, "CpuShares"@)->Ok_0,
                    reserved_cores: spec_field::<Option<Json>>(v, "ReservedCores"@)->Ok_0,
                },
            )
        }
    }

    open spec fn spec_absent() -> Result<CpuView, DecodeError> {
        Err(DecodeError::MissingField)
    }

    open spec fn spec_encode(x: CpuView) -> JsonView {
        JsonView::Object(
            Seq::empty()
                .push(("CpuShares"@, i64::spec_encode(x.cpu_shares)))
                .push(("ReservedCores"@, <Option<Json>>::spec_encode(x.reserved_cores))),
        )
    }

    fn decode(v: &Json) -> (r: Result<Cpu, DecodeError>) {
        let cpu_shares = field::<i64>(v, "CpuShares")?;
        let reserved_cores = field::<Option<Json>>(v, "ReservedCores")?;
        Ok(Cpu { cpu_shares, reserved_cores })
    }

    fn absent() -> (r: Result<Cpu, DecodeError>) {
        Err(DecodeError::MissingField)
    }

    fn encode(&self) -> (r: Json) {
        let mut members: Vec<(String, Json)> = Vec::new();
        proof {
            assert(members_view(members@) =~= Seq::empty());
        }
        put(&mut members, "CpuShares", self.cpu_shares.encode());
        put(&mut members, "ReservedCores", self.reserved_cores.encode());
        Json::Object(members)
    }

    proof fn lemma_round_trip(v: JsonView) {
        let x = Self::spec_decode(v)->Ok_0;
        let w = Self::spec_encode(x);
        lemma_cpu_members(x);
        lemma_field_round_trip::<i64>(v, "CpuShares"@);
        lemma_field_round_trip::<Option<Json>>(v, "ReservedCores"@);
        assert(spec_field::<i64>(w, "CpuShares"@) == spec_field::<i64>(v, "CpuShares"@));
        assert(spec_field::<Option<Json>>(w, "ReservedCores"@)
            == spec_field::<Option<Json>>(v, "ReservedCores"@));
    }

    proof fn lemma_absent_round_trip() {
    }

    proof fn lemma_writable(v: JsonView) {
        lemma_field_writable::<i64>(v, "CpuShares"@);
        lemma_field_writable::<Option<Json>>(v, "ReservedCores"@);
        lemma_cpu_written(Self::spec_decode(v)->Ok_0);
    }
}

/// How the names of the fields of a [`Memory`] are spelled: of each its length
/// and, where another is as long, a letter in which the two differ.
proof fn lemma_memory_names()
    ensures
        "MemoryMB"@.len() == 8,
        "MemoryMaxMB"@.len() == 11,
{
    reveal_strlit("MemoryMB");
    reveal_strlit("MemoryMaxMB");
}

/// Each member of a written [`Memory`] is found under its name.
proof fn lemma_memory_members(x: MemoryView)
    ensures
        lookup(Memory::spec_encode(x)->Object_0, "MemoryMB"@) == Some(
            i64::spec_encode(x.memory_mb),
        ),
        lookup(Memory::spec_encode(x)->Object_0, "MemoryMaxMB"@) == Some(
            i64::spec_encode(x.memory_max_mb),
        ),
{
    broadcast use {lemma_lookup_push, lemma_lookup_empty};

    lemma_memory_names();
}

/// A [`Memory`] is written as a tree that can be written as text where each of
/// its fields is.
proof fn lemma_memory_written(x: MemoryView)
    requires
        writable(i64::spec_encode(x.memory_mb)),
        writable(i64::spec_encode(x.memory_max_mb)),
    ensures
        writable(Memory::spec_encode(x)),
{
    broadcast use {
        lemma_writable_push,
        lemma_writable_empty,
        lemma_lookup_push,
        lemma_lookup_empty,
    };

    lemma_memory_names();
    lemma_writable_object(Memory::spec_encode(x)->Object_0);
}

impl Wire for Memory {
    open spec fn spec_decode(v: JsonView) -> Result<MemoryView, DecodeError> {
        if let Err(e) = spec_field::<i64>(v, "MemoryMB"@) {
            Err(e)
        } else if let Err(e) = spec_field::<i64>(v, "MemoryMaxMB"@) {
            Err(e)
        } else {
            Ok(
                MemoryView {
                    memory_mb: spec_field::<i64>(v, "MemoryMB"@)->Ok_0,
                    memory_max_mb: spec_field::<i64>(v, "MemoryMaxMB"@)->Ok_0,
                },
            )
        }
    }

    open spec fn spec_absent() -> Result<MemoryView, DecodeError> {
        Err(DecodeError::MissingField)
    }

    open spec fn spec_encode(x: MemoryView) -> JsonView {
        JsonView::Object(
            Seq::empty()
                .push(("MemoryMB"@, i64::spec_encode(x.memory_mb)))
                .push(("MemoryMaxMB"@, i64::spec_encode(x.memory_max_mb))),
        )
    }

    fn decode(v: &Json) -> (r: Result<Memory, DecodeError>) {
        let memory_mb = field::<i64>(v, "MemoryMB")?;
        let memory_max_mb = field::<i64>(v, "MemoryMaxMB")?;
        Ok(Memory { memory_mb, memory_max_mb })
    }

    fn absent() -> (r: Result<Memory, DecodeError>) {
        Err(DecodeError::MissingField)
    }

    fn encode(&self) -> (r: Json) {
        let mut members: Vec<(String, Json)> = Vec::new();
        proof {
            assert(members_view(members@) =~= Seq::empty());
        }
        put(&mut members, "MemoryMB", self.memory_mb.encode());
        put(&mut members, "MemoryMaxMB", self.memory_max_mb.encode());
        Json::Object(members)
    }

    proof fn lemma_round_trip(v: JsonView) {
        let x = Self::spec_decode(v)->Ok_0;
        let w = Self::spec_encode(x);
        lemma_memory_members(x);
        lemma_field_round_trip::<i64>(v, "MemoryMB"@);
        lemma_field_round_trip::<i64>(v, "MemoryMaxMB"@);
        assert(spec_field::<i64>(w, "MemoryMB"@) == spec_field::<i64>(v, "MemoryMB"@));
        assert(spec_field::<i64>(w, "MemoryMaxMB"@) == spec_field::<i64>(v, "MemoryMaxMB"@));
    }

    proof fn lemma_absent_round_trip() {
    }

    proof fn lemma_writable(v: JsonView) {
        lemma_field_writable::<i64>(v, "MemoryMB"@);
        lemma_field_writable::<i64>(v, "MemoryMaxMB"@);
        lemma_memory_written(Self::spec_decode(v)->Ok_0);
    }
}

/// How the names of the fields of a [`DevicePlugin`] are spelled: of each its length
/// and, where another is as long, a letter in which the two differ.
proof fn lemma_device_plugin_names()
    ensures
        "DeviceIDs"@.len() == 9,
        "Name"@.len() == 4 && "Name"@[0] == 'N',
        "Type"@.len() == 4 && "Type"@[0] == 'T',
        "Vendor"@.len() == 6,
{
    reveal_strlit("DeviceIDs");
    reveal_strlit("Name");
    reveal_strlit("Type");
    reveal_strlit("Vendor");
}

/// Each member of a written [`DevicePlugin`] is found under its name.
proof fn lemma_device_plugin_members(x: DevicePluginView)
    ensures
        lookup(DevicePlugin::spec_encode(x)->Object_0, "DeviceIDs"@) == Some(
            <Option<Vec<String>>>::spec_encode(x.device_ids),
        ),
        lookup(DevicePlugin::spec_encode(x)->Object_0, "Name"@) == Some(
            String::spec_encode(x.name),
        ),
        lookup(DevicePlugin::spec_encode(x)->Object_0, "Type"@) == Some(
            String::spec_encode(x.type_field),
        ),
        lookup(DevicePlugin::spec_encode(x)->Object_0, "Vendor"@) == Some(
            String::spec_encode(x.vendor),
        ),
{
    broadcast use {lemma_lookup_push, lemma_lookup_empty};

    lemma_device_plugin_names();
}

/// A [`DevicePlugin`] is written as a tree that can be written as text where each of
/// its fields is.
proof fn lemma_device_plugin_written(x: DevicePluginView)
    requires
        writable(<Option<Vec<String>>>::spec_encode(x.device_ids)),
        writable(String::spec_encode(x.name)),
        writable(String::spec_encode(x.type_field)),
        writable(String::spec_encode(x.vendor)),
    ensures
        writable(DevicePlugin::spec_encode(x)),
{
    broadcast use {
        lemma_writable_push,
        lemma_writable_empty,
        lemma_lookup_push,
        lemma_lookup_empty,
    };

    lemma_device_plugin_names();
    lemma_writable_object(DevicePlugin::spec_encode(x)->Object_0);
}

impl Wire for DevicePlugin {
    open spec fn spec_decode(v: JsonView) -> Result<DevicePluginView, DecodeError> {
        if let Err(e) = spec_field::<Option<Vec<String>>>(v, "DeviceIDs"@) {
            Err(e)
        } else if let Err(e) = spec_field::<String>(v, "Name"@) {
            Err(e)
        } else if let Err(e) = spec_field::<String>(v, "Type"@) {
            Err(e)
        } else if let Err(e) = spec_field::<String>(v, "Vendor"@) {
            Err(e)
        } else {
            Ok(
                DevicePluginView {
                    device_ids: spec_field::<Option<Vec<String>>>(v, "DeviceIDs"@)->Ok_0,
                    name: spec_field::<String>(v, "Name"@)->Ok_0,
                    type_field: spec_field::<String>(v, "Type"@)->Ok_0,
                    vendor: spec_field::<String>(v, "Vendor"@)->Ok_0,
                },
            )
        }
    }

    open spec fn spec_absent() -> Result<DevicePluginView, DecodeError> {
        Err(DecodeError::MissingField)
    }

    open spec fn spec_encode(x: DevicePluginView) -> JsonView {
        JsonView::Object(
            Seq::empty()
                .push(("DeviceIDs"@, <Option<Vec<String>>>::spec_encode(x.device_ids)))
                .push(("Name"@, String::spec_encode(x.name)))
                .push(("Type"@, String::spec_encode(x.type_field)))
                .push(("Vendor"@, String::spec_encode(x.vendor))),
        )
    }

    fn decode(v: &Json) -> (r: Result<DevicePlugin, DecodeError>) {
        let device_ids = field::<Option<Vec<String>>>(v, "DeviceIDs")?;
        let name = field::<String>(v, "Name")?;
        let type_field = field::<String>(v, "Type")?;
        let vendor = field::<String>(v, "Vendor")?;
        Ok(DevicePlugin { device_ids, name, type_field, vendor })
    }

    fn absent() -> (r: Result<DevicePlugin, DecodeError>) {
        Err(DecodeError::MissingField)
    }

    fn encode(&self) -> (r: Json) {
        let mut members: Vec<(String, Json)> = Vec::new();
        proof {
            assert(members_view(members@) =~= Seq::empty());
        }
        put(&mut members, "DeviceIDs", self.device_ids.encode());
        put(&mut members, "Name", self.name.encode());
        put(&mut members, "Type", self.type_field.encode());
        put(&mut members, "Vendor", self.vendor.encode());
        Json::Object(members)
    }

    proof fn lemma_round_trip(v: JsonView) {
        let x = Self::spec_decode(v)->Ok_0;
        let w = Self::spec_encode(x);
        lemma_device_plugin_members(x);
        lemma_field_round_trip::<Option<Vec<String>>>(v, "DeviceIDs"@);
        lemma_field_round_trip::<String>(v, "Name"@);
        lemma_field_round_trip::<String>(v, "Type"@);
        lemma_field_round_trip::<String>(v, "Vendor"@);
        assert(spec_field::<Option<Vec<String>>>(w, "DeviceIDs"@)
            == spec_field::<Option<Vec<String>>>(v, "DeviceIDs"@));
        assert(spec_field::<String>(w, "Name"@) == spec_field::<String>(v, "Name"@));
        assert(spec_field::<String>(w, "Type"@) == spec_field::<String>(v, "Type"@));
        assert(spec_field::<String>(w, "Vendor"@) == spec_field::<String>(v, "Vendor"@));
    }

    proof fn lemma_absent_round_trip() {
    }

    proof fn lemma_writable(v: JsonView) {
        lemma_field_writable::<Option<Vec<String>>>(v, "DeviceIDs"@);
        lemma_field_writable::<String>(v, "Name"@);
        lemma_field_writable::<String>(v, "Type"@);
        lemma_field_writable::<String>(v, "Vendor"@);
        lemma_device_plugin_written(Self::spec_decode(v)->Ok_0);
    }
}

/// How the names of the fields of a [`Device`] are spelled: of each its length
/// and, where another is as long, a letter in which the two differ.
proof fn lemma_device_names()
    ensures
        "Affinities"@.len() == 10,
        "Constraints"@.len() == 11,
        "Count"@.len() == 5,
        "Name"@.len() == 4,
{
    reveal_strlit("Affinities");
    reveal_strlit("Constraints");
    reveal_strlit("Count");
    reveal_strlit("Name");
}

/// Each member of a written [`Device`] is found under its name.
proof fn lemma_device_members(x: DeviceView)
    ensures
        lookup(Device::spec_encode(x)->Object_0, "Affinities"@) == Some(
            <Option<Json>>::spec_encode(x.affinities),
        ),
        lookup(Device::spec_encode(x)->Object_0, "Constraints"@) == Some(
            <Option<Json>>::spec_encode(x.constraints),
        ),
        lookup(Device::spec_encode(x)->Object_0, "Count"@) == Some(
            i64::spec_encode(x.count),
        ),
        lookup(Device::spec_encode(x)->Object_0, "Name"@) == Some(
            String::spec_encode(x.name),
        ),
{
    broadcast use {lemma_lookup_push, lemma_lookup_empty};

    lemma_device_names();
}

/// A [`Device`] is written as a tree that can be written as text where each of
/// its fields is.
proof fn lemma_device_written(x: DeviceView)
    requires
        writable(<Option<Json>>::spec_encode(x.affinities)),
        writable(<Option<Json>>::spec_encode(x.constraints)),
        writable(i64::spec_encode(x.count)),
        writable(String::spec_encode(x.name)),
    ensures
        writable(Device::spec_encode(x)),
{
    broadcast use {
        lemma_writable_push,
        lemma_writable_empty,
        lemma_lookup_push,
        lemma_lookup_empty,
    };

    lemma_device_names();
    lemma_writable_object(Device::spec_encode(x)->Object_0);
}

impl Wire for Device {
    open spec fn spec_decode(v: JsonView) -> Result<DeviceView, DecodeError> {
        if let Err(e) = spec_field::<Option<Json>>(v, "Affinities"@) {
            Err(e)
        } else if let Err(e) = spec_field::<Option<Json>>(v, "Constraints"@) {
            Err(e)
        } else if let Err(e) = spec_field::<i64>(v, "Count"@) {
            Err(e)
        } else if let Err(e) = spec_field::<String>(v, "Name"@) {
            Err(e)
        } else {
            Ok(
                DeviceView {
                    affinities: spec_field::<Option<Json>>(v, "Affinities"@)->Ok_0,
                    constraints: spec_field::<Option<Json>>(v, "Constraints"@)->Ok_0,
                    count: spec_field::<i64>(v, "Count"@)->Ok_0,
                    name: spec_field::<String>(v, "Name"@)->Ok_0,
                },
            )
        }
    }

    open spec fn spec_absent() -> Result<DeviceView, DecodeError> {
        Err(DecodeError::MissingField)
    }

    open spec fn spec_encode(x: DeviceView) -> JsonView {
        JsonView::Object(
            Seq::empty()
                .push(("Affinities"@, <Option<Json>>::spec_encode(x.affinities)))
                .push(("Constraints"@, <Option<Json>>::spec_encode(x.constraints)))
                .push(("Count"@, i64::spec_encode(x.count)))
                .push(("Name"@, String::spec_encode(x.name))),
        )
    }

    fn decode(v: &Json) -> (r: Result<Device, DecodeError>) {
        let affinities = field::<Option<Json>>(v, "Affinities")?;
        let constraints = field::<Option<Json>>(v, "Constraints")?;
        let count = field::<i64>(v, "Count")?;
        let name = field::<String>(v, "Name")?;
        Ok(Device { affinities, constraints, count, name })
    }

    fn absent() -> (r: Result<Device, DecodeError>) {
        Err(DecodeError::MissingField)
    }

    fn encode(&self) -> (r: Json) {
        let mut members: Vec<(String, Json)> = Vec::new();
        proof {
            assert(members_view(members@) =~= Seq::empty());
        }
        put(&mut members, "Affinities", self.affinities.encode());
        put(&mut members, "Constraints", self.constraints.encode());
        put(&mut members, "Count", self.count.encode());
        put(&mut members, "Name", self.name.encode());
        Json::Object(members)
    }

    proof fn lemma_round_trip(v: JsonView) {
        let x = Self::spec_decode(v)->Ok_0;
        let w = Self::spec_encode(x);
        lemma_device_members(x);
        lemma_field_round_trip::<Option<Json>>(v, "Affinities"@);
        lemma_field_round_trip::<Option<Json>>(v, "Constraints"@);
        lemma_field_round_trip::<i64>(v, "Count"@);
        lemma_field_round_trip::<String>(v, "Name"@);
        assert(spec_field::<Option<Json>>(w, "Affinities"@)
            == spec_field::<Option<Json>>(v, "Affinities"@));
        assert(spec_field::<Option<Json>>(w, "Constraints"@)
            == spec_field::<Option<Json>>(v, "Constraints"@));
        assert(spec_field::<i64>(w, "Count"@) == spec_field::<i64>(v, "Count"@));
        assert(spec_field::<String>(w, "Name"@) == spec_field::<String>(v, "Name"@));
    }

    proof fn lemma_absent_round_trip() {
    }

    proof fn lemma_writable(v: JsonView) {
        lemma_field_writable::<Option<Json>>(v, "Affinities"@);
        lemma_field_writable::<Option<Json>>(v, "Constraints"@);
        lemma_field_writable::<i64>(v, "Count"@);
        lemma_field_writable::<String>(v, "Name"@);
        lemma_device_written(Self::spec_decode(v)->Ok_0);
    }
}

/// How the names of the fields of a [`SharedDevice`] are spelled: of each its length
/// and, where another is as long, a letter in which the two differ.
proof fn lemma_shared_device_names()
    ensures
        "DeviceIDs"@.len() == 9,
        "Name"@.len() == 4 && "Name"@[0] == 'N',
        "Type"@.len() == 4 && "Type"@[0] == 'T',
        "Vendor"@.len() == 6,
{
    reveal_strlit("DeviceIDs");
    reveal_strlit("Name");
    reveal_strlit("Type");
    reveal_strlit("Vendor");
}

/// Each member of a written [`SharedDevice`] is found under its name.
proof fn lemma_shared_device_members(x: SharedDeviceView)
    ensures
        lookup(SharedDevice::spec_encode(x)->Object_0, "DeviceIDs"@) == Some(
            <Vec<String>>::spec_encode(x.device_ids),
        ),
        lookup(SharedDevice::spec_encode(x)->Object_0, "Name"@) == Some(
            String::spec_encode(x.name),
        ),
        lookup(SharedDevice::spec_encode(x)->Object_0, "Type"@) == Some(
            String::spec_encode(x.device_type),
        ),
        lookup(SharedDevice::spec_encode(x)->Object_0, "Vendor"@) == Some(
            String::spec_encode(x.vendor),
        ),
{
    broadcast use {lemma_lookup_push, lemma_lookup_empty};

    lemma_shared_device_names();
}

/// A [`SharedDevice`] is written as a tree that can be written as text where each of
/// its fields is.
proof fn lemma_shared_device_written(x: SharedDeviceView)
    requires
        writable(<Vec<String>>::spec_encode(x.device_ids)),
        writable(String::spec_encode(x.name)),
        writable(String::spec_encode(x.device_type)),
        writable(String::spec_encode(x.vendor)),
    ensures
        writable(SharedDevice::spec_encode(x)),
{
    broadcast use {
        lemma_writable_push,
        lemma_writable_empty,
        lemma_lookup_push,
        lemma_lookup_empty,
    };

    lemma_shared_device_names();
    lemma_writable_object(SharedDevice::spec_encode(x)->Object_0);
}

impl Wire for SharedDevice {
    open spec fn spec_decode(v: JsonView) -> Result<SharedDeviceView, DecodeError> {
        if let Err(e) = spec_field::<Vec<String>>(v, "DeviceIDs"@) {
            Err(e)
        } else if let Err(e) = spec_field::<String>(v, "Name"@) {
            Err(e)
        } else if let Err(e) = spec_field::<String>(v, "Type"@) {
            Err(e)
        } else if let Err(e) = spec_field::<String>(v, "Vendor"@) {
            Err(e)
        } else {
            Ok(
                SharedDeviceView {
                    device_ids: spec_field::<Vec<String>>(v, "DeviceIDs"@)->Ok_0,
                    name: spec_field::<String>(v, "Name"@)->Ok_0,
                    device_type: spec_field::<String>(v, "Type"@)->Ok_0,
                    vendor: spec_field::<String>(v, "Vendor"@)->Ok_0,
                },
            )
        }
    }

    open spec fn spec_absent() -> Result<SharedDeviceView, DecodeError> {
        Err(DecodeError::MissingField)
    }

    open spec fn spec_encode(x: SharedDeviceView) -> JsonView {
        JsonView::Object(
            Seq::empty()
                .push(("DeviceIDs"@, <Vec<String>>::spec_encode(x.device_ids)))
                .push(("Name"@, String::spec_encode(x.name)))
                .push(("Type"@, String::spec_encode(x.device_type)))
                .push(("Vendor"@, String::spec_encode(x.vendor))),
        )
    }

    fn decode(v: &Json) -> (r: Result<SharedDevice, DecodeError>) {
        let device_ids = field::<Vec<String>>(v, "DeviceIDs")?;
        let name = field::<String>(v, "Name")?;
        let device_type = field::<String>(v, "Type")?;
        let vendor = field::<String>(v, "Vendor")?;
        Ok(SharedDevice { device_ids, name, device_type, vendor })
    }

    fn absent() -> (r: Result<SharedDevice, DecodeError>) {
        Err(DecodeError::MissingField)
    }

    fn encode(&self) -> (r: Json) {
        let mut members: Vec<(String, Json)> = Vec::new();
        proof {
            assert(members_view(members@) =~= Seq::empty());
        }
        put(&mut members, "DeviceIDs", self.device_ids.encode());
        put(&mut members, "Name", self.name.encode());
        put(&mut members, "Type", self.device_type.encode());
        put(&mut members, "Vendor", self.vendor.encode());
        Json::Object(members)
    }

    proof fn lemma_round_trip(v: JsonView) {
        let x = Self::spec_decode(v)->Ok_0;
        let w = Self::spec_encode(x);
        lemma_shared_device_members(x);
        lemma_field_round_trip::<Vec<String>>(v, "DeviceIDs"@);
        lemma_field_round_trip::<String>(v, "Name"@);
        lemma_field_round_trip::<String>(v, "Type"@);
        lemma_field_round_trip::<String>(v, "Vendor"@);
        assert(spec_field::<Vec<String>>(w, "DeviceIDs"@)
            == spec_field::<Vec<String>>(v, "DeviceIDs"@));
        assert(spec_field::<String>(w, "Name"@) == spec_field::<String>(v, "Name"@));
        assert(spec_field::<String>(w, "Type"@) == spec_field::<String>(v, "Type"@));
        assert(spec_field::<String>(w, "Vendor"@) == spec_field::<String>(v, "Vendor"@));
    }

    proof fn lemma_absent_round_trip() {
    }

    proof fn lemma_writable(v: JsonView) {
        lemma_field_writable::<Vec<String>>(v, "DeviceIDs"@);
        lemma_field_writable::<String>(v, "Name"@);
        lemma_field_writable::<String>(v, "Type"@);
        lemma_field_writable::<String>(v, "Vendor"@);
        lemma_shared_device_written(Self::spec_decode(v)->Ok_0);
    }
}

/// How the names of the fields of a [`Resources`] are spelled: of each its length
/// and, where another is as long, a letter in which the two differ.
proof fn lemma_resources_names()
    ensures
        "CPU"@.len() == 3,
        "Cores"@.len() == 5,
        "Devices"@.len() == 7,
        "DiskMB"@.len() == 6,
        "IOPS"@.len() == 4,
        "MemoryMB"@.len() == 8 && "MemoryMB"@[0] == 'M',
        "MemoryMaxMB"@.len() == 11,
        "Networks"@.len() == 8 && "Networks"@[0] == 'N',
{
    reveal_strlit("CPU");
    reveal_strlit("Cores");
    reveal_strlit("Devices");
    reveal_strlit("DiskMB");
    reveal_strlit("IOPS");
    reveal_strlit("MemoryMB");
    reveal_strlit("MemoryMaxMB");
    reveal_strlit("Networks");
}

/// Each member of a written [`Resources`] is found under its name.
proof fn lemma_resources_members(x: ResourcesView)
    ensures
        lookup(Resources::spec_encode(x)->Object_0, "CPU"@) == Some(
            i64::spec_encode(x.cpu),
        ),
        lookup(Resources::spec_encode(x)->Object_0, "Cores"@) == Some(
            i64::spec_encode(x.cores),
        ),
        lookup(Resources::spec_encode(x)->Object_0, "Devices"@) == Some(
            <Option<Vec<Device>>>::spec_encode(x.devices),
        ),
        lookup(Resources::spec_encode(x)->Object_0, "DiskMB"@) == Some(
            <Option<i64>>::spec_encode(x.disk_mb),
        ),
        lookup(Resources::spec_encode(x)->Object_0, "IOPS"@) == Some(
            <Option<i64>>::spec_encode(x.iops),
        ),
        lookup(Resources::spec_encode(x)->Object_0, "MemoryMB"@) == Some(
            i64::spec_encode(x.memory_mb),
        ),
        lookup(Resources::spec_encode(x)->Object_0, "MemoryMaxMB"@) == Some(
            <Option<i64>>::spec_encode(x.memory_max_mb),
        ),
        lookup(Resources::spec_encode(x)->Object_0, "Networks"@) == Some(
            <Option<Vec<Network>>>::spec_encode(x.networks),
        ),
{
    broadcast use {lemma_lookup_push, lemma_lookup_empty};

    lemma_resources_names();
}

/// A [`Resources`] is written as a tree that can be written as text where each of
/// its fields is.
proof fn lemma_resources_written(x: ResourcesView)
    requires
        writable(i64::spec_encode(x.cpu)),
        writable(i64::spec_encode(x.cores)),
        writable(<Option<Vec<Device>>>::spec_encode(x.devices)),
        writable(<Option<i64>>::spec_encode(x.disk_mb)),
        writable(<Option<i64>>::spec_encode(x.iops)),
        writable(i64::spec_encode(x.memory_mb)),
        writable(<Option<i64>>::spec_encode(x.memory_max_mb)),
        writable(<Option<Vec<Network>>>::spec_encode(x.networks)),
    ensures
        writable(Resources::spec_encode(x)),
{
    broadcast use {
        lemma_writable_push,
        lemma_writable_empty,
        lemma_lookup_push,
        lemma_lookup_empty,
    };

    lemma_resources_names();
    lemma_writable_object(Resources::spec_encode(x)->Object_0);
}

impl Wire for Resources {
    open spec fn spec_decode(v: JsonView) -> Result<ResourcesView, DecodeError> {
        if let Err(e) = spec_field::<i64>(v, "CPU"@) {
            Err(e)
        } else if let Err(e) = spec_field::<i64>(v, "Cores"@) {
            Err(e)
        } else if let Err(e) = spec_field::<Option<Vec<Device>>>(v, "Devices"@) {
            Err(e)
        } else if let Err(e) = spec_field::<Option<i64>>(v, "DiskMB"@) {
            Err(e)
        } else if let Err(e) = spec_field::<Option<i64>>(v, "IOPS"@) {
            Err(e)
        } else if let Err(e) = spec_field::<i64>(v, "MemoryMB"@) {
            Err(e)
        } else if let Err(e) = spec_field::<Option<i64>>(v, "MemoryMaxMB"@) {
            Err(e)
        } else if let Err(e) = spec_field::<Option<Vec<Network>>>(v, "Networks"@) {
            Err(e)
        } else {
            Ok(
                ResourcesView {
                    cpu: spec_field::<i64>(v, "CPU"@)->Ok_0,
                    cores: spec_field::<i64>(v, "Cores"@)->Ok_0,
                    devices: spec_field::<Option<Vec<Device>>>(v, "Devices"@)->Ok_0,
                    disk_mb: spec_field::<Option<i64>>(v, "DiskMB"@)->Ok_0,
                    iops: spec_field::<Option<i64>>(v, "IOPS"@)->Ok_0,
                    memory_mb: spec_field::<i64>(v, "MemoryMB"@)->Ok_0,
                    memory_max_mb: spec_field::<Option<i64>>(v, "MemoryMaxMB"@)->Ok_0,
                    networks: spec_field::<Option<Vec<Network>>>(v, "Networks"@)->Ok_0,
                },
            )
        }
    }

    open spec fn spec_absent() -> Result<ResourcesView, DecodeError> {
        Err(DecodeError::MissingField)
    }

    open spec fn spec_encode(x: ResourcesView) -> JsonView {
        JsonView::Object(
            Seq::empty()
                .push(("CPU"@, i64::spec_encode(x.cpu)))
                .push(("Cores"@, i64::spec_encode(x.cores)))
                .push(("Devices"@, <Option<Vec<Device>>>::spec_encode(x.devices)))
                .push(("DiskMB"@, <Option<i64>>::spec_encode(x.disk_mb)))
                .push(("IOPS"@, <Option<i64>>::spec_encode(x.iops)))
                .push(("MemoryMB"@, i64::spec_encode(x.memory_mb)))
                .push(("MemoryMaxMB"@, <Option<i64>>::spec_encode(x.memory_max_mb)))
                .push(("Networks"@, <Option<Vec<Network>>>::spec_encode(x.networks))),
        )
    }

    fn decode(v: &Json) -> (r: Result<Resources, DecodeError>) {
        let cpu = field::<i64>(v, "CPU")?;
        let cores = field::<i64>(v, "Cores")?;
        let devices = field::<Option<Vec<Device>>>(v, "Devices")?;
        let disk_mb = field::<Option<i64>>(v, "DiskMB")?;
        let iops = field::<Option<i64>>(v, "IOPS")?;
        let memory_mb = field::<i64>(v, "MemoryMB")?;
        let memory_max_mb = field::<Option<i64>>(v, "MemoryMaxMB")?;
        let networks = field::<Option<Vec<Network>>>(v, "Networks")?;
        Ok(Resources { cpu, cores, devices, disk_mb, iops, memory_mb, memory_max_mb, networks })
    }

    fn absent() -> (r: Result<Resources, DecodeError>) {
        Err(DecodeError::MissingField)
    }

    fn encode(&self) -> (r: Json) {
        let mut members: Vec<(String, Json)> = Vec::new();
        proof {
            assert(members_view(members@) =~= Seq::empty());
        }
        put(&mut members, "CPU", self.cpu.encode());
        put(&mut members, "Cores", self.cores.encode());
        put(&mut members, "Devices", self.devices.encode());
        put(&mut members, "DiskMB", self.disk_mb.encode());
        put(&mut members, "IOPS", self.iops.encode());
        put(&mut members, "MemoryMB", self.memory_mb.encode());
        put(&mut members, "MemoryMaxMB", self.memory_max_mb.encode());
        put(&mut members, "Networks", self.networks.encode());
        Json::Object(members)
    }

    proof fn lemma_round_trip(v: JsonView) {
        let x = Self::spec_decode(v)->Ok_0;
        let w = Self::spec_encode(x);
        lemma_resources_members(x);
        lemma_field_round_trip::<i64>(v, "CPU"@);
        lemma_field_round_trip::<i64>(v, "Cores"@);
        lemma_field_round_trip::<Option<Vec<Device>>>(v, "Devices"@);
        lemma_field_round_trip::<Option<i64>>(v, "DiskMB"@);
        lemma_field_round_trip::<Option<i64>>(v, "IOPS"@);
        lemma_field_round_trip::<i64>(v, "MemoryMB"@);
        lemma_field_round_trip::<Option<i64>>(v, "MemoryMaxMB"@);
        lemma_field_round_trip::<Option<Vec<Network>>>(v, "Networks"@);
        assert(spec_field::<i64>(w, "CPU"@) == spec_field::<i64>(v, "CPU"@));
        assert(spec_field::<i64>(w, "Cores"@) == spec_field::<i64>(v, "Cores"@));
        assert(spec_field::<Option<Vec<Device>>>(w, "Devices"@)
            == spec_field::<Option<Vec<Device>>>(v, "Devices"@));
        assert(spec_field::<Option<i64>>(w, "DiskMB"@) == spec_field::<Option<i64>>(v, "DiskMB"@));
        assert(spec_field::<Option<i64>>(w, "IOPS"@) == spec_field::<Option<i64>>(v, "IOPS"@));
        assert(spec_field::<i64>(w, "MemoryMB"@) == spec_field::<i64>(v, "MemoryMB"@));
        assert(spec_field::<Option<i64>>(w, "MemoryMaxMB"@)
            == spec_field::<Option<i64>>(v, "MemoryMaxMB"@));
        assert(spec_field::<Option<Vec<Network>>>(w, "Networks"@)
            == spec_field::<Option<Vec<Network>>>(v, "Networks"@));
    }

    proof fn lemma_absent_round_trip() {
    }

    proof fn lemma_writable(v: JsonView) {
        lemma_field_writable::<i64>(v, "CPU"@);
        lemma_field_writable::<i64>(v, "Cores"@);
        lemma_field_writable::<Option<Vec<Device>>>(v, "Devices"@);
        lemma_field_writable::<Option<i64>>(v, "DiskMB"@);
        lemma_field_writable::<Option<i64>>(v, "IOPS"@);
        lemma_field_writable::<i64>(v, "MemoryMB"@);
        lemma_field_writable::<Option<i64>>(v, "MemoryMaxMB"@);
        lemma_field_writable::<Option<Vec<Network>>>(v, "Networks"@);
        lemma_resources_written(Self::spec_decode(v)->Ok_0);
    }
}

/// An object that holds only what a resource request must hold is read, and
/// all that may be left out is absent from what it is read as.
pub proof fn lemma_resources_minimal(cpu: i64, cores: i64, memory_mb: i64)
    ensures
        Resources::spec_decode(
            JsonView::Object(
                Seq::empty()
                    .push(("CPU"@, i64::spec_encode(cpu)))
                    .push(("Cores"@, i64::spec_encode(cores)))
                    .push(("MemoryMB"@, i64::spec_encode(memory_mb))),
            ),
        ) == Ok::<ResourcesView, DecodeError>(
            ResourcesView {
                cpu,
                cores,
                devices: None,
                disk_mb: None,
                iops: None,
                memory_mb,
                memory_max_mb: None,
                networks: None,
            },
        ),
{
    broadcast use {lemma_lookup_push, lemma_lookup_empty};

    lemma_resources_names();
}

/// How the names of the fields of a [`SharedResources`] are spelled: of each its length
/// and, where another is as long, a letter in which the two differ.
proof fn lemma_shared_resources_names()
    ensures
        "Cpu"@.len() == 3,
        "Devices"@.len() == 7,
        "DiskMB"@.len() == 6 && "DiskMB"@[0] == 'D',
        "IOPS"@.len() == 4,
        "Memory"@.len() == 6 && "Memory"@[0] == 'M',
        "Networks"@.len() == 8,
{
    reveal_strlit("Cpu");
    reveal_strlit("Devices");
    reveal_strlit("DiskMB");
    reveal_strlit("IOPS");
    reveal_strlit("Memory");
    reveal_strlit("Networks");
}

/// Each member of a written [`SharedResources`] is found under its name.
proof fn lemma_shared_resources_members(x: SharedResourcesView)
    ensures
        lookup(SharedResources::spec_encode(x)->Object_0, "Cpu"@) == Some(
            Cpu::spec_encode(x.cpu),
        ),
        lookup(SharedResources::spec_encode(x)->Object_0, "Devices"@) == Some(
            <Option<Vec<SharedDevice>>>::spec_encode(x.devices),
        ),
        lookup(SharedResources::spec_encode(x)->Object_0, "DiskMB"@) == Some(
            <Option<i64>>::spec_encode(x.disk_mb),
        ),
        lookup(SharedResources::spec_encode(x)->Object_0, "IOPS"@) == Some(
            <Option<i64>>::spec_encode(x.iops),
        ),
        lookup(SharedResources::spec_encode(x)->Object_0, "Memory"@) == Some(
            <Option<Memory>>::spec_encode(x.memory),
        ),
        lookup(SharedResources::spec_encode(x)->Object_0, "Networks"@) == Some(
            <Option<Vec<Network>>>::spec_encode(x.networks),
        ),
{
    broadcast use {lemma_lookup_push, lemma_lookup_empty};

    lemma_shared_resources_names();
}

/// A [`SharedResources`] is written as a tree that can be written as text where each of
/// its fields is.
proof fn lemma_shared_resources_written(x: SharedResourcesView)
    requires
        writable(Cpu::spec_encode(x.cpu)),
        writable(<Option<Vec<SharedDevice>>>::spec_encode(x.devices)),
        writable(<Option<i64>>::spec_encode(x.disk_mb)),
        writable(<Option<i64>>::spec_encode(x.iops)),
        writable(<Option<Memory>>::spec_encode(x.memory)),
        writable(<Option<Vec<Network>>>::spec_encode(x.networks)),
    ensures
        writable(SharedResources::spec_encode(x)),
{
    broadcast use {
        lemma_writable_push,
        lemma_writable_empty,
        lemma_lookup_push,
        lemma_lookup_empty,
    };

    lemma_shared_resources_names();
    lemma_writable_object(SharedResources::spec_encode(x)->Object_0);
}

impl Wire for SharedResources {
    open spec fn spec_decode(v: JsonView) -> Result<SharedResourcesView, DecodeError> {
        if let Err(e) = spec_field::<Cpu>(v, "Cpu"@) {
            Err(e)
        } else if let Err(e) = spec_field::<Option<Vec<SharedDevice>>>(v, "Devices"@) {
            Err(e)
        } else if let Err(e) = spec_field::<Option<i64>>(v, "DiskMB"@) {
            Err(e)
        } else if let Err(e) = spec_field::<Option<i64>>(v, "IOPS"@) {
            Err(e)
        } else if let Err(e) = spec_field::<Option<Memory>>(v, "Memory"@) {
            Err(e)
        } else if let Err(e) = spec_field::<Option<Vec<Network>>>(v, "Networks"@) {
            Err(e)
        } else {
            Ok(
                SharedResourcesView {
                    cpu: spec_field::<Cpu>(v, "Cpu"@)->Ok_0,
                    devices: spec_field::<Option<Vec<SharedDevice>>>(v, "Devices"@)->Ok_0,
                    disk_mb: spec_field::<Option<i64>>(v, "DiskMB"@)->Ok_0,
                    iops: spec_field::<Option<i64>>(v, "IOPS"@)->Ok_0,
                    memory: spec_field::<Option<Memory>>(v, "Memory"@)->Ok_0,
                    networks: spec_field::<Option<Vec<Network>>>(v, "Networks"@)->Ok_0,
                },
            )
        }
    }

    open spec fn spec_absent() -> Result<SharedResourcesView, DecodeError> {
        Err(DecodeError::MissingField)
    }

    open spec fn spec_encode(x: SharedResourcesView) -> JsonView {
        JsonView::Object(
            Seq::empty()
                .push(("Cpu"@, Cpu::spec_encode(x.cpu)))
                .push(("Devices"@, <Option<Vec<SharedDevice>>>::spec_encode(x.devices)))
                .push(("DiskMB"@, <Option<i64>>::spec_encode(x.disk_mb)))
                .push(("IOPS"@, <Option<i64>>::spec_encode(x.iops)))
                .push(("Memory"@, <Option<Memory>>::spec_encode(x.memory)))
                .push(("Networks"@, <Option<Vec<Network>>>::spec_encode(x.networks))),
        )
    }

    fn decode(v: &Json) -> (r: Result<SharedResources, DecodeError>) {
        let cpu = field::<Cpu>(v, "Cpu")?;
        let devices = field::<Option<Vec<SharedDevice>>>(v, "Devices")?;
        let disk_mb = field::<Option<i64>>(v, "DiskMB")?;
        let iops = field::<Option<i64>>(v, "IOPS")?;
        let memory = field::<Option<Memory>>(v, "Memory")?;
        let networks = field::<Option<Vec<Network>>>(v, "Networks")?;
        Ok(SharedResources { cpu, devices, disk_mb, iops, memory, networks })
    }

    fn absent() -> (r: Result<SharedResources, DecodeError>) {
        Err(DecodeError::MissingField)
    }

    fn encode(&self) -> (r: Json) {
        let mut members: Vec<(String, Json)> = Vec::new();
        proof {
            assert(members_view(members@) =~= Seq::empty());
        }
        put(&mut members, "Cpu", self.cpu.encode());
        put(&mut members, "Devices", self.devices.encode());
        put(&mut members, "DiskMB", self.disk_mb.encode());
        put(&mut members, "IOPS", self.iops.encode());
        put(&mut members, "Memory", self.memory.encode());
        put(&mut members, "Networks", self.networks.encode());
        Json::Object(members)
    }

    proof fn lemma_round_trip(v: JsonView) {
        let x = Self::spec_decode(v)->Ok_0;
        let w = Self::spec_encode(x);
        lemma_shared_resources_members(x);
        lemma_field_round_trip::<Cpu>(v, "Cpu"@);
        lemma_field_round_trip::<Option<Vec<SharedDevice>>>(v, "Devices"@);
        lemma_field_round_trip::<Option<i64>>(v, "DiskMB"@);
        lemma_field_round_trip::<Option<i64>>(v, "IOPS"@);
        lemma_field_round_trip::<Option<Memory>>(v, "Memory"@);
        lemma_field_round_trip::<Option<Vec<Network>>>(v, "Networks"@);
        assert(spec_field::<Cpu>(w, "Cpu"@) == spec_field::<Cpu>(v, "Cpu"@));
        assert(spec_field::<Option<Vec<SharedDevice>>>(w, "Devices"@)
            == spec_field::<Option<Vec<SharedDevice>>>(v, "Devices"@));
        assert(spec_field::<Option<i64>>(w, "DiskMB"@) == spec_field::<Option<i64>>(v, "DiskMB"@));
        assert(spec_field::<Option<i64>>(w, "IOPS"@) == spec_field::<Option<i64>>(v, "IOPS"@));
        assert(spec_field::<Option<Memory>>(w, "Memory"@)
            == spec_field::<Option<Memory>>(v, "Memory"@));
        assert(spec_field::<Option<Vec<Network>>>(w, "Networks"@)
            == spec_field::<Option<Vec<Network>>>(v, "Networks"@));
    }

    proof fn lemma_absent_round_trip() {
    }

    proof fn lemma_writable(v: JsonView) {
        lemma_field_writable::<Cpu>(v, "Cpu"@);
        lemma_field_writable::<Option<Vec<SharedDevice>>>(v, "Devices"@);
        lemma_field_writable::<Option<i64>>(v, "DiskMB"@);
        lemma_field_writable::<Option<i64>>(v, "IOPS"@);
        lemma_field_writable::<Option<Memory>>(v, "Memory"@);
        lemma_field_writable::<Option<Vec<Network>>>(v, "Networks"@);
        lemma_shared_resources_written(Self::spec_decode(v)->Ok_0);
    }
}

/// How the names of the fields of a [`Shared`] are spelled: of each its length
/// and, where another is as long, a letter in which the two differ.
proof fn lemma_shared_names()
    ensures
        "DiskMB"@.len() == 6,
        "Networks"@.len() == 8,
        "Ports"@.len() == 5,
{
    reveal_strlit("DiskMB");
    reveal_strlit("Networks");
    reveal_strlit("Ports");
}

/// Each member of a written [`Shared`] is found under its name.
proof fn lemma_shared_members(x: SharedView)
    ensures
        lookup(Shared::spec_encode(x)->Object_0, "DiskMB"@) == Some(
            <Option<i64>>::spec_encode(x.disk_mb),
        ),
        lookup(Shared::spec_encode(x)->Object_0, "Networks"@) == Some(
            <Vec<Network>>::spec_encode(x.networks),
        ),
        lookup(Shared::spec_encode(x)->Object_0, "Ports"@) == Some(
            <Vec<Port>>::spec_encode(x.ports),
        ),
{
    broadcast use {lemma_lookup_push, lemma_lookup_empty};

    lemma_shared_names();
}

/// A [`Shared`] is written as a tree that can be written as text where each of
/// its fields is.
proof fn lemma_shared_written(x: SharedView)
    requires
        writable(<Option<i64>>::spec_encode(x.disk_mb)),
        writable(<Vec<Network>>::spec_encode(x.networks)),
        writable(<Vec<Port>>::spec_encode(x.ports)),
    ensures
        writable(Shared::spec_encode(x)),
{
    broadcast use {
        lemma_writable_push,
        lemma_writable_empty,
        lemma_lookup_push,
        lemma_lookup_empty,
    };

    lemma_shared_names();
    lemma_writable_object(Shared::spec_encode(x)->Object_0);
}

impl Wire for Shared {
    open spec fn spec_decode(v: JsonView) -> Result<SharedView, DecodeError> {
        if let Err(e) = spec_field::<Option<i64>>(v, "DiskMB"@) {
            Err(e)
        } else if let Err(e) = spec_field_or::<Vec<Network>>(v, "Networks"@, Seq::empty()) {
            Err(e)
        } else if let Err(e) = spec_field_or::<Vec<Port>>(v, "Ports"@, Seq::empty()) {
            Err(e)
        } else {
            Ok(
                SharedView {
                    disk_mb: spec_field::<Option<i64>>(v, "DiskMB"@)->Ok_0,
                    networks: spec_field_or::<Vec<Network>>(v, "Networks"@, Seq::empty())->Ok_0,
                    ports: spec_field_or::<Vec<Port>>(v, "Ports"@, Seq::empty())->Ok_0,
                },
            )
        }
    }

    open spec fn spec_absent() -> Result<SharedView, DecodeError> {
        Err(DecodeError::MissingField)
    }

    open spec fn spec_encode(x: SharedView) -> JsonView {
        JsonView::Object(
            Seq::empty()
                .push(("DiskMB"@, <Option<i64>>::spec_encode(x.disk_mb)))
                .push(("Networks"@, <Vec<Network>>::spec_encode(x.networks)))
                .push(("Ports"@, <Vec<Port>>::spec_encode(x.ports))),
        )
    }

    fn decode(v: &Json) -> (r: Result<Shared, DecodeError>) {
        let disk_mb = field::<Option<i64>>(v, "DiskMB")?;
        let networks = field_or::<Vec<Network>>(v, "Networks", empty_list())?;
        let ports = field_or::<Vec<Port>>(v, "Ports", empty_list())?;
        Ok(Shared { disk_mb, networks, ports })
    }

    fn absent() -> (r: Result<Shared, DecodeError>) {
        Err(DecodeError::MissingField)
    }

    fn encode(&self) -> (r: Json) {
        let mut members: Vec<(String, Json)> = Vec::new();
        proof {
            assert(members_view(members@) =~= Seq::empty());
        }
        put(&mut members, "DiskMB", self.disk_mb.encode());
        put(&mut members, "Networks", self.networks.encode());
        put(&mut members, "Ports", self.ports.encode());
        Json::Object(members)
    }

    proof fn lemma_round_trip(v: JsonView) {
        let x = Self::spec_decode(v)->Ok_0;
        let w = Self::spec_encode(x);
        lemma_shared_members(x);
        lemma_field_round_trip::<Option<i64>>(v, "DiskMB"@);
        lemma_empty_list_round_trip::<Network>();
        lemma_field_or_round_trip::<Vec<Network>>(v, "Networks"@, Seq::empty());
        lemma_empty_list_round_trip::<Port>();
        lemma_field_or_round_trip::<Vec<Port>>(v, "Ports"@, Seq::empty());
        assert(spec_field::<Option<i64>>(w, "DiskMB"@) == spec_field::<Option<i64>>(v, "DiskMB"@));
        assert(spec_field_or::<Vec<Network>>(w, "Networks"@, Seq::empty())
            == spec_field_or::<Vec<Network>>(v, "Networks"@, Seq::empty()));
        assert(spec_field_or::<Vec<Port>>(w, "Ports"@, Seq::empty())
            == spec_field_or::<Vec<Port>>(v, "Ports"@, Seq::empty()));
    }

    proof fn lemma_absent_round_trip() {
    }

    proof fn lemma_writable(v: JsonView) {
        lemma_field_writable::<Option<i64>>(v, "DiskMB"@);
        lemma_empty_list_writable::<Network>();
        lemma_field_or_writable::<Vec<Network>>(v, "Networks"@, Seq::empty());
        lemma_empty_list_writable::<Port>();
        lemma_field_or_writable::<Vec<Port>>(v, "Ports"@, Seq::empty());
        lemma_shared_written(Self::spec_decode(v)->Ok_0);
    }
}

/// How the names of the fields of a [`AllocatedResources`] are spelled: of each its length
/// and, where another is as long, a letter in which the two differ.
proof fn lemma_allocated_resources_names()
    ensures
        "Shared"@.len() == 6,
        "TaskLifecycles"@.len() == 14,
        "Tasks"@.len() == 5,
{
    reveal_strlit("Shared");
    reveal_strlit("TaskLifecycles");
    reveal_strlit("Tasks");
}

/// Each member of a written [`AllocatedResources`] is found under its name.
proof fn lemma_allocated_resources_members(x: AllocatedResourcesView)
    ensures
        lookup(AllocatedResources::spec_encode(x)->Object_0, "Shared"@) == Some(
            Shared::spec_encode(x.shared),
        ),
        lookup(AllocatedResources::spec_encode(x)->Object_0, "TaskLifecycles"@) == Some(
            <Vec<(String, Json)>>::spec_encode(x.task_lifecycles),
        ),
        lookup(AllocatedResources::spec_encode(x)->Object_0, "Tasks"@) == Some(
            <Vec<(String, SharedResources)>>::spec_encode(x.tasks),
        ),
{
    broadcast use {lemma_lookup_push, lemma_lookup_empty};

    lemma_allocated_resources_names();
}

/// A [`AllocatedResources`] is written as a tree that can be written as text where each of
/// its fields is.
proof fn lemma_allocated_resources_written(x: AllocatedResourcesView)
    requires
        writable(Shared::spec_encode(x.shared)),
        writable(<Vec<(String, Json)>>::spec_encode(x.task_lifecycles)),
        writable(<Vec<(String, SharedResources)>>::spec_encode(x.tasks)),
    ensures
        writable(AllocatedResources::spec_encode(x)),
{
    broadcast use {
        lemma_writable_push,
        lemma_writable_empty,
        lemma_lookup_push,
        lemma_lookup_empty,
    };

    lemma_allocated_resources_names();
    lemma_writable_object(AllocatedResources::spec_encode(x)->Object_0);
}

impl Wire for AllocatedResources {
    open spec fn spec_decode(v: JsonView) -> Result<AllocatedResourcesView, DecodeError> {
        if let Err(e) = spec_field::<Shared>(v, "Shared"@) {
            Err(e)
        } else if let Err(e) = spec_field_or::<Vec<(
            String, Json)>>(v, "TaskLifecycles"@, Seq::empty(),
        ) {
            Err(e)
        } else if let Err(e) = spec_field_or::<Vec<(
            String, SharedResources)>>(v, "Tasks"@, Seq::empty(),
        ) {
            Err(e)
        } else {
            Ok(
                AllocatedResourcesView {
                    shared: spec_field::<Shared>(v, "Shared"@)->Ok_0,
                    task_lifecycles: spec_field_or::<Vec<(
                        String, Json)>>(v, "TaskLifecycles"@, Seq::empty(),
                    )->Ok_0,
                    tasks: spec_field_or::<Vec<(
                        String, SharedResources)>>(v, "Tasks"@, Seq::empty(),
                    )->Ok_0,
                },
            )
        }
    }

    open spec fn spec_absent() -> Result<AllocatedResourcesView, DecodeError> {
        Err(DecodeError::MissingField)
    }

    open spec fn spec_encode(x: AllocatedResourcesView) -> JsonView {
        JsonView::Object(
            Seq::empty()
                .push(("Shared"@, Shared::spec_encode(x.shared)))
                .push(("TaskLifecycles"@, <Vec<(String, Json)>>::spec_encode(x.task_lifecycles)))
                .push(("Tasks"@, <Vec<(String, SharedResources)>>::spec_encode(x.tasks))),
        )
    }

    fn decode(v: &Json) -> (r: Result<AllocatedResources, DecodeError>) {
        let shared = field::<Shared>(v, "Shared")?;
        let task_lifecycles = field_or::<Vec<(String, Json)>>(v, "TaskLifecycles", empty_list())?;
        let tasks = field_or::<Vec<(String, SharedResources)>>(v, "Tasks", empty_list())?;
        Ok(AllocatedResources { shared, task_lifecycles, tasks })
    }

    fn absent() -> (r: Result<AllocatedResources, DecodeError>) {
        Err(DecodeError::MissingField)
    }

    fn encode(&self) -> (r: Json) {
        let mut members: Vec<(String, Json)> = Vec::new();
        proof {
            assert(members_view(members@) =~= Seq::empty());
        }
        put(&mut members, "Shared", self.shared.encode());
        put(&mut members, "TaskLifecycles", self.task_lifecycles.encode());
        put(&mut members, "Tasks", self.tasks.encode());
        Json::Object(members)
    }

    proof fn lemma_round_trip(v: JsonView) {
        let x = Self::spec_decode(v)->Ok_0;
        let w = Self::spec_encode(x);
        lemma_allocated_resources_members(x);
        lemma_field_round_trip::<Shared>(v, "Shared"@);
        lemma_empty_map_round_trip::<Json>();
        lemma_field_or_round_trip::<Vec<(String, Json)>>(v, "TaskLifecycles"@, Seq::empty());
        lemma_empty_map_round_trip::<SharedResources>();
        lemma_field_or_round_trip::<Vec<(String, SharedResources)>>(v, "Tasks"@, Seq::empty());
        assert(spec_field::<Shared>(w, "Shared"@) == spec_field::<Shared>(v, "Shared"@));
        assert(spec_field_or::<Vec<(String, Json)>>(w, "TaskLifecycles"@, Seq::empty())
            == spec_field_or::<Vec<(String, Json)>>(v, "TaskLifecycles"@, Seq::empty()));
        assert(spec_field_or::<Vec<(String, SharedResources)>>(w, "Tasks"@, Seq::empty())
            == spec_field_or::<Vec<(String, SharedResources)>>(v, "Tasks"@, Seq::empty()));
    }

    proof fn lemma_absent_round_trip() {
    }

    proof fn lemma_writable(v: JsonView) {
        lemma_field_writable::<Shared>(v, "Shared"@);
        lemma_empty_map_writable::<Json>();
        lemma_field_or_writable::<Vec<(String, Json)>>(v, "TaskLifecycles"@, Seq::empty());
        lemma_empty_map_writable::<SharedResources>();
        lemma_field_or_writable::<Vec<(String, SharedResources)>>(v, "Tasks"@, Seq::empty());
        lemma_allocated_resources_written(Self::spec_decode(v)->Ok_0);
    }
}

} // verus!
