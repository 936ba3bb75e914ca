//! The wire schema of networks and their ports.

use vstd::prelude::*;
use crate::jobs::{
    DynamicPort, DynamicPortView, Network, NetworkStatus, NetworkStatusView, NetworkView, Port,
    PortView,
};
use crate::json::{members_view, Json, JsonView};
use crate::text::{lemma_writable_empty, lemma_writable_object, lemma_writable_push, writable};
use crate::wire::{
    field, lemma_field_round_trip, lemma_field_writable, lemma_lookup_empty, lemma_lookup_push,
    lookup, put, spec_field, DecodeError, Wire,
};

verus! {

/// How the names of the fields of a [`DynamicPort`] are spelled: of each its length
/// and, where another is as long, a letter in which the two differ.
proof fn lemma_dynamic_port_names()
    ensures
        "HostNetwork"@.len() == 11,
        "Label"@.len() == 5 && "Label"@[0] == 'L',
        "To"@.len() == 2,
        "Value"@.len() == 5 && "Value"@[0] == 'V',
{
    reveal_strlit("HostNetwork");
    reveal_strlit("Label");
    reveal_strlit("To");
    reveal_strlit("Value");
}

/// Each member of a written [`DynamicPort`] is found under its name.
proof fn lemma_dynamic_port_members(x: DynamicPortView)
    ensures
        lookup(DynamicPort::spec_encode(x)->Object_0, "HostNetwork"@) == Some(
            String::spec_encode(x.host_network),
        ),
        lookup(DynamicPort::spec_encode(x)->Object_0, "Label"@) == Some(
            String::spec_encode(x.label),
        ),
        lookup(DynamicPort::spec_encode(x)->Object_0, "To"@) == Some(
            i64::spec_encode(x.to),
        ),
        lookup(DynamicPort::spec_encode(x)->Object_0, "Value"@) == Some(
            i64::spec_encode(x.value),
        ),
{
    broadcast use {lemma_lookup_push, lemma_lookup_empty};

    lemma_dynamic_port_names();
}

/// A [`DynamicPort`] is written as a tree that can be written as text where each of
/// its fields is.
proof fn lemma_dynamic_port_written(x: DynamicPortView)
    requires
        writable(String::spec_encode(x.host_network)),
        writable(String::spec_encode(x.label)),
        writable(i64::spec_encode(x.to)),
        writable(i64::spec_encode(x.value)),
    ensures
        writable(DynamicPort::spec_encode(x)),
{
    broadcast use {
        lemma_writable_push,
        lemma_writable_empty,
        lemma_lookup_push,
        lemma_lookup_empty,
    };

    lemma_dynamic_port_names();
    lemma_writable_object(DynamicPort::spec_encode(x)->Object_0);
}

impl Wire for DynamicPort {
    open spec fn spec_decode(v: JsonView) -> Result<DynamicPortView, DecodeError> {
        if let Err(e) = spec_field::<String>(v, "HostNetwork"@) {
            Err(e)
        } else if let Err(e) = spec_field::<String>(v, "Label"@) {
            Err(e)
        } else if let Err(e) = spec_field::<i64>(v, "To"@) {
            Err(e)
        } else if let Err(e) = spec_field::<i64>(v, "Value"@) {
            Err(e)
        } else {
            Ok(
                DynamicPortView {
                    host_network: spec_field::<String>(v, "HostNetwork"@)->Ok_0,
                    label: spec_field::<String>(v, "Label"@)->Ok_0,
                    to: spec_field::<i64>(v, "To"@)->Ok_0,
                    value: spec_field::<i64>(v, "Value"@)->Ok_0,
                },
            )
        }
    }

    open spec fn spec_absent() -> Result<DynamicPortView, DecodeError> {
        Err(DecodeError::MissingField)
    }

    open spec fn spec_encode(x: DynamicPortView) -> JsonView {
        JsonView::Object(
            Seq::empty()
                .push(("HostNetwork"@, String::spec_encode(x.host_network)))
                .push(("Label"@, String::spec_encode(x.label)))
                .push(("To"@, i64::spec_encode(x.to)))
                .push(("Value"@, i64::spec_encode(x.value))),
        )
    }

    fn decode(v: &Json) -> (r: Result<DynamicPort, DecodeError>) {
        let host_network = field::<String>(v, "HostNetwork")?;
        let label = field::<String>(v, "Label")?;
        let to = field::<i64>(v, "To")?;
        let value = field::<i64>(v, "Value")?;
        Ok(DynamicPort { host_network, label, to, value })
    }

    fn absent() -> (r: Result<DynamicPort, DecodeError>) {
        Err(DecodeError::MissingField)
    }

    fn encode(&self) -> (r: Json) {
        let mut members: Vec<(String, Json)> = Vec::new();
        proof {
            assert(members_view(members@) =~= Seq::empty());
        }
        put(&mut members, "HostNetwork", self.host_network.encode());
        put(&mut members, "Label", self.label.encode());
        put(&mut members, "To", self.to.encode());
        put(&mut members, "Value", self.value.encode());
        Json::Object(members)
    }

    proof fn lemma_round_trip(v: JsonView) {
        let x = Self::spec_decode(v)->Ok_0;
        let w = Self::spec_encode(x);
        lemma_dynamic_port_members(x);
        lemma_field_round_trip::<String>(v, "HostNetwork"@);
        lemma_field_round_trip::<String>(v, "Label"@);
        lemma_field_round_trip::<i64>(v, "To"@);
        lemma_field_round_trip::<i64>(v, "Value"@);
        assert(spec_field::<String>(w, "HostNetwork"@) == spec_field::<String>(v, "HostNetwork"@));
        assert(spec_field::<String>(w, "Label"@) == spec_field::<String>(v, "Label"@));
        assert(spec_field::<i64>(w, "To"@) == spec_field::<i64>(v, "To"@));
        assert(spec_field::<i64>(w, "Value"@) == spec_field::<i64>(v, "Value"@));
    }

    proof fn lemma_absent_round_trip() {
    }

    proof fn lemma_writable(v: JsonView) {
        lemma_field_writable::<String>(v, "HostNetwork"@);
        lemma_field_writable::<String>(v, "Label"@);
        lemma_field_writable::<i64>(v, "To"@);
        lemma_field_writable::<i64>(v, "Value"@);
        lemma_dynamic_port_written(Self::spec_decode(v)->Ok_0);
    }
}

/// How the names of the fields of a [`Port`] are spelled: of each its length
/// and, where another is as long, a letter in which the two differ.
proof fn lemma_port_names()
    ensures
        "HostIP"@.len() == 6,
        "Label"@.len() == 5 && "Label"@[0] == 'L',
        "To"@.len() == 2,
        "Value"@.len() == 5 && "Value"@[0] == 'V',
{
    reveal_strlit("HostIP");
    reveal_strlit("Label");
    reveal_strlit("To");
    reveal_strlit("Value");
}

/// Each member of a written [`Port`] is found under its name.
proof fn lemma_port_members(x: PortView)
    ensures
        lookup(Port::spec_encode(x)->Object_0, "HostIP"@) == Some(
            String::spec_encode(x.host_ip),
        ),
        lookup(Port::spec_encode(x)->Object_0, "Label"@) == Some(
            String::spec_encode(x.label),
        ),
        lookup(Port::spec_encode(x)->Object_0, "To"@) == Some(
            i64::spec_encode(x.to),
        ),
        lookup(Port::spec_encode(x)->Object_0, "Value"@) == Some(
            i64::spec_encode(x.value),
        ),
{
    broadcast use {lemma_lookup_push, lemma_lookup_empty};

    lemma_port_names();
}

/// A [`Port`] is written as a tree that can be written as text where each of
/// its fields is.
proof fn lemma_port_written(x: PortView)
    requires
        writable(String::spec_encode(x.host_ip)),
        writable(String::spec_encode(x.label)),
        writable(i64::spec_encode(x.to)),
        writable(i64::spec_encode(x.value)),
    ensures
        writable(Port::spec_encode(x)),
{
    broadcast use {
        lemma_writable_push,
        lemma_writable_empty,
        lemma_lookup_push,
        lemma_lookup_empty,
    };

    lemma_port_names();
    lemma_writable_object(Port::spec_encode(x)->Object_0);
}

impl Wire for Port {
    open spec fn spec_decode(v: JsonView) -> Result<PortView, DecodeError> {
        if let Err(e) = spec_field::<String>(v, "HostIP"@) {
            Err(e)
        } else if let Err(e) = spec_field::<String>(v, "Label"@) {
            Err(e)
        } else if let Err(e) = spec_field::<i64>(v, "To"@) {
            Err(e)
        } else if let Err(e) = spec_field::<i64>(v, "Value"@) {
            Err(e)
        } else {
            Ok(
                PortView {
                    host_ip: spec_field::<String>(v, "HostIP"@)->Ok_0,
                    label: spec_field::<String>(v, "Label"@)->Ok_0,
                    to: spec_field::<i64>(v, "To"@)->Ok_0,
                    value: spec_field::<i64>(v, "Value"@)->Ok_0,
                },
            )
        }
    }

    open spec fn spec_absent() -> Result<PortView, DecodeError> {
        Err(DecodeError::MissingField)
    }

    open spec fn spec_encode(x: PortView) -> JsonView {
        JsonView::Object(
            Seq::empty()
                .push(("HostIP"@, String::spec_encode(x.host_ip)))
                .push(("Label"@, String::spec_encode(x.label)))
                .push(("To"@, i64::spec_encode(x.to)))
                .push(("Value"@, i64::spec_encode(x.value))),
        )
    }

    fn decode(v: &Json) -> (r: Result<Port, DecodeError>) {
        let host_ip = field::<String>(v, "HostIP")?;
        let label = field::<String>(v, "Label")?;
        let to = field::<i64>(v, "To")?;
        let value = field::<i64>(v, "Value")?;
        Ok(Port { host_ip, label, to, value })
    }

    fn absent() -> (r: Result<Port, DecodeError>) {
        Err(DecodeError::MissingField)
    }

    fn encode(&self) -> (r: Json) {
        let mut members: Vec<(String, Json)> = Vec::new();
        proof {
            assert(members_view(members@) =~= Seq::empty());
        }
        put(&mut members, "HostIP", self.host_ip.encode());
        put(&mut members, "Label", self.label.encode());
        put(&mut members, "To", self.to.encode());
        put(&mut members, "Value", self.value.encode());
        Json::Object(members)
    }

    proof fn lemma_round_trip(v: JsonView) {
        let x = Self::spec_decode(v)->Ok_0;
        let w = Self::spec_encode(x);
        lemma_port_members(x);
        lemma_field_round_trip::<String>(v, "HostIP"@);
        lemma_field_round_trip::<String>(v, "Label"@);
        lemma_field_round_trip::<i64>(v, "To"@);
        lemma_field_round_trip::<i64>(v, "Value"@);
        assert(spec_field::<String>(w, "HostIP"@) == spec_field::<String>(v, "HostIP"@));
        assert(spec_field::<String>(w, "Label"@) == spec_field::<String>(v, "Label"@));
        assert(spec_field::<i64>(w, "To"@) == spec_field::<i64>(v, "To"@));
        assert(spec_field::<i64>(w, "Value"@) == spec_field::<i64>(v, "Value"@));
    }

    proof fn lemma_absent_round_trip() {
    }

    proof fn lemma_writable(v: JsonView) {
        lemma_field_writable::<String>(v, "HostIP"@);
        lemma_field_writable::<String>(v, "Label"@);
        lemma_field_writable::<i64>(v, "To"@);
        lemma_field_writable::<i64>(v, "Value"@);
        lemma_port_written(Self::spec_decode(v)->Ok_0);
    }
}

/// How the names of the fields of a [`Network`] are spelled: of each its length
/// and, where another is as long, a letter in which the two differ.
proof fn lemma_network_names()
    ensures
        "CIDR"@.len() == 4 && "CIDR"@[0] == 'C',
        "DNS"@.len() == 3,
        "Device"@.len() == 6,
        "DynamicPorts"@.len() == 12,
        "IP"@.len() == 2,
        "MBits"@.len() == 5,
        "Mode"@.len() == 4 && "Mode"@[0] == 'M',
        "ReservedPorts"@.len() == 13,
{
    reveal_strlit("CIDR");
    reveal_strlit("DNS");
    reveal_strlit("Device");
    reveal_strlit("DynamicPorts");
    reveal_strlit("IP");
    reveal_strlit("MBits");
    reveal_strlit("Mode");
    reveal_strlit("ReservedPorts");
}

/// Each member of a written [`Network`] is found under its name.
proof fn lemma_network_members(x: NetworkView)
    ensures
        lookup(Network::spec_encode(x)->Object_0, "CIDR"@) == Some(
            String::spec_encode(x.cidr),
        ),
        lookup(Network::spec_encode(x)->Object_0, "DNS"@) == Some(
            <Option<String>>::spec_encode(x.dns),
        ),
        lookup(Network::spec_encode(x)->Object_0, "Device"@) == Some(
            String::spec_encode(x.device),
        ),
        lookup(Network::spec_encode(x)->Object_0, "DynamicPorts"@) == Some(
            <Option<Vec<DynamicPort>>>::spec_encode(x.dynamic_ports),
        ),
        lookup(Network::spec_encode(x)->Object_0, "IP"@) == Some(
            String::spec_encode(x.ip),
        ),
        lookup(Network::spec_encode(x)->Object_0, "MBits"@) == Some(
            <Option<i64>>::spec_encode(x.mbits),
        ),
        lookup(Network::spec_encode(x)->Object_0, "Mode"@) == Some(
            String::spec_encode(x.mode),
        ),
        lookup(Network::spec_encode(x)->Object_0, "ReservedPorts"@) == Some(
            <Option<Vec<DynamicPort>>>::spec_encode(x.reserved_ports),
        ),
{
    broadcast use {lemma_lookup_push, lemma_lookup_empty};

    lemma_network_names();
}

/// A [`Network`] is written as a tree that can be written as text where each of
/// its fields is.
proof fn lemma_network_written(x: NetworkView)
    requires
        writable(String::spec_encode(x.cidr)),
        writable(<Option<String>>::spec_encode(x.dns)),
        writable(String::spec_encode(x.device)),
        writable(<Option<Vec<DynamicPort>>>::spec_encode(x.dynamic_ports)),
        writable(String::spec_encode(x.ip)),
        writable(<Option<i64>>::spec_encode(x.mbits)),
        writable(String::spec_encode(x.mode)),
        writable(<Option<Vec<DynamicPort>>>::spec_encode(x.reserved_ports)),
    ensures
        writable(Network::spec_encode(x)),
{
    broadcast use {
        lemma_writable_push,
        lemma_writable_empty,
        lemma_lookup_push,
        lemma_lookup_empty,
    };

    lemma_network_names();
    lemma_writable_object(Network::spec_encode(x)->Object_0);
}

impl Wire for Network {
    open spec fn spec_decode(v: JsonView) -> Result<NetworkView, DecodeError> {
        if let Err(e) = spec_field::<String>(v, "CIDR"@) {
            Err(e)
        } else if let Err(e) = spec_field::<Option<String>>(v, "DNS"@) {
            Err(e)
        } else if let Err(e) = spec_field::<String>(v, "Device"@) {
            Err(e)
        } else if let Err(e) = spec_field::<Option<Vec<DynamicPort>>>(v, "DynamicPorts"@) {
            Err(e)
        } else if let Err(e) = spec_field::<String>(v, "IP"@) {
            Err(e)
        } else if let Err(e) = spec_field::<Option<i64>>(v, "MBits"@) {
            Err(e)
        } else if let Err(e) = spec_field::<String>(v, "Mode"@) {
            Err(e)
        } else if let Err(e) = spec_field::<Option<Vec<DynamicPort>>>(v, "ReservedPorts"@) {
            Err(e)
        } else {
            Ok(
                NetworkView {
                    cidr: spec_field::<String>(v, "CIDR"@)->Ok_0,
                    dns: spec_field::<Option<String>>(v, "DNS"@)->Ok_0,
                    device: spec_field::<String>(v, "Device"@)->Ok_0,
                    dynamic_ports: spec_field::<Option<Vec<DynamicPort>>>(v, "DynamicPorts"@)->Ok_0,
                    ip: spec_field::<String>(v, "IP"@)->Ok_0,
                    mbits: spec_field::<Option<i64>>(v, "MBits"@)->Ok_0,
                    mode: spec_field::<String>(v, "Mode"@)->Ok_0,
                    reserved_ports: spec_field::<Option<Vec<DynamicPort>>>(
                        v, "ReservedPorts"@,
                    )->Ok_0,
                },
            )
        }
    }

    open spec fn spec_absent() -> Result<NetworkView, DecodeError> {
        Err(DecodeError::MissingField)
    }

    open spec fn spec_encode(x: NetworkView) -> JsonView {
        JsonView::Object(
            Seq::empty()
                .push(("CIDR"@, String::spec_encode(x.cidr)))
                .push(("DNS"@, <Option<String>>::spec_encode(x.dns)))
                .push(("Device"@, String::spec_encode(x.device)))
                .push(("DynamicPorts"@, <Option<Vec<DynamicPort>>>::spec_encode(x.dynamic_ports)))
                .push(("IP"@, String::spec_encode(x.ip)))
                .push(("MBits"@, <Option<i64>>::spec_encode(x.mbits)))
                .push(("Mode"@, String::spec_encode(x.mode)))
                .push(("ReservedPorts"@, <Option<Vec<DynamicPort>>>::spec_encode(x.reserved_ports))),
        )
    }

    fn decode(v: &Json) -> (r: Result<Network, DecodeError>) {
        let cidr = field::<String>(v, "CIDR")?;
        let dns = field::<Option<String>>(v, "DNS")?;
        let device = field::<String>(v, "Device")?;
        let dynamic_ports = field::<Option<Vec<DynamicPort>>>(v, "DynamicPorts")?;
        let ip = field::<String>(v, "IP")?;
        let mbits = field::<Option<i64>>(v, "MBits")?;
        let mode = field::<String>(v, "Mode")?;
        let reserved_ports = field::<Option<Vec<DynamicPort>>>(v, "ReservedPorts")?;
        Ok(Network { cidr, dns, device, dynamic_ports, ip, mbits, mode, reserved_ports })
    }

    fn absent() -> (r: Result<Network, DecodeError>) {
        Err(DecodeError::MissingField)
    }

    fn encode(&self) -> (r: Json) {
        let mut members: Vec<(String, Json)> = Vec::new();
        proof {
            assert(members_view(members@) =~= Seq::empty());
        }
        put(&mut members, "CIDR", self.cidr.encode());
        put(&mut members, "DNS", self.dns.encode());
        put(&mut members, "Device", self.device.encode());
        put(&mut members, "DynamicPorts", self.dynamic_ports.encode());
        put(&mut members, "IP", self.ip.encode());
        put(&mut members, "MBits", self.mbits.encode());
        put(&mut members, "Mode", self.mode.encode());
        put(&mut members, "ReservedPorts", self.reserved_ports.encode());
        Json::Object(members)
    }

    proof fn lemma_round_trip(v: JsonView) {
        let x = Self::spec_decode(v)->Ok_0;
        let w = Self::spec_encode(x);
        lemma_network_members(x);
        lemma_field_round_trip::<String>(v, "CIDR"@);
        lemma_field_round_trip::<Option<String>>(v, "DNS"@);
        lemma_field_round_trip::<String>(v, "Device"@);
        lemma_field_round_trip::<Option<Vec<DynamicPort>>>(v, "DynamicPorts"@);
        lemma_field_round_trip::<String>(v, "IP"@);
        lemma_field_round_trip::<Option<i64>>(v, "MBits"@);
        lemma_field_round_trip::<String>(v, "Mode"@);
        lemma_field_round_trip::<Option<Vec<DynamicPort>>>(v, "ReservedPorts"@);
        assert(spec_field::<String>(w, "CIDR"@) == spec_field::<String>(v, "CIDR"@));
        assert(spec_field::<Option<String>>(w, "DNS"@) == spec_field::<Option<String>>(v, "DNS"@));
        assert(spec_field::<String>(w, "Device"@) == spec_field::<String>(v, "Device"@));
        assert(spec_field::<Option<Vec<DynamicPort>>>(w, "DynamicPorts"@)
            == spec_field::<Option<Vec<DynamicPort>>>(v, "DynamicPorts"@));
        assert(spec_field::<String>(w, "IP"@) == spec_field::<String>(v, "IP"@));
        assert(spec_field::<Option<i64>>(w, "MBits"@) == spec_field::<Option<i64>>(v, "MBits"@));
        assert(spec_field::<String>(w, "Mode"@) == spec_field::<String>(v, "Mode"@));
        assert(spec_field::<Option<Vec<DynamicPort>>>(w, "ReservedPorts"@)
            == spec_field::<Option<Vec<DynamicPort>>>(v, "ReservedPorts"@));
    }

    proof fn lemma_absent_round_trip() {
    }

    proof fn lemma_writable(v: JsonView) {
        lemma_field_writable::<String>(v, "CIDR"@);
        lemma_field_writable::<Option<String>>(v, "DNS"@);
        lemma_field_writable::<String>(v, "Device"@);
        lemma_field_writable::<Option<Vec<DynamicPort>>>(v, "DynamicPorts"@);
        lemma_field_writable::<String>(v, "IP"@);
        lemma_field_writable::<Option<i64>>(v, "MBits"@);
        lemma_field_writable::<String>(v, "Mode"@);
        lemma_field_writable::<Option<Vec<DynamicPort>>>(v, "ReservedPorts"@);
        lemma_network_written(Self::spec_decode(v)->Ok_0);
    }
}

/// How the names of the fields of a [`NetworkStatus`] are spelled: of each its length
/// and, where another is as long, a letter in which the two differ.
proof fn lemma_network_status_names()
    ensures
        "Address"@.len() == 7,
        "DNS"@.len() == 3,
        "InterfaceName"@.len() == 13,
{
    reveal_strlit("Address");
    reveal_strlit("DNS");
    reveal_strlit("InterfaceName");
}

/// Each member of a written [`NetworkStatus`] is found under its name.
proof fn lemma_network_status_members(x: NetworkStatusView)
    ensures
        lookup(NetworkStatus::spec_encode(x)->Object_0, "Address"@) == Some(
            String::spec_encode(x.address),
        ),
        lookup(NetworkStatus::spec_encode(x)->Object_0, "DNS"@) == Some(
            <Option<Json>>::spec_encode(x.dns),
        ),
        lookup(NetworkStatus::spec_encode(x)->Object_0, "InterfaceName"@) == Some(
            String::spec_encode(x.interface_name),
        ),
{
    broadcast use {lemma_lookup_push, lemma_lookup_empty};

    lemma_network_status_names();
}

/// A [`NetworkStatus`] is written as a tree that can be written as text where each of
/// its fields is.
proof fn lemma_network_status_written(x: NetworkStatusView)
    requires
        writable(String::spec_encode(x.address)),
        writable(<Option<Json>>::spec_encode(x.dns)),
        writable(String::spec_encode(x.interface_name)),
    ensures
        writable(NetworkStatus::spec_encode(x)),
{
    broadcast use {
        lemma_writable_push,
        lemma_writable_empty,
        lemma_lookup_push,
        lemma_lookup_empty,
    };

    lemma_network_status_names();
    lemma_writable_object(NetworkStatus::spec_encode(x)->Object_0);
}

impl Wire for NetworkStatus {
    open spec fn spec_decode(v: JsonView) -> Result<NetworkStatusView, DecodeError> {
        if let Err(e) = spec_field::<String>(v, "Address"@) {
            Err(e)
        } else if let Err(e) = spec_field::<Option<Json>>(v, "DNS"@) {
            Err(e)
        } else if let Err(e) = spec_field::<String>(v, "InterfaceName"@) {
            Err(e)
        } else {
            Ok(
                NetworkStatusView {
                    address: spec_field::<String>(v, "Address"@)->Ok_0,
                    dns: spec_field::<Option<Json>>(v, "DNS"@)->Ok_0,
                    interface_name: spec_field::<String>(v, "InterfaceName"@)->Ok_0,
                },
            )
        }
    }

    open spec fn spec_absent() -> Result<NetworkStatusView, DecodeError> {
        Err(DecodeError::MissingField)
    }

    open spec fn spec_encode(x: NetworkStatusView) -> JsonView {
        JsonView::Object(
            Seq::empty()
                .push(("Address"@, String::spec_encode(x.address)))
                .push(("DNS"@, <Option<Json>>::spec_encode(x.dns)))
                .push(("InterfaceName"@, String::spec_encode(x.interface_name))),
        )
    }

    fn decode(v: &Json) -> (r: Result<NetworkStatus, DecodeError>) {
        let address = field::<String>(v, "Address")?;
        let dns = field::<Option<Json>>(v, "DNS")?;
        let interface_name = field::<String>(v, "InterfaceName")?;
        Ok(NetworkStatus { address, dns, interface_name })
    }

    fn absent() -> (r: Result<NetworkStatus, DecodeError>) {
        Err(DecodeError::MissingField)
    }

    fn encode(&self) -> (r: Json) {
        let mut members: Vec<(String, Json)> = Vec::new();
        proof {
            assert(members_view(members@) =~= Seq::empty());
        }
        put(&mut members, "Address", self.address.encode());
        put(&mut members, "DNS", self.dns.encode());
        put(&mut members, "InterfaceName", self.interface_name.encode());
        Json::Object(members)
    }

    proof fn lemma_round_trip(v: JsonView) {
        let x = Self::spec_decode(v)->Ok_0;
        let w = Self::spec_encode(x);
        lemma_network_status_members(x);
        lemma_field_round_trip::<String>(v, "Address"@);
        lemma_field_round_trip::<Option<Json>>(v, "DNS"@);
        lemma_field_round_trip::<String>(v, "InterfaceName"@);
        assert(spec_field::<String>(w, "Address"@) == spec_field::<String>(v, "Address"@));
        assert(spec_field::<Option<Json>>(w, "DNS"@) == spec_field::<Option<Json>>(v, "DNS"@));
        assert(spec_field::<String>(w, "InterfaceName"@)
            == spec_field::<String>(v, "InterfaceName"@));
    }

    proof fn lemma_absent_round_trip() {
    }

    proof fn lemma_writable(v: JsonView) {
        lemma_field_writable::<String>(v, "Address"@);
        lemma_field_writable::<Option<Json>>(v, "DNS"@);
        lemma_field_writable::<String>(v, "InterfaceName"@);
        lemma_network_status_written(Self::spec_decode(v)->Ok_0);
    }
}

} // verus!
