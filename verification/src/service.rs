//! What each HTTP endpoint does to the registry and what it answers.
//!
//! An unknown name is answered with an ordinary text, not with an error: a
//! caller tells the two apart by the shape of the body.

use crate::ports::{allocate, is_ephemeral};
use crate::registry::{lookup, Registry, RegistryView};
use crate::text::{decimal_string, decimal_text, decimal_value, is_decimal, lemma_decimal_text_reads_back};
use vstd::prelude::*;
use vstd::string::*;

verus! {

/// What a spawn request is answered with.
pub open spec fn acknowledgement_text() -> Seq<char> {
    "QEMU was spawned :)"@
}

/// What a read of the unknown name `name` is answered with.
pub open spec fn not_found_text(name: Seq<char>) -> Seq<char> {
    "Couldn't get map for "@ + name
}

/// The meta-data of the instance `name`.
pub open spec fn meta_data_text(name: Seq<char>) -> Seq<char> {
    "instance-id: "@ + name
}

/// The answer to a user-data request for `name`.
pub open spec fn user_data_reply(registry: RegistryView, name: Seq<char>) -> Seq<char> {
    match lookup(registry.user_data, name) {
        Some(user_data) => user_data,
        None => not_found_text(name),
    }
}

/// The answer to an SSH-port request for `name`.
pub open spec fn ssh_port_reply(registry: RegistryView, name: Seq<char>) -> Seq<char> {
    match lookup(registry.ports, name) {
        Some(port) => decimal_text(port as nat),
        None => not_found_text(name),
    }
}

/// The registry after `name` was spawned with `user_data` and `ssh_port`.
pub open spec fn registered(
    registry: RegistryView,
    name: Seq<char>,
    user_data: Seq<char>,
    ssh_port: u16,
) -> RegistryView {
    RegistryView {
        user_data: registry.user_data.insert(name, user_data),
        ports: registry.ports.insert(name, ssh_port),
    }
}

/// The launch that a spawn request asks for.
#[derive(Clone, Debug, PartialEq, Eq)]
pub struct LaunchRequest {
    pub name: String,
    pub ssh_port: u16,
}

/// The outcome of a spawn request: the text for the caller, and the launch to
/// carry out once the caller has been answered.
#[derive(Clone, Debug, PartialEq, Eq)]
pub struct Spawned {
    pub acknowledgement: &'static str,
    pub launch: LaunchRequest,
}

fn not_found(name: &str) -> (r: String)
    ensures
        r@ == not_found_text(name@),
{
    let mut r = String::from_str("Couldn't get map for ");
    r.append(name);
    r
}

/// Records a spawn of `name` for which `ssh_port` was picked: first the
/// user-data, then the port.
pub fn register(registry: &mut Registry, name: String, user_data: String, ssh_port: u16) -> (r:
    Spawned)
    ensures
        final(registry)@ == registered(old(registry)@, name@, user_data@, ssh_port),
        r.acknowledgement@ == acknowledgement_text(),
        r.launch.name@ == name@,
        r.launch.ssh_port == ssh_port,
{
    registry.put(name.clone(), user_data);
    registry.put_port(name.clone(), ssh_port);
    Spawned { acknowledgement: "QEMU was spawned :)", launch: LaunchRequest { name, ssh_port } }
}

/// `POST /spawn_qemu/{name}`: stores the body as the user-data of `name`, picks
/// an SSH port for it and stores that too. The launch itself is left to the
/// caller, who answers first.
pub fn spawn_qemu_request(registry: &mut Registry, name: String, user_data: String) -> (r: Spawned)
    ensures
        is_ephemeral(r.launch.ssh_port),
        final(registry)@ == registered(old(registry)@, name@, user_data@, r.launch.ssh_port),
        r.acknowledgement@ == acknowledgement_text(),
        r.launch.name@ == name@,
{
    let ssh_port = allocate();
    register(registry, name, user_data, ssh_port)
}

/// `GET /{name}/user-data`: the stored user-data as it was received.
pub fn user_data_request(registry: &Registry, name: &str) -> (r: String)
    ensures
        r@ == user_data_reply(registry@, name@),
{
    match registry.get(name) {
        Some(user_data) => user_data.clone(),
        None => not_found(name),
    }
}

/// `GET /{name}/meta-data`: one line that names the instance. No registry is
/// consulted, so the answer is the same before and after a spawn.
pub fn meta_data_request(name: &str) -> (r: String)
    ensures
        r@ == meta_data_text(name@),
{
    let mut r = String::from_str("instance-id: ");
    r.append(name);
    r
}

/// `GET /{name}/ssh-port`: the stored port in decimal.
pub fn ssh_port_request(registry: &Registry, name: &str) -> (r: String)
    ensures
        r@ == ssh_port_reply(registry@, name@),
{
    match registry.get_port(name) {
        Some(port) => decimal_string(port),
        None => not_found(name),
    }
}

/// One spawn, as the registry records it.
pub ghost struct SpawnRecord {
    pub name: Seq<char>,
    pub user_data: Seq<char>,
    pub ssh_port: u16,
}

/// The registry after the spawns of `spawns` were recorded one after the other.
pub open spec fn registered_all(registry: RegistryView, spawns: Seq<SpawnRecord>) -> RegistryView
    decreases spawns.len(),
{
    if spawns.len() == 0 {
        registry
    } else {
        registered(
            registered_all(registry, spawns.drop_last()),
            spawns.last().name,
            spawns.last().user_data,
            spawns.last().ssh_port,
        )
    }
}

/// Whether no two spawns of `spawns` are for the same name.
pub open spec fn distinct_names(spawns: Seq<SpawnRecord>) -> bool {
    forall|i: int, j: int|
        0 <= i < j < spawns.len() ==> (#[trigger] spawns[i]).name != (#[trigger] spawns[j]).name
}

/// After a spawn of `name`, a user-data request for `name` is answered with
/// exactly the text that was sent, whatever the registry held before.
pub proof fn law_user_data_after_spawn(
    registry: RegistryView,
    name: Seq<char>,
    user_data: Seq<char>,
    ssh_port: u16,
)
    ensures
        user_data_reply(registered(registry, name, user_data, ssh_port), name) == user_data,
{
}

/// After a spawn of `name`, an SSH-port request for `name` is answered with a
/// decimal number that lies in the range from which ports are picked.
pub proof fn law_ssh_port_after_spawn(
    registry: RegistryView,
    name: Seq<char>,
    user_data: Seq<char>,
    ssh_port: u16,
)
    requires
        is_ephemeral(ssh_port),
    ensures
        ssh_port_reply(registered(registry, name, user_data, ssh_port), name) == decimal_text(
            ssh_port as nat,
        ),
        is_decimal(ssh_port_reply(registered(registry, name, user_data, ssh_port), name)),
        32768 <= decimal_value(
            ssh_port_reply(registered(registry, name, user_data, ssh_port), name),
        ) < 60999,
{
    lemma_decimal_text_reads_back(ssh_port as nat);
}

/// A request for a name that the registry does not know is answered with the
/// not-found text, which is never empty.
pub proof fn law_unknown_name_is_answered(registry: RegistryView, name: Seq<char>)
    ensures
        not_found_text(name).len() > 0,
        !registry.user_data.contains_key(name) ==> user_data_reply(registry, name)
            == not_found_text(name),
        !registry.ports.contains_key(name) ==> ssh_port_reply(registry, name) == not_found_text(
            name,
        ),
{
    reveal_strlit("Couldn't get map for ");
}

/// A second spawn of a name replaces what the first one stored: requests are
/// answered from the second.
pub proof fn law_respawn_overwrites(
    registry: RegistryView,
    name: Seq<char>,
    first_user_data: Seq<char>,
    first_port: u16,
    second_user_data: Seq<char>,
    second_port: u16,
)
    ensures
        user_data_reply(
            registered(
                registered(registry, name, first_user_data, first_port),
                name,
                second_user_data,
                second_port,
            ),
            name,
        ) == second_user_data,
        ssh_port_reply(
            registered(
                registered(registry, name, first_user_data, first_port),
                name,
                second_user_data,
                second_port,
            ),
            name,
        ) == decimal_text(second_port as nat),
{
}

/// A spawn of one name changes no answer for any other name.
pub proof fn law_spawn_keeps_other_names(
    registry: RegistryView,
    name: Seq<char>,
    user_data: Seq<char>,
    ssh_port: u16,
    other: Seq<char>,
)
    requires
        other != name,
    ensures
        user_data_reply(registered(registry, name, user_data, ssh_port), other) == user_data_reply(
            registry,
            other,
        ),
        ssh_port_reply(registered(registry, name, user_data, ssh_port), other) == ssh_port_reply(
            registry,
            other,
        ),
{
}

/// When spawns of pairwise different names are recorded, in whatever order
/// they reach the registry, each of them can be read back: none is lost and
/// none is changed by the others.
pub proof fn law_distinct_spawns_are_all_kept(
    registry: RegistryView,
    spawns: Seq<SpawnRecord>,
    i: int,
)
    requires
        distinct_names(spawns),
        0 <= i < spawns.len(),
    ensures
        user_data_reply(registered_all(registry, spawns), spawns[i].name) == spawns[i].user_data,
        ssh_port_reply(registered_all(registry, spawns), spawns[i].name) == decimal_text(
            spawns[i].ssh_port as nat,
        ),
    decreases spawns.len(),
{
    let before = spawns.drop_last();
    if i < spawns.len() - 1 {
        assert(distinct_names(before)) by {
            assert forall|a: int, b: int| 0 <= a < b < before.len() implies (#[trigger] before[a]).name
                != (#[trigger] before[b]).name by {
                assert(before[a] == spawns[a]);
                assert(before[b] == spawns[b]);
            }
        }
        law_distinct_spawns_are_all_kept(registry, before, i);
        assert(before[i] == spawns[i]);
        assert(spawns[i].name != spawns[spawns.len() - 1].name);
        law_spawn_keeps_other_names(
            registered_all(registry, before),
            spawns.last().name,
            spawns.last().user_data,
            spawns.last().ssh_port,
            spawns[i].name,
        );
    }
}

} // verus!
