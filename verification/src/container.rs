//! A Docker container as the bridge sees it: its identity, state, health and the
//! resource figures taken from the Docker stats and inspect responses.

use std::sync::Arc;

use vstd::prelude::*;

use crate::constants::{DOCKER_NETWORK_MODE_HOST, UNKNOWN};
use crate::mqtt::MqttMessage;
use crate::settings::Settings;
use crate::text::{is_ascii_char, str_eq, to_lowercase, to_owned_string, unicode_lowercase, without_first};

verus! {

/// Calls `Arc::clone`, which makes another pointer to the same value.
#[verifier::external_body]
pub(crate) fn share<T>(a: &Arc<T>) -> (r: Arc<T>)
    ensures
        r == *a,
{
    Arc::clone(a)
}

/// CPU time consumed by the container.
pub struct CpuUsage {
    /// Total CPU time consumed, in nanoseconds.
    pub total_usage: u64,
    /// CPU time per core; the number of entries is the number of cores.
    pub percpu_usage: Option<Vec<u64>>,
}

/// A CPU sample of the container and of the whole system.
pub struct CpuStats {
    pub cpu_usage: CpuUsage,
    /// CPU time of the whole system.
    pub system_cpu_usage: Option<u64>,
}

/// Detailed memory figures, which depend on the cgroup version of the host.
pub enum MemoryStatsStats {
    /// cgroup v1; only the figure the memory usage is corrected by is kept.
    V1 { total_inactive_file: u64 },
    /// cgroup v2.
    V2,
}

/// Memory figures of the container, in bytes.
pub struct MemoryStats {
    pub usage: Option<u64>,
    pub limit: Option<u64>,
    pub stats: Option<MemoryStatsStats>,
}

/// Traffic of one network interface, in bytes.
pub struct NetworkStats {
    pub rx_bytes: u64,
    pub tx_bytes: u64,
}

/// One entry of the block I/O statistics: bytes moved by an operation.
pub struct BlkioStatsEntry {
    /// The operation, such as `Read` or `Write`.
    pub op: String,
    pub value: u64,
}

/// Block I/O statistics.
pub struct BlkioStats {
    pub io_service_bytes_recursive: Option<Vec<BlkioStatsEntry>>,
}

/// The figures of a Docker stats response that the bridge reads.
pub struct ContainerStats {
    /// The container's name, with its leading slash.
    pub name: String,
    pub cpu_stats: CpuStats,
    /// The previous CPU sample.
    pub precpu_stats: CpuStats,
    pub memory_stats: MemoryStats,
    /// The traffic of each network the container is attached to.
    pub networks: Option<Vec<NetworkStats>>,
    pub blkio_stats: BlkioStats,
}

/// Health check result of a container.
pub struct Health {
    /// `healthy`, `unhealthy`, `starting`, `none`, or empty when not reported.
    pub status: Option<String>,
}

/// Run state of a container.
pub struct ContainerState {
    /// `created`, `running`, `paused`, `restarting`, `removing`, `exited`, `dead`, or
    /// empty when not reported.
    pub status: Option<String>,
    pub health: Option<Health>,
}

/// Host configuration of a container.
pub struct HostConfig {
    pub network_mode: Option<String>,
    pub auto_remove: Option<bool>,
}

/// Configuration of a container.
pub struct ContainerConfig {
    /// The container's labels as key and value.
    pub labels: Option<Vec<(String, String)>>,
}

/// The parts of a Docker inspect response that the bridge reads.
pub struct ContainerInspect {
    /// The container's name, with its leading slash.
    pub name: Option<String>,
    pub state: Option<ContainerState>,
    pub host_config: Option<HostConfig>,
    pub config: Option<ContainerConfig>,
}

/// CPU time between two samples, of the container and of the system, and the number
/// of cores. The CPU percentage is `cpu_delta / system_delta * 100 * online_cpus`.
#[derive(Clone, Copy)]
pub struct CpuLoad {
    pub cpu_delta: u64,
    pub system_delta: u64,
    pub online_cpus: usize,
}

/// A container bridged to MQTT.
pub struct Container {
    pub settings: Arc<Settings>,
    /// The container's name, with its leading slash.
    pub name: String,
    pub image: String,
    pub state: String,
    pub health: String,
    /// The container shares the host's network, so it has no network statistics.
    pub is_host_networking: bool,
    /// CPU load since the previous sample; none means 0 percent.
    pub cpu: Option<CpuLoad>,
    /// Memory in use, in bytes, less the inactive file cache on cgroup v1 hosts.
    pub mem_bytes: i128,
    /// Memory limit in bytes; none means a percentage of 0.
    pub mem_limit: Option<u64>,
    /// Bytes received and sent over all networks.
    pub net_rx_bytes: u128,
    pub net_tx_bytes: u128,
    /// Bytes read from and written to block devices.
    pub block_rx_bytes: u128,
    pub block_tx_bytes: u128,
}

/// The state reported by an inspect response; `unknown` when absent or empty.
pub open spec fn state_of(inspect: ContainerInspect) -> Seq<char> {
    match inspect.state {
        Some(state) => match state.status {
            Some(status) => if status@.len() == 0 { UNKNOWN@ } else { status@ },
            None => UNKNOWN@,
        },
        None => UNKNOWN@,
    }
}

/// The health reported by an inspect response; `unknown` when absent or empty.
pub open spec fn health_of(inspect: ContainerInspect) -> Seq<char> {
    match inspect.state {
        Some(state) => match state.health {
            Some(health) => match health.status {
                Some(status) => if status@.len() == 0 { UNKNOWN@ } else { status@ },
                None => UNKNOWN@,
            },
            None => UNKNOWN@,
        },
        None => UNKNOWN@,
    }
}

/// The inspect response names no container or the same one as the stats response.
pub open spec fn names_agree(stats: ContainerStats, inspect: ContainerInspect) -> bool {
    match inspect.name {
        Some(name) => name@ == stats.name@,
        None => true,
    }
}

/// The container uses the host's network.
pub open spec fn is_host_networking_of(inspect: ContainerInspect) -> bool {
    match inspect.host_config {
        Some(host_config) => match host_config.network_mode {
            Some(mode) => mode@ == DOCKER_NETWORK_MODE_HOST@,
            None => false,
        },
        None => false,
    }
}

/// The CPU load between the two samples of a stats response, when the system's CPU
/// time and the per-core figures are reported and both the container's and the
/// system's CPU time grew.
pub open spec fn cpu_load_of(stats: ContainerStats) -> Option<CpuLoad> {
    match (stats.cpu_stats.system_cpu_usage, stats.cpu_stats.cpu_usage.percpu_usage) {
        (Some(system), Some(percpu)) => {
            let total = stats.cpu_stats.cpu_usage.total_usage;
            let pre_total = stats.precpu_stats.cpu_usage.total_usage;
            let pre_system = match stats.precpu_stats.system_cpu_usage {
                Some(s) => s,
                None => 0,
            };
            if total > pre_total && system > pre_system {
                Some(
                    CpuLoad {
                        cpu_delta: (total - pre_total) as u64,
                        system_delta: (system - pre_system) as u64,
                        online_cpus: percpu@.len() as usize,
                    },
                )
            } else {
                None
            }
        },
        _ => None,
    }
}

/// Memory in use: the usage less the inactive file cache on cgroup v1, or 0 when no
/// usage is reported.
pub open spec fn mem_bytes_of(stats: ContainerStats) -> int {
    match stats.memory_stats.usage {
        Some(usage) => match stats.memory_stats.stats {
            Some(MemoryStatsStats::V1 { total_inactive_file }) => usage - total_inactive_file,
            _ => usage as int,
        },
        None => 0,
    }
}

/// The memory limit, when a usage is reported too.
pub open spec fn mem_limit_of(stats: ContainerStats) -> Option<u64> {
    match stats.memory_stats.usage {
        Some(_) => stats.memory_stats.limit,
        None => None,
    }
}

/// Bytes received over the given networks.
pub open spec fn sum_rx(networks: Seq<NetworkStats>) -> int
    decreases networks.len(),
{
    if networks.len() == 0 {
        0
    } else {
        sum_rx(networks.drop_last()) + networks.last().rx_bytes
    }
}

/// Bytes sent over the given networks.
pub open spec fn sum_tx(networks: Seq<NetworkStats>) -> int
    decreases networks.len(),
{
    if networks.len() == 0 {
        0
    } else {
        sum_tx(networks.drop_last()) + networks.last().tx_bytes
    }
}

/// Bytes moved by the entries whose operation, lowercased, is `op`.
pub open spec fn sum_op(entries: Seq<BlkioStatsEntry>, op: Seq<char>) -> int
    decreases entries.len(),
{
    if entries.len() == 0 {
        0
    } else {
        sum_op(entries.drop_last(), op) + if unicode_lowercase(entries.last().op@) == op {
            entries.last().value as int
        } else {
            0
        }
    }
}

/// Network traffic of a stats response: received and sent bytes summed over all
/// networks, 0 when none are reported.
pub open spec fn net_rx_of(stats: ContainerStats) -> int {
    match stats.networks {
        Some(networks) => sum_rx(networks@),
        None => 0,
    }
}

pub open spec fn net_tx_of(stats: ContainerStats) -> int {
    match stats.networks {
        Some(networks) => sum_tx(networks@),
        None => 0,
    }
}

/// Block I/O of a stats response: bytes of `read` and of `write` operations.
pub open spec fn block_of(stats: ContainerStats, op: Seq<char>) -> int {
    match stats.blkio_stats.io_service_bytes_recursive {
        Some(entries) => sum_op(entries@, op),
        None => 0,
    }
}

/// A sum of `n` values of at most `u64::MAX` each stays below `n * u64::MAX`.
proof fn lemma_sum_step_fits(acc: int, i: int, v: u64)
    requires
        0 <= acc <= i * 0xffff_ffff_ffff_ffff,
        0 <= i < 0x1_0000_0000_0000_0000,
    ensures
        acc + v <= (i + 1) * 0xffff_ffff_ffff_ffff,
        (i + 1) * 0xffff_ffff_ffff_ffff <= u128::MAX,
{
    assert((i + 1) * 0xffff_ffff_ffff_ffff <= 0x1_0000_0000_0000_0000 * 0xffff_ffff_ffff_ffff)
        by (nonlinear_arith)
        requires
            0 <= i < 0x1_0000_0000_0000_0000,
    ;
    assert((i + 1) * 0xffff_ffff_ffff_ffff == i * 0xffff_ffff_ffff_ffff + 0xffff_ffff_ffff_ffff)
        by (nonlinear_arith);
}

proof fn lemma_sum_rx_nonneg(networks: Seq<NetworkStats>)
    ensures
        sum_rx(networks) >= 0,
        sum_tx(networks) >= 0,
    decreases networks.len(),
{
    if networks.len() > 0 {
        lemma_sum_rx_nonneg(networks.drop_last());
    }
}

proof fn lemma_sum_op_nonneg(entries: Seq<BlkioStatsEntry>, op: Seq<char>)
    ensures
        sum_op(entries, op) >= 0,
    decreases entries.len(),
{
    if entries.len() > 0 {
        lemma_sum_op_nonneg(entries.drop_last(), op);
    }
}

impl Container {
    /// The stats and inspect responses describe this container: the stats name is the
    /// container's name and the inspect name, when given, agrees with it.
    pub open spec fn matches(self, stats: ContainerStats, inspect: ContainerInspect) -> bool {
        &&& self.name@ == stats.name@
        &&& names_agree(stats, inspect)
    }

    /// State, health and all figures are those of the two responses.
    pub open spec fn figures_from(self, stats: ContainerStats, inspect: ContainerInspect) -> bool {
        &&& self.state@ == state_of(inspect)
        &&& self.health@ == health_of(inspect)
        &&& self.cpu == cpu_load_of(stats)
        &&& self.mem_bytes == mem_bytes_of(stats)
        &&& self.mem_limit == mem_limit_of(stats)
        &&& self.net_rx_bytes == net_rx_of(stats)
        &&& self.net_tx_bytes == net_tx_of(stats)
        &&& self.block_rx_bytes == block_of(stats, "read"@)
        &&& self.block_tx_bytes == block_of(stats, "write"@)
    }

    /// State and health are `unknown` and all figures are 0.
    pub open spec fn has_initial_figures(self) -> bool {
        &&& self.state@ == UNKNOWN@
        &&& self.health@ == UNKNOWN@
        &&& self.cpu is None
        &&& self.mem_bytes == 0
        &&& self.mem_limit is None
        &&& self.net_rx_bytes == 0
        &&& self.net_tx_bytes == 0
        &&& self.block_rx_bytes == 0
        &&& self.block_tx_bytes == 0
    }

    /// `self` holds what `old` holds, with state, health and all figures taken from the
    /// two responses.
    pub open spec fn refreshed_from(self, old: Container, stats: ContainerStats, inspect: ContainerInspect) -> bool {
        &&& self.figures_from(stats, inspect)
        &&& self == (Container {
            state: self.state,
            health: self.health,
            cpu: self.cpu,
            mem_bytes: self.mem_bytes,
            mem_limit: self.mem_limit,
            net_rx_bytes: self.net_rx_bytes,
            net_tx_bytes: self.net_tx_bytes,
            block_rx_bytes: self.block_rx_bytes,
            block_tx_bytes: self.block_tx_bytes,
            ..old
        })
    }

    /// Creates the container from its first stats and inspect responses. The name is
    /// taken from the stats, the image is `unknown` when not given.
    pub fn new(
        settings: Arc<Settings>,
        stats: &ContainerStats,
        inspect: &ContainerInspect,
        image: Option<String>,
    ) -> (r: Self)
        ensures
            r.settings == settings,
            r.name@ == stats.name@,
            r.image@ == (match image {
                Some(i) => i@,
                None => UNKNOWN@,
            }),
            r.is_host_networking == is_host_networking_of(*inspect),
            names_agree(*stats, *inspect) ==> r.figures_from(*stats, *inspect),
            !names_agree(*stats, *inspect) ==> r.has_initial_figures(),
    {
        proof {
            reveal_strlit("unknown");
        }
        let image = match image {
            Some(i) => i,
            None => to_owned_string(UNKNOWN),
        };
        let mut container = Container {
            settings,
            name: stats.name.clone(),
            image,
            state: to_owned_string(UNKNOWN),
            health: to_owned_string(UNKNOWN),
            is_host_networking: Self::is_host_networking(inspect),
            cpu: None,
            mem_bytes: 0,
            mem_limit: None,
            net_rx_bytes: 0,
            net_tx_bytes: 0,
            block_rx_bytes: 0,
            block_tx_bytes: 0,
        };
        container.update(stats, inspect);
        container
    }

    /// Takes over state, health and figures from new stats and inspect responses, if
    /// they describe this container; otherwise the container stays as it is.
    pub fn update(&mut self, stats: &ContainerStats, inspect: &ContainerInspect)
        ensures
            old(self).matches(*stats, *inspect) ==> final(self).refreshed_from(*old(self), *stats, *inspect),
            !old(self).matches(*stats, *inspect) ==> *final(self) == *old(self),
    {
        let inspect_differs = match &inspect.name {
            Some(name) => !str_eq(name.as_str(), stats.name.as_str()),
            None => false,
        };
        if !str_eq(self.name.as_str(), stats.name.as_str()) || inspect_differs {
            return;
        }
        self.parse_state(inspect);
        self.parse_health(inspect);
        self.parse_cpu(stats);
        self.parse_mem(stats);
        self.parse_network(stats);
        self.parse_block_io(stats);
    }

    /// A copy of the container.
    pub fn duplicate(&self) -> (r: Self)
        ensures
            r == *self,
    {
        Container {
            settings: share(&self.settings),
            name: self.name.clone(),
            image: self.image.clone(),
            state: self.state.clone(),
            health: self.health.clone(),
            is_host_networking: self.is_host_networking,
            cpu: self.cpu,
            mem_bytes: self.mem_bytes,
            mem_limit: self.mem_limit,
            net_rx_bytes: self.net_rx_bytes,
            net_tx_bytes: self.net_tx_bytes,
            block_rx_bytes: self.block_rx_bytes,
            block_tx_bytes: self.block_tx_bytes,
        }
    }

    /// The container's name as it appears in topics: without the leading slash.
    pub open spec fn topic_name(self) -> Seq<char> {
        self.name@.drop_first()
    }

    /// The name starts with an ASCII character, which topics leave out.
    pub open spec fn has_topic_name(self) -> bool {
        self.name@.len() > 0 && is_ascii_char(self.name@[0])
    }

    /// `<base topic>/<name without leading slash>`.
    pub open spec fn topic_of(self) -> Seq<char> {
        self.settings.mqtt.base_topic@ + "/"@ + self.topic_name()
    }

    /// The topic the container's figures are published on.
    pub fn get_topic(&self) -> (r: String)
        requires
            self.has_topic_name(),
        ensures
            r@ == self.topic_of(),
    {
        let name = without_first(self.name.as_str());
        self.settings.mqtt.base_topic.clone().concat("/").concat(name.as_str())
    }

    /// The message that publishes the container: the serialized figures as retained
    /// QoS 0 payload on the container's topic.
    pub fn publish(&self, payload: String) -> (r: MqttMessage)
        requires
            self.has_topic_name(),
        ensures
            r.is(self.topic_of(), payload@, true, 0),
    {
        MqttMessage::new(self.get_topic(), payload, true, 0)
    }

    /// The message that removes the container from the broker: an empty retained QoS 1
    /// payload on the container's topic.
    pub fn unpublish(&self) -> (r: MqttMessage)
        requires
            self.has_topic_name(),
        ensures
            r.is(self.topic_of(), Seq::empty(), true, 1),
    {
        proof {
            reveal_strlit("");
        }
        assert(""@ =~= Seq::<char>::empty());
        MqttMessage::new(self.get_topic(), to_owned_string(""), true, 1)
    }

    /// Whether an inspect response shows host networking.
    pub fn is_host_networking(inspect: &ContainerInspect) -> (r: bool)
        ensures
            r == is_host_networking_of(*inspect),
    {
        match &inspect.host_config {
            Some(host_config) => match &host_config.network_mode {
                Some(mode) => {
                    proof {
                        reveal_strlit("host");
                    }
                    str_eq(mode.as_str(), DOCKER_NETWORK_MODE_HOST)
                },
                None => false,
            },
            None => false,
        }
    }

    /// The container's name, with its leading slash.
    pub fn get_name(&self) -> (r: &str)
        ensures
            r@ == self.name@,
    {
        self.name.as_str()
    }

    /// Gives the container a new name.
    pub fn rename(&mut self, new_name: String)
        ensures
            *final(self) == (Container { name: new_name, ..*old(self) }),
    {
        self.name = new_name;
    }

    /// Sets the state from an inspect response.
    pub fn parse_state(&mut self, inspect: &ContainerInspect)
        ensures
            final(self).state@ == state_of(*inspect),
            *final(self) == (Container { state: final(self).state, ..*old(self) }),
    {
        proof {
            reveal_strlit("unknown");
        }
        self.state = match &inspect.state {
            Some(state) => match &state.status {
                Some(status) => if status.as_str().unicode_len() == 0 {
                    to_owned_string(UNKNOWN)
                } else {
                    status.clone()
                },
                None => to_owned_string(UNKNOWN),
            },
            None => to_owned_string(UNKNOWN),
        };
    }

    /// Sets the health from an inspect response.
    pub fn parse_health(&mut self, inspect: &ContainerInspect)
        ensures
            final(self).health@ == health_of(*inspect),
            *final(self) == (Container { health: final(self).health, ..*old(self) }),
    {
        self.health = match &inspect.state {
            Some(state) => match &state.health {
                Some(health) => match &health.status {
                    Some(status) => if status.as_str().unicode_len() == 0 {
                        to_owned_string(UNKNOWN)
                    } else {
                        status.clone()
                    },
                    None => to_owned_string(UNKNOWN),
                },
                None => to_owned_string(UNKNOWN),
            },
            None => to_owned_string(UNKNOWN),
        };
    }

    /// Sets the CPU load from a stats response.
    pub fn parse_cpu(&mut self, stats: &ContainerStats)
        ensures
            final(self).cpu == cpu_load_of(*stats),
            *final(self) == (Container { cpu: final(self).cpu, ..*old(self) }),
    {
        let mut cpu: Option<CpuLoad> = None;
        if let Some(system) = stats.cpu_stats.system_cpu_usage {
            if let Some(percpu) = &stats.cpu_stats.cpu_usage.percpu_usage {
                let total = stats.cpu_stats.cpu_usage.total_usage;
                let pre_total = stats.precpu_stats.cpu_usage.total_usage;
                let pre_system = match stats.precpu_stats.system_cpu_usage {
                    Some(s) => s,
                    None => 0,
                };
                if total > pre_total && system > pre_system {
                    cpu = Some(
                        CpuLoad {
                            cpu_delta: total - pre_total,
                            system_delta: system - pre_system,
                            online_cpus: percpu.len(),
                        },
                    );
                }
            }
        }
        self.cpu = cpu;
    }

    /// Sets the memory figures from a stats response.
    pub fn parse_mem(&mut self, stats: &ContainerStats)
        ensures
            final(self).mem_bytes == mem_bytes_of(*stats),
            final(self).mem_limit == mem_limit_of(*stats),
            *final(self) == (Container {
                mem_bytes: final(self).mem_bytes,
                mem_limit: final(self).mem_limit,
                ..*old(self)
            }),
    {
        let mut mem: i128 = 0;
        let mut limit: Option<u64> = None;
        if let Some(usage) = stats.memory_stats.usage {
            mem = usage as i128;
            if let Some(MemoryStatsStats::V1 { total_inactive_file }) = &stats.memory_stats.stats {
                mem = mem - (*total_inactive_file as i128);
            }
            limit = stats.memory_stats.limit;
        }
        self.mem_bytes = mem;
        self.mem_limit = limit;
    }

    /// Sets the network traffic from a stats response.
    pub fn parse_network(&mut self, stats: &ContainerStats)
        ensures
            final(self).net_rx_bytes == net_rx_of(*stats),
            final(self).net_tx_bytes == net_tx_of(*stats),
            *final(self) == (Container {
                net_rx_bytes: final(self).net_rx_bytes,
                net_tx_bytes: final(self).net_tx_bytes,
                ..*old(self)
            }),
    {
        let mut rx: u128 = 0;
        let mut tx: u128 = 0;
        if let Some(networks) = &stats.networks {
            let n = networks.len();
            let mut i: usize = 0;
            while i < n
                invariant
                    n == networks@.len(),
                    i <= n,
                    rx == sum_rx(networks@.take(i as int)),
                    tx == sum_tx(networks@.take(i as int)),
                    rx <= i * 0xffff_ffff_ffff_ffff,
                    tx <= i * 0xffff_ffff_ffff_ffff,
                decreases n - i,
            {
                proof {
                    lemma_sum_step_fits(rx as int, i as int, networks@[i as int].rx_bytes);
                    lemma_sum_step_fits(tx as int, i as int, networks@[i as int].tx_bytes);
                    assert(networks@.take(i + 1).drop_last() =~= networks@.take(i as int));
                }
                rx = rx + networks[i].rx_bytes as u128;
                tx = tx + networks[i].tx_bytes as u128;
                i = i + 1;
            }
            assert(networks@.take(n as int) =~= networks@);
        }
        self.net_rx_bytes = rx;
        self.net_tx_bytes = tx;
    }

    /// Sets the block I/O figures from a stats response: entries are told apart by
    /// their lowercased operation, `read` or `write`; others are ignored.
    pub fn parse_block_io(&mut self, stats: &ContainerStats)
        ensures
            final(self).block_rx_bytes == block_of(*stats, "read"@),
            final(self).block_tx_bytes == block_of(*stats, "write"@),
            *final(self) == (Container {
                block_rx_bytes: final(self).block_rx_bytes,
                block_tx_bytes: final(self).block_tx_bytes,
                ..*old(self)
            }),
    {
        let mut rx: u128 = 0;
        let mut tx: u128 = 0;
        if let Some(entries) = &stats.blkio_stats.io_service_bytes_recursive {
            let n = entries.len();
            let mut i: usize = 0;
            while i < n
                invariant
                    n == entries@.len(),
                    i <= n,
                    rx == sum_op(entries@.take(i as int), "read"@),
                    tx == sum_op(entries@.take(i as int), "write"@),
                    rx <= i * 0xffff_ffff_ffff_ffff,
                    tx <= i * 0xffff_ffff_ffff_ffff,
                decreases n - i,
            {
                let entry = &entries[i];
                let op = to_lowercase(entry.op.as_str());
                proof {
                    reveal_strlit("read");
                    reveal_strlit("write");
                    assert("read"@.len() != "write"@.len());
                    lemma_sum_step_fits(rx as int, i as int, entry.value);
                    lemma_sum_step_fits(tx as int, i as int, entry.value);
                    lemma_sum_op_nonneg(entries@.take(i as int), "read"@);
                    lemma_sum_op_nonneg(entries@.take(i as int), "write"@);
                    assert(entries@.take(i + 1).drop_last() =~= entries@.take(i as int));
                }
                if str_eq(op.as_str(), "read") {
                    rx = rx + entry.value as u128;
                } else if str_eq(op.as_str(), "write") {
                    tx = tx + entry.value as u128;
                }
                i = i + 1;
            }
            assert(entries@.take(n as int) =~= entries@);
        }
        self.block_rx_bytes = rx;
        self.block_tx_bytes = tx;
    }
}

} // verus!
