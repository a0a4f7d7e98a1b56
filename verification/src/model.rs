//! The container entity and the value objects it is made of.

use vstd::prelude::*;

verus! {

/// An instant, as whole seconds since the Unix epoch and the nanoseconds into
/// that second. Instants are ordered by the seconds first.
#[derive(Debug, Clone, Copy, PartialEq, Eq, Structural, PartialOrd, Ord, Hash)]
pub struct Timestamp {
    pub seconds: i64,
    pub nanos: u32,
}

impl Timestamp {
    /// Whether `self` lies strictly after `other`.
    pub open spec fn is_after(self, other: Timestamp) -> bool {
        self.seconds > other.seconds || (self.seconds == other.seconds && self.nanos > other.nanos)
    }

    /// Whether `self` is `other` or lies after it.
    pub open spec fn at_or_after(self, other: Timestamp) -> bool {
        !other.is_after(self)
    }

    /// The later of `self` and `other`.
    pub open spec fn later_of(self, other: Timestamp) -> Timestamp {
        if other.is_after(self) {
            other
        } else {
            self
        }
    }

    /// Whether `self` lies strictly after `other`.
    pub fn later_than(&self, other: &Timestamp) -> (b: bool)
        ensures
            b == self.is_after(*other),
    {
        self.seconds > other.seconds || (self.seconds == other.seconds && self.nanos > other.nanos)
    }
}

impl Timestamp {
    /// The later of `self` and `other`.
    pub fn or_later(self, other: Timestamp) -> (t: Timestamp)
        ensures
            t == self.later_of(other),
            t.at_or_after(self),
            t.at_or_after(other),
    {
        if other.later_than(&self) {
            other
        } else {
            self
        }
    }
}

/// The identifier of a container: a 128-bit value, written as text in the
/// hyphenated form of a UUID.
#[derive(Debug, Clone, Copy, PartialEq, Eq, Structural, PartialOrd, Ord, Hash)]
pub struct ContainerId(pub u128);

/// Where a container is in its lifecycle.
#[derive(Debug, Clone, Copy, PartialEq, Eq, Structural, Hash)]
pub enum ContainerStatus {
    Stopped,
    Running,
    Starting,
    Stopping,
    Frozen,
    Error,
}

impl ContainerStatus {
    /// The word under which a status is stored.
    pub open spec fn text(self) -> Seq<char> {
        match self {
            ContainerStatus::Stopped => "stopped"@,
            ContainerStatus::Running => "running"@,
            ContainerStatus::Starting => "starting"@,
            ContainerStatus::Stopping => "stopping"@,
            ContainerStatus::Frozen => "frozen"@,
            ContainerStatus::Error => "error"@,
        }
    }

    /// Whether `text` is one of the six words under which a status is stored.
    pub open spec fn is_status_text(text: Seq<char>) -> bool {
        exists|status: ContainerStatus| text == #[trigger] status.text()
    }

    /// The status that a stored word stands for. A word that is none of the
    /// six stands for `Error`.
    pub open spec fn of_text(text: Seq<char>) -> ContainerStatus {
        if text == ContainerStatus::Running.text() {
            ContainerStatus::Running
        } else if text == ContainerStatus::Stopped.text() {
            ContainerStatus::Stopped
        } else if text == ContainerStatus::Starting.text() {
            ContainerStatus::Starting
        } else if text == ContainerStatus::Stopping.text() {
            ContainerStatus::Stopping
        } else if text == ContainerStatus::Frozen.text() {
            ContainerStatus::Frozen
        } else {
            ContainerStatus::Error
        }
    }

    /// The six words differ from one another, so each stands for its own
    /// status.
    pub proof fn lemma_text_round_trip(status: ContainerStatus)
        ensures
            ContainerStatus::of_text(status.text()) == status,
            ContainerStatus::is_status_text(status.text()),
    {
        reveal_strlit("stopped");
        reveal_strlit("running");
        reveal_strlit("starting");
        reveal_strlit("stopping");
        reveal_strlit("frozen");
        reveal_strlit("error");
        assert("stopped"@.len() == 7 && "running"@.len() == 7);
        assert("starting"@.len() == 8 && "stopping"@.len() == 8);
        assert("frozen"@.len() == 6 && "error"@.len() == 5);
        assert("stopped"@[0] == 's' && "running"@[0] == 'r');
        assert("starting"@[3] == 'r' && "stopping"@[3] == 'p');
    }

    /// The word under which this status is stored.
    pub fn as_str(&self) -> (text: &'static str)
        ensures
            text@ == self.text(),
    {
        match self {
            ContainerStatus::Stopped => "stopped",
            ContainerStatus::Running => "running",
            ContainerStatus::Starting => "starting",
            ContainerStatus::Stopping => "stopping",
            ContainerStatus::Frozen => "frozen",
            ContainerStatus::Error => "error",
        }
    }

    /// Reads a stored word, leniently: whatever is not one of the six words
    /// is read as `Error`.
    pub fn from_text(text: &str) -> (status: ContainerStatus)
        ensures
            status == ContainerStatus::of_text(text@),
    {
        if same_text(text, "running") {
            ContainerStatus::Running
        } else if same_text(text, "stopped") {
            ContainerStatus::Stopped
        } else if same_text(text, "starting") {
            ContainerStatus::Starting
        } else if same_text(text, "stopping") {
            ContainerStatus::Stopping
        } else if same_text(text, "frozen") {
            ContainerStatus::Frozen
        } else {
            ContainerStatus::Error
        }
    }

    /// Whether a word may be stored as a status.
    pub fn is_known(text: &str) -> (known: bool)
        ensures
            known == ContainerStatus::is_status_text(text@),
    {
        let known = same_text(text, "stopped") || same_text(text, "running") || same_text(
            text,
            "starting",
        ) || same_text(text, "stopping") || same_text(text, "frozen") || same_text(text, "error");
        proof {
            if known {
                assert(text@ == ContainerStatus::Stopped.text() || text@
                    == ContainerStatus::Running.text() || text@ == ContainerStatus::Starting.text()
                    || text@ == ContainerStatus::Stopping.text() || text@
                    == ContainerStatus::Frozen.text() || text@ == ContainerStatus::Error.text());
            }
        }
        known
    }
}

/// Whether two texts hold the same characters.
pub fn same_text(a: &str, b: &str) -> (same: bool)
    ensures
        same == (a@ == b@),
{
    a.to_owned() == b.to_owned()
}

/// A network interface of a container. The store carries the descriptor
/// without looking into it.
#[derive(Debug, PartialEq, Eq)]
pub struct ContainerNetworkInterface {
    pub descriptor: String,
}

/// The resource and network configuration of a container.
#[derive(Debug, PartialEq, Eq)]
pub struct ContainerConfig {
    /// Whole cores.
    pub cpu_limit: Option<u32>,
    /// Bytes.
    pub memory_limit: Option<u64>,
    /// Bytes.
    pub disk_limit: Option<u64>,
    pub network_interfaces: Vec<ContainerNetworkInterface>,
    pub rootfs_path: String,
    /// Variables and their values, in the order in which they are set.
    pub environment: Vec<(String, String)>,
}

/// What a `ContainerConfig` holds.
#[verifier::ext_equal]
pub struct ConfigView {
    pub cpu_limit: Option<u32>,
    pub memory_limit: Option<u64>,
    pub disk_limit: Option<u64>,
    pub network_interfaces: Seq<Seq<char>>,
    pub rootfs_path: Seq<char>,
    pub environment: Seq<(Seq<char>, Seq<char>)>,
}

impl View for ContainerConfig {
    type V = ConfigView;

    open spec fn view(&self) -> ConfigView {
        ConfigView {
            cpu_limit: self.cpu_limit,
            memory_limit: self.memory_limit,
            disk_limit: self.disk_limit,
            network_interfaces: self.network_interfaces@.map_values(
                |n: ContainerNetworkInterface| n.descriptor@,
            ),
            rootfs_path: self.rootfs_path@,
            environment: self.environment@.map_values(|v: (String, String)| (v.0@, v.1@)),
        }
    }
}

impl Clone for ContainerConfig {
    fn clone(&self) -> (copy: Self)
        ensures
            copy@ == self@,
    {
        let mut network_interfaces: Vec<ContainerNetworkInterface> = Vec::new();
        for i in 0..self.network_interfaces.len()
            invariant
                network_interfaces@.len() == i,
                forall|j: int|
                    0 <= j < i ==> (#[trigger] network_interfaces@[j]).descriptor@
                        == self.network_interfaces@[j].descriptor@,
        {
            network_interfaces.push(
                ContainerNetworkInterface {
                    descriptor: self.network_interfaces[i].descriptor.clone(),
                },
            );
        }
        let mut environment: Vec<(String, String)> = Vec::new();
        for i in 0..self.environment.len()
            invariant
                environment@.len() == i,
                forall|j: int|
                    0 <= j < i ==> (#[trigger] environment@[j]).0@ == self.environment@[j].0@
                        && environment@[j].1@ == self.environment@[j].1@,
        {
            environment.push((self.environment[i].0.clone(), self.environment[i].1.clone()));
        }
        let copy = ContainerConfig {
            cpu_limit: self.cpu_limit,
            memory_limit: self.memory_limit,
            disk_limit: self.disk_limit,
            network_interfaces,
            rootfs_path: self.rootfs_path.clone(),
            environment,
        };
        assert(copy@.network_interfaces =~= self@.network_interfaces);
        assert(copy@.environment =~= self@.environment);
        copy
    }
}

/// A managed container: its identity, lifecycle status and configuration.
#[derive(Debug, PartialEq, Eq)]
pub struct Container {
    pub id: ContainerId,
    pub name: String,
    pub status: ContainerStatus,
    pub template: String,
    /// The node that hosts the container, once it has been scheduled.
    pub node_id: Option<ContainerId>,
    pub created_at: Timestamp,
    pub updated_at: Timestamp,
    pub config: ContainerConfig,
}

/// What a `Container` holds.
#[verifier::ext_equal]
pub struct ContainerView {
    pub id: ContainerId,
    pub name: Seq<char>,
    pub status: ContainerStatus,
    pub template: Seq<char>,
    pub node_id: Option<ContainerId>,
    pub created_at: Timestamp,
    pub updated_at: Timestamp,
    pub config: ConfigView,
}

impl View for Container {
    type V = ContainerView;

    open spec fn view(&self) -> ContainerView {
        ContainerView {
            id: self.id,
            name: self.name@,
            status: self.status,
            template: self.template@,
            node_id: self.node_id,
            created_at: self.created_at,
            updated_at: self.updated_at,
            config: self.config@,
        }
    }
}

impl Clone for Container {
    fn clone(&self) -> (copy: Self)
        ensures
            copy@ == self@,
    {
        Container {
            id: self.id,
            name: self.name.clone(),
            status: self.status,
            template: self.template.clone(),
            node_id: self.node_id,
            created_at: self.created_at,
            updated_at: self.updated_at,
            config: self.config.clone(),
        }
    }
}

} // verus!
