//! Container metadata and the container operations.

use vstd::prelude::*;
use vstd::string::*;
use crate::ident::{is_timestamp, lower_hex, now_rfc3339, random_u128, to_lower_hex};

verus! {

/// The lifecycle state of a container.
#[derive(Clone, Copy, Debug, PartialEq, Eq, Structural)]
pub enum ContainerStatus {
    Running,
    Stopped,
    Paused,
    Restarting,
    Removing,
    Exited,
    Dead,
}

/// A host port published to a container port.
#[derive(Clone, Debug)]
pub struct PortMapping {
    pub host_port: u16,
    pub container_port: u16,
    pub protocol: String,
}

/// A `PortMapping` with its protocol seen as a character sequence.
pub struct PortMappingView {
    pub host_port: u16,
    pub container_port: u16,
    pub protocol: Seq<char>,
}

impl View for PortMapping {
    type V = PortMappingView;

    open spec fn view(&self) -> PortMappingView {
        PortMappingView {
            host_port: self.host_port,
            container_port: self.container_port,
            protocol: self.protocol@,
        }
    }
}

/// A container record.
#[derive(Clone, Debug)]
pub struct Container {
    pub id: String,
    pub name: String,
    pub image: String,
    pub status: ContainerStatus,
    pub ports: Vec<PortMapping>,
    pub created: String,
}

/// A `Container` with its strings seen as character sequences.
pub struct ContainerView {
    pub id: Seq<char>,
    pub name: Seq<char>,
    pub image: Seq<char>,
    pub status: ContainerStatus,
    pub ports: Seq<PortMappingView>,
    pub created: Seq<char>,
}

impl View for Container {
    type V = ContainerView;

    open spec fn view(&self) -> ContainerView {
        ContainerView {
            id: self.id@,
            name: self.name@,
            image: self.image@,
            status: self.status,
            ports: self.ports@.map_values(|p: PortMapping| p@),
            created: self.created@,
        }
    }
}

/// The views of a sequence of containers.
pub open spec fn container_views(s: Seq<Container>) -> Seq<ContainerView> {
    s.map_values(|c: Container| c@)
}

/// The containers that the listing reports.
pub open spec fn known_containers() -> Seq<ContainerView> {
    seq![
        ContainerView {
            id: "abc123def456"@,
            name: "quantum-001"@,
            image: "quantum/security:latest"@,
            status: ContainerStatus::Running,
            ports: seq![PortMappingView { host_port: 2222, container_port: 22, protocol: "tcp"@ }],
            created: "2026-02-20T10:00:00Z"@,
        },
        ContainerView {
            id: "def456abc789"@,
            name: "quantum-002"@,
            image: "quantum/security:full"@,
            status: ContainerStatus::Running,
            ports: seq![PortMappingView { host_port: 3333, container_port: 3333, protocol: "tcp"@ }],
            created: "2026-02-21T14:30:00Z"@,
        },
    ]
}

/// The running containers of `s`, in their order.
pub open spec fn running_only(s: Seq<ContainerView>) -> Seq<ContainerView>
    decreases s.len(),
{
    if s.len() == 0 {
        s
    } else if s.last().status == ContainerStatus::Running {
        running_only(s.drop_last()).push(s.last())
    } else {
        running_only(s.drop_last())
    }
}

/// A running container with no published ports.
pub open spec fn running_view(
    id: Seq<char>,
    name: Seq<char>,
    image: Seq<char>,
    created: Seq<char>,
) -> ContainerView {
    ContainerView {
        id,
        name,
        image,
        status: ContainerStatus::Running,
        ports: Seq::empty(),
        created,
    }
}

/// Container operations.
pub struct ContainerManager;

impl ContainerManager {
    /// A port mapping over TCP.
    fn tcp_port(host_port: u16, container_port: u16) -> (r: PortMapping)
        ensures
            r@ == (PortMappingView { host_port, container_port, protocol: "tcp"@ }),
    {
        PortMapping { host_port, container_port, protocol: String::from_str("tcp") }
    }

    /// A running container with one TCP port.
    fn listed(
        id: &str,
        name: &str,
        image: &str,
        host_port: u16,
        container_port: u16,
        created: &str,
    ) -> (r: Container)
        ensures
            r@ == (ContainerView {
                id: id@,
                name: name@,
                image: image@,
                status: ContainerStatus::Running,
                ports: seq![PortMappingView { host_port, container_port, protocol: "tcp"@ }],
                created: created@,
            }),
    {
        let mut ports: Vec<PortMapping> = Vec::new();
        ports.push(Self::tcp_port(host_port, container_port));
        let r = Container {
            id: String::from_str(id),
            name: String::from_str(name),
            image: String::from_str(image),
            status: ContainerStatus::Running,
            ports,
            created: String::from_str(created),
        };
        assert(r@.ports =~= seq![PortMappingView { host_port, container_port, protocol: "tcp"@ }]);
        r
    }

    /// Lists all containers, running and stopped.
    pub fn list() -> (r: Vec<Container>)
        ensures
            container_views(r@) == known_containers(),
    {
        let mut r: Vec<Container> = Vec::new();
        r.push(
            Self::listed(
                "abc123def456",
                "quantum-001",
                "quantum/security:latest",
                2222,
                22,
                "2026-02-20T10:00:00Z",
            ),
        );
        r.push(
            Self::listed(
                "def456abc789",
                "quantum-002",
                "quantum/security:full",
                3333,
                3333,
                "2026-02-21T14:30:00Z",
            ),
        );
        assert(container_views(r@) =~= known_containers());
        r
    }

    /// Lists the running containers, in listing order.
    pub fn list_running() -> (r: Vec<Container>)
        ensures
            container_views(r@) == running_only(known_containers()),
    {
        let mut all = Self::list();
        let ghost everything = container_views(all@);
        let ghost n = all@.len();
        let mut out: Vec<Container> = Vec::new();
        let mut k: usize = 0;
        while all.len() > 0
            invariant
                n == everything.len(),
                n <= usize::MAX,
                k + all@.len() == n,
                container_views(all@) == everything.subrange(k as int, n as int),
                container_views(out@) == running_only(everything.subrange(0, k as int)),
            decreases all@.len(),
        {
            let ghost prev = all@;
            let c = all.remove(0);
            assert(container_views(prev)[0] == everything[k as int]);
            assert(c@ == everything[k as int]);
            assert(all@ =~= prev.subrange(1, prev.len() as int));
            assert forall|i: int| 0 <= i < all@.len() implies container_views(all@)[i]
                == everything.subrange(k + 1, n as int)[i] by {
                assert(all@[i] == prev[i + 1]);
                assert(container_views(prev)[i + 1] == everything[k + 1 + i]);
            }
            assert(container_views(all@) =~= everything.subrange(k + 1, n as int));
            let ghost before = everything.subrange(0, k as int);
            let ghost after = everything.subrange(0, k + 1);
            assert(after.drop_last() =~= before);
            assert(after.last() == c@);
            match c.status {
                ContainerStatus::Running => {
                    out.push(c);
                    assert(container_views(out@) =~= running_only(before).push(c@));
                },
                _ => {},
            }
            k = k + 1;
        }
        assert(everything.subrange(0, n as int) =~= everything);
        out
    }

    /// A running container with no published ports.
    pub fn running_container(id: String, name: &str, image: &str, created: String) -> (r: Container)
        ensures
            r@ == running_view(id@, name@, image@, created@),
    {
        let r = Container {
            id,
            name: String::from_str(name),
            image: String::from_str(image),
            status: ContainerStatus::Running,
            ports: Vec::new(),
            created,
        };
        assert(r@.ports =~= Seq::<PortMappingView>::empty());
        r
    }

    /// Starts the container `name`: a running container of the default image,
    /// stamped with the current time. Fails when the clock cannot be read.
    pub fn start(name: &str) -> (r: Result<Container, String>)
        ensures
            match r {
                Ok(c) => c@ == running_view(
                    "new-container-id"@,
                    name@,
                    "quantum/security:latest"@,
                    c@.created,
                ) && is_timestamp(c@.created),
                Err(m) => m@ == "Failed to read the current time"@,
            },
    {
        match now_rfc3339() {
            Some(created) => Ok(
                Self::running_container(
                    String::from_str("new-container-id"),
                    name,
                    "quantum/security:latest",
                    created,
                ),
            ),
            None => Err(String::from_str("Failed to read the current time")),
        }
    }

    /// Stops the container `name`.
    pub fn stop(name: &str) -> (r: Result<(), String>)
        ensures
            r is Ok,
    {
        Ok(())
    }

    /// Removes the container `name`.
    pub fn remove(name: &str) -> (r: Result<(), String>)
        ensures
            r is Ok,
    {
        Ok(())
    }

    /// Runs `command` in the container `name` and returns its output.
    pub fn exec(name: &str, command: &[String]) -> (r: Result<String, String>)
        ensures
            r matches Ok(out) && out@ == "Command output placeholder"@,
    {
        Ok(String::from_str("Command output placeholder"))
    }

    /// Creates a running container `name` from `image`, under a fresh random
    /// identifier written in hexadecimal, stamped with the current time.
    /// Fails when no random number or no clock reading can be had.
    pub fn create(name: &str, image: &str) -> (r: Result<Container, String>)
        ensures
            match r {
                Ok(c) => c@ == running_view(c@.id, name@, image@, c@.created) && (exists|n: u128|
                    c@.id == lower_hex(n as nat)) && is_timestamp(c@.created),
                Err(m) => m@ == "Failed to generate an identifier"@ || m@
                    == "Failed to read the current time"@,
            },
    {
        let n = match random_u128() {
            Some(n) => n,
            None => {
                return Err(String::from_str("Failed to generate an identifier"));
            },
        };
        let created = match now_rfc3339() {
            Some(t) => t,
            None => {
                return Err(String::from_str("Failed to read the current time"));
            },
        };
        let id = to_lower_hex(n);
        Ok(Self::running_container(id, name, image, created))
    }
}

} // verus!
