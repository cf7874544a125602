use vstd::prelude::*;

verus! {

/// The runtime's error taxonomy, each kind with its description.
pub enum AethelError {
    Io(String),
    Nix(String),
    ContainerSetup(String),
    Filesystem(String),
    Namespace(String),
    Cgroup(String),
    Process(String),
}

/// Heading of each kind of error in its text.
pub open spec fn heading(e: AethelError) -> Seq<char> {
    match e {
        AethelError::Io(_) => "IO Error: "@,
        AethelError::Nix(_) => "Nix Error: "@,
        AethelError::ContainerSetup(_) => "Container Setup Error: "@,
        AethelError::Filesystem(_) => "Filesystem Error: "@,
        AethelError::Namespace(_) => "Namespace Error: "@,
        AethelError::Cgroup(_) => "Cgroup Error: "@,
        AethelError::Process(_) => "Process Error: "@,
    }
}

pub open spec fn detail(e: AethelError) -> Seq<char> {
    match e {
        AethelError::Io(s) => s@,
        AethelError::Nix(s) => s@,
        AethelError::ContainerSetup(s) => s@,
        AethelError::Filesystem(s) => s@,
        AethelError::Namespace(s) => s@,
        AethelError::Cgroup(s) => s@,
        AethelError::Process(s) => s@,
    }
}

impl AethelError {
    /// Human-readable text: the kind's heading, then the description.
    pub fn message(&self) -> (r: String)
        ensures
            r@ == heading(*self) + detail(*self),
    {
        let (head, d) = match self {
            AethelError::Io(s) => ("IO Error: ", s),
            AethelError::Nix(s) => ("Nix Error: ", s),
            AethelError::ContainerSetup(s) => ("Container Setup Error: ", s),
            AethelError::Filesystem(s) => ("Filesystem Error: ", s),
            AethelError::Namespace(s) => ("Namespace Error: ", s),
            AethelError::Cgroup(s) => ("Cgroup Error: ", s),
            AethelError::Process(s) => ("Process Error: ", s),
        };
        let mut out = String::from_str(head);
        out.append(d.as_str());
        out
    }
}

} // verus!
