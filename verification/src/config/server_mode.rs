use vstd::prelude::*;

verus! {

/// How the client reaches Redis: one server, a cluster, or through sentinels.
#[derive(Clone, Copy, Debug, PartialEq, Eq, Structural)]
pub enum ServerMode {
    Standalone,
    Cluster,
    Sentinel,
}

impl ServerMode {
    /// The lowercase name of the mode, as configuration files spell it.
    pub open spec fn name_spec(self) -> Seq<char> {
        match self {
            ServerMode::Standalone => "standalone"@,
            ServerMode::Cluster => "cluster"@,
            ServerMode::Sentinel => "sentinel"@,
        }
    }

    pub fn as_str(&self) -> (s: &'static str)
        ensures
            s@ == self.name_spec(),
    {
        match self {
            ServerMode::Standalone => "standalone",
            ServerMode::Cluster => "cluster",
            ServerMode::Sentinel => "sentinel",
        }
    }
}

} // verus!
