use vstd::prelude::*;
use crate::text::{ascii_lower, cat, is_ascii_text, str_eq, to_lowercase, unicode_lowercase};

verus! {

/// How much metadata a target's labels carry.  Each level carries the labels
/// of the levels before it: container, task, service, cluster, aws.
#[derive(Debug, Clone, Copy, PartialEq, Eq, Hash, Structural)]
pub enum MetadataLevel {
    Container,
    Task,
    Service,
    Cluster,
    Aws,
}

/// The position of a level in the hierarchy, container first.
pub open spec fn rank(l: MetadataLevel) -> int {
    match l {
        MetadataLevel::Container => 0,
        MetadataLevel::Task => 1,
        MetadataLevel::Service => 2,
        MetadataLevel::Cluster => 3,
        MetadataLevel::Aws => 4,
    }
}

/// Whether level `a` carries the labels of level `b`.
pub open spec fn level_includes(a: MetadataLevel, b: MetadataLevel) -> bool {
    rank(b) <= rank(a)
}

/// The lower-case name of a level.
pub open spec fn level_name(l: MetadataLevel) -> Seq<char> {
    match l {
        MetadataLevel::Container => "container"@,
        MetadataLevel::Task => "task"@,
        MetadataLevel::Service => "service"@,
        MetadataLevel::Cluster => "cluster"@,
        MetadataLevel::Aws => "aws"@,
    }
}

/// The level with the given lower-case name.
pub open spec fn level_named(n: Seq<char>) -> Option<MetadataLevel> {
    if n == "container"@ {
        Some(MetadataLevel::Container)
    } else if n == "task"@ {
        Some(MetadataLevel::Task)
    } else if n == "service"@ {
        Some(MetadataLevel::Service)
    } else if n == "cluster"@ {
        Some(MetadataLevel::Cluster)
    } else if n == "aws"@ {
        Some(MetadataLevel::Aws)
    } else {
        None
    }
}

/// The message given for a name that is no level.
pub open spec fn invalid_level_message(s: Seq<char>) -> Seq<char> {
    "Invalid level: "@ + s + ". Valid: container, task, service, cluster, aws"@
}

impl MetadataLevel {
    /// Whether this level carries the labels of `other`.
    pub fn includes(&self, other: MetadataLevel) -> (r: bool)
        ensures
            r == level_includes(*self, other),
    {
        match (*self, other) {
            (MetadataLevel::Aws, _) => true,
            (MetadataLevel::Cluster, MetadataLevel::Container)
            | (MetadataLevel::Cluster, MetadataLevel::Task)
            | (MetadataLevel::Cluster, MetadataLevel::Service)
            | (MetadataLevel::Cluster, MetadataLevel::Cluster) => true,
            (MetadataLevel::Service, MetadataLevel::Container)
            | (MetadataLevel::Service, MetadataLevel::Task)
            | (MetadataLevel::Service, MetadataLevel::Service) => true,
            (MetadataLevel::Task, MetadataLevel::Container)
            | (MetadataLevel::Task, MetadataLevel::Task) => true,
            (MetadataLevel::Container, MetadataLevel::Container) => true,
            _ => false,
        }
    }

    /// The lower-case name, as the level is written and displayed.
    pub fn as_str(&self) -> (r: &'static str)
        ensures
            r@ == level_name(*self),
    {
        match self {
            MetadataLevel::Container => "container",
            MetadataLevel::Task => "task",
            MetadataLevel::Service => "service",
            MetadataLevel::Cluster => "cluster",
            MetadataLevel::Aws => "aws",
        }
    }

    /// The level with the given lower-case name, if any.
    pub fn from_name(name: &str) -> (r: Option<MetadataLevel>)
        ensures
            r == level_named(name@),
    {
        if str_eq(name, "container") {
            Some(MetadataLevel::Container)
        } else if str_eq(name, "task") {
            Some(MetadataLevel::Task)
        } else if str_eq(name, "service") {
            Some(MetadataLevel::Service)
        } else if str_eq(name, "cluster") {
            Some(MetadataLevel::Cluster)
        } else if str_eq(name, "aws") {
            Some(MetadataLevel::Aws)
        } else {
            None
        }
    }

    /// Reads a level from its name in any letter case.
    pub fn parse(s: &str) -> (r: Result<MetadataLevel, String>)
        ensures
            match level_named(unicode_lowercase(s@)) {
                Some(l) => r == Ok::<MetadataLevel, String>(l),
                None => r matches Err(e) && e@ == invalid_level_message(s@),
            },
            is_ascii_text(s@) ==> match level_named(s@.map_values(|c: char| ascii_lower(c))) {
                Some(l) => r == Ok::<MetadataLevel, String>(l),
                None => r is Err,
            },
    {
        let lower = to_lowercase(s);
        match MetadataLevel::from_name(lower.as_str()) {
            Some(l) => Ok(l),
            None => {
                let m = cat("Invalid level: ", s);
                let m = cat(m.as_str(), ". Valid: container, task, service, cluster, aws");
                Err(m)
            },
        }
    }
}

impl Default for MetadataLevel {
    fn default() -> (r: Self)
        ensures
            r == MetadataLevel::Task,
    {
        MetadataLevel::Task
    }
}

impl std::str::FromStr for MetadataLevel {
    type Err = String;

    fn from_str(s: &str) -> (r: Result<Self, Self::Err>)
        ensures
            match level_named(unicode_lowercase(s@)) {
                Some(l) => r == Ok::<MetadataLevel, String>(l),
                None => r matches Err(e) && e@ == invalid_level_message(s@),
            },
            is_ascii_text(s@) ==> match level_named(s@.map_values(|c: char| ascii_lower(c))) {
                Some(l) => r == Ok::<MetadataLevel, String>(l),
                None => r is Err,
            },
    {
        MetadataLevel::parse(s)
    }
}

/// Every level carries its own labels.
pub proof fn lemma_includes_reflexive(a: MetadataLevel)
    ensures
        level_includes(a, a),
{
}

/// A level carries the labels of every level that the levels it carries carry.
pub proof fn lemma_includes_transitive(a: MetadataLevel, b: MetadataLevel, c: MetadataLevel)
    requires
        level_includes(a, b),
        level_includes(b, c),
    ensures
        level_includes(a, c),
{
}

/// Two levels that carry each other's labels are the same level.
pub proof fn lemma_includes_antisymmetric(a: MetadataLevel, b: MetadataLevel)
    requires
        level_includes(a, b),
        level_includes(b, a),
    ensures
        a == b,
{
}

/// Of any two levels, one carries the labels of the other.
pub proof fn lemma_includes_total(a: MetadataLevel, b: MetadataLevel)
    ensures
        level_includes(a, b) || level_includes(b, a),
{
}

/// The aws level carries every level's labels, and the container level's
/// labels are carried by every level.
pub proof fn lemma_includes_bounds(a: MetadataLevel)
    ensures
        level_includes(MetadataLevel::Aws, a),
        level_includes(a, MetadataLevel::Container),
{
}

/// Reading the name of a level gives the level back, in any letter case that
/// lower-cases to the name.
pub proof fn lemma_name_round_trip(l: MetadataLevel)
    ensures
        level_named(level_name(l)) == Some(l),
{
    reveal_strlit("container");
    reveal_strlit("task");
    reveal_strlit("service");
    reveal_strlit("cluster");
    reveal_strlit("aws");
    assert("container"@.len() == 9);
    assert("task"@.len() == 4);
    assert("service"@.len() == 7);
    assert("cluster"@.len() == 7);
    assert("aws"@.len() == 3);
    assert("service"@[0] != "cluster"@[0]);
}

/// How the filters of a discovery request combine.
#[derive(Debug, Clone, Copy, PartialEq, Eq, Structural)]
pub enum FilterMode {
    And,
    Or,
}

impl Default for FilterMode {
    fn default() -> (r: Self)
        ensures
            r == FilterMode::And,
    {
        FilterMode::And
    }
}

} // verus!
