//! Kinds of tasks and the planets that rule them.
use vstd::prelude::*;
use crate::planets::Planet;

verus! {

/// What a process mostly does, as the scheduler classifies it.
#[derive(Debug, Clone, Copy, PartialEq, Eq, Hash, Structural)]
pub enum TaskType {
    CpuIntensive,
    Network,
    MemoryHeavy,
    System,
    Interactive,
    Desktop,
    Critical,
}

impl TaskType {
    pub open spec fn spec_name(self) -> Seq<char> {
        match self {
            TaskType::CpuIntensive => "CPU-Intensive"@,
            TaskType::Network => "Network"@,
            TaskType::MemoryHeavy => "Memory-Heavy"@,
            TaskType::System => "System"@,
            TaskType::Interactive => "Interactive"@,
            TaskType::Desktop => "Desktop/UI"@,
            TaskType::Critical => "Critical"@,
        }
    }

    pub fn name(self) -> (s: &'static str)
        ensures
            s@ == self.spec_name(),
    {
        match self {
            TaskType::CpuIntensive => "CPU-Intensive",
            TaskType::Network => "Network",
            TaskType::MemoryHeavy => "Memory-Heavy",
            TaskType::System => "System",
            TaskType::Interactive => "Interactive",
            TaskType::Desktop => "Desktop/UI",
            TaskType::Critical => "Critical",
        }
    }

    pub open spec fn spec_ruling_planet(self) -> Planet {
        match self {
            TaskType::CpuIntensive => Planet::Mars,
            TaskType::Network => Planet::Mercury,
            TaskType::Interactive => Planet::Mercury,
            TaskType::MemoryHeavy => Planet::Jupiter,
            TaskType::System => Planet::Saturn,
            TaskType::Desktop => Planet::Venus,
            TaskType::Critical => Planet::Sun,
        }
    }

    /// Mars rules CPU work, Mercury network and interactive work, Jupiter memory,
    /// Saturn the system, Venus the desktop and the Sun critical tasks.
    pub fn ruling_planet(self) -> (p: Planet)
        ensures
            p == self.spec_ruling_planet(),
    {
        match self {
            TaskType::CpuIntensive => Planet::Mars,
            TaskType::Network => Planet::Mercury,
            TaskType::Interactive => Planet::Mercury,
            TaskType::MemoryHeavy => Planet::Jupiter,
            TaskType::System => Planet::Saturn,
            TaskType::Desktop => Planet::Venus,
            TaskType::Critical => Planet::Sun,
        }
    }
}


/// The rulerships: Mars rules CPU work, Mercury network and interactive work, Jupiter
/// memory, Saturn the system, Venus the desktop and the Sun critical tasks; the Moon rules
/// none.
pub proof fn lemma_rulerships(t: TaskType)
    ensures
        t == TaskType::CpuIntensive <==> t.spec_ruling_planet() == Planet::Mars,
        t == TaskType::Network || t == TaskType::Interactive <==> t.spec_ruling_planet() == Planet::Mercury,
        t == TaskType::MemoryHeavy <==> t.spec_ruling_planet() == Planet::Jupiter,
        t == TaskType::System <==> t.spec_ruling_planet() == Planet::Saturn,
        t == TaskType::Desktop <==> t.spec_ruling_planet() == Planet::Venus,
        t == TaskType::Critical <==> t.spec_ruling_planet() == Planet::Sun,
        t.spec_ruling_planet() != Planet::Moon,
{
}

} // verus!
