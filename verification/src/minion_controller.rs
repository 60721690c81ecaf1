//! The minion controller: it reports the `Task` resources that exist and
//! each one added or deleted.

use vstd::prelude::*;

verus! {

/// The spec of a `Task` custom resource.
pub struct Task {
    pub pipeline: String,
    pub image: String,
    pub inputs: Option<Vec<String>>,
}

/// The metadata of a task: its name and, where it has one, its namespace.
pub struct TaskMetadata {
    pub name: String,
    pub namespace: Option<String>,
}

/// A `Task` resource: its metadata and spec.
pub struct KubeTask {
    pub metadata: TaskMetadata,
    pub spec: Task,
}

/// A change to a `Task` resource that the controller is told of.
pub enum TaskEvent {
    Added(KubeTask),
    Deleted(KubeTask),
    /// Any other event of the watch.
    Other,
}

/// `namespace:name from pipeline 'pipeline'`.
pub open spec fn described(t: KubeTask) -> Seq<char> {
    t.metadata.namespace->0@ + ":"@ + t.metadata.name@ + " from pipeline '"@ + t.spec.pipeline@ + "'"@
}

fn describe(t: &KubeTask) -> (s: String)
    requires
        t.metadata.namespace is Some,
    ensures
        s@ == described(*t),
{
    let ns = match &t.metadata.namespace {
        Some(ns) => ns,
        None => {
            return String::new();
        },
    };
    let mut s = ns.clone();
    s.append(":");
    s.append(t.metadata.name.as_str());
    s.append(" from pipeline '");
    s.append(t.spec.pipeline.as_str());
    s.append("'");
    s
}

/// The report of a task found at start-up.
pub fn found_task(t: &KubeTask) -> (s: String)
    requires
        t.metadata.namespace is Some,
    ensures
        s@ == "Found Task "@ + described(*t),
{
    let mut s = String::from_str("Found Task ");
    s.append(describe(t).as_str());
    s
}

/// The report of an added task.
pub fn load_task(t: &KubeTask) -> (s: String)
    requires
        t.metadata.namespace is Some,
    ensures
        s@ == "Added a task "@ + described(*t),
{
    let mut s = String::from_str("Added a task ");
    s.append(describe(t).as_str());
    s
}

/// The report of a deleted task, which names it.
pub fn removed_task(t: &KubeTask) -> (s: String)
    ensures
        s@ == "Deleted a task "@ + t.metadata.name@,
{
    let mut s = String::from_str("Deleted a task ");
    s.append(t.metadata.name.as_str());
    s
}

/// The report of an event: an addition or a deletion is reported with its
/// task; anything else as "another event".
pub fn handle(event: &TaskEvent) -> (s: String)
    requires
        event matches TaskEvent::Added(t) ==> t.metadata.namespace is Some,
    ensures
        match *event {
            TaskEvent::Added(t) => s@ == "Added a task "@ + described(t),
            TaskEvent::Deleted(t) => s@ == "Deleted a task "@ + t.metadata.name@,
            TaskEvent::Other => s@ == "another event"@,
        },
{
    match event {
        TaskEvent::Added(t) => load_task(t),
        TaskEvent::Deleted(t) => removed_task(t),
        TaskEvent::Other => String::from_str("another event"),
    }
}

} // verus!
