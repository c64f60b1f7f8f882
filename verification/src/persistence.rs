//! Decisions of the agent-conversation store in sqlite: how many
//! conversations to prune and how a startup summary is assembled.
use crate::restored_conversations::{AgentConversationData, AgentConversationSummary, MessageKind, SampledTask};
use vstd::prelude::*;

verus! {

/// At most this many conversations are kept.
pub const MAX_PERSISTED_CONVERSATION_COUNT: i64 = 100;

/// How many of the oldest conversations to delete when `conversation_count`
/// are stored.
pub fn conversations_to_prune(conversation_count: i64) -> (n: i64)
    ensures
        n == if conversation_count > MAX_PERSISTED_CONVERSATION_COUNT {
            conversation_count - MAX_PERSISTED_CONVERSATION_COUNT
        } else {
            0
        },
{
    if conversation_count > MAX_PERSISTED_CONVERSATION_COUNT {
        conversation_count - MAX_PERSISTED_CONVERSATION_COUNT
    } else {
        0
    }
}

/// The task count a summary reports for a row count: a count that is
/// negative or does not fit is reported as zero.
pub fn summary_task_count(count: i64) -> (n: usize)
    ensures
        n == if 0 <= count <= usize::MAX {
            count as int
        } else {
            0
        },
{
    if count < 0 {
        return 0;
    }
    let c = count as u64;
    if c as u128 > usize::MAX as u128 {
        return 0;
    }
    c as usize
}

/// Whether the sampled task has dependencies, i.e. is not a root task.
#[derive(Clone, Copy, PartialEq, Eq, Structural, Debug)]
pub struct SampledTaskShape {
    pub has_dependencies: bool,
}

/// The first root task at or after `i`.
pub open spec fn first_root_from(tasks: Seq<SampledTaskShape>, i: int) -> Option<int>
    decreases tasks.len() - i,
{
    if i < 0 || i >= tasks.len() {
        None
    } else if !tasks[i].has_dependencies {
        Some(i)
    } else {
        first_root_from(tasks, i + 1)
    }
}

/// Which task a summary samples: the first root task, else the first task,
/// and none when there are no tasks.
pub open spec fn sampled_index(tasks: Seq<SampledTaskShape>) -> Option<int> {
    match first_root_from(tasks, 0) {
        Some(i) => Some(i),
        None => if tasks.len() > 0 {
            Some(0)
        } else {
            None
        },
    }
}

/// The task a summary samples: the first root task, else the first task.
pub fn select_sampled_task(tasks: &Vec<SampledTaskShape>) -> (r: Option<usize>)
    ensures
        match r {
            Some(i) => sampled_index(tasks@) == Some(i as int),
            None => sampled_index(tasks@) is None,
        },
        match r {
            Some(i) => i < tasks@.len() && ((!tasks@[i as int].has_dependencies
                && forall|j: int| 0 <= j < i ==> tasks@[j].has_dependencies)
                || (i == 0 && forall|j: int| 0 <= j < tasks@.len() ==> tasks@[j].has_dependencies)),
            None => tasks@.len() == 0,
        },
{
    let mut i: usize = 0;
    while i < tasks.len()
        invariant
            i <= tasks@.len(),
            forall|j: int| 0 <= j < i ==> tasks@[j].has_dependencies,
            first_root_from(tasks@, 0) == first_root_from(tasks@, i as int),
        decreases tasks@.len() - i,
    {
        if !tasks[i].has_dependencies {
            return Some(i);
        }
        i = i + 1;
    }
    assert(first_root_from(tasks@, i as int) is None);
    if tasks.len() > 0 {
        Some(0)
    } else {
        None
    }
}

/// A summary is judged restorable from its sampled tasks only when every
/// task was sampled and decoded; otherwise it is assumed restorable.
pub fn summary_is_restorable(decoded_sample_count: usize, task_count: usize, sample_restorable: bool) -> (b: bool)
    ensures
        b == (decoded_sample_count != task_count || sample_restorable),
{
    if decoded_sample_count == task_count {
        sample_restorable
    } else {
        true
    }
}

/// The values of the decodes that succeeded, in order.
pub open spec fn decoded_values<T>(s: Seq<Option<T>>) -> Seq<T>
    decreases s.len(),
{
    if s.len() == 0 {
        Seq::empty()
    } else {
        let rest = decoded_values(s.drop_last());
        match s.last() {
            Some(t) => rest.push(t),
            None => rest,
        }
    }
}

/// The tasks a startup summary samples: those whose stored bytes decoded,
/// in their stored order; a task that failed to decode is skipped.
pub fn keep_decoded<T>(decoded: Vec<Option<T>>) -> (r: Vec<T>)
    ensures
        r@ == decoded_values(decoded@),
{
    let ghost original = decoded@;
    let mut rest = decoded;
    let mut out: Vec<T> = Vec::new();
    let ghost mut done: Seq<Option<T>> = Seq::empty();
    while rest.len() > 0
        invariant
            done + rest@ == original,
            out@ == decoded_values(done),
        decreases rest@.len(),
    {
        let ghost before = rest@;
        let x = rest.remove(0);
        proof {
            assert(rest@ =~= before.drop_first());
            let prev = done;
            done = done.push(x);
            assert(done.drop_last() =~= prev);
            assert(done + rest@ =~= original);
        }
        match x {
            Some(t) => out.push(t),
            None => {},
        }
    }
    assert(done =~= original);
    out
}

/// The tasks of a conversation read in full: all of them when every one
/// decoded, else `None`, as one bad task makes the conversation unreadable.
pub fn all_decoded<T>(decoded: Vec<Option<T>>) -> (r: Option<Vec<T>>)
    ensures
        match r {
            Some(v) => (forall|i: int| 0 <= i < decoded@.len() ==> (#[trigger] decoded@[i]) is Some)
                && v@ == decoded_values(decoded@),
            None => exists|i: int| 0 <= i < decoded@.len() && (#[trigger] decoded@[i]) is None,
        },
{
    let ghost original = decoded@;
    let mut rest = decoded;
    let mut out: Vec<T> = Vec::new();
    let ghost mut done: Seq<Option<T>> = Seq::empty();
    while rest.len() > 0
        invariant
            done + rest@ == original,
            out@ == decoded_values(done),
            forall|i: int| 0 <= i < done.len() ==> (#[trigger] done[i]) is Some,
            original == decoded@,
        decreases rest@.len(),
    {
        let ghost before = rest@;
        let x = rest.remove(0);
        proof {
            assert(rest@ =~= before.drop_first());
        }
        match x {
            Some(t) => {
                proof {
                    let prev = done;
                    done = done.push(Some(t));
                    assert(done.drop_last() =~= prev);
                    assert(done + rest@ =~= original);
                }
                out.push(t);
            },
            None => {
                proof {
                    assert(original[done.len() as int] == before[0]);
                    assert(decoded@[done.len() as int] is None);
                }
                return None;
            },
        }
    }
    assert(done =~= original);
    Some(out)
}

/// A stored task as a startup summary reads it: whether it depends on other
/// tasks, and its messages.
#[derive(Clone, PartialEq, Eq, Debug)]
pub struct StoredTask {
    pub has_dependencies: bool,
    pub messages: Vec<MessageKind>,
}

pub open spec fn task_shapes(tasks: Seq<StoredTask>) -> Seq<SampledTaskShape> {
    Seq::new(tasks.len(), |j: int| SampledTaskShape { has_dependencies: tasks[j].has_dependencies })
}

/// The summary of one stored conversation read at startup.
///
/// `row_count` is how many tasks the conversation has stored, `decoded` the
/// decode outcome of each stored task small enough to sample, in stored
/// order, and `sample_restorable` whether the conversation made of the
/// decoded tasks can be restored.
pub fn startup_summary(
    conversation_id: String,
    conversation_data: Option<AgentConversationData>,
    row_count: i64,
    decoded: Vec<Option<StoredTask>>,
    sample_restorable: bool,
) -> (s: AgentConversationSummary)
    ensures
        s.conversation_id == conversation_id,
        s.conversation_data == conversation_data,
        s.task_count == if 0 <= row_count <= usize::MAX {
            row_count as int
        } else {
            0
        },
        s.is_restorable == (decoded_values(decoded@).len() != s.task_count || sample_restorable),
        s.sampled_task == match sampled_index(task_shapes(decoded_values(decoded@))) {
            Some(i) => Some(SampledTask { messages: decoded_values(decoded@)[i].messages }),
            None => None::<SampledTask>,
        },
{
    let task_count = summary_task_count(row_count);
    let mut tasks = keep_decoded(decoded);
    let ghost kept = tasks@;
    let is_restorable = summary_is_restorable(tasks.len(), task_count, sample_restorable);
    let mut shapes: Vec<SampledTaskShape> = Vec::new();
    let mut i: usize = 0;
    while i < tasks.len()
        invariant
            i <= tasks@.len(),
            shapes@ =~= task_shapes(tasks@).take(i as int),
        decreases tasks@.len() - i,
    {
        shapes.push(SampledTaskShape { has_dependencies: tasks[i].has_dependencies });
        i = i + 1;
    }
    assert(shapes@ =~= task_shapes(kept));
    let sampled_task = match select_sampled_task(&shapes) {
        Some(j) => {
            let task = tasks.remove(j);
            Some(SampledTask { messages: task.messages })
        },
        None => None,
    };
    AgentConversationSummary { conversation_id, conversation_data, task_count, sampled_task, is_restorable }
}

} // verus!
