//! The conversations restored at startup, kept until a terminal view takes
//! them.
use std::collections::HashMap;
use vstd::prelude::*;

verus! {

broadcast use vstd::std_specs::hash::group_hash_axioms;

/// What `uuid::Uuid::parse_str` gives for a string, as the UUID's 128-bit
/// value; `None` when the string is no UUID.
pub uninterp spec fn uuid_parse(s: Seq<char>) -> Option<u128>;

/// Calls `uuid::Uuid::parse_str`; the contract claims only that the result
/// is `uuid_parse` of the input (a pure function of the text), read back
/// with `Uuid::as_u128`.
#[verifier::external_body]
fn parse_uuid(s: &str) -> (r: Option<u128>)
    ensures
        r == uuid_parse(s@),
{
    match uuid::Uuid::parse_str(s) {
        Ok(u) => Some(u.as_u128()),
        Err(_) => None,
    }
}

/// The id of an agent conversation: a UUID, held as its 128-bit value.
#[derive(Clone, Copy, PartialEq, Eq, Structural, Debug, Hash)]
pub struct AIConversationId(pub u128);

pub open spec fn conversation_id_of(s: Seq<char>) -> Option<AIConversationId> {
    match uuid_parse(s) {
        Some(v) => Some(AIConversationId(v)),
        None => None,
    }
}

impl AIConversationId {
    /// Reads a conversation id from its UUID text.
    pub fn parse(s: &str) -> (r: Option<AIConversationId>)
        ensures
            r == conversation_id_of(s@),
    {
        match parse_uuid(s) {
            Some(v) => Some(AIConversationId(v)),
            None => None,
        }
    }
}

/// The persisted metadata of a conversation that restoring reads.
#[derive(Clone, PartialEq, Eq, Debug)]
pub struct AgentConversationData {
    pub parent_conversation_id: Option<String>,
}

pub open spec fn parent_id_of_data(data: AgentConversationData) -> Option<AIConversationId> {
    match data.parent_conversation_id {
        Some(s) => conversation_id_of(s@),
        None => None,
    }
}

/// The parent recorded in a conversation's metadata, when it is a UUID.
pub fn parent_conversation_id_from_data(data: &AgentConversationData) -> (r: Option<AIConversationId>)
    ensures
        r == parent_id_of_data(*data),
{
    match &data.parent_conversation_id {
        Some(s) => AIConversationId::parse(s.as_str()),
        None => None,
    }
}

/// The kinds of message that restoring tells apart.
#[derive(Clone, Copy, PartialEq, Eq, Structural, Debug)]
pub enum MessageKind {
    UserQuery,
    /// A system query of the automatic code-diff kind.
    AutoCodeDiffQuery,
    OtherSystemQuery,
    Other,
}

/// The messages of the task sampled for a summary.
#[derive(Clone, PartialEq, Eq, Debug)]
pub struct SampledTask {
    pub messages: Vec<MessageKind>,
}

/// A conversation as loaded at startup, without its tasks.
#[derive(Clone, PartialEq, Eq, Debug)]
pub struct AgentConversationSummary {
    pub conversation_id: String,
    /// The persisted metadata, when it could be read.
    pub conversation_data: Option<AgentConversationData>,
    pub task_count: usize,
    pub sampled_task: Option<SampledTask>,
    pub is_restorable: bool,
}

impl AgentConversationSummary {
    pub fn has_tasks(&self) -> (b: bool)
        ensures
            b == (self.task_count > 0),
    {
        self.task_count > 0
    }
}

/// A sampled task that only holds automatic code-diff requests and no user
/// query.
pub open spec fn entirely_passive(summary: AgentConversationSummary) -> bool {
    match summary.sampled_task {
        None => false,
        Some(t) => (exists|i: int| 0 <= i < t.messages@.len() && t.messages@[i] == MessageKind::AutoCodeDiffQuery)
            && !(exists|i: int| 0 <= i < t.messages@.len() && t.messages@[i] == MessageKind::UserQuery),
    }
}

pub fn summary_is_entirely_passive(summary: &AgentConversationSummary) -> (b: bool)
    ensures
        b == entirely_passive(*summary),
{
    let task = match &summary.sampled_task {
        Some(t) => t,
        None => return false,
    };
    let mut has_user_query = false;
    let mut has_passive_request = false;
    let mut i: usize = 0;
    while i < task.messages.len()
        invariant
            summary.sampled_task == Some(*task),
            i <= task.messages@.len(),
            has_user_query == exists|j: int| 0 <= j < i && task.messages@[j] == MessageKind::UserQuery,
            has_passive_request == exists|j: int| 0 <= j < i && task.messages@[j] == MessageKind::AutoCodeDiffQuery,
        decreases task.messages@.len() - i,
    {
        match task.messages[i] {
            MessageKind::UserQuery => {
                has_user_query = true;
            },
            MessageKind::AutoCodeDiffQuery => {
                has_passive_request = true;
            },
            _ => {},
        }
        i = i + 1;
    }
    has_passive_request && !has_user_query
}

/// A restored conversation: what the store reads of it, and the rest of it
/// as `payload`.
#[derive(Clone, PartialEq, Eq, Debug)]
pub struct AIConversation<P> {
    pub id: AIConversationId,
    pub parent_conversation_id: Option<AIConversationId>,
    /// When the first exchange started, if there is one.
    pub first_exchange_start: Option<i64>,
    pub payload: P,
}

} // verus!

verus! {

/// The summaries a store built from `list` holds, keyed by conversation id:
/// entries whose id is no UUID are left out, and a later entry replaces an
/// earlier one with the same id.
pub open spec fn summaries_of(list: Seq<AgentConversationSummary>) -> Map<u128, AgentConversationSummary>
    decreases list.len(),
{
    if list.len() == 0 {
        Map::empty()
    } else {
        let m = summaries_of(list.drop_last());
        match uuid_parse(list.last().conversation_id@) {
            Some(k) => m.insert(k, list.last()),
            None => m,
        }
    }
}

pub open spec fn conversations_of<P>(list: Seq<AIConversation<P>>) -> Map<u128, AIConversation<P>>
    decreases list.len(),
{
    if list.len() == 0 {
        Map::empty()
    } else {
        conversations_of(list.drop_last()).insert(list.last().id.0, list.last())
    }
}

/// Whether a summary alone makes its conversation worth restoring.
pub open spec fn summary_restorable(summary: AgentConversationSummary) -> bool {
    summary.is_restorable && summary.task_count > 0 && !entirely_passive(summary)
}

/// The conversations restored at startup: summaries read from the database,
/// and fully materialized conversations handed over in memory.
pub struct RestoredAgentConversations<P> {
    conversations: HashMap<u128, AgentConversationSummary>,
    loaded_conversations: HashMap<u128, AIConversation<P>>,
}

impl<P> RestoredAgentConversations<P> {
    pub closed spec fn summaries(&self) -> Map<u128, AgentConversationSummary> {
        self.conversations@
    }

    pub closed spec fn loaded(&self) -> Map<u128, AIConversation<P>> {
        self.loaded_conversations@
    }

    /// A store of startup summaries.
    pub fn new(conversations: Vec<AgentConversationSummary>) -> (s: Self)
        ensures
            s.summaries() == summaries_of(conversations@),
            s.loaded() == Map::<u128, AIConversation<P>>::empty(),
    {
        let ghost list = conversations@;
        let mut by_id: HashMap<u128, AgentConversationSummary> = HashMap::new();
        let mut pending = conversations;
        let ghost mut taken: Seq<AgentConversationSummary> = Seq::empty();
        while pending.len() > 0
            invariant
                taken + pending@ == list,
                by_id@ == summaries_of(taken),
            decreases pending@.len(),
        {
            let ghost before = pending@;
            let summary = pending.remove(0);
            assert(pending@ =~= before.drop_first());
            let ghost prev_taken = taken;
            proof {
                taken = taken.push(summary);
                assert(taken.drop_last() =~= prev_taken);
                assert(taken + pending@ =~= list);
            }
            match AIConversationId::parse(summary.conversation_id.as_str()) {
                Some(id) => {
                    by_id.insert(id.0, summary);
                },
                None => {},
            }
        }
        assert(taken =~= list);
        RestoredAgentConversations { conversations: by_id, loaded_conversations: HashMap::new() }
    }
}

} // verus!

verus! {

pub open spec fn should_restore<P>(summaries: Map<u128, AgentConversationSummary>, loaded: Map<u128, AIConversation<P>>, id: AIConversationId) -> bool {
    loaded.contains_key(id.0) || (summaries.contains_key(id.0) && summary_restorable(summaries[id.0]))
}

pub open spec fn parent_of<P>(summaries: Map<u128, AgentConversationSummary>, loaded: Map<u128, AIConversation<P>>, id: AIConversationId) -> Option<AIConversationId> {
    let from_loaded = if loaded.contains_key(id.0) {
        loaded[id.0].parent_conversation_id
    } else {
        None
    };
    match from_loaded {
        Some(p) => Some(p),
        None => if summaries.contains_key(id.0) {
            match summaries[id.0].conversation_data {
                Some(data) => parent_id_of_data(data),
                None => None,
            }
        } else {
            None
        },
    }
}

impl<P> RestoredAgentConversations<P> {
    /// A store of fully materialized conversations.
    pub fn new_from_full_conversations(conversations: Vec<AIConversation<P>>) -> (s: Self)
        ensures
            s.summaries() == Map::<u128, AgentConversationSummary>::empty(),
            s.loaded() == conversations_of(conversations@),
    {
        let ghost list = conversations@;
        let mut by_id: HashMap<u128, AIConversation<P>> = HashMap::new();
        let mut pending = conversations;
        let ghost mut taken: Seq<AIConversation<P>> = Seq::empty();
        while pending.len() > 0
            invariant
                taken + pending@ == list,
                by_id@ == conversations_of(taken),
            decreases pending@.len(),
        {
            let ghost before = pending@;
            let conversation = pending.remove(0);
            assert(pending@ =~= before.drop_first());
            let ghost prev_taken = taken;
            proof {
                taken = taken.push(conversation);
                assert(taken.drop_last() =~= prev_taken);
                assert(taken + pending@ =~= list);
            }
            by_id.insert(conversation.id.0, conversation);
        }
        assert(taken =~= list);
        RestoredAgentConversations { conversations: HashMap::new(), loaded_conversations: by_id }
    }

    /// A handed-over conversation is always restored; a summarized one when
    /// it is restorable, has tasks, and is not made only of automatic
    /// code-diff requests.
    pub fn should_restore_conversation(&self, id: &AIConversationId) -> (b: bool)
        ensures
            b == should_restore(self.summaries(), self.loaded(), *id),
    {
        if self.loaded_conversations.contains_key(&id.0) {
            return true;
        }
        match self.conversations.get(&id.0) {
            Some(summary) => summary.is_restorable && summary.has_tasks() && !summary_is_entirely_passive(summary),
            None => false,
        }
    }

    /// The parent of a conversation: the handed-over conversation's parent,
    /// else the parent recorded in the summary's metadata.
    pub fn parent_conversation_id(&self, id: &AIConversationId) -> (r: Option<AIConversationId>)
        ensures
            r == parent_of(self.summaries(), self.loaded(), *id),
    {
        let from_loaded = match self.loaded_conversations.get(&id.0) {
            Some(conversation) => conversation.parent_conversation_id,
            None => None,
        };
        match from_loaded {
            Some(p) => Some(p),
            None => match self.conversations.get(&id.0) {
                Some(summary) => match &summary.conversation_data {
                    Some(data) => parent_conversation_id_from_data(data),
                    None => None,
                },
                None => None,
            },
        }
    }

    /// Removes a restored conversation and returns it: a handed-over one
    /// directly, a summarized one through `load`, which reads it in full
    /// (from the database). A conversation that `load` cannot read stays.
    pub fn take_conversation<F: Fn(AIConversationId) -> Option<AIConversation<P>>>(&mut self, id: &AIConversationId, load: &F) -> (r: Option<AIConversation<P>>)
        requires
            load.requires((*id,)),
        ensures
            old(self).loaded().contains_key(id.0) ==> {
                &&& r == Some(old(self).loaded()[id.0])
                &&& final(self).loaded() == old(self).loaded().remove(id.0)
                &&& final(self).summaries() == old(self).summaries().remove(id.0)
            },
            !old(self).loaded().contains_key(id.0) && !old(self).summaries().contains_key(id.0) ==> {
                &&& r is None
                &&& final(self).loaded() == old(self).loaded()
                &&& final(self).summaries() == old(self).summaries()
            },
            !old(self).loaded().contains_key(id.0) && old(self).summaries().contains_key(id.0) ==> {
                &&& load.ensures((*id,), r)
                &&& final(self).loaded() == old(self).loaded()
                &&& final(self).summaries() == if r is Some {
                    old(self).summaries().remove(id.0)
                } else {
                    old(self).summaries()
                }
            },
    {
        if let Some(conversation) = self.loaded_conversations.remove(&id.0) {
            self.conversations.remove(&id.0);
            return Some(conversation);
        }
        if !self.conversations.contains_key(&id.0) {
            return None;
        }
        let conversation = match load(*id) {
            Some(c) => c,
            None => return None,
        };
        self.conversations.remove(&id.0);
        Some(conversation)
    }
}

} // verus!

verus! {

/// Conversations without a first exchange come first, then by start time.
pub open spec fn starts_no_later(a: Option<i64>, b: Option<i64>) -> bool {
    match a {
        None => true,
        Some(x) => match b {
            None => false,
            Some(y) => x <= y,
        },
    }
}

pub open spec fn sorted_by_start<P>(s: Seq<AIConversation<P>>) -> bool {
    forall|i: int, j: int| 0 <= i < j < s.len() ==> starts_no_later((#[trigger] s[i]).first_exchange_start, (#[trigger] s[j]).first_exchange_start)
}

fn starts_no_later_exec(a: Option<i64>, b: Option<i64>) -> (r: bool)
    ensures
        r == starts_no_later(a, b),
{
    match a {
        None => true,
        Some(x) => match b {
            None => false,
            Some(y) => x <= y,
        },
    }
}

/// Holds of the conversations whose first exchange started at `k`.
pub open spec fn starting_at<P>(k: Option<i64>) -> spec_fn(AIConversation<P>) -> bool {
    |c: AIConversation<P>| c.first_exchange_start == k
}

proof fn lemma_filter_none<A>(a: Seq<A>, pred: spec_fn(A) -> bool)
    requires
        forall|i: int| 0 <= i < a.len() ==> !pred(#[trigger] a[i]),
    ensures
        a.filter(pred) =~= Seq::<A>::empty(),
    decreases a.len(),
{
    reveal(Seq::filter);
    if a.len() > 0 {
        lemma_filter_none(a.drop_last(), pred);
    }
}

proof fn lemma_filter_single<A>(x: A, pred: spec_fn(A) -> bool)
    ensures
        seq![x].filter(pred) =~= (if pred(x) { seq![x] } else { Seq::<A>::empty() }),
{
    reveal_with_fuel(Seq::filter, 2);
    assert(seq![x].drop_last() =~= Seq::<A>::empty());
}

/// Orders conversations by when their first exchange started, oldest
/// first; conversations that started at the same time keep their order.
pub fn sort_by_first_exchange<P>(v: Vec<AIConversation<P>>) -> (r: Vec<AIConversation<P>>)
    ensures
        sorted_by_start(r@),
        forall|k: Option<i64>| #[trigger] r@.filter(starting_at::<P>(k)) == v@.filter(starting_at::<P>(k)),
        r@.to_multiset() == v@.to_multiset(),
{
    let ghost original = v@;
    let mut rest = v;
    let mut out: Vec<AIConversation<P>> = Vec::new();
    let ghost mut done: Seq<AIConversation<P>> = Seq::empty();
    proof {
        out@.to_multiset_ensures();
        done.to_multiset_ensures();
    }
    while rest.len() > 0
        invariant
            done + rest@ == original,
            sorted_by_start(out@),
            out@.to_multiset() =~= done.to_multiset(),
            forall|k: Option<i64>| #[trigger] out@.filter(starting_at::<P>(k)) == done.filter(starting_at::<P>(k)),
        decreases rest@.len(),
    {
        let ghost before = rest@;
        let x = rest.remove(0);
        assert(rest@ =~= before.drop_first());
        let mut p: usize = 0;
        while p < out.len() && starts_no_later_exec(out[p].first_exchange_start, x.first_exchange_start)
            invariant
                p <= out@.len(),
                forall|j: int| 0 <= j < p ==> starts_no_later((#[trigger] out@[j]).first_exchange_start, x.first_exchange_start),
            decreases out@.len() - p,
        {
            p = p + 1;
        }
        proof {
            let s = out@;
            let t = s.insert(p as int, x);
            s.insert_ensures(p as int, x);
            assert forall|i: int, j: int| 0 <= i < j < t.len() implies starts_no_later((#[trigger] t[i]).first_exchange_start, (#[trigger] t[j]).first_exchange_start) by {
                if i < p && j > p {
                    assert(t[j] == s[j - 1]);
                } else if i == p && j > p {
                    assert(t[j] == s[j - 1]);
                    assert(!starts_no_later(s[p as int].first_exchange_start, x.first_exchange_start));
                    assert(starts_no_later(s[p as int].first_exchange_start, s[j - 1].first_exchange_start) || j - 1 == p);
                } else if i > p {
                    assert(t[i] == s[i - 1] && t[j] == s[j - 1]);
                }
            }
            crate::drive::lemma_insert_to_multiset(s, p as int, x);
            assert forall|k: Option<i64>| #[trigger] t.filter(starting_at::<P>(k)) == done.push(x).filter(starting_at::<P>(k)) by {
                let pred = starting_at::<P>(k);
                let front = s.take(p as int);
                let back = s.skip(p as int);
                assert(t =~= front + seq![x] + back);
                assert(s =~= front + back);
                assert(done.push(x) =~= done + seq![x]);
                Seq::filter_distributes_over_add(front + seq![x], back, pred);
                Seq::filter_distributes_over_add(front, seq![x], pred);
                Seq::filter_distributes_over_add(front, back, pred);
                Seq::filter_distributes_over_add(done, seq![x], pred);
                lemma_filter_single(x, pred);
                if x.first_exchange_start == k {
                    assert forall|i: int| 0 <= i < back.len() implies !pred(#[trigger] back[i]) by {
                        assert(back[i] == s[p + i]);
                        assert(!starts_no_later(s[p as int].first_exchange_start, x.first_exchange_start));
                        if i > 0 {
                            assert(starts_no_later(s[p as int].first_exchange_start, s[p + i].first_exchange_start));
                        }
                    }
                    lemma_filter_none(back, pred);
                    assert(s.filter(pred) =~= front.filter(pred));
                }
            }
            let prev_done = done;
            done = done.push(x);
            prev_done.to_multiset_ensures();
            assert(done + rest@ =~= original);
        }
        out.insert(p, x);
    }
    assert(done =~= original);
    out
}

pub open spec fn listed_id(ids: Seq<AIConversationId>, k: u128) -> bool {
    exists|j: int| 0 <= j < ids.len() && (#[trigger] ids[j]).0 == k
}

/// `c` is what taking `id` could have returned from a store in state
/// (`summaries`, `loaded`).
pub open spec fn takeable<P, F: Fn(AIConversationId) -> Option<AIConversation<P>>>(summaries: Map<u128, AgentConversationSummary>, loaded: Map<u128, AIConversation<P>>, load: F, id: AIConversationId, c: AIConversation<P>) -> bool {
    ||| loaded.contains_key(id.0) && loaded[id.0] == c
    ||| !loaded.contains_key(id.0) && summaries.contains_key(id.0) && load.ensures((id,), Some(c))
}

/// `c` is what taking one of `ids` could have returned.
pub open spec fn taken_for_one_of<P, F: Fn(AIConversationId) -> Option<AIConversation<P>>>(summaries: Map<u128, AgentConversationSummary>, loaded: Map<u128, AIConversation<P>>, load: F, ids: Seq<AIConversationId>, c: AIConversation<P>) -> bool {
    exists|j: int| 0 <= j < ids.len() && takeable(summaries, loaded, load, #[trigger] ids[j], c)
}

/// The listed ids whose conversation was taken: known before, in full or by
/// summary, and without a summary afterwards.
pub open spec fn taken_ids<P>(ids: Seq<AIConversationId>, summaries: Map<u128, AgentConversationSummary>, loaded: Map<u128, AIConversation<P>>, remaining: Map<u128, AgentConversationSummary>) -> Set<u128> {
    Set::new(|k: u128| listed_id(ids, k) && (loaded.contains_key(k) || summaries.contains_key(k)) && !remaining.contains_key(k))
}

impl<P> RestoredAgentConversations<P> {
    /// Takes the conversations with the given ids, as `take_conversation`
    /// does for each (a summarized one is read through `load`), and returns
    /// each taken conversation once, ordered by when its first exchange
    /// started, oldest first.
    pub fn take_conversations<F: Fn(AIConversationId) -> Option<AIConversation<P>>>(&mut self, conversation_ids: &[AIConversationId], load: &F) -> (r: Vec<AIConversation<P>>)
        requires
            forall|id: AIConversationId| load.requires((id,)),
        ensures
            sorted_by_start(r@),
            r@.len() <= conversation_ids@.len(),
            forall|i: int| 0 <= i < r@.len() ==> taken_for_one_of(old(self).summaries(), old(self).loaded(), *load, conversation_ids@, #[trigger] r@[i]),
            forall|k: u128| #[trigger] final(self).loaded().contains_key(k) <==> old(self).loaded().contains_key(k) && !listed_id(conversation_ids@, k),
            forall|k: u128| final(self).loaded().contains_key(k) ==> final(self).loaded()[k] == old(self).loaded()[k],
            forall|k: u128| #[trigger] final(self).summaries().contains_key(k) ==> old(self).summaries().contains_key(k)
                && final(self).summaries()[k] == old(self).summaries()[k],
            forall|k: u128| old(self).summaries().contains_key(k) && !listed_id(conversation_ids@, k) ==> #[trigger] final(self).summaries().contains_key(k),
            forall|k: u128| #[trigger] old(self).loaded().contains_key(k) && listed_id(conversation_ids@, k) ==> r@.contains(old(self).loaded()[k]),
            forall|k: u128| old(self).summaries().contains_key(k) && !old(self).loaded().contains_key(k) && !(#[trigger] final(self).summaries().contains_key(k))
                ==> exists|i: int| 0 <= i < r@.len() && load.ensures((AIConversationId(k),), Some(#[trigger] r@[i])),
            forall|k: u128| old(self).loaded().contains_key(k) && listed_id(conversation_ids@, k) ==> !(#[trigger] final(self).summaries().contains_key(k)),
            forall|k: u128| listed_id(conversation_ids@, k) && old(self).summaries().contains_key(k) && !old(self).loaded().contains_key(k)
                && #[trigger] final(self).summaries().contains_key(k) ==> load.ensures((AIConversationId(k),), None::<AIConversation<P>>),
            taken_ids(conversation_ids@, old(self).summaries(), old(self).loaded(), final(self).summaries()).finite(),
            r@.len() == taken_ids(conversation_ids@, old(self).summaries(), old(self).loaded(), final(self).summaries()).len(),
    {
        let ghost s0 = old(self).summaries();
        let ghost l0 = old(self).loaded();
        let ghost ids = conversation_ids@;
        let mut taken: Vec<AIConversation<P>> = Vec::new();
        let mut i: usize = 0;
        proof {
            assert(taken_ids(ids.take(0), s0, l0, self.summaries()) =~= Set::<u128>::empty());
        }
        while i < conversation_ids.len()
            invariant
                forall|id: AIConversationId| load.requires((id,)),
                ids == conversation_ids@,
                i <= ids.len(),
                taken@.len() <= i,
                forall|t: int| 0 <= t < taken@.len() ==> taken_for_one_of(s0, l0, *load, ids, #[trigger] taken@[t]),
                forall|k: u128| #[trigger] self.loaded().contains_key(k) <==> l0.contains_key(k) && !listed_id(ids.take(i as int), k),
                forall|k: u128| self.loaded().contains_key(k) ==> self.loaded()[k] == l0[k],
                forall|k: u128| #[trigger] self.summaries().contains_key(k) ==> s0.contains_key(k) && self.summaries()[k] == s0[k],
                forall|k: u128| s0.contains_key(k) && !listed_id(ids.take(i as int), k) ==> #[trigger] self.summaries().contains_key(k),
                forall|k: u128| l0.contains_key(k) && listed_id(ids.take(i as int), k) ==> !(#[trigger] self.summaries().contains_key(k)),
                forall|k: u128| #[trigger] l0.contains_key(k) && listed_id(ids.take(i as int), k) ==> taken@.contains(l0[k]),
                forall|k: u128| s0.contains_key(k) && !l0.contains_key(k) && !(#[trigger] self.summaries().contains_key(k))
                    ==> exists|t: int| 0 <= t < taken@.len() && load.ensures((AIConversationId(k),), Some(#[trigger] taken@[t])),
                forall|k: u128| listed_id(ids.take(i as int), k) && s0.contains_key(k) && !l0.contains_key(k)
                    && #[trigger] self.summaries().contains_key(k) ==> load.ensures((AIConversationId(k),), None::<AIConversation<P>>),
                taken_ids(ids.take(i as int), s0, l0, self.summaries()).finite(),
                taken@.len() == taken_ids(ids.take(i as int), s0, l0, self.summaries()).len(),
            decreases ids.len() - i,
        {
            let id = conversation_ids[i];
            let ghost before_l = self.loaded();
            let ghost before_s = self.summaries();
            let ghost before_taken = taken@;
            let ghost old_taken_ids = taken_ids(ids.take(i as int), s0, l0, self.summaries());
            let got = self.take_conversation(&id, load);
            let ghost got_some = got is Some;
            proof {
                assert(ids[i as int] == id);
                assert forall|k: u128| listed_id(ids.take(i + 1), k) <==> listed_id(ids.take(i as int), k) || k == id.0 by {
                    if listed_id(ids.take(i + 1), k) {
                        let j = choose|j: int| 0 <= j < ids.take(i + 1).len() && (#[trigger] ids.take(i + 1)[j]).0 == k;
                        if j < i {
                            assert(ids.take(i as int)[j] == ids.take(i + 1)[j]);
                        }
                    }
                    if listed_id(ids.take(i as int), k) {
                        let j = choose|j: int| 0 <= j < ids.take(i as int).len() && (#[trigger] ids.take(i as int)[j]).0 == k;
                        assert(ids.take(i + 1)[j] == ids.take(i as int)[j]);
                    }
                    if k == id.0 {
                        assert(ids.take(i + 1)[i as int] == id);
                    }
                }
            }
            match got {
                Some(c) => {
                    proof {
                        if before_l.contains_key(id.0) {
                            assert(takeable(s0, l0, *load, ids[i as int], c));
                        } else {
                            assert(!l0.contains_key(id.0));
                            assert(takeable(s0, l0, *load, ids[i as int], c));
                        }
                    }
                    taken.push(c);
                    proof {
                        assert forall|t: int| 0 <= t < taken@.len() implies taken_for_one_of(s0, l0, *load, ids, #[trigger] taken@[t]) by {
                            if t < before_taken.len() {
                                assert(taken@[t] == before_taken[t]);
                            } else {
                                assert(takeable(s0, l0, *load, ids[i as int], taken@[t]));
                            }
                        }
                        assert(taken@[before_taken.len() as int] == c);
                        assert forall|k: u128| #[trigger] l0.contains_key(k) && listed_id(ids.take(i + 1), k) implies taken@.contains(l0[k]) by {
                            if listed_id(ids.take(i as int), k) {
                                let t = choose|t: int| 0 <= t < before_taken.len() && before_taken[t] == l0[k];
                                assert(taken@[t] == l0[k]);
                            } else {
                                assert(k == id.0);
                                assert(before_l.contains_key(id.0));
                                assert(taken@[before_taken.len() as int] == l0[k]);
                            }
                        }
                        assert forall|k: u128| s0.contains_key(k) && !l0.contains_key(k) && !(#[trigger] self.summaries().contains_key(k))
                            implies exists|t: int| 0 <= t < taken@.len() && load.ensures((AIConversationId(k),), Some(#[trigger] taken@[t])) by {
                            if before_s.contains_key(k) {
                                assert(k == id.0);
                                assert(AIConversationId(k) == id);
                                assert(taken@[before_taken.len() as int] == c);
                            } else {
                                let t = choose|t: int| 0 <= t < before_taken.len() && load.ensures((AIConversationId(k),), Some(#[trigger] before_taken[t]));
                                assert(taken@[t] == before_taken[t]);
                            }
                        }
                    }
                },
                None => {
                    proof {
                        assert(!before_l.contains_key(id.0));
                        assert forall|k: u128| #[trigger] l0.contains_key(k) && listed_id(ids.take(i + 1), k) implies taken@.contains(l0[k]) by {
                            if !listed_id(ids.take(i as int), k) {
                                assert(k == id.0);
                            }
                        }
                    }
                },
            }
            proof {
                let new_taken_ids = taken_ids(ids.take(i + 1), s0, l0, self.summaries());
                assert forall|k: u128| listed_id(ids.take(i + 1), k) && s0.contains_key(k) && !l0.contains_key(k)
                    && #[trigger] self.summaries().contains_key(k) implies load.ensures((AIConversationId(k),), None::<AIConversation<P>>) by {
                    if !listed_id(ids.take(i as int), k) {
                        assert(k == id.0);
                        assert(AIConversationId(k) == id);
                        assert(!before_l.contains_key(k));
                    }
                }
                if got_some {
                    assert(!old_taken_ids.contains(id.0));
                    assert(new_taken_ids =~= old_taken_ids.insert(id.0));
                } else {
                    assert(new_taken_ids =~= old_taken_ids);
                }
            }
            i = i + 1;
        }
        assert(ids.take(ids.len() as int) =~= ids);
        let ghost unsorted = taken@;
        let r = sort_by_first_exchange(taken);
        proof {
            r@.to_multiset_ensures();
            unsorted.to_multiset_ensures();
            assert forall|t: int| 0 <= t < r@.len() implies taken_for_one_of(s0, l0, *load, ids, #[trigger] r@[t]) by {
                assert(r@.contains(r@[t]));
                assert(r@.to_multiset().count(r@[t]) > 0);
                assert(unsorted.to_multiset().count(r@[t]) > 0);
                assert(unsorted.contains(r@[t]));
                let u = choose|u: int| 0 <= u < unsorted.len() && unsorted[u] == r@[t];
                assert(taken_for_one_of(s0, l0, *load, ids, unsorted[u]));
            }
            assert forall|k: u128| #[trigger] l0.contains_key(k) && listed_id(ids, k) implies r@.contains(l0[k]) by {
                assert(unsorted.contains(l0[k]));
                assert(unsorted.to_multiset().count(l0[k]) > 0);
                assert(r@.to_multiset().count(l0[k]) > 0);
            }
            assert forall|k: u128| s0.contains_key(k) && !l0.contains_key(k) && !(#[trigger] self.summaries().contains_key(k))
                implies exists|t: int| 0 <= t < r@.len() && load.ensures((AIConversationId(k),), Some(#[trigger] r@[t])) by {
                let u = choose|u: int| 0 <= u < unsorted.len() && load.ensures((AIConversationId(k),), Some(#[trigger] unsorted[u]));
                assert(unsorted.contains(unsorted[u]));
                assert(unsorted.to_multiset().count(unsorted[u]) > 0);
                assert(r@.to_multiset().count(unsorted[u]) > 0);
                assert(r@.contains(unsorted[u]));
                let t = choose|t: int| 0 <= t < r@.len() && r@[t] == unsorted[u];
                assert(load.ensures((AIConversationId(k),), Some(r@[t])));
            }
        }
        r
    }
}

} // verus!

verus! {

/// Once a conversation has been taken, the store no longer offers it: it is
/// not restored again and has no recorded parent.
pub proof fn lemma_taken_conversation_is_gone<P>(summaries: Map<u128, AgentConversationSummary>, loaded: Map<u128, AIConversation<P>>, id: AIConversationId)
    ensures
        !should_restore(summaries.remove(id.0), loaded.remove(id.0), id),
        parent_of(summaries.remove(id.0), loaded.remove(id.0), id) is None,
{
}

/// A summary without tasks is never restored on its own.
pub proof fn lemma_taskless_summary_not_restored<P>(summaries: Map<u128, AgentConversationSummary>, loaded: Map<u128, AIConversation<P>>, id: AIConversationId)
    requires
        !loaded.contains_key(id.0),
        summaries.contains_key(id.0) ==> summaries[id.0].task_count == 0,
    ensures
        !should_restore(summaries, loaded, id),
{
}

/// A conversation handed over in full is always restored.
pub proof fn lemma_loaded_conversation_restored<P>(summaries: Map<u128, AgentConversationSummary>, loaded: Map<u128, AIConversation<P>>, id: AIConversationId)
    requires
        loaded.contains_key(id.0),
    ensures
        should_restore(summaries, loaded, id),
{
}

} // verus!

verus! {

/// A summary marked not restorable is never restored, unless the
/// conversation was handed over in full; a summarized conversation is
/// restored only if it is marked restorable, has tasks and is not entirely
/// passive.
pub proof fn lemma_unrestorable_summary_not_restored<P>(summaries: Map<u128, AgentConversationSummary>, loaded: Map<u128, AIConversation<P>>, id: AIConversationId)
    requires
        !loaded.contains_key(id.0),
    ensures
        summaries.contains_key(id.0) && !summaries[id.0].is_restorable ==> !should_restore(summaries, loaded, id),
        should_restore(summaries, loaded, id) ==> summaries.contains_key(id.0) && summaries[id.0].is_restorable
            && summaries[id.0].task_count > 0 && !entirely_passive(summaries[id.0]),
{
}

} // verus!
