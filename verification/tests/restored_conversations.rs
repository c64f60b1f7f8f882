use local_control::restored_conversations::{
    parent_conversation_id_from_data, summary_is_entirely_passive, AIConversation, AIConversationId,
    AgentConversationData, AgentConversationSummary, MessageKind, RestoredAgentConversations, SampledTask,
    sort_by_first_exchange,
};

const CONVERSATION: &str = "a1a2a3a4-b1b2-c1c2-d1d2-d3d4d5d6d7d8";
const PARENT: &str = "550e8400-e29b-41d4-a716-446655440000";
const EMPTY: &str = "936da01f-9abd-4d9d-80c7-02af85c822a8";

fn id(s: &str) -> AIConversationId {
    AIConversationId::parse(s).expect("valid uuid")
}

fn conversation_data(parent_conversation_id: Option<&str>) -> AgentConversationData {
    AgentConversationData { parent_conversation_id: parent_conversation_id.map(|p| p.to_string()) }
}

fn conversation_summary(conversation_id: &str, task_count: usize, parent_conversation_id: Option<&str>) -> AgentConversationSummary {
    AgentConversationSummary {
        conversation_id: conversation_id.to_string(),
        conversation_data: Some(conversation_data(parent_conversation_id)),
        task_count,
        sampled_task: None,
        is_restorable: true,
    }
}

fn conversation(s: &str, start: Option<i64>) -> AIConversation<&'static str> {
    AIConversation { id: id(s), parent_conversation_id: None, first_exchange_start: start, payload: "full" }
}

#[test]
fn summary_store_restores_task_containing_conversations_without_sampled_task() {
    let store: RestoredAgentConversations<()> = RestoredAgentConversations::new(vec![
        conversation_summary(CONVERSATION, 2, Some(PARENT)),
        conversation_summary(EMPTY, 0, None),
    ]);

    assert!(
        store.should_restore_conversation(&id(CONVERSATION)),
        "task count metadata is enough to mark an unsampled conversation restorable",
    );
    assert_eq!(
        store.parent_conversation_id(&id(CONVERSATION)),
        Some(id(PARENT)),
        "parent metadata should be available without loading tasks",
    );
    assert!(
        !store.should_restore_conversation(&id(EMPTY)),
        "conversations with no persisted tasks should not be restored",
    );
}

#[test]
fn conversation_ids_parse_as_uuids() {
    assert_eq!(AIConversationId::parse(CONVERSATION), Some(AIConversationId(0xa1a2a3a4b1b2c1c2d1d2d3d4d5d6d7d8)));
    assert_eq!(AIConversationId::parse("not-a-uuid"), None);
    assert_eq!(parent_conversation_id_from_data(&conversation_data(Some(PARENT))), Some(id(PARENT)));
    assert_eq!(parent_conversation_id_from_data(&conversation_data(Some("garbage"))), None);
    assert_eq!(parent_conversation_id_from_data(&conversation_data(None)), None);
}

#[test]
fn invalid_summary_ids_are_skipped() {
    let store: RestoredAgentConversations<()> =
        RestoredAgentConversations::new(vec![conversation_summary("bad-id", 3, None)]);
    assert!(!store.should_restore_conversation(&AIConversationId(0)));
}

#[test]
fn passive_only_summaries_are_not_restored() {
    let mut passive = conversation_summary(CONVERSATION, 1, None);
    passive.sampled_task = Some(SampledTask { messages: vec![MessageKind::AutoCodeDiffQuery, MessageKind::Other] });
    assert!(summary_is_entirely_passive(&passive));
    let mut active = conversation_summary(EMPTY, 1, None);
    active.sampled_task = Some(SampledTask { messages: vec![MessageKind::AutoCodeDiffQuery, MessageKind::UserQuery] });
    assert!(!summary_is_entirely_passive(&active));
    let store: RestoredAgentConversations<()> = RestoredAgentConversations::new(vec![passive, active]);
    assert!(!store.should_restore_conversation(&id(CONVERSATION)));
    assert!(store.should_restore_conversation(&id(EMPTY)));
}

#[test]
fn taking_removes_a_loaded_conversation() {
    let mut store = RestoredAgentConversations::new_from_full_conversations(vec![conversation(CONVERSATION, Some(5))]);
    assert!(store.should_restore_conversation(&id(CONVERSATION)));
    let never = |_: AIConversationId| -> Option<AIConversation<&'static str>> { panic!("not loaded from the database") };
    let taken = store.take_conversation(&id(CONVERSATION), &never).unwrap();
    assert_eq!(taken.id, id(CONVERSATION));
    assert!(!store.should_restore_conversation(&id(CONVERSATION)));
    assert!(store.take_conversation(&id(CONVERSATION), &never).is_none());
}

#[test]
fn taking_a_summarized_conversation_loads_it() {
    let mut store: RestoredAgentConversations<&'static str> =
        RestoredAgentConversations::new(vec![conversation_summary(CONVERSATION, 1, None), conversation_summary(EMPTY, 1, None)]);
    let load = |wanted: AIConversationId| {
        if wanted == id(CONVERSATION) { Some(conversation(CONVERSATION, None)) } else { None }
    };
    assert_eq!(store.take_conversation(&id(CONVERSATION), &load).unwrap().payload, "full");
    assert!(!store.should_restore_conversation(&id(CONVERSATION)));
    assert!(store.take_conversation(&id(EMPTY), &load).is_none());
    assert!(store.should_restore_conversation(&id(EMPTY)), "a conversation that could not be read stays");
    assert!(store.take_conversation(&id(PARENT), &load).is_none());
}

#[test]
fn taken_conversations_are_ordered_by_first_exchange() {
    let mut store = RestoredAgentConversations::new_from_full_conversations(vec![
        conversation(CONVERSATION, Some(30)),
        conversation(PARENT, None),
        conversation(EMPTY, Some(10)),
    ]);
    let never = |_: AIConversationId| -> Option<AIConversation<&'static str>> { None };
    let taken = store.take_conversations(&[id(CONVERSATION), id(EMPTY), id(PARENT)], &never);
    let order: Vec<AIConversationId> = taken.iter().map(|c| c.id).collect();
    assert_eq!(order, vec![id(PARENT), id(EMPTY), id(CONVERSATION)]);
    assert!(store.take_conversations(&[id(CONVERSATION)], &never).is_empty());
}

#[test]
fn conversations_starting_together_keep_their_order() {
    let sorted = sort_by_first_exchange(vec![
        conversation(CONVERSATION, Some(20)),
        conversation(EMPTY, Some(5)),
        conversation(PARENT, Some(20)),
    ]);
    let order: Vec<AIConversationId> = sorted.iter().map(|c| c.id).collect();
    assert_eq!(order, vec![id(EMPTY), id(CONVERSATION), id(PARENT)]);

    let reversed = sort_by_first_exchange(vec![
        conversation(PARENT, Some(20)),
        conversation(CONVERSATION, Some(20)),
    ]);
    let order: Vec<AIConversationId> = reversed.iter().map(|c| c.id).collect();
    assert_eq!(order, vec![id(PARENT), id(CONVERSATION)]);
}

#[test]
fn taking_many_loads_summaries_and_takes_each_id_once() {
    let mut store: RestoredAgentConversations<&'static str> =
        RestoredAgentConversations::new(vec![conversation_summary(CONVERSATION, 1, None), conversation_summary(EMPTY, 1, None)]);
    let load = |wanted: AIConversationId| {
        if wanted == id(CONVERSATION) { Some(conversation(CONVERSATION, Some(1))) } else { None }
    };
    let taken = store.take_conversations(&[id(CONVERSATION), id(EMPTY), id(CONVERSATION)], &load);
    assert_eq!(taken.len(), 1);
    assert_eq!(taken[0].id, id(CONVERSATION));
    assert!(!store.should_restore_conversation(&id(CONVERSATION)));
    assert!(store.should_restore_conversation(&id(EMPTY)), "a conversation that could not be read stays");

    let mut full = RestoredAgentConversations::new_from_full_conversations(vec![conversation(PARENT, Some(2))]);
    let never = |_: AIConversationId| -> Option<AIConversation<&'static str>> { panic!("not loaded from the database") };
    let taken = full.take_conversations(&[id(PARENT), id(PARENT)], &never);
    assert_eq!(taken.len(), 1);
    assert!(!full.should_restore_conversation(&id(PARENT)));
}
