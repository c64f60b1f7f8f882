use local_control::frame_capture::convert_bgra_to_rgba;
use local_control::persistence::{
    all_decoded, conversations_to_prune, keep_decoded, select_sampled_task, startup_summary, summary_is_restorable,
    summary_task_count, SampledTaskShape, StoredTask,
};
use local_control::restored_conversations::{AgentConversationData, MessageKind, SampledTask};

#[test]
fn bgra_pixels_become_rgba() {
    let mut data = vec![1u8, 2, 3, 4, 5, 6, 7, 8, 9, 10];
    convert_bgra_to_rgba(&mut data);
    assert_eq!(data, vec![3, 2, 1, 4, 7, 6, 5, 8, 9, 10]);
}

#[test]
fn converting_twice_restores_the_pixels() {
    let original = vec![10u8, 20, 30, 40, 50, 60, 70, 80, 90];
    let mut data = original.clone();
    convert_bgra_to_rgba(&mut data);
    convert_bgra_to_rgba(&mut data);
    assert_eq!(data, original);
}

#[test]
fn pruning_keeps_the_newest_hundred() {
    assert_eq!(conversations_to_prune(100), 0);
    assert_eq!(conversations_to_prune(101), 1);
    assert_eq!(conversations_to_prune(250), 150);
    assert_eq!(conversations_to_prune(-3), 0);
}

#[test]
fn summary_counts_and_samples() {
    assert_eq!(summary_task_count(7), 7);
    assert_eq!(summary_task_count(-1), 0);
    let dep = SampledTaskShape { has_dependencies: true };
    let root = SampledTaskShape { has_dependencies: false };
    assert_eq!(select_sampled_task(&vec![dep, root, root]), Some(1));
    assert_eq!(select_sampled_task(&vec![dep, dep]), Some(0));
    assert_eq!(select_sampled_task(&vec![]), None);
    assert!(summary_is_restorable(2, 3, false));
    assert!(!summary_is_restorable(3, 3, false));
    assert!(summary_is_restorable(3, 3, true));
}

#[test]
fn sampled_tasks_skip_what_failed_to_decode() {
    assert_eq!(keep_decoded(vec![Some(1u32), None, Some(3), None]), vec![1, 3]);
    assert_eq!(keep_decoded::<u32>(vec![None, None]), Vec::<u32>::new());
    assert_eq!(keep_decoded::<u32>(vec![]), Vec::<u32>::new());
}

#[test]
fn a_full_read_needs_every_task_decoded() {
    assert_eq!(all_decoded(vec![Some("a"), Some("b")]), Some(vec!["a", "b"]));
    assert_eq!(all_decoded(vec![Some("a"), None, Some("c")]), None);
    assert_eq!(all_decoded::<&str>(vec![]), Some(vec![]));
}

fn stored(has_dependencies: bool, message: MessageKind) -> StoredTask {
    StoredTask { has_dependencies, messages: vec![message] }
}

#[test]
fn startup_summaries_count_sample_and_judge_their_tasks() {
    let data = Some(AgentConversationData { parent_conversation_id: None });
    let summary = startup_summary(
        "c1".to_string(),
        data.clone(),
        3,
        vec![
            Some(stored(true, MessageKind::Other)),
            None,
            Some(stored(false, MessageKind::UserQuery)),
        ],
        false,
    );
    assert_eq!(summary.conversation_id, "c1");
    assert_eq!(summary.conversation_data, data);
    assert_eq!(summary.task_count, 3);
    assert_eq!(summary.sampled_task, Some(SampledTask { messages: vec![MessageKind::UserQuery] }));
    assert!(summary.is_restorable, "not every task was sampled, so it is assumed restorable");

    let summary = startup_summary(
        "c2".to_string(),
        None,
        2,
        vec![Some(stored(true, MessageKind::AutoCodeDiffQuery)), Some(stored(true, MessageKind::Other))],
        false,
    );
    assert_eq!(summary.sampled_task, Some(SampledTask { messages: vec![MessageKind::AutoCodeDiffQuery] }));
    assert!(!summary.is_restorable, "every task was sampled, so the sample decides");

    let summary = startup_summary("c3".to_string(), None, -4, vec![], true);
    assert_eq!(summary.task_count, 0);
    assert_eq!(summary.sampled_task, None);
    assert!(summary.is_restorable);
}
