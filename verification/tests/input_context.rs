use local_control::input_context::{pull_request_ai_context_from_chip_value, AIAgentContext, ChipValue, GithubPullRequestChipValue};

#[test]
fn pull_request_ai_context_from_structured_prompt_chip_excludes_url() {
    let value = ChipValue::GithubPullRequest(GithubPullRequestChipValue {
        url: "https://github.com/warpdotdev/warp/pull/123".to_string(),
        number: 123,
        state: "OPEN".to_string(),
        draft: true,
        base_branch: "main".to_string(),
    });

    assert_eq!(
        pull_request_ai_context_from_chip_value(&value),
        Some(AIAgentContext::PullRequest {
            number: 123,
            state: "OPEN".to_string(),
            draft: true,
            base_branch: "main".to_string(),
        })
    );
}

#[test]
fn pull_request_ai_context_from_legacy_url_uses_metadata_defaults() {
    let value = ChipValue::Text("https://github.com/warpdotdev/warp/pull/456".to_string());

    assert_eq!(
        pull_request_ai_context_from_chip_value(&value),
        Some(AIAgentContext::PullRequest {
            number: 456,
            state: String::new(),
            draft: false,
            base_branch: String::new(),
        })
    );
}

#[test]
fn pull_request_ai_context_ignores_unparseable_chip_value() {
    let value = ChipValue::Text("not a pull request".to_string());

    assert_eq!(pull_request_ai_context_from_chip_value(&value), None);
}

#[test]
fn legacy_links_need_owner_repo_and_number() {
    for text in [
        "https://github.com//warp/pull/1",
        "https://github.com/warpdotdev//pull/1",
        "https://github.com/warpdotdev/warp/pull/",
        "https://github.com/warpdotdev/warp/issues/1",
        "https://github.com/warpdotdev/warp/pull/12x",
        "http://github.com/warpdotdev/warp/pull/1",
    ] {
        assert_eq!(pull_request_ai_context_from_chip_value(&ChipValue::Text(text.to_string())), None, "{text}");
    }
}
