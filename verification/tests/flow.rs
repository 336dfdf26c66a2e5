use github_tui::error::{AppErr, GitHubErr};
use github_tui::flow::{
    handle_input_failure, handle_lookup_response, handle_search_response, loading_info_line,
    loading_line, menu_actions, menu_title, no_match_message, results_page_size, results_prompt,
    search_prompt, total_count_line, username_prompt, Actions, FlowOutcome, SearchStep,
};
use github_tui::model::{SearchResult, UserProfile, UserSummary};

fn summary(login: &str) -> UserSummary {
    UserSummary { login: login.to_string() }
}

fn profile(login: &str) -> UserProfile {
    UserProfile {
        login: login.to_string(),
        name: None,
        bio: None,
        followers: None,
        following: None,
    }
}

#[test]
fn menu_offers_search_then_user_info() {
    let actions = menu_actions();
    assert_eq!(actions.len(), 2);
    assert!(matches!(actions[0], Actions::Search));
    assert!(matches!(actions[1], Actions::UserInfo));
    assert_eq!(actions[0].label(), "Search users...");
    assert_eq!(actions[1].label(), "User profile");
}

#[test]
fn prompt_texts_are_fixed() {
    assert_eq!(menu_title(), "GitHub");
    assert_eq!(search_prompt(), "User Id");
    assert_eq!(results_prompt(), "Search Result");
    assert_eq!(username_prompt(), "Username");
    assert_eq!(loading_line(), "Loading...");
    assert_eq!(loading_info_line("octocat"), "Loading info for octocat...");
    assert_eq!(results_page_size(), 10);
}

#[test]
fn zero_matches_emit_no_match_and_return_to_menu() {
    let res = SearchResult { total_count: 0, items: Vec::new() };
    let step = handle_search_response("nobody", Ok(res));
    match step {
        SearchStep::NoMatch { message } => {
            assert_eq!(message, "🤚 No match for nobody ");
        }
        _ => panic!("zero matches must end in the no-match step"),
    }
}

#[test]
fn zero_matches_with_empty_query() {
    let res = SearchResult { total_count: 0, items: Vec::new() };
    let step = handle_search_response("", Ok(res));
    match step {
        SearchStep::NoMatch { message } => {
            assert_eq!(message, "🤚 No match for  ");
        }
        _ => panic!("zero matches must end in the no-match step"),
    }
}

#[test]
fn matches_show_server_total_and_items_in_order() {
    let res = SearchResult {
        total_count: 42,
        items: vec![summary("octocat"), summary("monalisa"), summary("hubot")],
    };
    let step = handle_search_response("cat", Ok(res));
    match step {
        SearchStep::Choose { total_line, options, items } => {
            assert_eq!(total_line, "Total Count: 42");
            assert_eq!(options.len(), 3);
            assert_eq!(options[0], "octocat");
            assert_eq!(options[1], "monalisa");
            assert_eq!(options[2], "hubot");
            assert_eq!(items.len(), 3);
            assert_eq!(items[0].login, "octocat");
            assert_eq!(items[1].login, "monalisa");
            assert_eq!(items[2].login, "hubot");
        }
        _ => panic!("a non-empty result must offer a selection"),
    }
}

#[test]
fn single_match_is_offered() {
    let res = SearchResult { total_count: 1, items: vec![summary("octocat")] };
    let step = handle_search_response("octocat", Ok(res));
    match step {
        SearchStep::Choose { total_line, options, .. } => {
            assert_eq!(total_line, "Total Count: 1");
            assert_eq!(options, vec!["octocat".to_string()]);
        }
        _ => panic!("a non-empty result must offer a selection"),
    }
}

#[test]
fn search_failure_is_fatal_with_github_variant() {
    let e = GitHubErr::new("error sending request: dns error".to_string());
    let step = handle_search_response("cat", Err(e));
    match step {
        SearchStep::Fatal(AppErr::GitHubErr(g)) => {
            assert_eq!(g.cause, "error sending request: dns error");
            assert_eq!(g.describe(), "GitHub Error: error sending request: dns error");
        }
        _ => panic!("a failed search must propagate as the remote-API error"),
    }
}

#[test]
fn lookup_404_is_rendered_not_propagated() {
    let e = GitHubErr::new("HTTP status 404 Not Found".to_string());
    let outcome = handle_lookup_response(Err(e));
    match outcome {
        FlowOutcome::Continue { output } => {
            assert_eq!(output, "GitHub Error: HTTP status 404 Not Found");
        }
        FlowOutcome::Fatal(_) => panic!("a failed lookup must not terminate the loop"),
    }
}

#[test]
fn lookup_success_renders_profile() {
    let mut p = profile("octocat");
    p.name = Some("The Octocat".to_string());
    p.followers = Some(100);
    let outcome = handle_lookup_response(Ok(p));
    match outcome {
        FlowOutcome::Continue { output } => {
            assert_eq!(output, "login: octocat\nname: The Octocat\nfollowers: 100\n");
        }
        FlowOutcome::Fatal(_) => panic!("a successful lookup must continue the loop"),
    }
}

#[test]
fn repeated_equal_lookups_render_equal_text() {
    let make = || {
        let mut p = profile("octocat");
        p.name = Some("The Octocat".to_string());
        p.followers = Some(100);
        p
    };
    let first = handle_lookup_response(Ok(make()));
    let second = handle_lookup_response(Ok(make()));
    match (first, second) {
        (FlowOutcome::Continue { output: a }, FlowOutcome::Continue { output: b }) => {
            assert_eq!(a, b);
        }
        _ => panic!("both lookups must continue the loop"),
    }
}

#[test]
fn input_failure_is_fatal() {
    let outcome = handle_input_failure("operation was interrupted".to_string());
    match outcome {
        FlowOutcome::Fatal(AppErr::InputErr { cause }) => {
            assert_eq!(cause, "operation was interrupted");
        }
        _ => panic!("an input-layer failure must abort the program"),
    }
}

#[test]
fn no_match_message_text() {
    assert_eq!(no_match_message("abc"), "🤚 No match for abc ");
}

#[test]
fn total_count_line_text() {
    assert_eq!(total_count_line(0), "Total Count: 0");
    assert_eq!(total_count_line(12345), "Total Count: 12345");
}
