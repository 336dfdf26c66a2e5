//! Decision logic of the interactive loop.
//!
//! The loop has one persistent state, the menu; each choice opens a
//! sub-flow that issues a remote call and reacts to its outcome. The
//! binary only prompts, prints and performs the calls: which message is
//! printed, which items are offered, and whether the loop continues or
//! the program dies, is decided here, one function per event.
//!
//! The policy is deliberately asymmetric, as the contracts record: a
//! failed search propagates and terminates the program, while a failed
//! user lookup is rendered inline and the loop continues.

use vstd::prelude::*;
use crate::error::{AppErr, GitHubErr, github_err_text};
use crate::model::{SearchResult, UserProfile, UserSummary, item_labels, render_profile_text};
use crate::text::{dec_digits, u64_to_string};

verus! {

/// The two actions the menu offers.
#[derive(Clone, Copy, Debug, PartialEq, Eq, Structural)]
pub enum Actions {
    Search,
    UserInfo,
}

/// The label under which an action appears in the menu.
pub open spec fn action_label_text(a: Actions) -> Seq<char> {
    match a {
        Actions::Search => "Search users..."@,
        Actions::UserInfo => "User profile"@,
    }
}

impl Actions {
    /// The menu label of this action.
    pub fn label(&self) -> (s: String)
        ensures
            s@ == action_label_text(*self),
    {
        match self {
            Actions::Search => String::from_str("Search users..."),
            Actions::UserInfo => String::from_str("User profile"),
        }
    }
}

/// The menu's ordered choice: search first, then the direct profile lookup.
pub fn menu_actions() -> (v: Vec<Actions>)
    ensures
        v@.len() == 2,
        v@[0] == Actions::Search,
        v@[1] == Actions::UserInfo,
{
    let mut v: Vec<Actions> = Vec::new();
    v.push(Actions::Search);
    v.push(Actions::UserInfo);
    v
}

/// Title of the menu prompt.
pub fn menu_title() -> (s: String)
    ensures
        s@ == "GitHub"@,
{
    String::from_str("GitHub")
}

/// Prompt for the free-text search query.
pub fn search_prompt() -> (s: String)
    ensures
        s@ == "User Id"@,
{
    String::from_str("User Id")
}

/// Prompt over the returned search items.
pub fn results_prompt() -> (s: String)
    ensures
        s@ == "Search Result"@,
{
    String::from_str("Search Result")
}

/// Prompt for the direct profile lookup.
pub fn username_prompt() -> (s: String)
    ensures
        s@ == "Username"@,
{
    String::from_str("Username")
}

/// How many search items the selector shows per page.
pub fn results_page_size() -> (n: usize)
    ensures
        n == 10,
{
    10
}

/// Line printed while a search is in flight.
pub fn loading_line() -> (s: String)
    ensures
        s@ == "Loading..."@,
{
    String::from_str("Loading...")
}

/// The line printed while a profile lookup for `username` is in flight.
pub open spec fn loading_info_text(username: Seq<char>) -> Seq<char> {
    "Loading info for "@ + username + "..."@
}

pub fn loading_info_line(username: &str) -> (s: String)
    ensures
        s@ == loading_info_text(username@),
{
    let mut s = String::from_str("Loading info for ");
    s.append(username);
    s.append("...");
    s
}

/// The message for a search that matched nothing.
pub open spec fn no_match_text(query: Seq<char>) -> Seq<char> {
    "🤚 No match for "@ + query + " "@
}

pub fn no_match_message(query: &str) -> (s: String)
    ensures
        s@ == no_match_text(query@),
{
    let mut s = String::from_str("🤚 No match for ");
    s.append(query);
    s.append(" ");
    s
}

/// The line showing the server's total match count.
pub open spec fn total_count_text(n: nat) -> Seq<char> {
    "Total Count: "@ + dec_digits(n)
}

pub fn total_count_line(n: u64) -> (s: String)
    ensures
        s@ == total_count_text(n as nat),
{
    let mut s = String::from_str("Total Count: ");
    let num = u64_to_string(n);
    s.append(num.as_str());
    s
}

/// What the search flow does after the search call comes back.
pub enum SearchStep {
    /// The search itself failed: propagate and terminate the program.
    Fatal(AppErr),
    /// Nothing matched: print `message` and return to the menu.
    NoMatch { message: String },
    /// At least one match: print `total_line`, then offer `items` for
    /// selection under `options`, one label per item, in server order.
    Choose { total_line: String, options: Vec<String>, items: Vec<UserSummary> },
}

/// How a `SearchStep` must relate to the query and the search response
/// it reacts to.
pub open spec fn search_step_matches(
    query: Seq<char>,
    r: Result<SearchResult, GitHubErr>,
    s: SearchStep,
) -> bool {
    match r {
        Err(e) => s matches SearchStep::Fatal(a) && a == AppErr::GitHubErr(e),
        Ok(res) => if res.total_count == 0 {
            s matches SearchStep::NoMatch { message } && message@ == no_match_text(query)
        } else {
            s matches SearchStep::Choose { total_line, options, items } && total_line@
                == total_count_text(res.total_count as nat) && options@.len() == res.items@.len()
                && (forall|i: int|
                0 <= i < res.items@.len() ==> options@[i]@ == res.items@[i].login@) && items
                == res.items
        },
    }
}

/// Decides the search flow's next step from the response to `search_users`.
pub fn handle_search_response(query: &str, r: Result<SearchResult, GitHubErr>) -> (s: SearchStep)
    ensures
        search_step_matches(query@, r, s),
{
    match r {
        Err(e) => SearchStep::Fatal(AppErr::GitHubErr(e)),
        Ok(res) => {
            if res.total_count == 0 {
                SearchStep::NoMatch { message: no_match_message(query) }
            } else {
                let total_line = total_count_line(res.total_count);
                let options = item_labels(&res.items);
                SearchStep::Choose { total_line, options, items: res.items }
            }
        },
    }
}

/// What a flow does after a profile lookup comes back, and on an input
/// failure: either the program dies, or `output` is printed and the loop
/// re-enters the menu.
pub enum FlowOutcome {
    /// Propagate: the program terminates with this error.
    Fatal(AppErr),
    /// Print `output`, then return to the menu.
    Continue { output: String },
}

/// How a `FlowOutcome` must relate to the lookup response it reacts to:
/// a profile renders as its profile text, a failure as its error text,
/// and both continue the loop.
pub open spec fn lookup_outcome_matches(
    r: Result<UserProfile, GitHubErr>,
    o: FlowOutcome,
) -> bool {
    match r {
        Ok(p) => o matches FlowOutcome::Continue { output } && output@ == render_profile_text(p),
        Err(e) => o matches FlowOutcome::Continue { output } && output@ == github_err_text(e),
    }
}

/// Decides what to print from the response to `user`, inside either flow.
/// The result is never fatal: lookup failures are expected (a typo'd
/// handle) and only rendered.
pub fn handle_lookup_response(r: Result<UserProfile, GitHubErr>) -> (o: FlowOutcome)
    ensures
        lookup_outcome_matches(r, o),
        o is Continue,
{
    match r {
        Ok(p) => FlowOutcome::Continue { output: p.render() },
        Err(e) => FlowOutcome::Continue { output: e.describe() },
    }
}

/// Decides what a failure of the prompt layer does: it is always fatal,
/// wrapped as the input-layer variant, never caught and retried.
pub fn handle_input_failure(cause: String) -> (o: FlowOutcome)
    ensures
        o matches FlowOutcome::Fatal(a) && a matches AppErr::InputErr { cause: c } && c@ == cause@,
{
    FlowOutcome::Fatal(AppErr::InputErr { cause })
}

/// Law: a query with zero matches ends its flow on the no-match message
/// and a return to the menu. The step is neither fatal nor a selection,
/// so no follow-up lookup can be issued from it.
pub proof fn zero_matches_return_to_menu(query: Seq<char>, res: SearchResult, s: SearchStep)
    requires
        res.total_count == 0,
        search_step_matches(query, Ok(res), s),
    ensures
        s matches SearchStep::NoMatch { message } && message@ == no_match_text(query),
        !(s is Fatal),
        !(s is Choose),
{
}

/// Law: a query with at least one match shows the server's own total count
/// and offers exactly the returned items for selection, labelled by login,
/// in server-supplied order.
pub proof fn matches_are_offered_in_order(query: Seq<char>, res: SearchResult, s: SearchStep)
    requires
        res.total_count > 0,
        search_step_matches(query, Ok(res), s),
    ensures
        s matches SearchStep::Choose { total_line, options, items } && total_line@
            == total_count_text(res.total_count as nat) && options@.len() == res.items@.len() && (
        forall|i: int| 0 <= i < res.items@.len() ==> options@[i]@ == res.items@[i].login@) && items
            == res.items,
{
}

/// Law: a failed user lookup — a 404 on an unknown handle as much as a
/// transport failure — is caught inside the flow and rendered as its error
/// text; it never propagates to terminate the process.
pub proof fn lookup_failure_is_caught(e: GitHubErr, o: FlowOutcome)
    requires
        lookup_outcome_matches(Err(e), o),
    ensures
        o matches FlowOutcome::Continue { output } && output@ == github_err_text(e),
        !(o is Fatal),
{
}

/// Law: a failed search propagates: the step is fatal and carries the
/// failure as the remote-API variant of the top-level error, so the
/// process terminates with it.
pub proof fn search_failure_is_fatal(query: Seq<char>, e: GitHubErr, s: SearchStep)
    requires
        search_step_matches(query, Err(e), s),
    ensures
        s matches SearchStep::Fatal(a) && a == AppErr::GitHubErr(e),
{
}

/// Law: lookup handling consults the response alone — the client keeps no
/// cache and no per-call state — so two lookups that return equal data
/// render equal text.
pub proof fn lookup_depends_on_response_alone(
    r1: Result<UserProfile, GitHubErr>,
    r2: Result<UserProfile, GitHubErr>,
    o1: FlowOutcome,
    o2: FlowOutcome,
)
    requires
        r1 == r2,
        lookup_outcome_matches(r1, o1),
        lookup_outcome_matches(r2, o2),
    ensures
        o1 matches FlowOutcome::Continue { output: out1 } && o2 matches FlowOutcome::Continue {
            output: out2,
        } && out1@ == out2@,
{
}

} // verus!
