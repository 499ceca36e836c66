//! The pull requests that the application shows, as it keeps them.
use vstd::prelude::*;
use crate::text::{lower_of, lowercase, same_text};

verus! {

/// Whether a pull request is open or closed.
#[derive(Debug, PartialEq, Eq, Structural)]
pub enum PullRequestState {
    Open,
    Closed,
}

/// A GitHub account.
pub struct User {
    pub id: i64,
    pub login: String,
    pub avatar_url: String,
    pub html_url: String,
}

/// A label on a pull request.
pub struct Label {
    pub id: i64,
    pub name: String,
    pub color: String,
    pub description: Option<String>,
}

/// A repository and its owner.
pub struct Repository {
    pub id: i64,
    pub name: String,
    pub full_name: String,
    pub html_url: String,
    pub owner: User,
}

/// The combined state of the checks on a commit.
#[derive(Debug, PartialEq, Eq, Structural)]
pub enum CheckState {
    Pending,
    Success,
    Failure,
    Error,
}

/// One check on a commit.
pub struct StatusCheck {
    pub state: CheckState,
    pub context: String,
    pub description: Option<String>,
    pub target_url: Option<String>,
}

/// The checks on a commit, with their combined state.
pub struct CheckStatus {
    pub state: CheckState,
    pub total_count: i32,
    pub statuses: Vec<StatusCheck>,
}

/// The state that a lowercased state name stands for: `closed` is closed,
/// and anything else counts as open.
pub open spec fn state_named(lowered: Seq<char>) -> PullRequestState {
    if lowered == "closed"@ {
        PullRequestState::Closed
    } else {
        PullRequestState::Open
    }
}

/// The check state that a lowercased state name stands for; an unknown name
/// counts as pending.
pub open spec fn check_state_named(lowered: Seq<char>) -> CheckState {
    if lowered == "success"@ {
        CheckState::Success
    } else if lowered == "failure"@ {
        CheckState::Failure
    } else if lowered == "error"@ {
        CheckState::Error
    } else {
        CheckState::Pending
    }
}

/// The state that a lowercased state name stands for.
pub fn state_from_lowered(lowered: &str) -> (r: PullRequestState)
    ensures
        r == state_named(lowered@),
{
    if same_text(lowered, "closed") {
        PullRequestState::Closed
    } else {
        PullRequestState::Open
    }
}

/// The check state that a lowercased state name stands for.
pub fn check_state_from_lowered(lowered: &str) -> (r: CheckState)
    ensures
        r == check_state_named(lowered@),
{
    if same_text(lowered, "success") {
        CheckState::Success
    } else if same_text(lowered, "failure") {
        CheckState::Failure
    } else if same_text(lowered, "error") {
        CheckState::Error
    } else {
        CheckState::Pending
    }
}

/// Reads a pull request's state as GitHub names it, in any case.
pub fn parse_state(state: &str) -> (r: PullRequestState)
    ensures
        r == state_named(lower_of(state@)),
{
    state_from_lowered(lowercase(state).as_str())
}

/// Reads a check state as GitHub names it, in any case.
pub fn parse_check_state(state: &str) -> (r: CheckState)
    ensures
        r == check_state_named(lower_of(state@)),
{
    check_state_from_lowered(lowercase(state).as_str())
}

/// The check status of a commit whose status could not be read: pending,
/// with no checks.
pub fn unknown_check_status() -> (r: CheckStatus)
    ensures
        r.state == CheckState::Pending,
        r.total_count == 0,
        r.statuses@.len() == 0,
{
    CheckStatus { state: CheckState::Pending, total_count: 0, statuses: Vec::new() }
}

/// One check on a commit as GitHub's status API gives it.
pub struct ApiStatus {
    pub state: String,
    pub context: String,
    pub description: Option<String>,
    pub target_url: Option<String>,
}

/// `c` is the check that GitHub's `a` describes: its state read in any
/// case, the rest as given.
pub open spec fn check_of(a: ApiStatus, c: StatusCheck) -> bool {
    &&& c.state == check_state_named(lower_of(a.state@))
    &&& c.context == a.context
    &&& c.description == a.description
    &&& c.target_url == a.target_url
}

impl StatusCheck {
    /// The check that GitHub's status describes.
    pub fn from_api(a: ApiStatus) -> (r: StatusCheck)
        ensures
            check_of(a, r),
    {
        let state = parse_check_state(a.state.as_str());
        StatusCheck {
            state,
            context: a.context,
            description: a.description,
            target_url: a.target_url,
        }
    }
}

impl CheckStatus {
    /// The checks on a commit from GitHub's combined status: its state read
    /// in any case, its count, and each check in order.
    pub fn from_api(state: &str, total_count: i32, statuses: Vec<ApiStatus>) -> (r: CheckStatus)
        ensures
            r.state == check_state_named(lower_of(state@)),
            r.total_count == total_count,
            r.statuses@.len() == statuses@.len(),
            forall|i: int|
                0 <= i < statuses@.len() ==> check_of(#[trigger] statuses@[i], r.statuses@[i]),
    {
        let ghost given = statuses@;
        let mut rest = statuses;
        let mut checks: Vec<StatusCheck> = Vec::new();
        let mut taken: usize = 0;
        let n = rest.len();
        assert(given.subrange(0, n as int) =~= given);
        while rest.len() > 0
            invariant
                n == given.len(),
                taken <= n,
                rest@ == given.subrange(taken as int, n as int),
                checks@.len() == taken,
                forall|i: int| 0 <= i < taken ==> check_of(#[trigger] given[i], checks@[i]),
            decreases rest@.len(),
        {
            let a = rest.remove(0);
            let ghost at = taken;
            checks.push(StatusCheck::from_api(a));
            taken = taken + 1;
            proof {
                assert(given[at as int] == a);
                assert(rest@ =~= given.subrange(taken as int, n as int));
            }
        }
        CheckStatus { state: parse_check_state(state), total_count, statuses: checks }
    }
}

} // verus!
