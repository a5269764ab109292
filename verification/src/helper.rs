//! The privileged helper's protocol: its requests, its responses and the
//! decision it takes for each request.

use vstd::prelude::*;

use crate::cpu::{cpu_online_path, spec_cpu_online_path, spec_enable_state};
use crate::text::push_str;

verus! {

broadcast use vstd::string::group_string_axioms;

/// A request to the privileged helper.
#[derive(Clone, Debug, PartialEq, Eq)]
pub enum HelperRequest {
    /// Bring processor `cpu_num` online (`enabled`) or take it offline.
    SetCPUEnableState { cpu_num: u32, enabled: bool },
    /// Ask whether the helper is alive.
    Ping,
}

/// The helper's answer to a request.
#[derive(Clone, Debug, PartialEq, Eq)]
pub enum HelperResponse {
    /// The request was carried out (`Ok` on the wire).
    Success,
    /// The request failed, with the reason.
    Error(String),
    /// The answer to `Ping`.
    Pong,
}

/// What the helper does for a request.
#[derive(Clone, Debug, PartialEq, Eq)]
pub enum HelperAction {
    /// Write `contents` to the file at `path`, then answer with the outcome.
    WriteFile { path: String, contents: String },
    /// Answer at once.
    Respond(HelperResponse),
}

/// The text written to a processor's `online` file.
pub open spec fn spec_online_text(enabled: bool) -> Seq<char> {
    if enabled {
        "1"@
    } else {
        "0"@
    }
}

/// The file the helper writes for `request`, as (path, text): a state change
/// writes `"1"` or `"0"` to the processor's `online` file; a ping writes none.
pub open spec fn spec_helper_write(request: HelperRequest) -> Option<(Seq<char>, Seq<char>)> {
    match request {
        HelperRequest::SetCPUEnableState { cpu_num, enabled } => Some(
            (spec_cpu_online_path(cpu_num as nat), spec_online_text(enabled)),
        ),
        HelperRequest::Ping => None,
    }
}

/// The answer after a write with outcome `outcome`.
pub open spec fn spec_write_response(outcome: Result<(), String>) -> HelperResponse {
    match outcome {
        Ok(()) => HelperResponse::Success,
        Err(reason) => HelperResponse::Error(reason),
    }
}

/// The answer to `request`, `outcome` being how its write went (a ping writes
/// nothing and is answered with a pong).
pub open spec fn spec_helper_response(request: HelperRequest, outcome: Result<(), String>) -> HelperResponse {
    match request {
        HelperRequest::SetCPUEnableState { .. } => spec_write_response(outcome),
        HelperRequest::Ping => HelperResponse::Pong,
    }
}

/// The action for `request`: a state change writes `"1"` or `"0"` to the
/// processor's `online` file; a ping is answered with a pong.
pub fn helper_action(request: &HelperRequest) -> (res: HelperAction)
    ensures
        match request {
            HelperRequest::SetCPUEnableState { cpu_num, enabled } => res matches HelperAction::WriteFile {
                path,
                contents,
            } && path@ == spec_cpu_online_path(*cpu_num as nat) && contents@ == spec_online_text(
                *enabled,
            ),
            HelperRequest::Ping => res matches HelperAction::Respond(HelperResponse::Pong),
        },
        spec_helper_write(*request) == match res {
            HelperAction::WriteFile { path, contents } => Some((path@, contents@)),
            HelperAction::Respond(_) => None::<(Seq<char>, Seq<char>)>,
        },
{
    match request {
        HelperRequest::SetCPUEnableState { cpu_num, enabled } => {
            let path = cpu_online_path(*cpu_num);
            let mut contents = String::new();
            if *enabled {
                push_str(&mut contents, "1");
            } else {
                push_str(&mut contents, "0");
            }
            HelperAction::WriteFile { path, contents }
        },
        HelperRequest::Ping => HelperAction::Respond(HelperResponse::Pong),
    }
}

/// The answer after a write: `Success` when it succeeded, otherwise `Error` with
/// the reason it failed.
pub fn helper_write_response(result: Result<(), String>) -> (res: HelperResponse)
    ensures
        match result {
            Ok(()) => res matches HelperResponse::Success,
            Err(reason) => res matches HelperResponse::Error(r) && r@ == reason@,
        },
        res == spec_write_response(result),
{
    match result {
        Ok(()) => HelperResponse::Success,
        Err(reason) => HelperResponse::Error(reason),
    }
}


/// The text the helper writes to a processor's `online` file reads back as
/// the state it was asked to set.
pub proof fn law_written_state_reads_back(enabled: bool)
    ensures
        spec_enable_state(Some(spec_online_text(enabled))) == enabled,
{
    reveal_strlit("1");
    reveal_strlit("0");
}


// ---------------------------------------------------------------------------
// Serving a run of lines
// ---------------------------------------------------------------------------
//
// The helper reads one line at a time; a line that cannot be read or parsed
// is `None`. `outcomes[i]` is how the write for line `i` went (it matters only
// for a line that asks for a state change).

/// The requests among `lines`, in order.
pub open spec fn parsed_requests(lines: Seq<Option<HelperRequest>>) -> Seq<HelperRequest>
    decreases lines.len(),
{
    if lines.len() == 0 {
        Seq::empty()
    } else {
        let before = parsed_requests(lines.drop_last());
        match lines.last() {
            Some(r) => before.push(r),
            None => before,
        }
    }
}

/// The write outcomes of the lines that hold a request, in order.
pub open spec fn parsed_outcomes(
    lines: Seq<Option<HelperRequest>>,
    outcomes: Seq<Result<(), String>>,
) -> Seq<Result<(), String>>
    decreases lines.len(),
{
    if lines.len() == 0 {
        Seq::empty()
    } else {
        let before = parsed_outcomes(lines.drop_last(), outcomes);
        match lines.last() {
            Some(_) => before.push(outcomes[lines.len() - 1]),
            None => before,
        }
    }
}

/// The files the helper writes while serving `lines`, in order.
pub open spec fn helper_writes(lines: Seq<Option<HelperRequest>>) -> Seq<(Seq<char>, Seq<char>)>
    decreases lines.len(),
{
    if lines.len() == 0 {
        Seq::empty()
    } else {
        let before = helper_writes(lines.drop_last());
        match lines.last() {
            Some(r) => match spec_helper_write(r) {
                Some(w) => before.push(w),
                None => before,
            },
            None => before,
        }
    }
}

/// The responses the helper sends while serving `lines`, in order.
pub open spec fn helper_responses(
    lines: Seq<Option<HelperRequest>>,
    outcomes: Seq<Result<(), String>>,
) -> Seq<HelperResponse>
    decreases lines.len(),
{
    if lines.len() == 0 {
        Seq::empty()
    } else {
        let before = helper_responses(lines.drop_last(), outcomes);
        match lines.last() {
            Some(r) => before.push(spec_helper_response(r, outcomes[lines.len() - 1])),
            None => before,
        }
    }
}

/// The processor states the lines ask for, as (processor, enabled), in order.
pub open spec fn state_changes(lines: Seq<Option<HelperRequest>>) -> Seq<(u32, bool)>
    decreases lines.len(),
{
    if lines.len() == 0 {
        Seq::empty()
    } else {
        let before = state_changes(lines.drop_last());
        match lines.last() {
            Some(HelperRequest::SetCPUEnableState { cpu_num, enabled }) => before.push(
                (cpu_num, enabled),
            ),
            _ => before,
        }
    }
}

proof fn lemma_parsed_outcomes_len(lines: Seq<Option<HelperRequest>>, outcomes: Seq<Result<(), String>>)
    ensures
        parsed_outcomes(lines, outcomes).len() == parsed_requests(lines).len(),
    decreases lines.len(),
{
    if lines.len() > 0 {
        lemma_parsed_outcomes_len(lines.drop_last(), outcomes);
    }
}

/// Serving a run of lines sends exactly one response per line that holds a
/// request, in the order of the requests: a pong for a ping, and for a state
/// change `Success` or `Error` as its write went. A line that cannot be read
/// or parsed sends nothing.
pub proof fn law_helper_one_response_per_request(
    lines: Seq<Option<HelperRequest>>,
    outcomes: Seq<Result<(), String>>,
)
    ensures
        helper_responses(lines, outcomes).len() == parsed_requests(lines).len(),
        forall|j: int|
            0 <= j < parsed_requests(lines).len() ==> #[trigger] helper_responses(lines, outcomes)[j]
                == spec_helper_response(parsed_requests(lines)[j], parsed_outcomes(lines, outcomes)[j]),
    decreases lines.len(),
{
    lemma_parsed_outcomes_len(lines, outcomes);
    if lines.len() > 0 {
        law_helper_one_response_per_request(lines.drop_last(), outcomes);
        lemma_parsed_outcomes_len(lines.drop_last(), outcomes);
    }
}

/// Serving a run of lines writes a file only for the lines that ask for a
/// state change, one write each and in order: `"1"` or `"0"` to the
/// processor's `online` file. Pings and lines that cannot be read or parsed
/// write nothing.
pub proof fn law_helper_writes_only_state_changes(lines: Seq<Option<HelperRequest>>)
    ensures
        helper_writes(lines) == state_changes(lines).map_values(
            |c: (u32, bool)| (spec_cpu_online_path(c.0 as nat), spec_online_text(c.1)),
        ),
    decreases lines.len(),
{
    if lines.len() > 0 {
        law_helper_writes_only_state_changes(lines.drop_last());
        let f = |c: (u32, bool)| (spec_cpu_online_path(c.0 as nat), spec_online_text(c.1));
        let before = state_changes(lines.drop_last());
        match lines.last() {
            Some(HelperRequest::SetCPUEnableState { cpu_num, enabled }) => {
                assert(before.push((cpu_num, enabled)).map_values(f) =~= before.map_values(f).push(
                    f((cpu_num, enabled)),
                ));
            },
            _ => {},
        }
    }
}

} // verus!
