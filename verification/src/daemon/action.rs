//! Button actions: what is logged of them, and which rejections are kept to
//! learn from.

use vstd::prelude::*;
use vstd::string::*;

use crate::daemon::files::{actions_log_path, beside, learn_json_path};
use crate::json::{
    all_exact, fields_view, is_exact, is_text_object, json_array, json_object, json_pretty,
    parse_array, pretty_array, stands_in, text_object, whole_numbers_only,
};
use crate::text::{decimal, decimal_text, same_text, trim_end, trimmed_end};

verus! {

/// A press of the button, as a client tells it.
#[derive(Debug, PartialEq, Eq)]
pub struct ButtonAction {
    pub action: String,
    pub detail: String,
}

/// The actions that mean something to the daemon.
#[derive(Debug, Clone, Copy, PartialEq, Eq, Structural)]
pub enum ActionKind {
    Approve,
    RejectLearn,
    SecurityScan,
    Explain,
    Unknown,
}

/// The word that stands for an action.
pub open spec fn action_word(kind: ActionKind) -> Seq<char>
    recommends
        kind != ActionKind::Unknown,
{
    match kind {
        ActionKind::Approve => "approve"@,
        ActionKind::RejectLearn => "reject_learn"@,
        ActionKind::SecurityScan => "security_scan"@,
        _ => "explain"@,
    }
}

/// The action that a word stands for.
pub open spec fn kind_of(word: Seq<char>) -> ActionKind {
    if word == action_word(ActionKind::Approve) {
        ActionKind::Approve
    } else if word == action_word(ActionKind::RejectLearn) {
        ActionKind::RejectLearn
    } else if word == action_word(ActionKind::SecurityScan) {
        ActionKind::SecurityScan
    } else if word == action_word(ActionKind::Explain) {
        ActionKind::Explain
    } else {
        ActionKind::Unknown
    }
}

/// The line that an action leaves in the log.
pub open spec fn log_line_of(
    timestamp: Seq<char>,
    action: Seq<char>,
    detail: Seq<char>,
) -> Seq<char> {
    "["@ + timestamp + "] action="@ + action + " detail="@ + detail + "\n"@
}

/// The names and texts that are kept of a rejection.
pub open spec fn rejection_fields(
    timestamp: Seq<char>,
    detail: Seq<char>,
) -> Seq<(Seq<char>, Seq<char>)> {
    seq![("timestamp"@, timestamp), ("action"@, "reject_learn"@), ("detail"@, detail)]
}

/// The rejections in the contents of the file that collects them: none if there
/// is no such file or it holds no JSON array.
pub open spec fn rejections_in(contents: Option<Seq<char>>) -> Seq<serde_json::Value> {
    match contents {
        Some(text) => match json_array(text) {
            Some(entries) => entries,
            None => Seq::empty(),
        },
        None => Seq::empty(),
    }
}

/// The text of an optional string.
pub open spec fn optional_text(text: Option<&str>) -> Option<Seq<char>> {
    match text {
        Some(t) => Some(t@),
        None => None,
    }
}

/// Reads the clock with [`std::time::SystemTime::now`] and gives the moment as
/// whole seconds since the Unix epoch; `None` if it lies before that. Nothing is
/// said of the number, since it is another at each call.
#[verifier::external_body]
fn unix_seconds() -> (secs: Option<u64>) {
    let now = std::time::SystemTime::now();
    now.duration_since(std::time::UNIX_EPOCH).ok().map(|gone| gone.as_secs())
}

/// The seconds since the epoch as text; zero for a clock that stands before it.
pub fn timestamp_of(secs: Option<u64>) -> (timestamp: String)
    ensures
        timestamp@ == decimal(
            match secs {
                Some(s) => s as nat,
                None => 0,
            },
        ),
{
    match secs {
        Some(s) => decimal_text(s),
        None => decimal_text(0),
    }
}

/// The current time as seconds since the epoch.
pub fn timestamp_now() -> (timestamp: String)
    ensures
        exists|secs: u64| timestamp@ == #[trigger] decimal(secs as nat),
{
    let secs: Option<u64> = unix_seconds();
    let timestamp = timestamp_of(secs);
    proof {
        let n: u64 = match secs {
            Some(s) => s,
            None => 0,
        };
        assert(timestamp@ == decimal(n as nat));
    }
    timestamp
}

/// The action that a word stands for.
pub fn action_kind(word: &str) -> (kind: ActionKind)
    ensures
        kind == kind_of(word@),
{
    if same_text(word, "approve") {
        ActionKind::Approve
    } else if same_text(word, "reject_learn") {
        ActionKind::RejectLearn
    } else if same_text(word, "security_scan") {
        ActionKind::SecurityScan
    } else if same_text(word, "explain") {
        ActionKind::Explain
    } else {
        ActionKind::Unknown
    }
}

/// What is to be done about an action.
pub struct ActionPlan {
    /// What the action means.
    pub kind: ActionKind,
    /// The log to append to.
    pub log_path: Vec<u8>,
    /// The line to append to it.
    pub log_line: String,
    /// The line to show on the console.
    pub console_line: String,
    /// The file to add the rejection to, if it is one.
    pub learn_path: Option<Vec<u8>>,
}

/// Decides what is to be done about an action that came in at `timestamp`: every
/// action is logged and shown, and a rejection to learn from is kept as well.
pub fn handle_action(
    action: &ButtonAction,
    state_file: &[u8],
    timestamp: &str,
) -> (plan: ActionPlan)
    ensures
        plan.kind == kind_of(action.action@),
        plan.log_path@ == beside(state_file@, "actions.log"@),
        plan.log_line@ == log_line_of(timestamp@, action.action@, action.detail@),
        plan.kind == ActionKind::RejectLearn <==> action.action@ == "reject_learn"@,
        plan.console_line@ == trimmed_end(plan.log_line@),
        plan.learn_path is Some <==> plan.kind == ActionKind::RejectLearn,
        plan.learn_path matches Some(path) ==> path@ == beside(state_file@, "learn.json"@),
{
    let kind = action_kind(action.action.as_str());
    proof {
        law_actions_are_these_words(action.action@);
    }
    let mut log_line = "[".to_owned();
    log_line.append(timestamp);
    log_line.append("] action=");
    log_line.append(action.action.as_str());
    log_line.append(" detail=");
    log_line.append(action.detail.as_str());
    log_line.append("\n");
    let console_line = trim_end(log_line.as_str()).to_owned();
    let learn_path: Option<Vec<u8>> = match kind {
        ActionKind::RejectLearn => Some(learn_json_path(state_file)),
        _ => None,
    };
    ActionPlan { kind, log_path: actions_log_path(state_file), log_line, console_line, learn_path }
}

/// The JSON object that is kept of a rejection.
pub fn rejection(timestamp: &str, detail: &str) -> (entry: serde_json::Value)
    ensures
        entry == json_object(rejection_fields(timestamp@, detail@)),
{
    let mut fields: Vec<(String, String)> = Vec::new();
    fields.push(("timestamp".to_owned(), timestamp.to_owned()));
    fields.push(("action".to_owned(), "reject_learn".to_owned()));
    fields.push(("detail".to_owned(), detail.to_owned()));
    assert(fields_view(fields@) == rejection_fields(timestamp@, detail@));
    text_object(fields)
}

/// Adds a rejection to those that were read from the file, where that worked.
pub fn add_rejection(
    known: Option<Vec<serde_json::Value>>,
    entry: serde_json::Value,
) -> (entries: Vec<serde_json::Value>)
    ensures
        entries@ == (match known {
            Some(before) => before@,
            None => Seq::empty(),
        }).push(entry),
{
    let mut entries: Vec<serde_json::Value> = match known {
        Some(before) => before,
        None => Vec::new(),
    };
    entries.push(entry);
    entries
}

/// The new contents of the file that collects rejections, with one more added to
/// its old contents. Where these can be written and read again without loss, reading
/// the new contents gives the old rejections and the new one after them, and they
/// too can be written and read again; [`law_contents_are_kept`] says of which
/// contents that holds.
pub fn learn_file(contents: Option<&str>, timestamp: &str, detail: &str) -> (json: String)
    ensures
        ({
            let before = rejections_in(optional_text(contents));
            let after = before.push(json_object(rejection_fields(timestamp@, detail@)));
            &&& json@ == json_pretty(after)
            &&& all_exact(before) ==> all_exact(after) && rejections_in(Some(json@)) == after
        }),
{
    let known: Option<Vec<serde_json::Value>> = match contents {
        Some(text) => parse_array(text),
        None => None,
    };
    let entry = rejection(timestamp, detail);
    let entries = add_rejection(known, entry);
    proof {
        let before = rejections_in(optional_text(contents));
        assert(is_text_object(entry));
        if all_exact(before) {
            assert forall|i: int| 0 <= i < entries@.len() implies is_exact(
                #[trigger] entries@[i],
            ) by {
                if i < before.len() {
                    assert(entries@[i] == before[i]);
                }
            }
        }
    }
    pretty_array(&entries)
}

/// A missing file, one that holds no JSON array, and one whose numbers are all whole
/// and fit `u64` or `i64` lose nothing when a rejection is added.
pub proof fn law_contents_are_kept(contents: Option<Seq<char>>)
    requires
        contents matches Some(text) ==> json_array(text) is None || whole_numbers_only(text, false),
    ensures
        all_exact(rejections_in(contents)),
{
    if let Some(text) = contents {
        assert forall|i: int| 0 <= i < rejections_in(contents).len() implies is_exact(
            #[trigger] rejections_in(contents)[i],
        ) by {
            assert(stands_in(rejections_in(contents)[i], text, i));
        }
    }
}

/// Every word of the protocol stands for an action of its own.
pub proof fn law_words_name_actions(kind: ActionKind)
    requires
        kind != ActionKind::Unknown,
    ensures
        kind_of(action_word(kind)) == kind,
{
    reveal_strlit("approve");
    reveal_strlit("reject_learn");
    reveal_strlit("security_scan");
    reveal_strlit("explain");
    assert("approve"@[0] == 'a');
    assert("reject_learn"@[0] == 'r');
    assert("security_scan"@[0] == 's');
    assert("explain"@[0] == 'e');
}

/// A word is an action exactly if it is one of the four of the protocol, letter for
/// letter.
pub proof fn law_actions_are_these_words(word: Seq<char>)
    ensures
        kind_of(word) == ActionKind::Approve <==> word == "approve"@,
        kind_of(word) == ActionKind::RejectLearn <==> word == "reject_learn"@,
        kind_of(word) == ActionKind::SecurityScan <==> word == "security_scan"@,
        kind_of(word) == ActionKind::Explain <==> word == "explain"@,
{
    law_words_name_actions(ActionKind::Approve);
    law_words_name_actions(ActionKind::RejectLearn);
    law_words_name_actions(ActionKind::SecurityScan);
    law_words_name_actions(ActionKind::Explain);
}

/// The log line holds the time, the word and the detail as they came, whatever they are.
pub proof fn law_log_lines_hold_what_came(
    timestamp: Seq<char>,
    action: Seq<char>,
    detail: Seq<char>,
)
    ensures
        log_line_of(timestamp, action, detail) == "["@ + timestamp + "] action="@ + action
            + " detail="@ + detail + "\n"@,
        log_line_of(timestamp, action, detail).len() == 19 + timestamp.len() + action.len()
            + detail.len(),
{
    reveal_strlit("[");
    reveal_strlit("] action=");
    reveal_strlit(" detail=");
    reveal_strlit("\n");
}

/// A rejection is kept with its time and its detail, whatever they are, under the word
/// of the protocol.
pub proof fn law_rejections_hold_what_came(timestamp: Seq<char>, detail: Seq<char>)
    ensures
        rejection_fields(timestamp, detail).len() == 3,
        rejection_fields(timestamp, detail)[0] == ("timestamp"@, timestamp),
        rejection_fields(timestamp, detail)[1] == ("action"@, "reject_learn"@),
        rejection_fields(timestamp, detail)[2] == ("detail"@, detail),
{
}

/// All entries of a JSON array are taken over, and none from anything else.
pub proof fn law_all_entries_are_taken_over(contents: Option<&str>)
    ensures
        contents matches Some(text) ==> {
            &&& optional_text(contents) == Some(text@)
            &&& json_array(text@) matches Some(entries) ==> rejections_in(Some(text@)) == entries
            &&& json_array(text@) is None ==> rejections_in(Some(text@)).len() == 0
        },
        contents is None ==> optional_text(contents) is None,
        rejections_in(None).len() == 0,
{
}

} // verus!
