//! The idempotent appender: put a line into a file at most once.
//!
//! A file is modelled as `Option<String>`: `None` when it is absent,
//! `Some` when its full text is known. The algorithm never removes or
//! de-duplicates anything; it only ever appends, and only when the line
//! does not already occur — anywhere, even embedded inside a longer line —
//! as a substring of the text. A file created by the append holds exactly
//! the line and its newline; only an already existing text whose last
//! character is not a newline gets a separating newline first.
//!
//! `plan_append` makes the decision alone, so an unverified caller that
//! works on real files can read, ask for the plan, and perform exactly the
//! write the plan names. `append_line_if_not_present` runs the whole
//! algorithm on the in-memory model and is what the contracts and proofs
//! below speak about.

use vstd::prelude::*;
use crate::text::{
    contains_str, ends_with_newline, match_at, spec_contains, spec_ends_with_newline,
};

verus! {

/// The text of an absent-or-present file.
pub open spec fn content_view(file: Option<String>) -> Option<Seq<char>> {
    match file {
        Some(c) => Some(c@),
        None => None,
    }
}

/// The text behind a borrowed read result.
pub open spec fn read_view(content: Option<&String>) -> Option<Seq<char>> {
    match content {
        Some(c) => Some(c@),
        None => None,
    }
}

/// The line is already present: the file could be read and its text
/// contains the line as a substring.
pub open spec fn spec_already_present(content: Option<Seq<char>>, line: Seq<char>) -> bool {
    content matches Some(c) && spec_contains(c, line)
}

/// What gets appended to a file that already exists: the line plus a
/// terminating newline, preceded by a bare newline when the prior text
/// does not already end on one, so the line begins on a line of its own.
pub open spec fn spec_payload(ends_nl: bool, line: Seq<char>) -> Seq<char> {
    if ends_nl {
        line + seq!['\n']
    } else {
        seq!['\n'] + line + seq!['\n']
    }
}

/// The file after one append attempt, and whether it was changed.
///
/// - text present and containing the line: untouched, nothing added;
/// - text present without the line: the payload is appended;
/// - file absent and creation permitted: created holding exactly the line
///   and its newline, with no leading blank line;
/// - file absent and creation denied: left absent, nothing added.
pub open spec fn spec_append_result(file: Option<Seq<char>>, line: Seq<char>, create: bool) -> (
    Option<Seq<char>>,
    bool,
) {
    match file {
        Some(c) => if spec_contains(c, line) {
            (Some(c), false)
        } else {
            (Some(c + spec_payload(spec_ends_with_newline(c), line)), true)
        },
        None => if create {
            (Some(line + seq!['\n']), true)
        } else {
            (None, false)
        },
    }
}

/// The outcome of reading the file before an append attempt.
pub enum ReadOutcome<'a> {
    /// The file was read; this is its full text.
    Text(&'a String),
    /// The file does not exist.
    Absent,
    /// The file exists but its text could not be read.
    Unreadable,
}

impl<'a> ReadOutcome<'a> {
    /// The text, when the file could be read.
    pub open spec fn text(self) -> Option<Seq<char>> {
        match self {
            ReadOutcome::Text(c) => Some(c@),
            ReadOutcome::Absent => None,
            ReadOutcome::Unreadable => None,
        }
    }

    /// What an append must write for this read outcome.
    ///
    /// An absent file is about to be created by the open, so it gets the
    /// line and its newline exactly, with no leading blank line. An
    /// existing file gets the separating newline when its text does not
    /// end on one — or when the text could not be read at all, so a
    /// missing trailing newline cannot be ruled out.
    pub open spec fn planned_payload(self, line: Seq<char>) -> Seq<char> {
        match self {
            ReadOutcome::Text(c) => spec_payload(spec_ends_with_newline(c@), line),
            ReadOutcome::Absent => line + seq!['\n'],
            ReadOutcome::Unreadable => spec_payload(false, line),
        }
    }
}

/// What to do to a file once its current text (or absence) is known.
pub enum AppendPlan {
    /// The line already occurs in the text: write nothing.
    AlreadyPresent,
    /// Open for appending — creating the file only if `create` — and write
    /// `payload`; if the file is absent and `create` is false, the open
    /// fails and nothing is written, which is not an error.
    Append { create: bool, payload: String },
}

/// Decide what a single append attempt must do, from the outcome of
/// reading the file.
pub fn plan_append(read: ReadOutcome, line: &str, create: bool) -> (p: AppendPlan)
    ensures
        match p {
            AppendPlan::AlreadyPresent => spec_already_present(read.text(), line@),
            AppendPlan::Append { create: c, payload } => {
                &&& c == create
                &&& !spec_already_present(read.text(), line@)
                &&& payload@ == read.planned_payload(line@)
            },
        },
{
    proof {
        reveal_strlit("\n");
        assert("\n"@ =~= seq!['\n']);
    }
    let separator_first = match read {
        ReadOutcome::Text(c) => {
            if contains_str(c.as_str(), line) {
                return AppendPlan::AlreadyPresent;
            }
            !ends_with_newline(c.as_str())
        },
        ReadOutcome::Absent => false,
        ReadOutcome::Unreadable => true,
    };
    let mut payload = String::new();
    if separator_first {
        payload.append("\n");
    }
    payload.append(line);
    payload.append("\n");
    assert(payload@ =~= read.planned_payload(line@));
    AppendPlan::Append { create, payload }
}

/// Decide whether a failure to open the file for appending is quiet.
///
/// Only one failure is expected and swallowed: the file was not found
/// while creation was not permitted — the user simply does not use that
/// shell. Every other failure, and any failure at all when creation was
/// permitted, is a hard error for the caller to raise.
pub fn open_failure_is_soft(not_found: bool, create: bool) -> (soft: bool)
    ensures
        soft == (not_found && !create),
{
    not_found && !create
}

/// One full append attempt on the in-memory file model: returns the new
/// file state and whether anything was added.
pub fn append_line_if_not_present(file: Option<String>, line: &str, create: bool) -> (r: (
    Option<String>,
    bool,
))
    ensures
        (content_view(r.0), r.1) == spec_append_result(content_view(file), line@, create),
{
    let plan = match &file {
        Some(text) => plan_append(ReadOutcome::Text(text), line, create),
        None => plan_append(ReadOutcome::Absent, line, create),
    };
    match plan {
        AppendPlan::AlreadyPresent => (file, false),
        AppendPlan::Append { create: may_create, payload } => match file {
            Some(text) => {
                let appended = text.concat(payload.as_str());
                (Some(appended), true)
            },
            None => {
                if may_create {
                    (Some(payload), true)
                } else {
                    (None, false)
                }
            },
        },
    }
}

/// Containment takes precedence over everything else: text that already
/// holds the line as a substring — even embedded inside a longer line —
/// is left untouched, whatever the creation policy.
pub proof fn lemma_containment_precedence(c: Seq<char>, line: Seq<char>, create: bool)
    requires
        spec_contains(c, line),
    ensures
        spec_append_result(Some(c), line, create) == (Some(c), false),
{
}

/// Denied creation is quiet: when the file is absent and creation is not
/// permitted, it stays absent and nothing counts as added.
pub proof fn lemma_creation_denied(line: Seq<char>)
    ensures
        spec_append_result(None, line, false) == (None::<Seq<char>>, false),
{
}

/// A created file holds exactly the line and its terminating newline:
/// no leading blank line.
pub proof fn lemma_created_file(line: Seq<char>)
    ensures
        spec_append_result(None, line, true) == (Some(line + seq!['\n']), true),
{
}

/// After an append that added the payload, the line occurs in the text.
pub proof fn lemma_payload_contains(c: Seq<char>, line: Seq<char>, ends_nl: bool)
    ensures
        spec_contains(c + spec_payload(ends_nl, line), line),
{
    let whole = c + spec_payload(ends_nl, line);
    if ends_nl {
        let i = c.len() as int;
        assert(whole.subrange(i, i + line.len()) =~= line);
        assert(match_at(whole, line, i));
    } else {
        let i: int = c.len() as int + 1;
        assert(whole.subrange(i, i + line.len()) =~= line);
        assert(match_at(whole, line, i));
    }
}

/// Whenever an append changes a file, the new text ends with a newline
/// and the inserted line begins on a line of its own: it occurs at a
/// position that is either the start of the text or right after a
/// newline, whatever the prior content was.
pub proof fn lemma_line_on_own_line(file: Option<Seq<char>>, line: Seq<char>, create: bool)
    requires
        spec_append_result(file, line, create).1,
    ensures
        spec_append_result(file, line, create).0 matches Some(new) ==> {
            &&& new.len() > 0
            &&& new[new.len() - 1] == '\n'
            &&& exists|i: int|
                #[trigger] match_at(new, line, i) && (i == 0 || new[i - 1] == '\n')
        },
{
    match file {
        Some(c) => {
            let new = c + spec_payload(spec_ends_with_newline(c), line);
            if spec_ends_with_newline(c) {
                let i = c.len() as int;
                assert(new.subrange(i, i + line.len()) =~= line);
                assert(match_at(new, line, i) && (i == 0 || new[i - 1] == '\n'));
            } else {
                let i: int = c.len() as int + 1;
                assert(new.subrange(i, i + line.len()) =~= line);
                assert(match_at(new, line, i) && (i == 0 || new[i - 1] == '\n'));
            }
        },
        None => {
            let new = line + seq!['\n'];
            assert(new.subrange(0, line.len() as int) =~= line);
            assert(match_at(new, line, 0));
        },
    }
}

/// The appender is idempotent: once an attempt has run, running it again
/// with the same line and policy changes nothing and reports `false`.
pub proof fn lemma_append_idempotent(file: Option<Seq<char>>, line: Seq<char>, create: bool)
    ensures
        ({
            let once = spec_append_result(file, line, create);
            spec_append_result(once.0, line, create) == (once.0, false)
        }),
{
    match file {
        Some(c) => {
            if !spec_contains(c, line) {
                lemma_payload_contains(c, line, spec_ends_with_newline(c));
            }
        },
        None => {
            if create {
                let created = line + seq!['\n'];
                assert(created.subrange(0, line.len() as int) =~= line);
                assert(match_at(created, line, 0));
            }
        },
    }
}

} // verus!
