//! The result of one command execution and its textual rendering.
//!
//! Every failure is converted to a descriptive string and returned as the
//! call's result, so the interactive loop never crashes because a sandboxed
//! command failed; a nonzero exit is a normal outcome carrying the exit code,
//! not a failure of the subsystem.

use vstd::prelude::*;

use crate::text::int_text;

verus! {

/// What `String::from_utf8_lossy` makes of a byte sequence.  The decoding is
/// a function of the bytes alone; it is named rather than written out.
pub uninterp spec fn decoded_text(b: Seq<u8>) -> Seq<char>;

/// Relies on `String::from_utf8_lossy`: decodes bytes as UTF-8, replacing
/// invalid sequences with the replacement character.  The result is empty
/// exactly for empty input, and ASCII bytes decode to themselves.
#[verifier::external_body]
pub(crate) fn utf8_lossy(b: &[u8]) -> (r: String)
    ensures
        r@ == decoded_text(b@),
        (r@.len() == 0) == (b@.len() == 0),
        (forall|i: int| 0 <= i < b@.len() ==> b@[i] < 128) ==> r@ == b@.map_values(
            |x: u8| x as char,
        ),
{
    String::from_utf8_lossy(b).into_owned()
}

/// The result of one execution: captured output and a completion
/// classification.  Constructed after the child exits (or fails to start),
/// consumed immediately by the caller.
pub enum CommandOutcome {
    /// The command string was empty or whitespace-only; nothing was spawned.
    NoCommand,
    /// The isolation context never became ready; the command was not run.
    NotReady { command: String, detail: String },
    /// The child process could not be spawned.
    SpawnFailed { command: String, detail: String },
    /// The OS failed while awaiting the child's exit.
    WaitFailed { command: String, detail: String },
    /// The command ran to completion with the captured stream contents and,
    /// where the OS reports one, its exit code.
    Finished { stdout: Vec<u8>, stderr: Vec<u8>, code: Option<i32> },
}

/// The trailer reporting a nonzero exit code.
pub open spec fn exit_code_note(c: i32) -> Seq<char> {
    "Command completed with exit code: "@ + int_text(c as int)
}

/// The text of a finished outcome: the captured standard output, then the
/// captured standard error; an explicit marker when both are empty, so a
/// caller can tell "ran silently" from "did not run"; and the exit code when
/// it was nonzero.
pub open spec fn finished_text(out: Seq<u8>, err: Seq<u8>, code: Option<i32>) -> Seq<char> {
    let text = decoded_text(out) + decoded_text(err);
    let failed = code matches Some(c) && c != 0;
    if failed {
        let c = code->0;
        if text.len() == 0 {
            exit_code_note(c)
        } else {
            text + "\n"@ + exit_code_note(c)
        }
    } else {
        if text.len() == 0 {
            "Command executed (no output)"@
        } else {
            text
        }
    }
}

/// The one string a caller sees for each outcome.
pub open spec fn outcome_text(o: CommandOutcome) -> Seq<char> {
    match o {
        CommandOutcome::NoCommand => "Error: No command provided"@,
        CommandOutcome::NotReady { command, detail } => "Error executing '"@ + command@ + "': "@
            + detail@,
        CommandOutcome::SpawnFailed { command, detail } => "Error spawning command '"@ + command@
            + "': "@ + detail@,
        CommandOutcome::WaitFailed { command, detail } => "Error executing '"@ + command@ + "': "@
            + detail@,
        CommandOutcome::Finished { stdout, stderr, code } => finished_text(stdout@, stderr@, code),
    }
}

/// Renders an outcome as the text returned to the caller, human or
/// orchestrator.
pub fn render_outcome(o: &CommandOutcome) -> (r: String)
    ensures
        r@ == outcome_text(*o),
{
    match o {
        CommandOutcome::NoCommand => String::from_str("Error: No command provided"),
        CommandOutcome::NotReady { command, detail } => {
            let mut r = String::from_str("Error executing '");
            r.append(command.as_str());
            r.append("': ");
            r.append(detail.as_str());
            r
        },
        CommandOutcome::SpawnFailed { command, detail } => {
            let mut r = String::from_str("Error spawning command '");
            r.append(command.as_str());
            r.append("': ");
            r.append(detail.as_str());
            r
        },
        CommandOutcome::WaitFailed { command, detail } => {
            let mut r = String::from_str("Error executing '");
            r.append(command.as_str());
            r.append("': ");
            r.append(detail.as_str());
            r
        },
        CommandOutcome::Finished { stdout, stderr, code } => {
            let out_text = utf8_lossy(stdout.as_slice());
            let err_text = utf8_lossy(stderr.as_slice());
            let silent = stdout.len() == 0 && stderr.len() == 0;
            let failed_code: Option<i32> = match code {
                Some(c) => if *c != 0 {
                    Some(*c)
                } else {
                    None
                },
                None => None,
            };
            match failed_code {
                Some(c) => {
                    if silent {
                        let mut r = String::from_str("Command completed with exit code: ");
                        r.append(crate::text::i64_text(c as i64).as_str());
                        r
                    } else {
                        let mut r = out_text;
                        r.append(err_text.as_str());
                        r.append("\n");
                        r.append("Command completed with exit code: ");
                        r.append(crate::text::i64_text(c as i64).as_str());
                        r
                    }
                },
                None => {
                    if silent {
                        String::from_str("Command executed (no output)")
                    } else {
                        let mut r = out_text;
                        r.append(err_text.as_str());
                        r
                    }
                },
            }
        },
    }
}

/// Totality of the textual result: every outcome, spawn and wait failures
/// included, renders as non-empty text.
pub proof fn lemma_outcome_text_nonempty(o: CommandOutcome)
    ensures
        outcome_text(o).len() > 0,
{
    reveal_strlit("Error: No command provided");
    reveal_strlit("Error executing '");
    reveal_strlit("Error spawning command '");
    reveal_strlit("Command executed (no output)");
    reveal_strlit("Command completed with exit code: ");
}

/// Order of the captured streams: the text of a finished outcome starts with
/// the standard-output text followed by the standard-error text, whatever
/// the exit code.
pub proof fn lemma_capture_order(out: Seq<u8>, err: Seq<u8>, code: Option<i32>)
    ensures
        finished_text(out, err, code).len() >= decoded_text(out).len() + decoded_text(err).len(),
        finished_text(out, err, code).subrange(
            0,
            decoded_text(out).len() + decoded_text(err).len() as int,
        ) == decoded_text(out) + decoded_text(err),
{
    let text = decoded_text(out) + decoded_text(err);
    if text.len() == 0 {
        assert(finished_text(out, err, code).subrange(0, 0) =~= text);
    } else {
        assert(finished_text(out, err, code).subrange(0, text.len() as int) =~= text);
    }
}

} // verus!
