//! The wire schema of the running status.

use vstd::prelude::*;
use crate::jobs::RunningStatus;
use crate::json::{Json, JsonView};
use crate::wire::{str_eq, DecodeError, Wire};

verus! {

/// The status that a word on the wire stands for. The scheduler writes a
/// status in lower case; it is read in lower case and capitalized. The empty
/// word, and any word that names no status, stands for
/// [`RunningStatus::Missing`].
pub open spec fn status_of(word: Seq<char>) -> RunningStatus {
    if word == "Queued"@ || word == "queued"@ {
        RunningStatus::Queued
    } else if word == "Complete"@ || word == "complete"@ {
        RunningStatus::Complete
    } else if word == "Failed"@ || word == "failed"@ {
        RunningStatus::Failed
    } else if word == "Running"@ || word == "running"@ {
        RunningStatus::Running
    } else if word == "Starting"@ || word == "starting"@ {
        RunningStatus::Starting
    } else if word == "Lost"@ || word == "lost"@ {
        RunningStatus::Lost
    } else if word == "Pending"@ || word == "pending"@ {
        RunningStatus::Pending
    } else if word == "Dead"@ || word == "dead"@ {
        RunningStatus::Dead
    } else {
        RunningStatus::Missing
    }
}

/// The word that a status is written as: the word that the scheduler writes
/// for it, its name in lower case, and the empty word for
/// [`RunningStatus::Missing`].
pub open spec fn word_of(status: RunningStatus) -> Seq<char> {
    match status {
        RunningStatus::Queued => "queued"@,
        RunningStatus::Complete => "complete"@,
        RunningStatus::Failed => "failed"@,
        RunningStatus::Running => "running"@,
        RunningStatus::Starting => "starting"@,
        RunningStatus::Lost => "lost"@,
        RunningStatus::Pending => "pending"@,
        RunningStatus::Dead => "dead"@,
        RunningStatus::Missing => ""@,
    }
}

/// Whether `word` is one of the nine words that the scheduler writes for a
/// status: the eight names in lower case and the empty word.
pub open spec fn written_word(word: Seq<char>) -> bool {
    ||| word == "queued"@
    ||| word == "complete"@
    ||| word == "failed"@
    ||| word == "running"@
    ||| word == "starting"@
    ||| word == "lost"@
    ||| word == "pending"@
    ||| word == "dead"@
    ||| word == ""@
}

/// How the status words are spelled: the length and the first letter of each,
/// which tell any two of them apart.
proof fn lemma_words_spelled()
    ensures
        "Queued"@.len() == 6 && "Queued"@[0] == 'Q',
        "queued"@.len() == 6 && "queued"@[0] == 'q',
        "Complete"@.len() == 8 && "Complete"@[0] == 'C',
        "complete"@.len() == 8 && "complete"@[0] == 'c',
        "Failed"@.len() == 6 && "Failed"@[0] == 'F',
        "failed"@.len() == 6 && "failed"@[0] == 'f',
        "Running"@.len() == 7 && "Running"@[0] == 'R',
        "running"@.len() == 7 && "running"@[0] == 'r',
        "Starting"@.len() == 8 && "Starting"@[0] == 'S',
        "starting"@.len() == 8 && "starting"@[0] == 's',
        "Lost"@.len() == 4 && "Lost"@[0] == 'L',
        "lost"@.len() == 4 && "lost"@[0] == 'l',
        "Pending"@.len() == 7 && "Pending"@[0] == 'P',
        "pending"@.len() == 7 && "pending"@[0] == 'p',
        "Dead"@.len() == 4 && "Dead"@[0] == 'D',
        "dead"@.len() == 4 && "dead"@[0] == 'd',
        ""@.len() == 0,
{
    reveal_strlit("Queued");
    reveal_strlit("queued");
    reveal_strlit("Complete");
    reveal_strlit("complete");
    reveal_strlit("Failed");
    reveal_strlit("failed");
    reveal_strlit("Running");
    reveal_strlit("running");
    reveal_strlit("Starting");
    reveal_strlit("starting");
    reveal_strlit("Lost");
    reveal_strlit("lost");
    reveal_strlit("Pending");
    reveal_strlit("pending");
    reveal_strlit("Dead");
    reveal_strlit("dead");
    reveal_strlit("");
}

/// Every status is read back from the word it is written as.
pub proof fn lemma_status_word(status: RunningStatus)
    ensures
        status_of(word_of(status)) == status,
{
    lemma_words_spelled();
}

/// A status that was read from a word that the scheduler writes is written
/// as that very word.
pub proof fn lemma_status_written_as_read(word: Seq<char>)
    requires
        written_word(word),
    ensures
        RunningStatus::spec_encode(status_of(word)) == JsonView::Str(word),
        word_of(status_of(word)) == word,
{
    lemma_words_spelled();
}

/// The empty word stands for the missing status.
pub proof fn lemma_status_of_empty()
    ensures
        status_of(Seq::empty()) == RunningStatus::Missing,
{
    lemma_words_spelled();
}

impl RunningStatus {
    /// The status that `word` stands for.
    pub fn from_word(word: &str) -> (r: RunningStatus)
        ensures
            r == status_of(word@),
    {
        if str_eq(word, "Queued") || str_eq(word, "queued") {
            RunningStatus::Queued
        } else if str_eq(word, "Complete") || str_eq(word, "complete") {
            RunningStatus::Complete
        } else if str_eq(word, "Failed") || str_eq(word, "failed") {
            RunningStatus::Failed
        } else if str_eq(word, "Running") || str_eq(word, "running") {
            RunningStatus::Running
        } else if str_eq(word, "Starting") || str_eq(word, "starting") {
            RunningStatus::Starting
        } else if str_eq(word, "Lost") || str_eq(word, "lost") {
            RunningStatus::Lost
        } else if str_eq(word, "Pending") || str_eq(word, "pending") {
            RunningStatus::Pending
        } else if str_eq(word, "Dead") || str_eq(word, "dead") {
            RunningStatus::Dead
        } else {
            RunningStatus::Missing
        }
    }

    /// The word that this status is written as.
    pub fn as_word(&self) -> (r: &'static str)
        ensures
            r@ == word_of(*self),
    {
        match self {
            RunningStatus::Queued => "queued",
            RunningStatus::Complete => "complete",
            RunningStatus::Failed => "failed",
            RunningStatus::Running => "running",
            RunningStatus::Starting => "starting",
            RunningStatus::Lost => "lost",
            RunningStatus::Pending => "pending",
            RunningStatus::Dead => "dead",
            RunningStatus::Missing => "",
        }
    }
}

impl Wire for RunningStatus {
    open spec fn spec_decode(v: JsonView) -> Result<RunningStatus, DecodeError> {
        match v {
            JsonView::Str(word) => Ok(status_of(word)),
            _ => Err(DecodeError::TypeMismatch),
        }
    }

    open spec fn spec_absent() -> Result<RunningStatus, DecodeError> {
        Err(DecodeError::MissingField)
    }

    open spec fn spec_encode(x: RunningStatus) -> JsonView {
        JsonView::Str(word_of(x))
    }

    fn decode(v: &Json) -> (r: Result<RunningStatus, DecodeError>) {
        match v {
            Json::Str(word) => Ok(RunningStatus::from_word(word.as_str())),
            _ => Err(DecodeError::TypeMismatch),
        }
    }

    fn absent() -> (r: Result<RunningStatus, DecodeError>) {
        Err(DecodeError::MissingField)
    }

    fn encode(&self) -> (r: Json) {
        Json::Str(self.as_word().to_owned())
    }

    proof fn lemma_round_trip(v: JsonView) {
        lemma_status_word(status_of(v->Str_0));
    }

    proof fn lemma_absent_round_trip() {
    }

    proof fn lemma_writable(v: JsonView) {
    }
}

} // verus!
