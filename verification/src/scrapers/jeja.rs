use vstd::prelude::*;

use crate::text::{chars_of, find_sub, lemma_spec_find_bounds, spec_find, string_of, sub_chars};

verus! {

/// Failure of the joke-to-speech pipeline: the page could not be cut apart,
/// the synthesized file could not be saved, no acceptable joke was found, or
/// the transfer itself failed.
#[derive(Debug, PartialEq, Eq)]
pub enum TTSError {
    Parse,
    Save { message: String },
    JokeEmpty,
    Scrape,
}

impl Clone for TTSError {
    fn clone(&self) -> (r: Self)
        ensures
            r == *self,
    {
        match self {
            TTSError::Parse => TTSError::Parse,
            TTSError::Save { message } => TTSError::Save { message: message.clone() },
            TTSError::JokeEmpty => TTSError::JokeEmpty,
            TTSError::Scrape => TTSError::Scrape,
        }
    }
}

/// How many times a flaky joke scrape is retried before giving up.
pub const TRIES: usize = 50;

/// Where the joke markup sits in the page: everything from the joke text
/// marker up to the author marker, after the page heading.
pub open spec fn spec_parse_html(doc: Seq<char>) -> Option<(int, Seq<char>)> {
    match spec_find(doc, "<h1>Losowe dowcipy</h1>"@, 0) {
        None => None,
        Some(p1) => match spec_find(doc, "<div class=\"dow-left-text\">"@, p1) {
            None => None,
            Some(p2) => match spec_find(doc, "<div class=\"ob-left-down-autor\">"@, p2) {
                None => None,
                Some(p3) => Some((p3, doc.subrange(p2, p3))),
            },
        },
    }
}

/// Cuts the joke markup out of the scraped page.
pub fn parse_html(doc: &str) -> (r: Option<String>)
    ensures
        r matches Some(f) ==> spec_parse_html(doc@) matches Some(p) && p.1 == f@,
        r is None ==> spec_parse_html(doc@) is None,
{
    let cs = chars_of(doc);
    let pat1 = chars_of("<h1>Losowe dowcipy</h1>");
    let pat2 = chars_of("<div class=\"dow-left-text\">");
    let pat3 = chars_of("<div class=\"ob-left-down-autor\">");
    match find_sub(&cs, &pat1, 0) {
        None => None,
        Some(p1) => {
            proof {
                lemma_spec_find_bounds(cs@, pat1@, 0);
            }
            match find_sub(&cs, &pat2, p1) {
                None => None,
                Some(p2) => {
                    proof {
                        lemma_spec_find_bounds(cs@, pat2@, p1 as int);
                    }
                    match find_sub(&cs, &pat3, p2) {
                        None => None,
                        Some(p3) => {
                            proof {
                                lemma_spec_find_bounds(cs@, pat3@, p2 as int);
                            }
                            let f = sub_chars(&cs, p2, p3);
                            Some(string_of(&f))
                        },
                    }
                },
            }
        },
    }
}

/// The text with newlines and tabs removed.
pub open spec fn spec_cleaned(s: Seq<char>) -> Seq<char>
    decreases s.len(),
{
    if s.len() == 0 {
        Seq::empty()
    } else {
        spec_cleaned(s.drop_last()) + (if s.last() == '\n' || s.last() == '\t' {
            Seq::empty()
        } else {
            seq![s.last()]
        })
    }
}

/// Removes the newlines and tabs a joke picked up from its markup.
pub fn clean_joke_text(text: &str) -> (r: String)
    ensures
        r@ == spec_cleaned(text@),
{
    let cs = chars_of(text);
    let mut out: Vec<char> = Vec::new();
    let mut i: usize = 0;
    while i < cs.len()
        invariant
            i <= cs@.len(),
            cs@ == text@,
            out@ == spec_cleaned(cs@.subrange(0, i as int)),
        decreases cs@.len() - i,
    {
        let c = cs[i];
        if !(c == '\n' || c == '\t') {
            out.push(c);
        }
        i = i + 1;
        proof {
            assert(cs@.subrange(0, i as int).drop_last() =~= cs@.subrange(0, i - 1));
        }
    }
    proof {
        assert(cs@.subrange(0, cs@.len() as int) =~= cs@);
    }
    string_of(&out)
}

/// A joke is worth telling when it is nonempty and at most a hundred
/// characters long.
pub fn joke_acceptable(text: &str) -> (r: bool)
    ensures
        r == (1 <= text@.len() <= 100),
{
    let n = text.unicode_len();
    1 <= n && n <= 100
}

/// What the retry loop does after one scrape attempt.
#[derive(Debug, PartialEq, Eq)]
pub enum TtsStep {
    /// An acceptable joke: stop retrying and synthesize it.
    Accept(String),
    /// Scrape again.
    Retry,
    /// The budget ran out without an acceptable joke.
    GiveUpEmpty,
    /// The budget ran out on a failed scrape: report that failure.
    Fail(TTSError),
}

/// The retry decision for one scrape outcome: an acceptable joke is taken
/// at once; an unacceptable one or a failure is retried while attempts are
/// left; the last attempt gives up — emptily for an unacceptable joke, with
/// the scrape's own error for a failure.
pub fn tts_retry_step(attempt: usize, outcome: Result<String, TTSError>) -> (r: TtsStep)
    requires
        attempt < TRIES,
    ensures
        r == (match outcome {
            Ok(joke) => if 1 <= joke@.len() <= 100 {
                TtsStep::Accept(joke)
            } else if attempt + 1 == TRIES {
                TtsStep::GiveUpEmpty
            } else {
                TtsStep::Retry
            },
            Err(e) => if attempt + 1 == TRIES {
                TtsStep::Fail(e)
            } else {
                TtsStep::Retry
            },
        }),
{
    match outcome {
        Ok(joke) => {
            if joke_acceptable(joke.as_str()) {
                TtsStep::Accept(joke)
            } else if attempt + 1 == TRIES {
                TtsStep::GiveUpEmpty
            } else {
                TtsStep::Retry
            }
        },
        Err(e) => {
            if attempt + 1 == TRIES {
                TtsStep::Fail(e)
            } else {
                TtsStep::Retry
            }
        },
    }
}

} // verus!
