use vstd::prelude::*;

use crate::metadata::{AudioSource, VideoMetadata};
use crate::text::{
    all_digits, chars_of, find_sub, lemma_spec_find_bounds, parse_u64_digits, spec_dec_value,
    spec_find, spec_split_char, split_char, string_of, sub_chars,
};

verus! {

/// Failure of the search-results scrape: either a section of the document
/// could not be located, a duration string did not parse, or the underlying
/// request or URL handling failed (those two are reported by the caller that
/// performed the transfer).
#[derive(Debug, PartialEq, Eq)]
pub enum YoutubeScrapeError {
    DurationString { duration_string: String },
    DurationPage,
    VideoId,
    Title,
    Request,
    Url,
}

impl Clone for YoutubeScrapeError {
    fn clone(&self) -> (r: Self)
        ensures
            r == *self,
    {
        match self {
            YoutubeScrapeError::DurationString { duration_string } => {
                YoutubeScrapeError::DurationString { duration_string: duration_string.clone() }
            },
            YoutubeScrapeError::DurationPage => YoutubeScrapeError::DurationPage,
            YoutubeScrapeError::VideoId => YoutubeScrapeError::VideoId,
            YoutubeScrapeError::Title => YoutubeScrapeError::Title,
            YoutubeScrapeError::Request => YoutubeScrapeError::Request,
            YoutubeScrapeError::Url => YoutubeScrapeError::Url,
        }
    }
}

/// Where the first video id after `from` sits in a results document: the
/// characters between a video-id marker and the next quote, together with
/// the position of that closing quote.
pub open spec fn spec_parse_video_id(doc: Seq<char>, from: int) -> Option<(int, Seq<char>)> {
    match spec_find(doc, "\"videoId\":\""@, from) {
        None => None,
        Some(p) => {
            let s = p + "\"videoId\":\""@.len();
            match spec_find(doc, "\""@, s) {
                None => None,
                Some(e) => Some((e, doc.subrange(s, e))),
            }
        },
    }
}

/// Extracts the first video id at or after `from`, returning it with the
/// position parsing may continue from.
pub fn parse_video_id(doc: &Vec<char>, from: usize) -> (r: Option<(usize, String)>)
    ensures
        r matches Some((rest, id)) ==> spec_parse_video_id(doc@, from as int) matches Some(p)
            && p.0 == rest && p.1 == id@,
        r is None ==> spec_parse_video_id(doc@, from as int) is None,
{
    let pat = chars_of("\"videoId\":\"");
    let quote = chars_of("\"");
    match find_sub(doc, &pat, from) {
        None => None,
        Some(p) => {
            proof {
                lemma_spec_find_bounds(doc@, pat@, from as int);
                assert(doc@.len() <= usize::MAX) by {
                    assert(doc.len() == doc@.len());
                }
            }
            let s = p + pat.len();
            match find_sub(doc, &quote, s) {
                None => None,
                Some(e) => {
                    proof {
                        lemma_spec_find_bounds(doc@, quote@, s as int);
                    }
                    let idv = sub_chars(doc, s, e);
                    Some((e, string_of(&idv)))
                },
            }
        },
    }
}

/// Where the first title after `from` sits in a results document: the raw
/// characters between a title text marker and the closing brace quote,
/// together with the position of that closer.
pub open spec fn spec_parse_title(doc: Seq<char>, from: int) -> Option<(int, Seq<char>)> {
    match spec_find(doc, "\"title\":"@, from) {
        None => None,
        Some(p1) => match spec_find(doc, "\"text\":\""@, p1) {
            None => None,
            Some(p2) => {
                let s = p2 + "\"text\":\""@.len();
                match spec_find(doc, "\"}"@, s) {
                    None => None,
                    Some(e) => Some((e, doc.subrange(s, e))),
                }
            },
        },
    }
}

/// Extracts the first raw title at or after `from`, returning it with the
/// position parsing may continue from. The raw title still carries its JSON
/// escapes.
pub fn parse_title(doc: &Vec<char>, from: usize) -> (r: Option<(usize, String)>)
    ensures
        r matches Some((rest, title)) ==> spec_parse_title(doc@, from as int) matches Some(p)
            && p.0 == rest && p.1 == title@,
        r is None ==> spec_parse_title(doc@, from as int) is None,
{
    let pat1 = chars_of("\"title\":");
    let pat2 = chars_of("\"text\":\"");
    let closer = chars_of("\"}");
    match find_sub(doc, &pat1, from) {
        None => None,
        Some(p1) => {
            proof {
                lemma_spec_find_bounds(doc@, pat1@, from as int);
            }
            match find_sub(doc, &pat2, p1) {
                None => None,
                Some(p2) => {
                    proof {
                        lemma_spec_find_bounds(doc@, pat2@, p1 as int);
                        assert(doc@.len() <= usize::MAX) by {
                            assert(doc.len() == doc@.len());
                        }
                    }
                    let s = p2 + pat2.len();
                    match find_sub(doc, &closer, s) {
                        None => None,
                        Some(e) => {
                            proof {
                                lemma_spec_find_bounds(doc@, closer@, s as int);
                            }
                            let tv = sub_chars(doc, s, e);
                            Some((e, string_of(&tv)))
                        },
                    }
                },
            }
        },
    }
}

/// Where the first displayed length after `from` sits in a results document.
pub open spec fn spec_parse_duration_string(doc: Seq<char>, from: int) -> Option<(int, Seq<char>)> {
    match spec_find(doc, "\"lengthText\":"@, from) {
        None => None,
        Some(p1) => match spec_find(doc, "\"simpleText\":\""@, p1) {
            None => None,
            Some(p2) => {
                let s = p2 + "\"simpleText\":\""@.len();
                match spec_find(doc, "\""@, s) {
                    None => None,
                    Some(e) => Some((e, doc.subrange(s, e))),
                }
            },
        },
    }
}

/// Extracts the first displayed length (such as "3:25") at or after `from`.
pub fn parse_duration_string(doc: &Vec<char>, from: usize) -> (r: Option<(usize, String)>)
    ensures
        r matches Some((rest, d)) ==> spec_parse_duration_string(doc@, from as int) matches Some(p)
            && p.0 == rest && p.1 == d@,
        r is None ==> spec_parse_duration_string(doc@, from as int) is None,
{
    let pat1 = chars_of("\"lengthText\":");
    let pat2 = chars_of("\"simpleText\":\"");
    let quote = chars_of("\"");
    match find_sub(doc, &pat1, from) {
        None => None,
        Some(p1) => {
            proof {
                lemma_spec_find_bounds(doc@, pat1@, from as int);
            }
            match find_sub(doc, &pat2, p1) {
                None => None,
                Some(p2) => {
                    proof {
                        lemma_spec_find_bounds(doc@, pat2@, p1 as int);
                        assert(doc@.len() <= usize::MAX) by {
                            assert(doc.len() == doc@.len());
                        }
                    }
                    let s = p2 + pat2.len();
                    match find_sub(doc, &quote, s) {
                        None => None,
                        Some(e) => {
                            proof {
                                lemma_spec_find_bounds(doc@, quote@, s as int);
                            }
                            let dv = sub_chars(doc, s, e);
                            Some((e, string_of(&dv)))
                        },
                    }
                },
            }
        },
    }
}

/// The value of one colon-separated section: a nonempty all-digit group
/// whose value fits a machine word.
pub open spec fn spec_section_value(sec: Seq<char>) -> Option<nat> {
    if sec.len() > 0 && all_digits(sec) && spec_dec_value(sec) <= u64::MAX {
        Some(spec_dec_value(sec))
    } else {
        None
    }
}

/// The seconds named by a list of colon-separated sections, most significant
/// first, each worth sixty times the one after it; absent if any section is
/// no plain number or the total leaves machine range.
pub open spec fn spec_sections_secs(ss: Seq<Seq<char>>) -> Option<nat>
    decreases ss.len(),
{
    if ss.len() == 0 {
        Some(0)
    } else {
        match (spec_sections_secs(ss.drop_last()), spec_section_value(ss.last())) {
            (Some(hi), Some(lo)) => if hi * 60 + lo <= u64::MAX {
                Some(hi * 60 + lo)
            } else {
                None
            },
            _ => None,
        }
    }
}

/// What a displayed length is worth in seconds.
pub open spec fn spec_string_to_duration(s: Seq<char>) -> Option<nat> {
    spec_sections_secs(spec_split_char(s, ':'))
}

proof fn lemma_sections_none_extends(ss: Seq<Seq<char>>, j: int)
    requires
        0 <= j <= ss.len(),
        spec_sections_secs(ss.subrange(0, j)) is None,
    ensures
        spec_sections_secs(ss) is None,
    decreases ss.len() - j,
{
    if j < ss.len() {
        assert(ss.subrange(0, j + 1).drop_last() =~~= ss.subrange(0, j));
        lemma_sections_none_extends(ss, j + 1);
    } else {
        assert(ss.subrange(0, j) =~~= ss);
    }
}

/// Reads a displayed length such as "3:25" as a number of seconds. Every
/// colon-separated section must be a plain number; sixty seconds to the
/// minute all the way up, with no bound on the leading section.
pub fn string_to_duration(input: &str) -> (r: Result<u64, YoutubeScrapeError>)
    ensures
        r matches Ok(v) ==> spec_string_to_duration(input@) == Some(v as nat),
        r matches Err(e) ==> spec_string_to_duration(input@) is None && (e matches
        YoutubeScrapeError::DurationString { duration_string } && duration_string@ == input@),
{
    let cs = chars_of(input);
    let sections = split_char(&cs, ':');
    let ghost ss = sections.deep_view();
    let mut acc: u64 = 0;
    let mut k: usize = 0;
    proof {
        assert(ss.subrange(0, 0) =~~= Seq::<Seq<char>>::empty());
    }
    while k < sections.len()
        invariant
            k <= sections@.len(),
            ss == sections.deep_view(),
            ss == spec_split_char(input@, ':'),
            spec_sections_secs(ss.subrange(0, k as int)) == Some(acc as nat),
        decreases sections@.len() - k,
    {
        let sec = &sections[k];
        proof {
            assert(ss[k as int] == sec@);
            assert(ss.subrange(0, k + 1).drop_last() =~~= ss.subrange(0, k as int));
            assert(ss.subrange(0, k + 1).last() == sec@);
        }
        match parse_u64_digits(sec, 0, sec.len()) {
            None => {
                proof {
                    assert(sec@.subrange(0, sec@.len() as int) =~= sec@);
                    assert(spec_sections_secs(ss.subrange(0, k + 1)) is None);
                    lemma_sections_none_extends(ss, k + 1);
                }
                return Err(YoutubeScrapeError::DurationString {
                    duration_string: input.to_owned(),
                });
            },
            Some(v) => {
                proof {
                    assert(sec@.subrange(0, sec@.len() as int) =~= sec@);
                }
                if acc > (u64::MAX - v) / 60 {
                    proof {
                        assert(acc * 60 + v > u64::MAX) by (nonlinear_arith)
                            requires
                                acc > (u64::MAX - v) / 60,
                                v <= u64::MAX,
                        ;
                        assert(spec_sections_secs(ss.subrange(0, k + 1)) is None);
                        lemma_sections_none_extends(ss, k + 1);
                    }
                    return Err(YoutubeScrapeError::DurationString {
                        duration_string: input.to_owned(),
                    });
                }
                proof {
                    assert(acc * 60 + v <= u64::MAX) by (nonlinear_arith)
                        requires
                            acc <= (u64::MAX - v) / 60,
                            v <= u64::MAX,
                    ;
                }
                acc = acc * 60 + v;
            },
        }
        k = k + 1;
    }
    proof {
        assert(ss.subrange(0, ss.len() as int) =~~= ss);
    }
    Ok(acc)
}

/// The unescaped form of a raw scraped title: what reading it as the body
/// of a JSON string literal yields, or a fixed fallback text where it is no
/// valid literal body.
pub uninterp spec fn spec_unescaped_title(raw: Seq<char>) -> Seq<char>;

/// Relies on serde_json::from_str: quotes the raw title into a JSON string
/// literal and reads it back, resolving its escapes; the result depends on
/// the characters alone. An invalid literal falls back to a fixed marker.
#[verifier::external_body]
fn unescape_title(raw: &str) -> (r: String)
    ensures
        r@ == spec_unescaped_title(raw@),
{
    serde_json::from_str(&format!("\"{raw}\"")).unwrap_or("ERROR".to_string())
}

/// Digs one video out of a search-results document: the first video id, the
/// first title after it (unescaped), and the first displayed length after
/// that, read as a duration. Each error names the section that was missing
/// or, for a found but unreadable length, carries it.
pub fn scrape_search_result(doc: &str) -> (r: Result<VideoMetadata, YoutubeScrapeError>)
    ensures
        match r {
            Ok(m) => match spec_parse_video_id(doc@, 0) {
                Some((r1, id)) => match spec_parse_title(doc@, r1) {
                    Some((r2, raw)) => match spec_parse_duration_string(doc@, r2) {
                        Some((_e, ds)) => {
                            &&& (m.audio_source matches AudioSource::YouTube { video_id }
                                && video_id@ == id)
                            &&& m.title@ == spec_unescaped_title(raw)
                            &&& spec_string_to_duration(ds) == Some(m.duration as nat)
                        },
                        None => false,
                    },
                    None => false,
                },
                None => false,
            },
            Err(e) => match e {
                YoutubeScrapeError::VideoId => spec_parse_video_id(doc@, 0) is None,
                YoutubeScrapeError::Title => match spec_parse_video_id(doc@, 0) {
                    Some((r1, _id)) => spec_parse_title(doc@, r1) is None,
                    None => false,
                },
                YoutubeScrapeError::DurationPage => match spec_parse_video_id(doc@, 0) {
                    Some((r1, _id)) => match spec_parse_title(doc@, r1) {
                        Some((r2, _raw)) => spec_parse_duration_string(doc@, r2) is None,
                        None => false,
                    },
                    None => false,
                },
                YoutubeScrapeError::DurationString { duration_string } => match spec_parse_video_id(
                    doc@,
                    0,
                ) {
                    Some((r1, _id)) => match spec_parse_title(doc@, r1) {
                        Some((r2, _raw)) => match spec_parse_duration_string(doc@, r2) {
                            Some((_e, ds)) => duration_string@ == ds && spec_string_to_duration(ds)
                                is None,
                            None => false,
                        },
                        None => false,
                    },
                    None => false,
                },
                _ => false,
            },
        },
{
    let cs = chars_of(doc);
    let (rest1, video_id) = match parse_video_id(&cs, 0) {
        Some(p) => p,
        None => {
            return Err(YoutubeScrapeError::VideoId);
        },
    };
    let (rest2, raw_title) = match parse_title(&cs, rest1) {
        Some(p) => p,
        None => {
            return Err(YoutubeScrapeError::Title);
        },
    };
    let title = unescape_title(raw_title.as_str());
    let (_rest3, duration_string) = match parse_duration_string(&cs, rest2) {
        Some(p) => p,
        None => {
            return Err(YoutubeScrapeError::DurationPage);
        },
    };
    let duration = match string_to_duration(duration_string.as_str()) {
        Ok(d) => d,
        Err(e) => {
            return Err(e);
        },
    };
    Ok(VideoMetadata { title, duration, audio_source: AudioSource::YouTube { video_id } })
}

} // verus!
