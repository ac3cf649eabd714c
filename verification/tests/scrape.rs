use diwa::metadata::AudioSource;
use diwa::scrapers::jeja::{
    clean_joke_text, joke_acceptable, parse_html, tts_retry_step, TTSError, TtsStep, TRIES,
};
use diwa::scrapers::youtube::{
    parse_duration_string, parse_title, parse_video_id, scrape_search_result, string_to_duration,
    YoutubeScrapeError,
};
use diwa::text::chars_of;

const DOC: &str = r#"{"videoId":"vid42","title":{"runs":[{"text":"My & Song"}]},"lengthText":{"simpleText":"3:25"}}"#;

#[test]
fn video_id_is_cut_out_of_the_document() {
    let cs = chars_of(DOC);
    let (_rest, id) = parse_video_id(&cs, 0).unwrap();
    assert_eq!(id, "vid42");
}

#[test]
fn title_is_cut_out_after_the_video_id() {
    let cs = chars_of(DOC);
    let (rest, _id) = parse_video_id(&cs, 0).unwrap();
    let (_rest2, raw) = parse_title(&cs, rest).unwrap();
    assert_eq!(raw, r#"My & Song"#);
}

#[test]
fn displayed_length_is_cut_out_after_the_title() {
    let cs = chars_of(DOC);
    let (rest, _id) = parse_video_id(&cs, 0).unwrap();
    let (rest2, _raw) = parse_title(&cs, rest).unwrap();
    let (_rest3, d) = parse_duration_string(&cs, rest2).unwrap();
    assert_eq!(d, "3:25");
}

#[test]
fn scrape_unescapes_the_title_and_reads_the_length() {
    let m = scrape_search_result(DOC).unwrap();
    assert_eq!(m.title, "My & Song");
    assert_eq!(m.duration, 205);
    assert_eq!(m.audio_source, AudioSource::YouTube { video_id: "vid42".to_string() });
}

#[test]
fn scrape_resolves_json_escapes_in_titles() {
    let doc = r#"{"videoId":"v7","title":{"runs":[{"text":"A \u0026 B"}]},"lengthText":{"simpleText":"0:07"}}"#;
    let m = scrape_search_result(doc).unwrap();
    assert_eq!(m.title, "A & B");
    assert_eq!(m.duration, 7);
}

#[test]
fn scrape_names_the_missing_section() {
    assert_eq!(scrape_search_result("no markers here"), Err(YoutubeScrapeError::VideoId));
    assert_eq!(
        scrape_search_result(r#"{"videoId":"v""#),
        Err(YoutubeScrapeError::Title)
    );
    assert_eq!(
        scrape_search_result(r#"{"videoId":"v","title":{"text":"T"}"#),
        Err(YoutubeScrapeError::DurationPage)
    );
    match scrape_search_result(r#"{"videoId":"v","title":{"text":"T"},"lengthText":{"simpleText":"x:y"}"#)
    {
        Err(YoutubeScrapeError::DurationString { duration_string }) => {
            assert_eq!(duration_string, "x:y")
        },
        other => panic!("unexpected: {:?}", other),
    }
}

#[test]
fn displayed_lengths_convert_to_seconds() {
    assert_eq!(string_to_duration("3:25").unwrap(), 205);
    assert_eq!(string_to_duration("1:02:05").unwrap(), 3725);
    assert_eq!(string_to_duration("10").unwrap(), 10);
    assert_eq!(string_to_duration("18446744073709551615").unwrap(), u64::MAX);
}

#[test]
fn unreadable_lengths_are_errors() {
    assert!(string_to_duration("").is_err());
    assert!(string_to_duration("abc").is_err());
    assert!(string_to_duration("1::5").is_err());
    assert!(string_to_duration("18446744073709551616").is_err());
}

#[test]
fn joke_markup_is_cut_between_its_markers() {
    let page = "xx<h1>Losowe dowcipy</h1>yy<div class=\"dow-left-text\">JOKE<div class=\"ob-left-down-autor\">zz";
    assert_eq!(parse_html(page).unwrap(), "<div class=\"dow-left-text\">JOKE");
    assert_eq!(parse_html("nothing here"), None);
}

#[test]
fn joke_text_loses_newlines_and_tabs() {
    assert_eq!(clean_joke_text("a\n\tb\nc"), "abc");
    assert_eq!(clean_joke_text("plain"), "plain");
}

#[test]
fn jokes_must_be_short_and_nonempty() {
    assert!(!joke_acceptable(""));
    assert!(joke_acceptable("a"));
    assert!(joke_acceptable(&"x".repeat(100)));
    assert!(!joke_acceptable(&"x".repeat(101)));
}

#[test]
fn retry_accepts_a_good_joke_at_once() {
    assert_eq!(
        tts_retry_step(0, Ok("ha".to_string())),
        TtsStep::Accept("ha".to_string())
    );
}

#[test]
fn retry_keeps_trying_on_bad_outcomes() {
    assert_eq!(tts_retry_step(0, Ok("".to_string())), TtsStep::Retry);
    assert_eq!(tts_retry_step(0, Err(TTSError::Scrape)), TtsStep::Retry);
    assert_eq!(tts_retry_step(TRIES - 2, Err(TTSError::Scrape)), TtsStep::Retry);
}

#[test]
fn retry_gives_up_on_the_last_attempt() {
    assert_eq!(tts_retry_step(TRIES - 1, Ok("".to_string())), TtsStep::GiveUpEmpty);
    assert_eq!(
        tts_retry_step(TRIES - 1, Err(TTSError::Scrape)),
        TtsStep::Fail(TTSError::Scrape)
    );
}
