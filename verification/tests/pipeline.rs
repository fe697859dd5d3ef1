use ddtr::config::Config;
use ddtr::dispatch::{
    outcome_of_response, start_offset_ms, OutcomeSlots, TranslationOutcome,
};
use ddtr::lang::Lang;
use ddtr::orchestrate::{plan_jobs, writes_for_outcomes};

fn config_with(default_lang: &str, targets: &[&str]) -> Config {
    Config {
        api_id: String::from("id"),
        api_key: String::from("key"),
        output_dir: String::from("./messages"),
        base_filename: String::from("bundle"),
        default_filename: String::from("bundle"),
        default_lang: String::from(default_lang),
        target_langs: targets.iter().map(|s| String::from(*s)).collect(),
    }
}

fn success(code: &str, text: &str) -> TranslationOutcome {
    TranslationOutcome::Success {
        to_code: String::from(code),
        translated_text: String::from(text),
    }
}

fn failure(code: &str, reason: &str) -> TranslationOutcome {
    TranslationOutcome::Failure {
        to_code: String::from(code),
        reason: String::from(reason),
    }
}

#[test]
fn planning_keeps_target_order() {
    let config = config_with("zh", &["en", "hk", "ja", "ko"]);
    let jobs = plan_jobs(&config, "你好").expect("all codes are known");
    assert_eq!(jobs.len(), 4);
    let expected = [
        ("en", Lang::En),
        ("hk", Lang::Cht),
        ("ja", Lang::Jp),
        ("ko", Lang::Kor),
    ];
    for (i, (code, lang)) in expected.iter().enumerate() {
        assert_eq!(jobs[i].to_code, *code);
        assert_eq!(jobs[i].to, *lang);
        assert_eq!(jobs[i].from, Lang::Zh);
        assert_eq!(jobs[i].source_text, "你好");
    }
}

#[test]
fn empty_target_list_is_legal() {
    let config = config_with("zh", &[]);
    let jobs = plan_jobs(&config, "text").expect("an empty batch is legal");
    assert_eq!(jobs.len(), 0);
}

#[test]
fn unknown_target_halts_before_any_job() {
    let config = config_with("zh", &["en", "xx", "ja"]);
    match plan_jobs(&config, "text") {
        Err(e) => assert_eq!(e, "Unknown language code: xx"),
        Ok(_) => panic!("an unknown target must halt the batch"),
    }
}

#[test]
fn unknown_default_halts_before_any_job() {
    let config = config_with("xy", &["en"]);
    match plan_jobs(&config, "text") {
        Err(e) => assert_eq!(e, "Unknown language code: xy"),
        Ok(_) => panic!("an unknown default language must halt the batch"),
    }
}

#[test]
fn first_unknown_code_is_reported() {
    let config = config_with("zh", &["aa", "bb"]);
    match plan_jobs(&config, "text") {
        Err(e) => assert_eq!(e, "Unknown language code: aa"),
        Ok(_) => panic!("an unknown target must halt the batch"),
    }
}

#[test]
fn one_write_per_target_plus_default() {
    let outcomes = vec![
        success("en", "Hello"),
        success("hk", "你好"),
        success("ja", "こんにちは"),
    ];
    let writes = writes_for_outcomes(&outcomes, "bundle", "bundle", "greeting", "你好");
    assert_eq!(writes.len(), 3 + 1);
}

#[test]
fn failed_targets_write_nothing_but_default_still_goes() {
    let outcomes = vec![
        failure("en", "quota exceeded"),
        failure("hk", "quota exceeded"),
    ];
    let writes = writes_for_outcomes(&outcomes, "bundle", "bundle", "greeting", "你好");
    assert_eq!(writes.len(), 1);
    assert_eq!(writes[0].file, "bundle");
    assert_eq!(writes[0].key, "greeting");
    assert_eq!(writes[0].value, "你好");
}

#[test]
fn one_failure_does_not_disturb_the_others() {
    let all_good = vec![
        success("en", "Hello"),
        success("hk", "你好"),
        success("ja", "こんにちは"),
    ];
    let with_failure = vec![
        success("en", "Hello"),
        failure("hk", "service error"),
        success("ja", "こんにちは"),
    ];
    let full = writes_for_outcomes(&all_good, "bundle", "bundle", "greeting", "你好");
    let partial = writes_for_outcomes(&with_failure, "bundle", "bundle", "greeting", "你好");
    // The failed target's entry disappears; every other entry is unchanged.
    assert_eq!(partial.len(), full.len() - 1);
    assert_eq!(partial[0].file, full[0].file);
    assert_eq!(partial[0].value, full[0].value);
    assert_eq!(partial[1].file, full[2].file);
    assert_eq!(partial[1].value, full[2].value);
    // The default-language write survives at the end.
    assert_eq!(partial[2].file, "bundle");
    assert_eq!(partial[2].value, "你好");
}

#[test]
fn example_batch_en_succeeds_ja_fails() {
    let config = config_with("zh", &["en", "ja"]);
    let jobs = plan_jobs(&config, "你好").expect("codes are known");
    assert_eq!(jobs.len(), 2);
    let outcomes = vec![
        success("en", "Hello"),
        failure("ja", "service error"),
    ];
    let writes = writes_for_outcomes(&outcomes, "bundle", "bundle", "greeting", "你好");
    assert_eq!(writes.len(), 2);
    assert_eq!(writes[0].file, "bundle_en");
    assert_eq!(writes[0].key, "greeting");
    assert_eq!(writes[0].value, "Hello");
    assert!(writes.iter().all(|w| w.file != "bundle_ja"));
    assert_eq!(writes[1].file, "bundle");
    assert_eq!(writes[1].key, "greeting");
    assert_eq!(writes[1].value, "你好");
}

#[test]
fn outcomes_reassemble_in_input_order() {
    let mut slots = OutcomeSlots::new(3);
    assert_eq!(slots.len(), 3);
    // Requests complete in reverse order.
    slots.record(2, success("ja", "こんにちは"));
    slots.record(1, failure("hk", "service error"));
    slots.record(0, success("en", "Hello"));
    let outcomes = slots.finish();
    assert_eq!(outcomes.len(), 3);
    assert_eq!(outcomes[0].to_code(), "en");
    assert!(outcomes[0].succeeded());
    assert_eq!(outcomes[1].to_code(), "hk");
    assert!(!outcomes[1].succeeded());
    assert_eq!(outcomes[2].to_code(), "ja");
    assert!(outcomes[2].succeeded());
}

#[test]
fn reply_with_variants_takes_the_first() {
    let variants = vec![String::from("Hello"), String::from("Hi")];
    let r = outcome_of_response("en", Some(variants), None);
    assert!(r.succeeded());
    assert_eq!(r.to_code(), "en");
    assert_eq!(r.payload(), "Hello");
}

#[test]
fn reply_without_payload_fails_with_the_service_message() {
    let r = outcome_of_response("en", None, Some(String::from("invalid appid")));
    assert!(!r.succeeded());
    assert_eq!(r.to_code(), "en");
    assert_eq!(r.payload(), "invalid appid");
}

#[test]
fn reply_with_zero_variants_fails() {
    let r = outcome_of_response("en", Some(Vec::new()), None);
    assert!(!r.succeeded());
    assert_eq!(r.payload(), "empty translation result");
}

#[test]
fn requests_are_spaced_by_the_interval() {
    // Q = 1 and a 2-second interval: the second request must wait 2 seconds
    // and the third 4.
    assert_eq!(start_offset_ms(0, 2000), Some(0));
    assert_eq!(start_offset_ms(1, 2000), Some(2000));
    assert_eq!(start_offset_ms(2, 2000), Some(4000));
}

#[test]
fn pacing_offset_overflow_is_reported() {
    assert_eq!(start_offset_ms(2, u64::MAX), None);
    assert_eq!(start_offset_ms(1, u64::MAX), Some(u64::MAX));
    assert_eq!(start_offset_ms(0, u64::MAX), Some(0));
}
