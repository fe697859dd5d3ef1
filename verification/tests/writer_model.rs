use ddtr::config::default_config_json;
use ddtr::dispatch::TranslationOutcome;
use ddtr::orchestrate::writes_for_outcomes;
use ddtr::writer::{properties_line, properties_path, translated_file_base, ResourceEntry};

#[test]
fn file_names_and_paths() {
    assert_eq!(translated_file_base("bundle", "en"), "bundle_en");
    assert_eq!(translated_file_base("pluginBundle", "hk"), "pluginBundle_hk");
    assert_eq!(
        properties_path("./messages", "bundle_en"),
        "./messages/bundle_en.properties"
    );
    assert_eq!(properties_path("dir", "bundle"), "dir/bundle.properties");
}

#[test]
fn line_format_is_key_equals_value() {
    assert_eq!(properties_line("greeting", "Hello"), "greeting=Hello\n");
    assert_eq!(properties_line("greeting", "你好"), "greeting=你好\n");
    assert_eq!(properties_line("", ""), "=\n");
}

/// An in-memory stand-in for the output directory: appends only, creates a
/// file on its first write, as the writer's append+create mode does.
fn apply_writes(dir: &mut Vec<(String, Vec<String>)>, writes: &[ResourceEntry]) {
    for w in writes {
        let line = properties_line(&w.key, &w.value);
        match dir.iter_mut().find(|(name, _)| *name == w.file) {
            Some((_, lines)) => lines.push(line),
            None => dir.push((w.file.clone(), vec![line])),
        }
    }
}

fn lines_of<'a>(dir: &'a [(String, Vec<String>)], file: &str) -> &'a [String] {
    dir.iter()
        .find(|(name, _)| name == file)
        .map(|(_, lines)| lines.as_slice())
        .unwrap_or(&[])
}

#[test]
fn running_the_same_batch_twice_appends_twice() {
    let outcomes = vec![TranslationOutcome::Success {
        to_code: String::from("en"),
        translated_text: String::from("Hello"),
    }];
    let mut dir: Vec<(String, Vec<String>)> = Vec::new();
    let writes = writes_for_outcomes(&outcomes, "bundle", "bundle", "greeting", "你好");
    apply_writes(&mut dir, &writes);
    let writes_again = writes_for_outcomes(&outcomes, "bundle", "bundle", "greeting", "你好");
    apply_writes(&mut dir, &writes_again);
    // Duplicate lines accumulate; nothing is overwritten or deduplicated.
    assert_eq!(
        lines_of(&dir, "bundle_en"),
        ["greeting=Hello\n", "greeting=Hello\n"]
    );
    assert_eq!(lines_of(&dir, "bundle"), ["greeting=你好\n", "greeting=你好\n"]);
}

#[test]
fn writes_touch_only_their_own_file() {
    let outcomes = vec![
        TranslationOutcome::Success {
            to_code: String::from("en"),
            translated_text: String::from("Hello"),
        },
        TranslationOutcome::Success {
            to_code: String::from("ja"),
            translated_text: String::from("こんにちは"),
        },
    ];
    let mut dir: Vec<(String, Vec<String>)> =
        vec![(String::from("bundle_en"), vec![String::from("old=line\n")])];
    let writes = writes_for_outcomes(&outcomes, "bundle", "bundle", "greeting", "你好");
    apply_writes(&mut dir, &writes);
    assert_eq!(lines_of(&dir, "bundle_en"), ["old=line\n", "greeting=Hello\n"]);
    assert_eq!(lines_of(&dir, "bundle_ja"), ["greeting=こんにちは\n"]);
    assert_eq!(lines_of(&dir, "bundle"), ["greeting=你好\n"]);
}

#[test]
fn scaffolded_configuration_names_every_field() {
    let json = default_config_json();
    assert!(json.contains("\"baiduId\""));
    assert!(json.contains("\"baiduKey\""));
    assert!(json.contains("\"propertiesFileDir\""));
    assert!(json.contains("\"filename\""));
    assert!(json.contains("\"defaultfilename\""));
    assert!(json.contains("\"defaultLang\""));
    assert!(json.contains("\"suportLangs\""));
}
