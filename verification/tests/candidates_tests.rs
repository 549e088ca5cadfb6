use emoji_picker::candidates::GlyphAnnotation;
use emoji_picker::candidates::GlyphEntry;
use emoji_picker::candidates::annotation_description;
use emoji_picker::candidates::candidate_stream;
use emoji_picker::candidates::entry_description;
use emoji_picker::candidates::entry_line;
use emoji_picker::candidates::join_keywords;
use emoji_picker::candidates::render_candidates;

fn annotation(lang: &str, tts: Option<&str>, keywords: &[&str]) -> GlyphAnnotation {
    GlyphAnnotation {
        lang: lang.to_string(),
        tts: tts.map(|t| t.to_string()),
        keywords: keywords.iter().map(|k| k.to_string()).collect(),
    }
}

fn grinning_face() -> GlyphEntry {
    GlyphEntry {
        glyph: "😀".to_string(),
        name: "grinning face".to_string(),
        annotations: vec![
            annotation("en", Some("grinning face"), &["face", "grin"]),
            annotation("de", Some("grinsendes Gesicht"), &["Gesicht"]),
        ],
    }
}

#[test]
fn keywords_join_with_single_spaces() {
    assert_eq!(join_keywords(&vec![]), "");
    assert_eq!(join_keywords(&vec!["face".to_string()]), "face");
    assert_eq!(join_keywords(&vec!["face".to_string(), "grin".to_string()]), "face grin");
}

#[test]
fn annotation_with_spoken_text_prepends_it() {
    let a = annotation("en", Some("grinning face"), &["face", "grin"]);
    assert_eq!(annotation_description(&a), Some("grinning face face grin".to_string()));
}

#[test]
fn annotation_with_spoken_text_and_no_keywords_keeps_the_space() {
    let a = annotation("en", Some("grinning face"), &[]);
    assert_eq!(annotation_description(&a), Some("grinning face ".to_string()));
}

#[test]
fn annotation_without_spoken_text_uses_keywords() {
    let a = annotation("en", None, &["face", "grin"]);
    assert_eq!(annotation_description(&a), Some("face grin".to_string()));
}

#[test]
fn annotation_with_nothing_yields_nothing() {
    let a = annotation("en", None, &[]);
    assert_eq!(annotation_description(&a), None);
}

#[test]
fn description_picks_the_requested_language() {
    let e = grinning_face();
    assert_eq!(
        entry_description(&e, &"de".to_string()),
        Some("grinsendes Gesicht Gesicht".to_string())
    );
    assert_eq!(entry_description(&e, &"fi".to_string()), None);
}

#[test]
fn entry_line_in_native_language() {
    let e = grinning_face();
    assert_eq!(
        entry_line(&e, &"en".to_string(), false),
        Some("😀: grinning face face grin".to_string())
    );
}

#[test]
fn entry_line_extends_native_with_english_when_fallback_is_on() {
    let e = grinning_face();
    assert_eq!(
        entry_line(&e, &"de".to_string(), true),
        Some("😀: grinsendes Gesicht Gesicht grinning face face grin".to_string())
    );
}

#[test]
fn entry_line_falls_back_to_english_then_name() {
    let e = grinning_face();
    // No Finnish annotation: without fallback no line, with fallback the
    // English description stands in.
    assert_eq!(entry_line(&e, &"fi".to_string(), false), None);
    assert_eq!(
        entry_line(&e, &"fi".to_string(), true),
        Some("😀: grinning face face grin".to_string())
    );
    // No annotations at all: the canonical name stands in.
    let bare = GlyphEntry {
        glyph: "❤".to_string(),
        name: "red heart".to_string(),
        annotations: vec![],
    };
    assert_eq!(entry_line(&bare, &"fi".to_string(), false), None);
    assert_eq!(entry_line(&bare, &"fi".to_string(), true), Some("❤: red heart".to_string()));
}

#[test]
fn rendering_keeps_table_order_and_skips_silent_entries() {
    let silent = GlyphEntry {
        glyph: "❓".to_string(),
        name: "question".to_string(),
        annotations: vec![],
    };
    let entries = vec![grinning_face(), silent, grinning_face()];
    let lines = render_candidates(&entries, &"en".to_string(), false);
    assert_eq!(
        lines,
        vec![
            "😀: grinning face face grin".to_string(),
            "😀: grinning face face grin".to_string(),
        ]
    );
}

#[test]
fn bundled_table_renders_candidates() {
    let lines = candidate_stream(&"en".to_string(), false);
    assert!(!lines.is_empty());
    // Every line is a rendered display line, so it carries the separator.
    assert!(lines.iter().all(|l| l.contains(": ")));
    assert!(lines.iter().all(|l| !l.contains('\n')));
    // The bundled table knows the grinning face.
    assert!(lines.iter().any(|l| l.starts_with("😀: ")));
}
