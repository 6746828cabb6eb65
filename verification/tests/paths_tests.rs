use sulmo::paths::{file_name_str, pathbuf_helper, pathbuf_to_string};

#[test]
fn file_name_simple() {
    assert_eq!(file_name_str("./models/llama.bin"), Some("llama.bin".to_string()));
}

#[test]
fn file_name_no_directory() {
    assert_eq!(file_name_str("model.bin"), Some("model.bin".to_string()));
}

#[test]
fn file_name_missing() {
    assert_eq!(file_name_str("./models/"), None);
    assert_eq!(file_name_str(""), None);
    assert_eq!(file_name_str("a/.."), None);
}

#[test]
fn display_name_keeps_short_stem() {
    assert_eq!(pathbuf_to_string("./models/llama-7b.q4.bin", 35, "?"), "llama-7b.q4");
}

#[test]
fn display_name_truncates_long_stem() {
    assert_eq!(pathbuf_to_string("./models/a-very-long-model-name.bin", 10, "?"), "a-very-l..");
}

#[test]
fn display_name_falls_back_on_error_text() {
    assert_eq!(pathbuf_to_string("./models/", 35, "?"), "?");
}

#[test]
fn display_name_hidden_file_stem() {
    assert_eq!(pathbuf_to_string("./models/.hidden", 35, "?"), ".hidden");
}

#[test]
fn config_path_for_model() {
    assert_eq!(
        pathbuf_helper("./models/llama.bin", "./configs/", "conf"),
        Some("./configs/llama.conf".to_string())
    );
}

#[test]
fn config_path_without_trailing_separator() {
    assert_eq!(
        pathbuf_helper("models/x.bin", "./configs", "conf"),
        Some("./configs/x.conf".to_string())
    );
}

#[test]
fn config_path_adds_extension() {
    assert_eq!(pathbuf_helper("m/model", "c", "conf"), Some("c/model.conf".to_string()));
}

#[test]
fn config_path_missing_file_name() {
    assert_eq!(pathbuf_helper("m/", "c", "conf"), None);
}
