use sulmo::config::{AppConfig, ModelConfig};
use sulmo::turn::Turn;

fn default_config() -> ModelConfig {
    ModelConfig::new_default(4)
}

#[test]
fn default_args_exact() {
    let config = default_config();
    let expected: Vec<String> = [
        "--n-predict",
        "-1",
        "--threads",
        "4",
        "--n-gpu-layers",
        "32",
        "--ctx-size",
        "2048",
        "--temp",
        "0.75",
        "--repeat-penalty",
        "1.15",
    ]
    .iter()
    .map(|s| s.to_string())
    .collect();
    assert_eq!(config.to_args(), expected);
}

#[test]
fn extra_args_are_split_on_spaces() {
    let config = ModelConfig::assemble(
        128,
        2,
        0,
        512,
        "0.5".to_string(),
        "1.0".to_string(),
        "".to_string(),
        "".to_string(),
        true,
        "--tfs 0.95".to_string(),
        Vec::new(),
    );
    let args = config.to_args();
    assert_eq!(args[0], "--n-predict");
    assert_eq!(args[1], "128");
    assert_eq!(args[12], "--tfs");
    assert_eq!(args[13], "0.95");
    assert_eq!(args.len(), 14);
}

#[test]
fn prompt_is_wrapped_with_prefix_and_suffix() {
    let config = default_config();
    assert_eq!(config.to_prompt("Hello"), "###Instruction: Hello ###Response: ");
}

#[test]
fn model_print_lines() {
    let config = default_config();
    let lines = config.to_print();
    assert_eq!(lines.len(), 10);
    assert_eq!(lines[0], "tokens to predict            :    '-1'");
    assert_eq!(lines[1], "threads used                 :    '4'");
    assert_eq!(lines[4], "randomness                   :    '0.75'");
    assert_eq!(lines[6], "prompt prefix                :    '###Instruction: '");
    assert_eq!(lines[8], "prefix/suffix displayed      :    'false'");
}

#[test]
fn app_print_lines() {
    let app = AppConfig::default();
    let lines = app.to_print();
    assert_eq!(lines.len(), 2);
    assert_eq!(lines[0], "generation timeout           :    '420000'");
    assert_eq!(lines[1], "tick rate                    :    '200'");
}

#[test]
fn app_default_values() {
    let app = AppConfig::default();
    assert_eq!(app.timeout_ms, 420000);
    assert_eq!(app.tick_rate, 200);
    assert_eq!(app.startup_freeze, 1000);
}

#[test]
fn try_update_stores_changed_history() {
    let mut config = default_config();
    let hist = vec![Turn::from_parts(
        "hi".to_string(),
        "###Instruction: hi ###Response: ".to_string(),
        "hello".to_string(),
    )];
    let path = config.try_update("./models/llama.bin", &hist);
    assert_eq!(path, Some("./configs/llama.conf".to_string()));
    let stored = config.get_past_chunks();
    assert_eq!(stored.len(), 1);
    assert_eq!(stored[0].raw_input, "hi");
    assert_eq!(stored[0].response, "hello");
}

#[test]
fn try_update_ignores_unchanged_history() {
    let mut config = default_config();
    let hist = vec![Turn::from_parts("a".to_string(), "b".to_string(), "c".to_string())];
    assert!(config.try_update("./models/llama.bin", &hist).is_some());
    assert_eq!(config.try_update("./models/llama.bin", &hist), None);
}

#[test]
fn detected_threads_runs() {
    // The value is machine-dependent; the call must simply produce something.
    let _ = sulmo::config::detected_threads();
}
