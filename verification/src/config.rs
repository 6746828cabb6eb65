//! Generation and application configuration: the flags handed to the
//! generator executable, the prompt prefix/suffix, and the persisted history
//! snapshot used for change detection against the configuration store.

use vstd::prelude::*;
use vstd::string::*;

use crate::paths::{pathbuf_helper, spec_pathbuf_helper};
use crate::text::{dec_chars, i32_to_dec, sdec_chars, split_sp, split_spaces, u64_to_dec};
use crate::turn::{duplicate_turns, turns_equal, Turn, TurnView};

verus! {

/// The mathematical content of a [`ModelConfig`].
#[verifier::ext_equal]
pub struct ConfigView {
    pub tokens_to_predict: i32,
    pub threads_used: u8,
    pub layers_offloaded_to_gpu: u8,
    pub prompt_context_size: u16,
    pub randomness: Seq<char>,
    pub repeat_penalty: Seq<char>,
    pub prompt_prefix: Seq<char>,
    pub prompt_suffix: Seq<char>,
    pub ps_displayed: bool,
    pub other: Seq<char>,
    pub past_chunks: Seq<TurnView>,
}

/// Per-model generation parameters, plus the persisted turn-history snapshot
/// that change detection compares against. The sampling temperature and the
/// repeat penalty are carried as already-rendered decimal text: the engine
/// never computes with them, it only passes them on as arguments.
pub struct ModelConfig {
    /// `--n-predict`: token limit, `-1` for unlimited.
    pub tokens_to_predict: i32,
    /// `--threads`.
    pub threads_used: u8,
    /// `--n-gpu-layers`.
    pub layers_offloaded_to_gpu: u8,
    /// `--ctx-size`.
    pub prompt_context_size: u16,
    /// `--temp`, as decimal text.
    pub randomness: String,
    /// `--repeat-penalty`, as decimal text.
    pub repeat_penalty: String,
    /// Text placed before every prompt.
    pub prompt_prefix: String,
    /// Text placed after every prompt.
    pub prompt_suffix: String,
    /// Whether the prefix and suffix are shown by the presentation layer.
    pub ps_displayed: bool,
    /// Free-form extra arguments, separated by single spaces.
    pub other: String,
    /// The turn-history snapshot most recently handed to the store.
    pub past_chunks: Vec<Turn>,
}

impl View for ModelConfig {
    type V = ConfigView;

    open spec fn view(&self) -> ConfigView {
        ConfigView {
            tokens_to_predict: self.tokens_to_predict,
            threads_used: self.threads_used,
            layers_offloaded_to_gpu: self.layers_offloaded_to_gpu,
            prompt_context_size: self.prompt_context_size,
            randomness: self.randomness@,
            repeat_penalty: self.repeat_penalty@,
            prompt_prefix: self.prompt_prefix@,
            prompt_suffix: self.prompt_suffix@,
            ps_displayed: self.ps_displayed,
            other: self.other@,
            past_chunks: self.past_chunks.deep_view(),
        }
    }
}

/// The fixed generation arguments a configuration renders to, before any
/// free-form extras.
pub open spec fn spec_base_args(c: ConfigView) -> Seq<Seq<char>> {
    seq![
        "--n-predict"@,
        sdec_chars(c.tokens_to_predict as int),
        "--threads"@,
        dec_chars(c.threads_used as nat),
        "--n-gpu-layers"@,
        dec_chars(c.layers_offloaded_to_gpu as nat),
        "--ctx-size"@,
        dec_chars(c.prompt_context_size as nat),
        "--temp"@,
        c.randomness,
        "--repeat-penalty"@,
        c.repeat_penalty,
    ]
}

/// The full generation argument list: the fixed arguments, then the free-form
/// extras split on single spaces (none when the extra text is empty).
pub open spec fn spec_args(c: ConfigView) -> Seq<Seq<char>> {
    if c.other.len() == 0 {
        spec_base_args(c)
    } else {
        spec_base_args(c) + split_sp(c.other)
    }
}

/// A raw input wrapped with the configured prefix and suffix.
pub open spec fn spec_prompt(c: ConfigView, raw: Seq<char>) -> Seq<char> {
    c.prompt_prefix + raw + c.prompt_suffix
}

/// The decimal text of a boolean, as it is displayed.
pub open spec fn bool_chars(b: bool) -> Seq<char> {
    if b {
        "true"@
    } else {
        "false"@
    }
}

/// One settings line: a label column, then the value in single quotes.
pub open spec fn print_line(label: Seq<char>, value: Seq<char>) -> Seq<char> {
    label + value + "'"@
}

/// The settings lines a model configuration displays as.
pub open spec fn spec_model_print_lines(c: ConfigView) -> Seq<Seq<char>> {
    seq![
        print_line("tokens to predict            :    '"@, sdec_chars(c.tokens_to_predict as int)),
        print_line("threads used                 :    '"@, dec_chars(c.threads_used as nat)),
        print_line(
            "layers offloaded to gpu      :    '"@,
            dec_chars(c.layers_offloaded_to_gpu as nat),
        ),
        print_line(
            "prompt context size          :    '"@,
            dec_chars(c.prompt_context_size as nat),
        ),
        print_line("randomness                   :    '"@, c.randomness),
        print_line("repeat penalty               :    '"@, c.repeat_penalty),
        print_line("prompt prefix                :    '"@, c.prompt_prefix),
        print_line("prompt suffix                :    '"@, c.prompt_suffix),
        print_line("prefix/suffix displayed      :    '"@, bool_chars(c.ps_displayed)),
        print_line("other arguments              :    '"@, c.other),
    ]
}

/// The default configuration for a machine with the given thread count.
pub open spec fn spec_default_config(threads: u8) -> ConfigView {
    ConfigView {
        tokens_to_predict: -1i32,
        threads_used: threads,
        layers_offloaded_to_gpu: 32,
        prompt_context_size: 2048,
        randomness: "0.75"@,
        repeat_penalty: "1.15"@,
        prompt_prefix: "###Instruction: "@,
        prompt_suffix: " ###Response: "@,
        ps_displayed: false,
        other: ""@,
        past_chunks: Seq::<TurnView>::empty(),
    }
}

/// One settings line: the label, the value, and a closing quote.
fn build_line(label: &'static str, value: &str) -> (r: String)
    ensures
        r@ == print_line(label@, value@),
{
    let mut s = label.to_owned();
    s.append(value);
    s.append("'");
    s
}

/// Relies on sysinfo's `SystemExt::physical_core_count`: the number of
/// physical cores, when the platform reports one. The value depends on the
/// machine it runs on, so nothing is promised of it.
#[verifier::external_body]
fn physical_core_count() -> Option<usize> {
    let mut info: sysinfo::System = sysinfo::SystemExt::new();
    sysinfo::SystemExt::refresh_cpu(&mut info);
    sysinfo::SystemExt::physical_core_count(&info)
}

/// The thread count a core count maps to: the count truncated to a byte, or
/// two when the machine did not report one.
pub open spec fn spec_threads_for(cores: Option<usize>) -> u8 {
    match cores {
        Some(n) => (n % 256) as u8,
        None => 2,
    }
}

/// The thread count to use for a reported physical core count.
pub fn threads_for(cores: Option<usize>) -> (r: u8)
    ensures
        r == spec_threads_for(cores),
{
    match cores {
        Some(n) => (n % 256) as u8,
        None => 2,
    }
}

/// The thread count a fresh configuration starts with, read from the machine.
pub fn detected_threads() -> u8 {
    threads_for(physical_core_count())
}

impl ModelConfig {
    /// A configuration assembled from all its parts.
    #[allow(clippy::too_many_arguments)]
    pub fn assemble(
        tokens_to_predict: i32,
        threads_used: u8,
        layers_offloaded_to_gpu: u8,
        prompt_context_size: u16,
        randomness: String,
        repeat_penalty: String,
        prompt_prefix: String,
        prompt_suffix: String,
        ps_displayed: bool,
        other: String,
        past_chunks: Vec<Turn>,
    ) -> (r: ModelConfig)
        ensures
            r@ == (ConfigView {
                tokens_to_predict,
                threads_used,
                layers_offloaded_to_gpu,
                prompt_context_size,
                randomness: randomness@,
                repeat_penalty: repeat_penalty@,
                prompt_prefix: prompt_prefix@,
                prompt_suffix: prompt_suffix@,
                ps_displayed,
                other: other@,
                past_chunks: past_chunks.deep_view(),
            }),
    {
        ModelConfig {
            tokens_to_predict,
            threads_used,
            layers_offloaded_to_gpu,
            prompt_context_size,
            randomness,
            repeat_penalty,
            prompt_prefix,
            prompt_suffix,
            ps_displayed,
            other,
            past_chunks,
        }
    }

    /// The default configuration, with the given thread count.
    pub fn new_default(threads: u8) -> (r: ModelConfig)
        ensures
            r@ == spec_default_config(threads),
    {
        let r = ModelConfig {
            tokens_to_predict: -1,
            threads_used: threads,
            layers_offloaded_to_gpu: 32,
            prompt_context_size: 2048,
            randomness: "0.75".to_owned(),
            repeat_penalty: "1.15".to_owned(),
            prompt_prefix: "###Instruction: ".to_owned(),
            prompt_suffix: " ###Response: ".to_owned(),
            ps_displayed: false,
            other: "".to_owned(),
            past_chunks: Vec::new(),
        };
        proof {
            assert(r@.past_chunks =~= Seq::<TurnView>::empty());
            assert(r@ =~= spec_default_config(threads));
        }
        r
    }

    /// A copy of this configuration with the same content.
    pub fn duplicate(&self) -> (r: ModelConfig)
        ensures
            r@ == self@,
    {
        let r = ModelConfig {
            tokens_to_predict: self.tokens_to_predict,
            threads_used: self.threads_used,
            layers_offloaded_to_gpu: self.layers_offloaded_to_gpu,
            prompt_context_size: self.prompt_context_size,
            randomness: self.randomness.clone(),
            repeat_penalty: self.repeat_penalty.clone(),
            prompt_prefix: self.prompt_prefix.clone(),
            prompt_suffix: self.prompt_suffix.clone(),
            ps_displayed: self.ps_displayed,
            other: self.other.clone(),
            past_chunks: duplicate_turns(&self.past_chunks),
        };
        proof {
            assert(r@ =~= self@);
        }
        r
    }

    /// The argument list handed to the generator, exactly as
    /// [`spec_args`] renders this configuration.
    pub fn to_args(&self) -> (r: Vec<String>)
        ensures
            r.deep_view() == spec_args(self@),
    {
        let mut args: Vec<String> = Vec::new();
        args.push("--n-predict".to_owned());
        args.push(i32_to_dec(self.tokens_to_predict));
        args.push("--threads".to_owned());
        args.push(u64_to_dec(self.threads_used as u64));
        args.push("--n-gpu-layers".to_owned());
        args.push(u64_to_dec(self.layers_offloaded_to_gpu as u64));
        args.push("--ctx-size".to_owned());
        args.push(u64_to_dec(self.prompt_context_size as u64));
        args.push("--temp".to_owned());
        args.push(self.randomness.clone());
        args.push("--repeat-penalty".to_owned());
        args.push(self.repeat_penalty.clone());
        proof {
            assert(args.deep_view() =~~= spec_base_args(self@));
        }
        if !self.other.as_str().is_empty() {
            let ghost before = args.deep_view();
            let mut extra = split_spaces(self.other.as_str());
            let ghost extra_view = extra.deep_view();
            args.append(&mut extra);
            proof {
                assert(args.deep_view() =~~= before + extra_view);
                assert(args.deep_view() =~~= spec_args(self@));
            }
        }
        args
    }

    /// A raw input wrapped with the configured prefix and suffix.
    pub fn to_prompt(&self, prompt: &str) -> (r: String)
        ensures
            r@ == spec_prompt(self@, prompt@),
    {
        let mut s = self.prompt_prefix.clone();
        s.append(prompt);
        s.append(self.prompt_suffix.as_str());
        s
    }

    /// The settings lines this configuration displays as.
    pub fn to_print(&self) -> (r: Vec<String>)
        ensures
            r.deep_view() == spec_model_print_lines(self@),
    {
        let mut lines: Vec<String> = Vec::new();
        lines.push(
            build_line(
                "tokens to predict            :    '",
                i32_to_dec(self.tokens_to_predict).as_str(),
            ),
        );
        lines.push(
            build_line(
                "threads used                 :    '",
                u64_to_dec(self.threads_used as u64).as_str(),
            ),
        );
        lines.push(
            build_line(
                "layers offloaded to gpu      :    '",
                u64_to_dec(self.layers_offloaded_to_gpu as u64).as_str(),
            ),
        );
        lines.push(
            build_line(
                "prompt context size          :    '",
                u64_to_dec(self.prompt_context_size as u64).as_str(),
            ),
        );
        lines.push(build_line("randomness                   :    '", self.randomness.as_str()));
        lines.push(
            build_line("repeat penalty               :    '", self.repeat_penalty.as_str()),
        );
        lines.push(build_line("prompt prefix                :    '", self.prompt_prefix.as_str()));
        lines.push(build_line("prompt suffix                :    '", self.prompt_suffix.as_str()));
        let shown: &'static str = if self.ps_displayed {
            "true"
        } else {
            "false"
        };
        lines.push(build_line("prefix/suffix displayed      :    '", shown));
        lines.push(build_line("other arguments              :    '", self.other.as_str()));
        proof {
            assert(lines.deep_view() =~~= spec_model_print_lines(self@));
        }
        lines
    }

    /// Replaces the history snapshot when `hist` differs from it, handing
    /// back the configuration-store path (under `./configs/`, with extension
    /// `conf`) that the new snapshot should be persisted to. An unchanged
    /// history changes nothing and asks for no persisting.
    pub fn try_update(&mut self, model_path: &str, hist: &Vec<Turn>) -> (r: Option<String>)
        ensures
            old(self)@.past_chunks == hist.deep_view() ==> final(self)@ == old(self)@ && r is None,
            old(self)@.past_chunks != hist.deep_view() ==> {
                &&& final(self)@ == (ConfigView { past_chunks: hist.deep_view(), ..old(self)@ })
                &&& (match r {
                    Some(p) => spec_pathbuf_helper(model_path@, "./configs/"@, "conf"@) == Some(
                        p@,
                    ),
                    None => spec_pathbuf_helper(model_path@, "./configs/"@, "conf"@) is None,
                })
            },
    {
        if turns_equal(&self.past_chunks, hist) {
            None
        } else {
            self.past_chunks = duplicate_turns(hist);
            proof {
                assert(self@ =~= (ConfigView { past_chunks: hist.deep_view(), ..old(self)@ }));
            }
            pathbuf_helper(model_path, "./configs/", "conf")
        }
    }

    /// The history snapshot most recently handed to the store.
    pub fn get_past_chunks(&self) -> (r: Vec<Turn>)
        ensures
            r.deep_view() == self@.past_chunks,
    {
        duplicate_turns(&self.past_chunks)
    }
}

impl Default for ModelConfig {
    /// The default configuration, with the detected thread count.
    fn default() -> (r: ModelConfig)
        ensures
            r@ == spec_default_config(r@.threads_used),
    {
        ModelConfig::new_default(detected_threads())
    }
}

/// Application-wide settings: the per-session generation timeout and the
/// host's tick cadence, in milliseconds.
#[derive(Clone, Copy)]
pub struct AppConfig {
    /// Maximum time a generation may run before it is terminated.
    pub timeout_ms: u64,
    /// How often the host polls the sessions.
    pub tick_rate: u64,
    /// How long the host waits before entering the interface.
    pub startup_freeze: u64,
}

/// The settings lines the application configuration displays as.
pub open spec fn spec_app_print_lines(c: AppConfig) -> Seq<Seq<char>> {
    seq![
        print_line("generation timeout           :    '"@, dec_chars(c.timeout_ms as nat)),
        print_line("tick rate                    :    '"@, dec_chars(c.tick_rate as nat)),
    ]
}

impl AppConfig {
    /// The settings lines this configuration displays as.
    pub fn to_print(&self) -> (r: Vec<String>)
        ensures
            r.deep_view() == spec_app_print_lines(*self),
    {
        let mut lines: Vec<String> = Vec::new();
        lines.push(
            build_line("generation timeout           :    '", u64_to_dec(self.timeout_ms).as_str()),
        );
        lines.push(
            build_line("tick rate                    :    '", u64_to_dec(self.tick_rate).as_str()),
        );
        proof {
            assert(lines.deep_view() =~~= spec_app_print_lines(*self));
        }
        lines
    }
}

impl Default for AppConfig {
    /// Seven minutes of generation timeout, five polls a second, one second
    /// of startup delay.
    fn default() -> (r: AppConfig)
        ensures
            r.timeout_ms == 420000,
            r.tick_rate == 200,
            r.startup_freeze == 1000,
    {
        AppConfig { timeout_ms: 420000, tick_rate: 200, startup_freeze: 1000 }
    }
}

} // verus!
