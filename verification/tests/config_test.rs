use zvec::config::{initialization_steps, jieba_dict_dir_to_register, ConfigBuilder, InitStep};
use zvec::types::LogLevel;

#[test]
fn config_builder_defaults() {
    let builder = ConfigBuilder::new();
    assert_eq!(builder.memory_limit, 0);
    assert_eq!(builder.num_threads, 0);
    assert!(!builder.enable_console_log);
    assert!(builder.jieba_dict_dir.is_none());
}

#[test]
fn config_builder_chaining() {
    let builder = ConfigBuilder::new()
        .memory_limit(1024)
        .num_threads(4)
        .enable_console_log(true)
        .build();
    assert_eq!(builder.memory_limit, 1024);
    assert_eq!(builder.num_threads, 4);
    assert!(builder.enable_console_log);
}

#[test]
fn config_builder_default_trait() {
    let builder = ConfigBuilder::default();
    assert_eq!(builder.memory_limit, 0);
    assert_eq!(builder.num_threads, 0);
    assert!(!builder.enable_console_log);
}

#[test]
fn config_builder_memory_limit_setter() {
    let builder = ConfigBuilder::new().memory_limit(2048);
    assert_eq!(builder.memory_limit, 2048);
}

#[test]
fn config_builder_num_threads_setter() {
    let builder = ConfigBuilder::new().num_threads(8);
    assert_eq!(builder.num_threads, 8);
}

#[test]
fn config_builder_enable_console_log_setter() {
    let builder = ConfigBuilder::new().enable_console_log(true);
    assert!(builder.enable_console_log);
}

#[test]
fn config_builder_jieba_dict_dir_setter() {
    let builder = ConfigBuilder::new().jieba_dict_dir("/tmp/jieba_dict");
    assert_eq!(builder.jieba_dict_dir.as_deref(), Some("/tmp/jieba_dict"));
}

#[test]
fn config_builder_build_returns_self() {
    let builder = ConfigBuilder::new()
        .memory_limit(4096)
        .num_threads(2)
        .enable_console_log(true)
        .build();
    assert_eq!(builder.memory_limit, 4096);
    assert_eq!(builder.num_threads, 2);
    assert!(builder.enable_console_log);
}

#[test]
fn config_builder_overwrite_values() {
    let builder = ConfigBuilder::new()
        .memory_limit(1024)
        .memory_limit(2048)
        .num_threads(4)
        .num_threads(8)
        .enable_console_log(false)
        .enable_console_log(true);
    assert_eq!(builder.memory_limit, 2048);
    assert_eq!(builder.num_threads, 8);
    assert!(builder.enable_console_log);
}

#[test]
fn config_builder_zero_values() {
    let builder = ConfigBuilder::new().memory_limit(0).num_threads(0);
    assert_eq!(builder.memory_limit, 0);
    assert_eq!(builder.num_threads, 0);
}

#[test]
fn config_builder_large_memory_limit() {
    let builder = ConfigBuilder::new().memory_limit(u64::MAX);
    assert_eq!(builder.memory_limit, u64::MAX);
}

#[test]
fn config_builder_fts_ratio() {
    let builder = ConfigBuilder::new();
    assert_eq!(builder.fts_brute_force_by_keys_ratio_bits, None);

    let builder = ConfigBuilder::new().fts_brute_force_by_keys_ratio(0.5f32.to_bits());
    assert_eq!(
        builder.fts_brute_force_by_keys_ratio_bits.map(f32::from_bits),
        Some(0.5)
    );
}

fn describe(steps: &[InitStep]) -> Vec<String> {
    steps
        .iter()
        .map(|s| match s {
            InitStep::RegisterDefaultJiebaDictDir => "register_jieba".to_string(),
            InitStep::CreateConfig => "create".to_string(),
            InitStep::SetMemoryLimit(b) => format!("memory={}", b),
            InitStep::SetQueryThreadCount(n) => format!("query_threads={}", n),
            InitStep::SetOptimizeThreadCount(n) => format!("optimize_threads={}", n),
            InitStep::SetConsoleLog(l) => format!("console={:?}", l),
            InitStep::SetFtsBruteForceByKeysRatio(r) => format!("fts={}", f32::from_bits(*r)),
            InitStep::SetJiebaDictDir(d) => format!("jieba={}", d),
            InitStep::InitializeWithDefaults => "init_default".to_string(),
            InitStep::InitializeWithConfig => "init_config".to_string(),
        })
        .collect()
}

#[test]
fn init_steps_without_config_registers_jieba_then_initializes() {
    let steps = initialization_steps(None);
    assert_eq!(describe(&steps), vec!["register_jieba", "init_default"]);
}

#[test]
fn init_steps_default_builder_only_creates_and_initializes() {
    let builder = ConfigBuilder::new();
    let steps = initialization_steps(Some(&builder));
    assert_eq!(
        describe(&steps),
        vec!["create", "register_jieba", "init_config"]
    );
}

#[test]
fn init_steps_full_builder_in_order() {
    let builder = ConfigBuilder::new()
        .memory_limit(1024)
        .num_threads(4)
        .enable_console_log(true)
        .fts_brute_force_by_keys_ratio(0.25f32.to_bits())
        .jieba_dict_dir("/opt/dict");
    let steps = initialization_steps(Some(&builder));
    assert_eq!(
        describe(&steps),
        vec![
            "create",
            "memory=1024",
            "query_threads=4",
            "optimize_threads=4",
            "console=Info",
            "fts=0.25",
            "jieba=/opt/dict",
            "init_config"
        ]
    );
    assert!(matches!(steps[4], InitStep::SetConsoleLog(LogLevel::Info)));
}

#[test]
fn jieba_dict_dir_registered_only_without_a_default() {
    assert_eq!(jieba_dict_dir_to_register("", &[false, true]), Some(1));
    assert_eq!(jieba_dict_dir_to_register("", &[true, true]), Some(0));
    assert_eq!(jieba_dict_dir_to_register("", &[false, false]), None);
    assert_eq!(jieba_dict_dir_to_register("", &[]), None);
    assert_eq!(jieba_dict_dir_to_register("/opt/jieba", &[true, true]), None);
}
