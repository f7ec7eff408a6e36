//! Library configuration: the builder users fill in, and the sequence of
//! configuration calls that initializing the library with it makes.
use vstd::prelude::*;

use crate::types::LogLevel;

verus! {

/// Configuration builder for initializing the zvec library.
///
/// This struct collects configuration values without touching the C library,
/// making it safe to use even before the library is initialized.
pub struct ConfigBuilder {
    /// Memory limit in bytes (0 = use library default).
    pub memory_limit: u64,
    /// Number of threads for query and optimize (0 = use library default).
    pub num_threads: u32,
    /// Whether to enable console logging at Info level.
    pub enable_console_log: bool,
    /// FTS brute-force-by-keys ratio, as the bit pattern of an `f32`
    /// (`f32::to_bits`); `None` = use library default.
    pub fts_brute_force_by_keys_ratio_bits: Option<u32>,
    /// Jieba dict directory for the FTS `jieba` tokenizer
    /// (`None` = auto-discover and register the process-wide default).
    pub jieba_dict_dir: Option<String>,
}

impl ConfigBuilder {
    /// The configuration a new builder holds: every value left to the library.
    pub open spec fn defaults() -> ConfigBuilder {
        ConfigBuilder {
            memory_limit: 0,
            num_threads: 0,
            enable_console_log: false,
            fts_brute_force_by_keys_ratio_bits: None,
            jieba_dict_dir: None,
        }
    }

    /// Creates a new builder with default values.
    pub fn new() -> (r: ConfigBuilder)
        ensures
            r == ConfigBuilder::defaults(),
    {
        ConfigBuilder {
            memory_limit: 0,
            num_threads: 0,
            enable_console_log: false,
            fts_brute_force_by_keys_ratio_bits: None,
            jieba_dict_dir: None,
        }
    }

    /// Sets the memory limit in bytes.
    pub fn memory_limit(self, bytes: u64) -> (r: ConfigBuilder)
        ensures
            r == (ConfigBuilder { memory_limit: bytes, ..self }),
    {
        ConfigBuilder { memory_limit: bytes, ..self }
    }

    /// Sets the number of threads for both query and optimize.
    pub fn num_threads(self, count: u32) -> (r: ConfigBuilder)
        ensures
            r == (ConfigBuilder { num_threads: count, ..self }),
    {
        ConfigBuilder { num_threads: count, ..self }
    }

    /// Enables or disables console logging at Info level.
    pub fn enable_console_log(self, enable: bool) -> (r: ConfigBuilder)
        ensures
            r == (ConfigBuilder { enable_console_log: enable, ..self }),
    {
        ConfigBuilder { enable_console_log: enable, ..self }
    }

    /// Sets the FTS brute-force-by-keys ratio, given as the bit pattern of an
    /// `f32` (`f32::to_bits`).
    pub fn fts_brute_force_by_keys_ratio(self, ratio_bits: u32) -> (r: ConfigBuilder)
        ensures
            r == (ConfigBuilder { fts_brute_force_by_keys_ratio_bits: Some(ratio_bits), ..self }),
    {
        ConfigBuilder { fts_brute_force_by_keys_ratio_bits: Some(ratio_bits), ..self }
    }

    /// Sets the jieba dict directory for the FTS `jieba` tokenizer.
    ///
    /// The directory must contain `jieba.dict.utf8` and `hmm_model.utf8`.
    /// When unset, initialization auto-discovers the dict directory that ships
    /// with the zvec library and registers it as the process-wide default.
    pub fn jieba_dict_dir(self, dir: &str) -> (r: ConfigBuilder)
        ensures
            r.jieba_dict_dir matches Some(d) && d@ == dir@,
            r == (ConfigBuilder { jieba_dict_dir: r.jieba_dict_dir, ..self }),
    {
        ConfigBuilder { jieba_dict_dir: Some(String::from_str(dir)), ..self }
    }

    /// Finalizes the builder configuration.
    ///
    /// This returns the builder unchanged: it is plain data, and nothing is
    /// allocated here. To apply the configuration, initialize the library
    /// with it.
    pub fn build(self) -> (r: ConfigBuilder)
        ensures
            r == self,
    {
        self
    }
}

impl Default for ConfigBuilder {
    fn default() -> (r: ConfigBuilder)
        ensures
            r == ConfigBuilder::defaults(),
    {
        ConfigBuilder::new()
    }
}

/// One call that initializing the library makes, in the order it makes them.
///
/// Initializing runs the steps in order and stops at the first step that
/// fails, returning its error.
#[derive(Debug)]
pub enum InitStep {
    /// Register the auto-discovered jieba dict directory as the process-wide
    /// default, unless a default is already registered.
    RegisterDefaultJiebaDictDir,
    /// Create the configuration handle.
    CreateConfig,
    /// Set the memory limit in bytes.
    SetMemoryLimit(u64),
    /// Set the number of query threads.
    SetQueryThreadCount(u32),
    /// Set the number of optimize threads.
    SetOptimizeThreadCount(u32),
    /// Log to the console at the given level.
    SetConsoleLog(LogLevel),
    /// Set the FTS brute-force-by-keys ratio (bit pattern of an `f32`).
    SetFtsBruteForceByKeysRatio(u32),
    /// Set the jieba dict directory.
    SetJiebaDictDir(String),
    /// Initialize the library with its default configuration.
    InitializeWithDefaults,
    /// Initialize the library with the configuration built by the steps before.
    InitializeWithConfig,
}

/// The plain-value view of a step: the directory of `SetJiebaDictDir` as its text.
pub enum InitStepView {
    RegisterDefaultJiebaDictDir,
    CreateConfig,
    SetMemoryLimit(u64),
    SetQueryThreadCount(u32),
    SetOptimizeThreadCount(u32),
    SetConsoleLog(LogLevel),
    SetFtsBruteForceByKeysRatio(u32),
    SetJiebaDictDir(Seq<char>),
    InitializeWithDefaults,
    InitializeWithConfig,
}

impl View for InitStep {
    type V = InitStepView;

    open spec fn view(&self) -> InitStepView {
        match self {
            InitStep::RegisterDefaultJiebaDictDir => InitStepView::RegisterDefaultJiebaDictDir,
            InitStep::CreateConfig => InitStepView::CreateConfig,
            InitStep::SetMemoryLimit(b) => InitStepView::SetMemoryLimit(*b),
            InitStep::SetQueryThreadCount(n) => InitStepView::SetQueryThreadCount(*n),
            InitStep::SetOptimizeThreadCount(n) => InitStepView::SetOptimizeThreadCount(*n),
            InitStep::SetConsoleLog(l) => InitStepView::SetConsoleLog(*l),
            InitStep::SetFtsBruteForceByKeysRatio(r) => InitStepView::SetFtsBruteForceByKeysRatio(*r),
            InitStep::SetJiebaDictDir(d) => InitStepView::SetJiebaDictDir(d@),
            InitStep::InitializeWithDefaults => InitStepView::InitializeWithDefaults,
            InitStep::InitializeWithConfig => InitStepView::InitializeWithConfig,
        }
    }
}

/// `s` when `c` holds, else nothing.
pub open spec fn steps_if(c: bool, s: Seq<InitStepView>) -> Seq<InitStepView> {
    if c {
        s
    } else {
        Seq::empty()
    }
}

/// The configuration calls that initializing with a configuration makes
/// before it gives the jieba tokenizer its dictionary directory: create the
/// configuration handle; set the memory limit when it is nonzero; set both
/// thread counts when the thread count is nonzero; enable console logging at
/// Info level when asked; set the FTS ratio when given.
pub open spec fn config_steps(b: ConfigBuilder) -> Seq<InitStepView> {
    seq![InitStepView::CreateConfig] + steps_if(
        b.memory_limit > 0,
        seq![InitStepView::SetMemoryLimit(b.memory_limit)],
    ) + steps_if(
        b.num_threads > 0,
        seq![
            InitStepView::SetQueryThreadCount(b.num_threads),
            InitStepView::SetOptimizeThreadCount(b.num_threads),
        ],
    ) + steps_if(b.enable_console_log, seq![InitStepView::SetConsoleLog(LogLevel::Info)])
        + match b.fts_brute_force_by_keys_ratio_bits {
        Some(r) => seq![InitStepView::SetFtsBruteForceByKeysRatio(r)],
        None => Seq::empty(),
    }
}

/// How initializing with a configuration gives the jieba tokenizer its
/// dictionary directory: the configured one when given, else the registered default.
pub open spec fn jieba_step(b: ConfigBuilder) -> InitStepView {
    match b.jieba_dict_dir {
        Some(d) => InitStepView::SetJiebaDictDir(d@),
        None => InitStepView::RegisterDefaultJiebaDictDir,
    }
}

/// The calls that initializing the library with an optional configuration makes.
///
/// Without a configuration: register the default jieba dict directory, then
/// initialize with defaults. With one: the configuration calls, then the
/// jieba directory call, then initialize with the configuration.
pub open spec fn init_steps(config: Option<ConfigBuilder>) -> Seq<InitStepView> {
    match config {
        None => seq![InitStepView::RegisterDefaultJiebaDictDir, InitStepView::InitializeWithDefaults],
        Some(b) => config_steps(b) + seq![jieba_step(b)] + seq![InitStepView::InitializeWithConfig],
    }
}

/// Returns the calls, in order, that initializing the library with the given
/// configuration makes.
pub fn initialization_steps(config: Option<&ConfigBuilder>) -> (r: Vec<InitStep>)
    ensures
        r@.map_values(|s: InitStep| s@) == init_steps(
            match config {
                Some(b) => Some(*b),
                None => None,
            },
        ),
{
    let mut steps: Vec<InitStep> = Vec::new();
    match config {
        None => {
            steps.push(InitStep::RegisterDefaultJiebaDictDir);
            steps.push(InitStep::InitializeWithDefaults);
            assert(steps@.map_values(|s: InitStep| s@) =~= init_steps(None));
        },
        Some(b) => {
            let ghost mut expect: Seq<InitStepView> = seq![InitStepView::CreateConfig];
            steps.push(InitStep::CreateConfig);
            assert(steps@.map_values(|s: InitStep| s@) =~= expect);
            if b.memory_limit > 0 {
                steps.push(InitStep::SetMemoryLimit(b.memory_limit));
            }
            proof {
                expect = expect + steps_if(
                    b.memory_limit > 0,
                    seq![InitStepView::SetMemoryLimit(b.memory_limit)],
                );
            }
            assert(steps@.map_values(|s: InitStep| s@) =~= expect);
            if b.num_threads > 0 {
                steps.push(InitStep::SetQueryThreadCount(b.num_threads));
                steps.push(InitStep::SetOptimizeThreadCount(b.num_threads));
            }
            proof {
                expect = expect + steps_if(
                    b.num_threads > 0,
                    seq![
                        InitStepView::SetQueryThreadCount(b.num_threads),
                        InitStepView::SetOptimizeThreadCount(b.num_threads),
                    ],
                );
            }
            assert(steps@.map_values(|s: InitStep| s@) =~= expect);
            if b.enable_console_log {
                steps.push(InitStep::SetConsoleLog(LogLevel::Info));
            }
            proof {
                expect = expect + steps_if(
                    b.enable_console_log,
                    seq![InitStepView::SetConsoleLog(LogLevel::Info)],
                );
            }
            assert(steps@.map_values(|s: InitStep| s@) =~= expect);
            match b.fts_brute_force_by_keys_ratio_bits {
                Some(r) => {
                    steps.push(InitStep::SetFtsBruteForceByKeysRatio(r));
                },
                None => {},
            }
            proof {
                expect = expect + match b.fts_brute_force_by_keys_ratio_bits {
                    Some(r) => seq![InitStepView::SetFtsBruteForceByKeysRatio(r)],
                    None => Seq::empty(),
                };
            }
            assert(steps@.map_values(|s: InitStep| s@) =~= expect);
            match &b.jieba_dict_dir {
                Some(d) => {
                    steps.push(InitStep::SetJiebaDictDir(d.clone()));
                },
                None => {
                    steps.push(InitStep::RegisterDefaultJiebaDictDir);
                },
            }
            proof {
                expect = expect + match &b.jieba_dict_dir {
                    Some(d) => seq![InitStepView::SetJiebaDictDir(d@)],
                    None => seq![InitStepView::RegisterDefaultJiebaDictDir],
                };
            }
            assert(steps@.map_values(|s: InitStep| s@) =~= expect);
            steps.push(InitStep::InitializeWithConfig);
            assert(steps@.map_values(|s: InitStep| s@) =~= init_steps(Some(*b)));
        },
    }
    steps
}

/// Which auto-discovered jieba dict directory initializing registers as the
/// process-wide default, given the default registered now and, for each
/// discovered candidate directory in search order, whether it holds the
/// dictionary files.
///
/// Nothing is registered when a default is already registered (a non-empty
/// one); otherwise the first candidate that holds the files is, if any does.
pub fn jieba_dict_dir_to_register(current_default: &str, candidate_is_dict_dir: &[bool]) -> (r:
    Option<usize>)
    ensures
        current_default@.len() > 0 ==> r is None,
        current_default@.len() == 0 ==> match r {
            Some(i) => i < candidate_is_dict_dir@.len() && candidate_is_dict_dir@[i as int] && forall|
                j: int,
            | 0 <= j < i ==> !candidate_is_dict_dir@[j],
            None => forall|j: int|
                0 <= j < candidate_is_dict_dir@.len() ==> !candidate_is_dict_dir@[j],
        },
{
    if current_default.unicode_len() > 0 {
        return None;
    }
    let mut i: usize = 0;
    while i < candidate_is_dict_dir.len()
        invariant
            current_default@.len() == 0,
            i <= candidate_is_dict_dir@.len(),
            forall|j: int| 0 <= j < i ==> !candidate_is_dict_dir@[j],
        decreases candidate_is_dict_dir@.len() - i,
    {
        if candidate_is_dict_dir[i] {
            return Some(i);
        }
        i = i + 1;
    }
    None
}

/// Initializing with a configuration sets the query and the optimize thread
/// counts together, both to the configured count, exactly when that count is
/// nonzero; and it sets the memory limit exactly when that limit is nonzero.
pub proof fn lemma_init_thread_counts_and_memory(b: ConfigBuilder, n: u32, m: u64)
    ensures
        init_steps(Some(b)).contains(InitStepView::SetQueryThreadCount(n)) <==> (n == b.num_threads
            && n > 0),
        init_steps(Some(b)).contains(InitStepView::SetOptimizeThreadCount(n)) <==> (n
            == b.num_threads && n > 0),
        init_steps(Some(b)).contains(InitStepView::SetMemoryLimit(m)) <==> (m == b.memory_limit
            && m > 0),
{
    let s = init_steps(Some(b));
    if b.num_threads > 0 && n == b.num_threads {
        let k = if b.memory_limit > 0 { 2int } else { 1int };
        assert(s[k] == InitStepView::SetQueryThreadCount(n));
        assert(s[k + 1] == InitStepView::SetOptimizeThreadCount(n));
    }
    if b.memory_limit > 0 && m == b.memory_limit {
        assert(s[1] == InitStepView::SetMemoryLimit(m));
    }
}

/// Whether a step is one of the two ways to give the jieba tokenizer its
/// dictionary directory.
pub open spec fn is_jieba_step(s: InitStepView) -> bool {
    s is SetJiebaDictDir || s is RegisterDefaultJiebaDictDir
}

/// Whether a step initializes the library.
pub open spec fn is_initialize_step(s: InitStepView) -> bool {
    s is InitializeWithDefaults || s is InitializeWithConfig
}

/// Every initialization gives the jieba tokenizer its dictionary directory in
/// exactly one way, before initializing: the configured directory when one is
/// given, else the registered default. It ends with exactly one call that
/// initializes the library, with defaults exactly when no configuration is given.
pub proof fn lemma_init_jieba_and_last_step(config: Option<ConfigBuilder>)
    ensures
        init_steps(config).filter(|s: InitStepView| is_jieba_step(s)).len() == 1,
        init_steps(config).filter(|s: InitStepView| is_initialize_step(s)) == seq![
            init_steps(config).last(),
        ],
        init_steps(config).last() == (if config is None {
            InitStepView::InitializeWithDefaults
        } else {
            InitStepView::InitializeWithConfig
        }),
        config matches Some(b) ==> (b.jieba_dict_dir matches Some(d) ==> init_steps(
            config,
        ).contains(InitStepView::SetJiebaDictDir(d@))),
        config matches Some(b) ==> (b.jieba_dict_dir is None ==> init_steps(config).contains(
            InitStepView::RegisterDefaultJiebaDictDir,
        )),
{
    match config {
        None => lemma_init_steps_without_config(),
        Some(b) => lemma_init_steps_with_config(b),
    }
}

/// Without a configuration, the steps register the default jieba directory
/// and then initialize with defaults.
#[verifier::spinoff_prover]
proof fn lemma_init_steps_without_config()
    ensures
        init_steps(None).filter(|s: InitStepView| is_jieba_step(s)).len() == 1,
        init_steps(None).filter(|s: InitStepView| is_initialize_step(s)) == seq![
            InitStepView::InitializeWithDefaults,
        ],
        init_steps(None).last() == InitStepView::InitializeWithDefaults,
{
    let first = InitStepView::RegisterDefaultJiebaDictDir;
    let last = InitStepView::InitializeWithDefaults;
    let s = init_steps(None);
    reveal_with_fuel(Seq::filter, 3);
    assert(s =~= seq![first, last]);
    assert(s.drop_last() =~= seq![first]);
    assert(seq![first].drop_last() =~= Seq::<InitStepView>::empty());
    assert(s.filter(|s: InitStepView| is_jieba_step(s)) =~= seq![first]);
    assert(s.filter(|s: InitStepView| is_initialize_step(s)) =~= seq![last]);
}

/// With a configuration, the configuration calls are followed by one jieba
/// step, the configured directory or the registered default, and then by the
/// one call that initializes with the configuration.
#[verifier::spinoff_prover]
proof fn lemma_init_steps_with_config(b: ConfigBuilder)
    ensures
        init_steps(Some(b)).filter(|s: InitStepView| is_jieba_step(s)).len() == 1,
        init_steps(Some(b)).filter(|s: InitStepView| is_initialize_step(s)) == seq![
            InitStepView::InitializeWithConfig,
        ],
        init_steps(Some(b)).last() == InitStepView::InitializeWithConfig,
        init_steps(Some(b)).contains(jieba_step(b)),
{
    let head = config_steps(b);
    let j = jieba_step(b);
    let last = InitStepView::InitializeWithConfig;
    assert(init_steps(Some(b)) == head + seq![j] + seq![last]);
    lemma_config_steps_plain(b);
    lemma_filter_split(head, j, last);
    lemma_ends_with(head, j, last);
}

/// A sequence made of a head, then `j`, then `last` ends with `last` and holds `j`.
proof fn lemma_ends_with<A>(head: Seq<A>, j: A, last: A)
    ensures
        (head + seq![j] + seq![last]).last() == last,
        (head + seq![j] + seq![last]).contains(j),
{
    assert((head + seq![j] + seq![last])[head.len() as int] == j);
}

/// The configuration calls neither give the jieba directory nor initialize.
proof fn lemma_config_steps_plain(b: ConfigBuilder)
    ensures
        forall|i: int|
            0 <= i < config_steps(b).len() ==> !is_jieba_step(#[trigger] config_steps(b)[i])
                && !is_initialize_step(config_steps(b)[i]),
{
    let p0 = seq![InitStepView::CreateConfig];
    let p1 = steps_if(b.memory_limit > 0, seq![InitStepView::SetMemoryLimit(b.memory_limit)]);
    let p2 = steps_if(
        b.num_threads > 0,
        seq![
            InitStepView::SetQueryThreadCount(b.num_threads),
            InitStepView::SetOptimizeThreadCount(b.num_threads),
        ],
    );
    let p3 = steps_if(b.enable_console_log, seq![InitStepView::SetConsoleLog(LogLevel::Info)]);
    let p4 = match b.fts_brute_force_by_keys_ratio_bits {
        Some(r) => seq![InitStepView::SetFtsBruteForceByKeysRatio(r)],
        None => Seq::<InitStepView>::empty(),
    };
    let q1 = p0 + p1;
    let q2 = q1 + p2;
    let q3 = q2 + p3;
    let q4 = q3 + p4;
    assert(forall|i: int| 0 <= i < q1.len() ==> !is_jieba_step(#[trigger] q1[i]) && !is_initialize_step(q1[i]));
    assert(forall|i: int| 0 <= i < q2.len() ==> !is_jieba_step(#[trigger] q2[i]) && !is_initialize_step(q2[i]));
    assert(forall|i: int| 0 <= i < q3.len() ==> !is_jieba_step(#[trigger] q3[i]) && !is_initialize_step(q3[i]));
    assert(forall|i: int| 0 <= i < q4.len() ==> !is_jieba_step(#[trigger] q4[i]) && !is_initialize_step(q4[i]));
}

/// A run of steps that neither gives the jieba directory nor initializes,
/// followed by one jieba step and one initializing step, holds exactly one of
/// each.
proof fn lemma_filter_split(head: Seq<InitStepView>, j: InitStepView, last: InitStepView)
    requires
        forall|i: int| 0 <= i < head.len() ==> !is_jieba_step(#[trigger] head[i]) && !is_initialize_step(head[i]),
        is_jieba_step(j) && !is_initialize_step(j),
        is_initialize_step(last) && !is_jieba_step(last),
    ensures
        (head + seq![j] + seq![last]).filter(|s: InitStepView| is_jieba_step(s)).len() == 1,
        (head + seq![j] + seq![last]).filter(|s: InitStepView| is_initialize_step(s)) == seq![last],
{
    let fj = |x: InitStepView| is_jieba_step(x);
    let fi = |x: InitStepView| is_initialize_step(x);
    lemma_filter_none(head, fj);
    lemma_filter_none(head, fi);
    Seq::filter_distributes_over_add(head, seq![j], fj);
    Seq::filter_distributes_over_add(head + seq![j], seq![last], fj);
    Seq::filter_distributes_over_add(head, seq![j], fi);
    Seq::filter_distributes_over_add(head + seq![j], seq![last], fi);
    lemma_filter_single(j, fj);
    lemma_filter_single(j, fi);
    lemma_filter_single(last, fj);
    lemma_filter_single(last, fi);
    assert(Seq::<InitStepView>::empty() + seq![j] =~= seq![j]);
    assert(Seq::<InitStepView>::empty() + Seq::<InitStepView>::empty() =~= Seq::<InitStepView>::empty());
    assert(Seq::<InitStepView>::empty() + seq![last] =~= seq![last]);
    assert(seq![j] + Seq::<InitStepView>::empty() =~= seq![j]);
}

/// Filtering a one-item sequence keeps the item exactly when it passes.
pub(crate) proof fn lemma_filter_single<A>(x: A, f: spec_fn(A) -> bool)
    ensures
        seq![x].filter(f) == (if f(x) { seq![x] } else { Seq::<A>::empty() }),
{
    reveal_with_fuel(Seq::filter, 2);
    assert(seq![x].drop_last() =~= Seq::<A>::empty());
    if f(x) {
        assert(seq![x].filter(f) =~= seq![x]);
    } else {
        assert(seq![x].filter(f) =~= Seq::<A>::empty());
    }
}

/// Filtering a sequence none of whose items passes gives the empty sequence.
pub(crate) proof fn lemma_filter_none<A>(s: Seq<A>, f: spec_fn(A) -> bool)
    requires
        forall|i: int| 0 <= i < s.len() ==> !f(#[trigger] s[i]),
    ensures
        s.filter(f) == Seq::<A>::empty(),
    decreases s.len(),
{
    reveal_with_fuel(Seq::filter, 1);
    if s.len() > 0 {
        lemma_filter_none(s.drop_last(), f);
        assert(!f(s.last()));
    }
    assert(s.filter(f) =~= Seq::<A>::empty());
}


/// Whether a step enables console logging.
pub open spec fn is_console_log_step(s: InitStepView) -> bool {
    s is SetConsoleLog
}

/// Whether a step sets the FTS brute-force-by-keys ratio.
pub open spec fn is_fts_ratio_step(s: InitStepView) -> bool {
    s is SetFtsBruteForceByKeysRatio
}

/// Filtering a sequence whose items all pass gives the sequence itself.
pub(crate) proof fn lemma_filter_all<A>(s: Seq<A>, f: spec_fn(A) -> bool)
    requires
        forall|i: int| 0 <= i < s.len() ==> f(#[trigger] s[i]),
    ensures
        s.filter(f) == s,
    decreases s.len(),
{
    reveal_with_fuel(Seq::filter, 1);
    if s.len() > 0 {
        lemma_filter_all(s.drop_last(), f);
        assert(f(s.last()));
        assert(s.drop_last().push(s.last()) =~= s);
    }
    assert(s.filter(f) =~= s);
}

/// Filtering seven runs of items one after the other gives the filtered
/// runs one after the other.
pub(crate) proof fn lemma_filter_concat7<A>(
    a: Seq<A>,
    b: Seq<A>,
    c: Seq<A>,
    d: Seq<A>,
    e: Seq<A>,
    g: Seq<A>,
    h: Seq<A>,
    f: spec_fn(A) -> bool,
)
    ensures
        (a + b + c + d + e + g + h).filter(f) == a.filter(f) + b.filter(f) + c.filter(f) + d.filter(
            f,
        ) + e.filter(f) + g.filter(f) + h.filter(f),
{
    Seq::filter_distributes_over_add(a, b, f);
    Seq::filter_distributes_over_add(a + b, c, f);
    Seq::filter_distributes_over_add(a + b + c, d, f);
    Seq::filter_distributes_over_add(a + b + c + d, e, f);
    Seq::filter_distributes_over_add(a + b + c + d + e, g, f);
    Seq::filter_distributes_over_add(a + b + c + d + e + g, h, f);
}

/// Initializing with a configuration enables console logging, at Info level,
/// once when the configuration asks for it and never otherwise, whatever else
/// the configuration sets; and it sets the FTS brute-force-by-keys ratio
/// once, to the configured value, when one is given, and never otherwise.
#[verifier::spinoff_prover]
pub proof fn lemma_init_console_log_and_fts_ratio(b: ConfigBuilder)
    ensures
        init_steps(Some(b)).filter(|s: InitStepView| is_console_log_step(s)) == (if b.enable_console_log {
            seq![InitStepView::SetConsoleLog(LogLevel::Info)]
        } else {
            Seq::<InitStepView>::empty()
        }),
        init_steps(Some(b)).filter(|s: InitStepView| is_fts_ratio_step(s)) == match b.fts_brute_force_by_keys_ratio_bits {
            Some(r) => seq![InitStepView::SetFtsBruteForceByKeysRatio(r)],
            None => Seq::<InitStepView>::empty(),
        },
{
    let fc = |s: InitStepView| is_console_log_step(s);
    let fr = |s: InitStepView| is_fts_ratio_step(s);
    let p0 = seq![InitStepView::CreateConfig];
    let p1 = steps_if(b.memory_limit > 0, seq![InitStepView::SetMemoryLimit(b.memory_limit)]);
    let p2 = steps_if(
        b.num_threads > 0,
        seq![
            InitStepView::SetQueryThreadCount(b.num_threads),
            InitStepView::SetOptimizeThreadCount(b.num_threads),
        ],
    );
    let p3 = steps_if(b.enable_console_log, seq![InitStepView::SetConsoleLog(LogLevel::Info)]);
    let p4 = match b.fts_brute_force_by_keys_ratio_bits {
        Some(r) => seq![InitStepView::SetFtsBruteForceByKeysRatio(r)],
        None => Seq::<InitStepView>::empty(),
    };
    let p5 = seq![jieba_step(b)];
    let p6 = seq![InitStepView::InitializeWithConfig];
    assert(init_steps(Some(b)) == p0 + p1 + p2 + p3 + p4 + p5 + p6);
    lemma_filter_concat7(p0, p1, p2, p3, p4, p5, p6, fc);
    lemma_filter_concat7(p0, p1, p2, p3, p4, p5, p6, fr);
    lemma_filter_none(p0, fc);
    lemma_filter_none(p0, fr);
    lemma_filter_none(p1, fc);
    lemma_filter_none(p1, fr);
    lemma_filter_none(p2, fc);
    lemma_filter_none(p2, fr);
    lemma_filter_all(p3, fc);
    lemma_filter_none(p3, fr);
    lemma_filter_none(p4, fc);
    lemma_filter_all(p4, fr);
    lemma_filter_none(p5, fc);
    lemma_filter_none(p5, fr);
    lemma_filter_none(p6, fc);
    lemma_filter_none(p6, fr);
    let e = Seq::<InitStepView>::empty();
    assert(e + e + e + p3 + e + e + e =~= p3);
    assert(e + e + e + e + p4 + e + e =~= p4);
}

} // verus!
