//! Logging settings: level, output format, where the log goes, and the count
//! of successful operations by name.
use crate::text::str_equal;
use vstd::prelude::*;

verus! {

/// Log level configuration.
#[derive(Debug, Clone, Copy, PartialEq, Eq, Structural)]
pub enum LogLevel {
    Trace,
    Debug,
    Info,
    Warn,
    Error,
}

impl Default for LogLevel {
    fn default() -> (r: Self)
        ensures
            r == LogLevel::Info,
    {
        LogLevel::Info
    }
}

/// Log format configuration.
#[derive(Debug, Clone, Copy, PartialEq, Eq, Structural)]
pub enum LogFormat {
    Json,
    Pretty,
    Compact,
}

impl Default for LogFormat {
    fn default() -> (r: Self)
        ensures
            r == LogFormat::Pretty,
    {
        LogFormat::Pretty
    }
}

/// Simplified logging configuration.
#[derive(Debug, Clone, Copy, PartialEq, Eq, Structural)]
pub struct LoggingConfig {
    /// Log level for the application
    pub level: LogLevel,
    /// Log format (json, pretty, compact)
    pub format: LogFormat,
    /// Whether to enable console logging
    pub console_enabled: bool,
    /// Whether to enable file logging
    pub file_enabled: bool,
}

impl Default for LoggingConfig {
    fn default() -> (r: Self)
        ensures
            r == (LoggingConfig {
                level: LogLevel::Info,
                format: LogFormat::Pretty,
                console_enabled: true,
                file_enabled: false,
            }),
    {
        LoggingConfig {
            level: LogLevel::Info,
            format: LogFormat::Pretty,
            console_enabled: true,
            file_enabled: false,
        }
    }
}

/// Where the console layer of the log goes.
#[derive(Debug, Clone, Copy, PartialEq, Eq, Structural)]
pub enum ConsoleOutput {
    Json,
    Pretty,
    Compact,
    /// Console logging is off: the layer writes nowhere.
    Discard,
}

/// The filter directive of a log level.
pub open spec fn level_directive(level: LogLevel) -> Seq<char> {
    match level {
        LogLevel::Trace => "trace"@,
        LogLevel::Debug => "debug"@,
        LogLevel::Info => "info"@,
        LogLevel::Warn => "warn"@,
        LogLevel::Error => "error"@,
    }
}

impl LoggingConfig {
    /// Create a production configuration.
    pub fn production() -> (r: Self)
        ensures
            r == (LoggingConfig {
                level: LogLevel::Warn,
                format: LogFormat::Json,
                console_enabled: true,
                file_enabled: true,
            }),
    {
        LoggingConfig {
            level: LogLevel::Warn,
            format: LogFormat::Json,
            console_enabled: true,
            file_enabled: true,
        }
    }

    /// Create a development configuration.
    pub fn development() -> (r: Self)
        ensures
            r == (LoggingConfig {
                level: LogLevel::Debug,
                format: LogFormat::Pretty,
                console_enabled: true,
                file_enabled: false,
            }),
    {
        LoggingConfig {
            level: LogLevel::Debug,
            format: LogFormat::Pretty,
            console_enabled: true,
            file_enabled: false,
        }
    }

    /// The filter directive used when the environment sets none.
    pub fn filter_directive(&self) -> (r: &'static str)
        ensures
            r@ == level_directive(self.level),
    {
        proof {
            reveal_strlit("trace");
            reveal_strlit("debug");
            reveal_strlit("info");
            reveal_strlit("warn");
            reveal_strlit("error");
        }
        match self.level {
            LogLevel::Trace => "trace",
            LogLevel::Debug => "debug",
            LogLevel::Info => "info",
            LogLevel::Warn => "warn",
            LogLevel::Error => "error",
        }
    }

    /// The console layer: the configured format, or nowhere when console
    /// logging is off.
    pub fn console_output(&self) -> (r: ConsoleOutput)
        ensures
            !self.console_enabled ==> r == ConsoleOutput::Discard,
            self.console_enabled ==> r == match self.format {
                LogFormat::Json => ConsoleOutput::Json,
                LogFormat::Pretty => ConsoleOutput::Pretty,
                LogFormat::Compact => ConsoleOutput::Compact,
            },
    {
        if !self.console_enabled {
            ConsoleOutput::Discard
        } else {
            match self.format {
                LogFormat::Json => ConsoleOutput::Json,
                LogFormat::Pretty => ConsoleOutput::Pretty,
                LogFormat::Compact => ConsoleOutput::Compact,
            }
        }
    }
}

/// The names in a list of counts.
pub open spec fn count_names(v: Seq<(String, u64)>) -> Seq<Seq<char>> {
    Seq::new(v.len(), |i: int| v[i].0@)
}

/// The counts as a map from operation name to count.
pub open spec fn count_map(v: Seq<(String, u64)>) -> Map<Seq<char>, u64>
    decreases v.len(),
{
    if v.len() == 0 {
        Map::empty()
    } else {
        count_map(v.drop_last()).insert(v.last().0@, v.last().1)
    }
}

/// Counts of successful operations, by operation name.
pub struct MetricsCollector {
    operation_counts: Vec<(String, u64)>,
}

impl View for MetricsCollector {
    type V = Map<Seq<char>, u64>;

    /// How many times each operation has succeeded.
    closed spec fn view(&self) -> Map<Seq<char>, u64> {
        count_map(self.operation_counts@)
    }
}

proof fn lemma_count_map_lookup(v: Seq<(String, u64)>, i: int)
    requires
        0 <= i < v.len(),
        count_names(v).no_duplicates(),
    ensures
        count_map(v).contains_key(v[i].0@),
        count_map(v)[v[i].0@] == v[i].1,
    decreases v.len(),
{
    if i < v.len() - 1 {
        assert(count_names(v)[i] == v[i].0@ && count_names(v)[v.len() - 1] == v.last().0@);
        assert(count_names(v.drop_last()) =~= count_names(v).drop_last());
        lemma_count_map_lookup(v.drop_last(), i);
    }
}

proof fn lemma_count_map_absent(v: Seq<(String, u64)>, name: Seq<char>)
    requires
        forall|j: int| 0 <= j < v.len() ==> v[j].0@ != name,
    ensures
        !count_map(v).contains_key(name),
    decreases v.len(),
{
    if v.len() > 0 {
        lemma_count_map_absent(v.drop_last(), name);
    }
}

proof fn lemma_count_map_update(v: Seq<(String, u64)>, i: int, entry: (String, u64))
    requires
        0 <= i < v.len(),
        count_names(v).no_duplicates(),
        entry.0@ == v[i].0@,
    ensures
        count_map(v.update(i, entry)) == count_map(v).insert(entry.0@, entry.1),
        count_names(v.update(i, entry)) == count_names(v),
    decreases v.len(),
{
    assert(count_names(v.update(i, entry)) =~= count_names(v));
    if i == v.len() - 1 {
        assert(v.update(i, entry).drop_last() =~= v.drop_last());
        assert forall|j: int| 0 <= j < v.drop_last().len() implies v.drop_last()[j].0@ != entry.0@ by {
            assert(count_names(v)[j] == v[j].0@ && count_names(v)[i] == v[i].0@);
        }
        lemma_count_map_absent(v.drop_last(), entry.0@);
        assert(count_map(v.update(i, entry)) =~= count_map(v).insert(entry.0@, entry.1));
    } else {
        assert(v.update(i, entry).drop_last() =~= v.drop_last().update(i, entry));
        assert(count_names(v.drop_last()) =~= count_names(v).drop_last());
        lemma_count_map_update(v.drop_last(), i, entry);
        assert(v.last().0@ != entry.0@) by {
            assert(count_names(v)[i] == v[i].0@ && count_names(v)[v.len() - 1] == v.last().0@);
        }
        assert(count_map(v.update(i, entry)) =~= count_map(v).insert(entry.0@, entry.1));
    }
}

impl MetricsCollector {
    #[verifier::type_invariant]
    spec fn names_unique(self) -> bool {
        count_names(self.operation_counts@).no_duplicates()
    }

    /// Create a new metrics collector.
    pub fn new() -> (r: Self)
        ensures
            r@ == Map::<Seq<char>, u64>::empty(),
    {
        MetricsCollector { operation_counts: Vec::new() }
    }

    /// How many times `operation` has succeeded: 0 for one never recorded.
    pub fn count(&self, operation: &str) -> (r: u64)
        ensures
            self@.contains_key(operation@) ==> r == self@[operation@],
            !self@.contains_key(operation@) ==> r == 0,
    {
        proof {
            use_type_invariant(self);
        }
        let n = self.operation_counts.len();
        let mut i: usize = 0;
        while i < n
            invariant
                n == self.operation_counts@.len(),
                i <= n,
                count_names(self.operation_counts@).no_duplicates(),
                forall|j: int| 0 <= j < i ==> self.operation_counts@[j].0@ != operation@,
            decreases n - i,
        {
            if str_equal(self.operation_counts[i].0.as_str(), operation) {
                proof {
                    lemma_count_map_lookup(self.operation_counts@, i as int);
                }
                return self.operation_counts[i].1;
            }
            i = i + 1;
        }
        proof {
            lemma_count_map_absent(self.operation_counts@, operation@);
        }
        0
    }

    /// Record operation success: its count goes up by one, starting from 0.
    pub fn record_operation_success(&mut self, operation: &str)
        requires
            old(self)@.contains_key(operation@) ==> old(self)@[operation@] < u64::MAX,
        ensures
            final(self)@ == old(self)@.insert(
                operation@,
                (if old(self)@.contains_key(operation@) {
                    old(self)@[operation@] + 1
                } else {
                    1
                }) as u64,
            ),
    {
        proof {
            use_type_invariant(&*self);
        }
        let ghost before = self.operation_counts@;
        assert(old(self)@ == count_map(before));
        let n = self.operation_counts.len();
        let mut i: usize = 0;
        while i < n
            invariant
                n == self.operation_counts@.len(),
                self.operation_counts@ == before,
                old(self)@ == count_map(before),
                count_names(before).no_duplicates(),
                count_map(before).contains_key(operation@) ==> count_map(before)[operation@] < u64::MAX,
                i <= n,
                forall|j: int| 0 <= j < i ==> before[j].0@ != operation@,
            decreases n - i,
        {
            if str_equal(self.operation_counts[i].0.as_str(), operation) {
                proof {
                    lemma_count_map_lookup(before, i as int);
                }
                let count = self.operation_counts[i].1;
                let entry = (operation.to_owned(), count + 1);
                proof {
                    lemma_count_map_update(before, i as int, entry);
                }
                let mut counts: Vec<(String, u64)> = Vec::new();
                std::mem::swap(&mut counts, &mut self.operation_counts);
                counts.set(i, entry);
                assert(counts@ == before.update(i as int, entry));
                self.operation_counts = counts;
                return;
            }
            i = i + 1;
        }
        proof {
            lemma_count_map_absent(before, operation@);
        }
        let entry = (operation.to_owned(), 1u64);
        let mut counts: Vec<(String, u64)> = Vec::new();
        std::mem::swap(&mut counts, &mut self.operation_counts);
        counts.push(entry);
        proof {
            assert(counts@.drop_last() == before);
            assert(count_names(counts@) =~= count_names(before).push(operation@));
            assert forall|a: int, b: int|
                0 <= a < b < count_names(counts@).len() implies count_names(counts@)[a]
                != count_names(counts@)[b] by {
                if b == before.len() {
                    assert(count_names(counts@)[a] == before[a].0@);
                } else {
                    assert(count_names(before)[a] == count_names(counts@)[a]);
                    assert(count_names(before)[b] == count_names(counts@)[b]);
                }
            }
        }
        self.operation_counts = counts;
    }
}

impl Default for MetricsCollector {
    fn default() -> (r: Self)
        ensures
            r@ == Map::<Seq<char>, u64>::empty(),
    {
        Self::new()
    }
}

} // verus!
