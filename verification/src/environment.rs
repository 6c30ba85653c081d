//! The process environment as a snapshot of names and values, and the names of
//! the variables that configure an exporter.

use crate::text::str_eq;
use vstd::prelude::*;

verus! {

/// A kind of telemetry. Each is exported on its own and has variables of its own.
#[derive(Clone, Copy, Debug, PartialEq, Eq, Structural)]
pub enum Signal {
    Traces,
    Metrics,
    Logs,
}

/// What a variable of the environment configures.
#[derive(Clone, Copy, Debug, PartialEq, Eq, Structural)]
pub enum Setting {
    Endpoint,
    Protocol,
    Headers,
    Timeout,
    Compression,
}

/// Target to which every signal is sent, unless a signal has its own.
pub const OTEL_EXPORTER_OTLP_ENDPOINT: &'static str = "OTEL_EXPORTER_OTLP_ENDPOINT";

/// Protocol for every signal: `grpc`, `http/protobuf` or `http/json`.
pub const OTEL_EXPORTER_OTLP_PROTOCOL: &'static str = "OTEL_EXPORTER_OTLP_PROTOCOL";

/// Headers for every signal, as `key=value` pairs separated by commas.
pub const OTEL_EXPORTER_OTLP_HEADERS: &'static str = "OTEL_EXPORTER_OTLP_HEADERS";

/// Time to wait for the backend, in milliseconds, for every signal.
pub const OTEL_EXPORTER_OTLP_TIMEOUT: &'static str = "OTEL_EXPORTER_OTLP_TIMEOUT";

/// Compression for every signal: `gzip`, `zstd` or `none`.
pub const OTEL_EXPORTER_OTLP_COMPRESSION: &'static str = "OTEL_EXPORTER_OTLP_COMPRESSION";

/// Target to which traces are sent.
pub const OTEL_EXPORTER_OTLP_TRACES_ENDPOINT: &'static str = "OTEL_EXPORTER_OTLP_TRACES_ENDPOINT";

/// Protocol for traces.
pub const OTEL_EXPORTER_OTLP_TRACES_PROTOCOL: &'static str = "OTEL_EXPORTER_OTLP_TRACES_PROTOCOL";

/// Headers for traces.
pub const OTEL_EXPORTER_OTLP_TRACES_HEADERS: &'static str = "OTEL_EXPORTER_OTLP_TRACES_HEADERS";

/// Time to wait for the backend when it is sent traces.
pub const OTEL_EXPORTER_OTLP_TRACES_TIMEOUT: &'static str = "OTEL_EXPORTER_OTLP_TRACES_TIMEOUT";

/// Compression for traces.
pub const OTEL_EXPORTER_OTLP_TRACES_COMPRESSION: &'static str =
    "OTEL_EXPORTER_OTLP_TRACES_COMPRESSION";

/// Target to which metrics are sent.
pub const OTEL_EXPORTER_OTLP_METRICS_ENDPOINT: &'static str =
    "OTEL_EXPORTER_OTLP_METRICS_ENDPOINT";

/// Protocol for metrics.
pub const OTEL_EXPORTER_OTLP_METRICS_PROTOCOL: &'static str =
    "OTEL_EXPORTER_OTLP_METRICS_PROTOCOL";

/// Headers for metrics.
pub const OTEL_EXPORTER_OTLP_METRICS_HEADERS: &'static str = "OTEL_EXPORTER_OTLP_METRICS_HEADERS";

/// Time to wait for the backend when it is sent metrics.
pub const OTEL_EXPORTER_OTLP_METRICS_TIMEOUT: &'static str = "OTEL_EXPORTER_OTLP_METRICS_TIMEOUT";

/// Compression for metrics.
pub const OTEL_EXPORTER_OTLP_METRICS_COMPRESSION: &'static str =
    "OTEL_EXPORTER_OTLP_METRICS_COMPRESSION";

/// Target to which logs are sent.
pub const OTEL_EXPORTER_OTLP_LOGS_ENDPOINT: &'static str = "OTEL_EXPORTER_OTLP_LOGS_ENDPOINT";

/// Protocol for logs.
pub const OTEL_EXPORTER_OTLP_LOGS_PROTOCOL: &'static str = "OTEL_EXPORTER_OTLP_LOGS_PROTOCOL";

/// Headers for logs.
pub const OTEL_EXPORTER_OTLP_LOGS_HEADERS: &'static str = "OTEL_EXPORTER_OTLP_LOGS_HEADERS";

/// Time to wait for the backend when it is sent logs.
pub const OTEL_EXPORTER_OTLP_LOGS_TIMEOUT: &'static str = "OTEL_EXPORTER_OTLP_LOGS_TIMEOUT";

/// Compression for logs.
pub const OTEL_EXPORTER_OTLP_LOGS_COMPRESSION: &'static str = "OTEL_EXPORTER_OTLP_LOGS_COMPRESSION";

/// The name of the variable that configures `setting` for every signal.
pub open spec fn general_name(setting: Setting) -> Seq<char> {
    match setting {
        Setting::Endpoint => OTEL_EXPORTER_OTLP_ENDPOINT@,
        Setting::Protocol => OTEL_EXPORTER_OTLP_PROTOCOL@,
        Setting::Headers => OTEL_EXPORTER_OTLP_HEADERS@,
        Setting::Timeout => OTEL_EXPORTER_OTLP_TIMEOUT@,
        Setting::Compression => OTEL_EXPORTER_OTLP_COMPRESSION@,
    }
}

/// The name of the variable that configures `setting` for `signal` alone.
pub open spec fn signal_name(signal: Signal, setting: Setting) -> Seq<char> {
    match signal {
        Signal::Traces => match setting {
            Setting::Endpoint => OTEL_EXPORTER_OTLP_TRACES_ENDPOINT@,
            Setting::Protocol => OTEL_EXPORTER_OTLP_TRACES_PROTOCOL@,
            Setting::Headers => OTEL_EXPORTER_OTLP_TRACES_HEADERS@,
            Setting::Timeout => OTEL_EXPORTER_OTLP_TRACES_TIMEOUT@,
            Setting::Compression => OTEL_EXPORTER_OTLP_TRACES_COMPRESSION@,
        },
        Signal::Metrics => match setting {
            Setting::Endpoint => OTEL_EXPORTER_OTLP_METRICS_ENDPOINT@,
            Setting::Protocol => OTEL_EXPORTER_OTLP_METRICS_PROTOCOL@,
            Setting::Headers => OTEL_EXPORTER_OTLP_METRICS_HEADERS@,
            Setting::Timeout => OTEL_EXPORTER_OTLP_METRICS_TIMEOUT@,
            Setting::Compression => OTEL_EXPORTER_OTLP_METRICS_COMPRESSION@,
        },
        Signal::Logs => match setting {
            Setting::Endpoint => OTEL_EXPORTER_OTLP_LOGS_ENDPOINT@,
            Setting::Protocol => OTEL_EXPORTER_OTLP_LOGS_PROTOCOL@,
            Setting::Headers => OTEL_EXPORTER_OTLP_LOGS_HEADERS@,
            Setting::Timeout => OTEL_EXPORTER_OTLP_LOGS_TIMEOUT@,
            Setting::Compression => OTEL_EXPORTER_OTLP_LOGS_COMPRESSION@,
        },
    }
}

/// The name of the variable that configures `setting` for every signal.
pub fn general_var(setting: Setting) -> (name: &'static str)
    ensures
        name@ == general_name(setting),
{
    match setting {
        Setting::Endpoint => OTEL_EXPORTER_OTLP_ENDPOINT,
        Setting::Protocol => OTEL_EXPORTER_OTLP_PROTOCOL,
        Setting::Headers => OTEL_EXPORTER_OTLP_HEADERS,
        Setting::Timeout => OTEL_EXPORTER_OTLP_TIMEOUT,
        Setting::Compression => OTEL_EXPORTER_OTLP_COMPRESSION,
    }
}

/// The name of the variable that configures `setting` for `signal` alone.
pub fn signal_var(signal: Signal, setting: Setting) -> (name: &'static str)
    ensures
        name@ == signal_name(signal, setting),
{
    match signal {
        Signal::Traces => match setting {
            Setting::Endpoint => OTEL_EXPORTER_OTLP_TRACES_ENDPOINT,
            Setting::Protocol => OTEL_EXPORTER_OTLP_TRACES_PROTOCOL,
            Setting::Headers => OTEL_EXPORTER_OTLP_TRACES_HEADERS,
            Setting::Timeout => OTEL_EXPORTER_OTLP_TRACES_TIMEOUT,
            Setting::Compression => OTEL_EXPORTER_OTLP_TRACES_COMPRESSION,
        },
        Signal::Metrics => match setting {
            Setting::Endpoint => OTEL_EXPORTER_OTLP_METRICS_ENDPOINT,
            Setting::Protocol => OTEL_EXPORTER_OTLP_METRICS_PROTOCOL,
            Setting::Headers => OTEL_EXPORTER_OTLP_METRICS_HEADERS,
            Setting::Timeout => OTEL_EXPORTER_OTLP_METRICS_TIMEOUT,
            Setting::Compression => OTEL_EXPORTER_OTLP_METRICS_COMPRESSION,
        },
        Signal::Logs => match setting {
            Setting::Endpoint => OTEL_EXPORTER_OTLP_LOGS_ENDPOINT,
            Setting::Protocol => OTEL_EXPORTER_OTLP_LOGS_PROTOCOL,
            Setting::Headers => OTEL_EXPORTER_OTLP_LOGS_HEADERS,
            Setting::Timeout => OTEL_EXPORTER_OTLP_LOGS_TIMEOUT,
            Setting::Compression => OTEL_EXPORTER_OTLP_LOGS_COMPRESSION,
        },
    }
}

/// What the environment says of `setting` for `signal`: the value of the
/// signal's own variable where that is set, else the value of the general one,
/// else nothing.
pub open spec fn env_setting(
    env: Map<Seq<char>, Seq<char>>,
    signal: Signal,
    setting: Setting,
) -> Option<Seq<char>> {
    if env.contains_key(signal_name(signal, setting)) {
        Some(env[signal_name(signal, setting)])
    } else if env.contains_key(general_name(setting)) {
        Some(env[general_name(setting)])
    } else {
        None
    }
}

/// The value that the last entry of `vars` under `name` holds.
pub open spec fn last_value(vars: Seq<(String, String)>, name: Seq<char>) -> Option<Seq<char>>
    decreases vars.len(),
{
    if vars.len() == 0 {
        None
    } else if vars.last().0@ == name {
        Some(vars.last().1@)
    } else {
        last_value(vars.drop_last(), name)
    }
}

/// A snapshot of the environment: each name that is set, with its value.
///
/// It is taken once, and read from then on, so that what a resolver decides
/// depends on the snapshot alone.
#[derive(Clone, Debug)]
pub struct Environment {
    vars: Vec<(String, String)>,
}

impl View for Environment {
    type V = Map<Seq<char>, Seq<char>>;

    closed spec fn view(&self) -> Map<Seq<char>, Seq<char>> {
        Map::new(
            |name: Seq<char>| last_value(self.vars@, name) is Some,
            |name: Seq<char>| last_value(self.vars@, name)->0,
        )
    }
}

impl Environment {
    /// A snapshot in which nothing is set.
    pub fn new() -> (env: Environment)
        ensures
            env@ == Map::<Seq<char>, Seq<char>>::empty(),
    {
        let env = Environment { vars: Vec::new() };
        assert(env@ =~= Map::<Seq<char>, Seq<char>>::empty());
        env
    }

    /// Sets `name` to `value`, in place of what it held.
    pub fn set(&mut self, name: &str, value: &str)
        ensures
            final(self)@ == old(self)@.insert(name@, value@),
    {
        self.vars.push((name.to_owned(), value.to_owned()));
        proof {
            let before = old(self).vars@;
            let after = self.vars@;
            assert(after.drop_last() =~= before);
            assert forall|other: Seq<char>| #[trigger]
                last_value(after, other) == (if other == name@ {
                    Some(value@)
                } else {
                    last_value(before, other)
                }) by {}
            assert(self@ =~= old(self)@.insert(name@, value@));
        }
    }

    /// The value of `name`, if it is set.
    pub fn get(&self, name: &str) -> (value: Option<&str>)
        ensures
            match value {
                Some(text) => self@.contains_key(name@) && self@[name@] == text@,
                None => !self@.contains_key(name@),
            },
    {
        let mut i = self.vars.len();
        assert(self.vars@.take(i as int) =~= self.vars@);
        while i > 0
            invariant
                i <= self.vars.len(),
                last_value(self.vars@, name@) == last_value(self.vars@.take(i as int), name@),
            decreases i,
        {
            let ghost prefix = self.vars@.take(i as int);
            assert(prefix.drop_last() =~= self.vars@.take(i as int - 1));
            if str_eq(self.vars[i - 1].0.as_str(), name) {
                return Some(self.vars[i - 1].1.as_str());
            }
            i -= 1;
        }
        assert(self.vars@.take(0).len() == 0);
        None
    }

    /// What the snapshot says of `setting` for `signal`: see [`env_setting`].
    pub fn setting(&self, signal: Signal, setting: Setting) -> (value: Option<&str>)
        ensures
            match value {
                Some(text) => env_setting(self@, signal, setting) == Some(text@),
                None => env_setting(self@, signal, setting) is None,
            },
    {
        match self.get(signal_var(signal, setting)) {
            Some(text) => Some(text),
            None => self.get(general_var(setting)),
        }
    }
}

} // verus!
