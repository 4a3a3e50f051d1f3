use vstd::prelude::*;
use vstd::utf8::encode_utf8;

verus! {

/// Launch-time configuration.
#[derive(Debug)]
pub struct Settings {
    pub redis_host: String,
    pub redis_thread_pool_size: usize,
    pub http_server_worker_pool_size: usize,
    pub verbose: bool,
}

/// Why the command line was refused.
#[derive(Debug)]
pub enum CliError {
    /// `--redis-host` was not given.
    MissingRedisHost,
    /// Arguments were given that are not options.
    UnknownArgs(Vec<String>),
    /// A size is not a positive integer; carries the text given.
    InvalidCount(String),
}

/// The connections in the key/value pool when none is asked for.
pub const DEFAULT_REDIS_POOL_SIZE: usize = 1;

/// The HTTP workers when none is asked for.
pub const DEFAULT_WORKER_POOL_SIZE: usize = 2;

pub open spec fn is_digit(c: u8) -> bool {
    48 <= c <= 57
}

/// The number written by a sequence of decimal digits.
pub open spec fn digits_value(d: Seq<u8>) -> nat
    decreases d.len(),
{
    if d.len() == 0 {
        0
    } else {
        digits_value(d.drop_last()) * 10 + (d.last() - 48) as nat
    }
}

/// The digits of a count: the text with an optional leading `+` removed.
pub open spec fn count_digits(b: Seq<u8>) -> Seq<u8> {
    if b.len() > 0 && b[0] == 43 {
        b.drop_first()
    } else {
        b
    }
}

/// The size that the text (as bytes) writes: one or more decimal digits after
/// an optional `+`, of a value that fits in `usize`.
pub open spec fn count_value(b: Seq<u8>) -> Option<nat> {
    let d = count_digits(b);
    if d.len() > 0 && (forall|i: int| 0 <= i < d.len() ==> is_digit(#[trigger] d[i]))
        && digits_value(d) <= usize::MAX {
        Some(digits_value(d))
    } else {
        None
    }
}

proof fn lemma_prefix_value_bounded(d: Seq<u8>, i: int)
    requires
        0 <= i <= d.len(),
        forall|j: int| 0 <= j < d.len() ==> is_digit(#[trigger] d[j]),
    ensures
        digits_value(d.take(i)) <= digits_value(d),
    decreases d.len(),
{
    if i == d.len() {
        assert(d.take(i) =~= d);
    } else {
        let p = d.drop_last();
        assert forall|j: int| 0 <= j < p.len() implies is_digit(#[trigger] p[j]) by {
            assert(p[j] == d[j]);
        }
        lemma_prefix_value_bounded(p, i);
        assert(p.take(i) =~= d.take(i));
    }
}

/// Reads a size given on the command line.
pub fn parse_count(text: &str) -> (r: Option<usize>)
    ensures
        r matches Some(n) ==> count_value(encode_utf8(text@)) == Some(n as nat),
        r is None ==> count_value(encode_utf8(text@)) is None,
{
    let bytes = text.as_bytes();
    let mut start: usize = 0;
    if bytes.len() > 0 && bytes[0] == 43u8 {
        start = 1;
    }
    let ghost d = count_digits(bytes@);
    assert(d =~= bytes@.subrange(start as int, bytes@.len() as int));
    if start >= bytes.len() {
        return None;
    }
    let mut acc: usize = 0;
    let mut i: usize = start;
    while i < bytes.len()
        invariant
            start <= i <= bytes@.len(),
            d == bytes@.subrange(start as int, bytes@.len() as int),
            d == count_digits(bytes@),
            bytes@ == encode_utf8(text@),
            forall|j: int| 0 <= j < i - start ==> is_digit(#[trigger] d[j]),
            acc as nat == digits_value(d.take(i - start)),
        decreases bytes@.len() - i,
    {
        let c = bytes[i];
        if c < 48u8 || c > 57u8 {
            assert(!is_digit(d[i - start]));
            return None;
        }
        assert(d.take(i + 1 - start).drop_last() =~= d.take(i - start));
        let next = match acc.checked_mul(10) {
            Some(m) => m.checked_add((c - 48u8) as usize),
            None => None,
        };
        match next {
            Some(n) => {
                acc = n;
            },
            None => {
                proof {
                    if forall|j: int| 0 <= j < d.len() ==> is_digit(#[trigger] d[j]) {
                        lemma_prefix_value_bounded(d, i + 1 - start);
                        assert(digits_value(d.take(i + 1 - start)) == acc * 10 + (c - 48) as nat);
                    }
                }
                return None;
            },
        }
        i = i + 1;
    }
    assert(d.take(i - start) =~= d);
    Some(acc)
}

/// The size given by an option, or `default` where the option is absent;
/// `None` where the text is not a positive integer.
pub open spec fn size_option(given: Option<String>, default: nat) -> Option<nat> {
    match given {
        None => Some(default),
        Some(t) => match count_value(encode_utf8(t@)) {
            Some(n) => if n > 0 {
                Some(n)
            } else {
                None
            },
            None => None,
        },
    }
}

/// Reads a size option: absent gives `default`, otherwise the text must be
/// a positive integer.
pub fn size_from_option(given: Option<String>, default: usize) -> (r: Result<usize, CliError>)
    ensures
        match size_option(given, default as nat) {
            Some(n) => r matches Ok(m) && m == n,
            None => r matches Err(CliError::InvalidCount(t)) && given == Some(t),
        },
{
    match given {
        None => Ok(default),
        Some(t) => match parse_count(t.as_str()) {
            Some(n) => {
                if n > 0 {
                    Ok(n)
                } else {
                    Err(CliError::InvalidCount(t))
                }
            },
            None => Err(CliError::InvalidCount(t)),
        },
    }
}

/// Builds the settings from the options found on the command line: the
/// key/value host is required, no free arguments are allowed, and each size
/// takes its default when absent.
pub fn settings_from_options(
    redis_host: Option<String>,
    redis_thread_pool_size: Option<String>,
    http_server_worker_pool_size: Option<String>,
    free: Vec<String>,
    verbose: bool,
) -> (r: Result<Settings, CliError>)
    ensures
        redis_host is None ==> r matches Err(CliError::MissingRedisHost),
        redis_host is Some && free@.len() > 0 ==> (r matches Err(CliError::UnknownArgs(f)) && f
            == free),
        redis_host is Some && free@.len() == 0 ==> (match (
            size_option(redis_thread_pool_size, DEFAULT_REDIS_POOL_SIZE as nat),
            size_option(http_server_worker_pool_size, DEFAULT_WORKER_POOL_SIZE as nat),
        ) {
            (Some(p), Some(w)) => r matches Ok(s) && Some(s.redis_host) == redis_host
                && s.redis_thread_pool_size == p && s.http_server_worker_pool_size == w
                && s.verbose == verbose,
            (None, _) => r matches Err(CliError::InvalidCount(t)) && redis_thread_pool_size
                == Some(t),
            (Some(_), None) => r matches Err(CliError::InvalidCount(t))
                && http_server_worker_pool_size == Some(t),
        }),
{
    let redis_host = match redis_host {
        Some(h) => h,
        None => return Err(CliError::MissingRedisHost),
    };
    if free.len() > 0 {
        return Err(CliError::UnknownArgs(free));
    }
    let redis_thread_pool_size = match size_from_option(
        redis_thread_pool_size,
        DEFAULT_REDIS_POOL_SIZE,
    ) {
        Ok(n) => n,
        Err(e) => return Err(e),
    };
    let http_server_worker_pool_size = match size_from_option(
        http_server_worker_pool_size,
        DEFAULT_WORKER_POOL_SIZE,
    ) {
        Ok(n) => n,
        Err(e) => return Err(e),
    };
    Ok(Settings { redis_host, redis_thread_pool_size, http_server_worker_pool_size, verbose })
}

} // verus!
