use vstd::prelude::*;

use vstd::string::StrSliceExecFns;

verus! {

/// One run's four parameters, fixed once parsed.
#[derive(Clone, Copy, Debug, PartialEq, Eq, Structural)]
pub struct Config {
    /// How many allocation requests the run performs.
    pub iters: usize,
    /// Backend selection: the bump arena when true, the global heap when false.
    pub is_arena: bool,
    /// Distribution selection: zero-sized requests when true, sizes in
    /// [1, 1024] when false.
    pub is_zero: bool,
    /// Dispatch selection: the specialized entry points when true, the
    /// unified branching entry point when false.
    pub is_direct: bool,
}

/// Why a run configuration was rejected; each variant names the positional
/// value that was missing or unparseable.
#[derive(Clone, Copy, Debug, PartialEq, Eq, Structural)]
pub enum ConfigError {
    MissingIterations,
    InvalidIterations,
    MissingBackend,
    InvalidBackend,
    MissingDistribution,
    InvalidDistribution,
    MissingDispatch,
    InvalidDispatch,
}

impl ConfigError {
    /// The diagnostic printed for this error.
    pub open spec fn spec_message(&self) -> Seq<char> {
        match self {
            ConfigError::MissingIterations => "expected the number of iterations"@,
            ConfigError::InvalidIterations => "the number of iterations must be a decimal integer"@,
            ConfigError::MissingBackend => "expected '0' (global) or '1' (arena) as the allocator selector"@,
            ConfigError::InvalidBackend => "the allocator selector must be '0' (global) or '1' (arena)"@,
            ConfigError::MissingDistribution => "expected '0' (random non-zero sizes) or '1' (zero-sized) as the distribution selector"@,
            ConfigError::InvalidDistribution => "the distribution selector must be '0' (random non-zero sizes) or '1' (zero-sized)"@,
            ConfigError::MissingDispatch => "expected '0' (branching) or '1' (direct) as the dispatch selector"@,
            ConfigError::InvalidDispatch => "the dispatch selector must be '0' (branching) or '1' (direct)"@,
        }
    }

    /// Hands out the diagnostic for this error.
    pub fn message(&self) -> (r: &'static str)
        ensures
            r@ == self.spec_message(),
    {
        match self {
            ConfigError::MissingIterations => "expected the number of iterations",
            ConfigError::InvalidIterations => "the number of iterations must be a decimal integer",
            ConfigError::MissingBackend => "expected '0' (global) or '1' (arena) as the allocator selector",
            ConfigError::InvalidBackend => "the allocator selector must be '0' (global) or '1' (arena)",
            ConfigError::MissingDistribution => "expected '0' (random non-zero sizes) or '1' (zero-sized) as the distribution selector",
            ConfigError::InvalidDistribution => "the distribution selector must be '0' (random non-zero sizes) or '1' (zero-sized)",
            ConfigError::MissingDispatch => "expected '0' (branching) or '1' (direct) as the dispatch selector",
            ConfigError::InvalidDispatch => "the dispatch selector must be '0' (branching) or '1' (direct)",
        }
    }
}

/// A decimal digit.
pub open spec fn is_digit(c: char) -> bool {
    0x30 <= (c as u32) && (c as u32) <= 0x39
}

/// Every character of `s` is a decimal digit.
pub open spec fn all_digits(s: Seq<char>) -> bool {
    forall|i: int| 0 <= i < s.len() ==> is_digit(#[trigger] s[i])
}

/// A numeral is one or more decimal digits and nothing else.
pub open spec fn is_numeral(s: Seq<char>) -> bool {
    s.len() >= 1 && all_digits(s)
}

/// The value of a digit string read in base ten.
pub open spec fn numeral_value(s: Seq<char>) -> int
    decreases s.len(),
{
    if s.len() == 0 {
        0
    } else {
        numeral_value(s.drop_last()) * 10 + (s.last() as u32 - 0x30)
    }
}

proof fn lemma_numeral_value_nonneg(s: Seq<char>)
    requires
        all_digits(s),
    ensures
        numeral_value(s) >= 0,
    decreases s.len(),
{
    if s.len() > 0 {
        assert(all_digits(s.drop_last()));
        lemma_numeral_value_nonneg(s.drop_last());
    }
}

proof fn lemma_numeral_value_step(s: Seq<char>, j: int)
    requires
        0 < j <= s.len(),
    ensures
        numeral_value(s.take(j)) == numeral_value(s.take(j - 1)) * 10 + (s[j - 1] as u32 - 0x30),
{
    assert(s.take(j).drop_last() =~= s.take(j - 1));
    assert(s.take(j).last() == s[j - 1]);
}

/// Reading further digits never shrinks the value.
proof fn lemma_numeral_value_mono(s: Seq<char>, i: int, j: int)
    requires
        all_digits(s),
        0 <= i <= j <= s.len(),
    ensures
        numeral_value(s.take(i)) <= numeral_value(s.take(j)),
    decreases j - i,
{
    if i < j {
        lemma_numeral_value_mono(s, i, j - 1);
        lemma_numeral_value_step(s, j);
        assert(all_digits(s.take(j - 1)));
        lemma_numeral_value_nonneg(s.take(j - 1));
        assert(numeral_value(s.take(j - 1)) * 10 >= numeral_value(s.take(j - 1)));
        assert(is_digit(s[j - 1]));
    }
}

/// Parses a base-ten numeral. Returns the numeral's value exactly when `s` is
/// a non-empty digit string whose value fits in `usize`; rejects everything
/// else.
pub fn parse_usize(s: &str) -> (r: Option<usize>)
    ensures
        r is Some <==> is_numeral(s@) && numeral_value(s@) <= usize::MAX,
        r matches Some(v) ==> v == numeral_value(s@),
{
    let n: usize = s.unicode_len();
    if n == 0 {
        return None;
    }
    let mut acc: usize = 0;
    let mut i: usize = 0;
    while i < n
        invariant
            n == s@.len(),
            i <= n,
            all_digits(s@.take(i as int)),
            acc == numeral_value(s@.take(i as int)),
        decreases n - i,
    {
        let c = s.get_char(i);
        let cv: u32 = c as u32;
        if cv < 0x30 || 0x39 < cv {
            assert(!is_digit(s@[i as int]));
            return None;
        }
        let d: usize = (cv - 0x30) as usize;
        proof {
            lemma_numeral_value_step(s@, i + 1);
            assert(s@.take(i + 1)[i as int] == s@[i as int]);
            assert(all_digits(s@.take(i + 1)));
        }
        let shifted: usize = match acc.checked_mul(10) {
            Some(x) => x,
            None => {
                proof {
                    lemma_overflow_stays_over(s@, i + 1 as int);
                }
                return None;
            },
        };
        acc = match shifted.checked_add(d) {
            Some(x) => x,
            None => {
                proof {
                    lemma_overflow_stays_over(s@, i + 1 as int);
                }
                return None;
            },
        };
        i = i + 1;
    }
    proof {
        assert(s@.take(n as int) =~= s@);
    }
    Some(acc)
}

/// Once a prefix's value is beyond `usize::MAX`, the whole numeral's value is
/// beyond it too.
proof fn lemma_overflow_stays_over(s: Seq<char>, j: int)
    requires
        0 <= j <= s.len(),
        numeral_value(s.take(j)) > usize::MAX,
    ensures
        is_numeral(s) ==> numeral_value(s) > usize::MAX,
{
    if is_numeral(s) {
        lemma_numeral_value_mono(s, j, s.len() as int);
        assert(s.take(s.len() as int) =~= s);
    }
}

/// What a backend, distribution or dispatch selector denotes: '0' picks the
/// first alternative, '1' the second, anything else is rejected.
pub open spec fn selector_of(s: Seq<char>) -> Option<bool> {
    if s == seq!['0'] {
        Some(false)
    } else if s == seq!['1'] {
        Some(true)
    } else {
        None
    }
}

/// Parses one selector argument.
pub fn parse_selector(s: &str) -> (r: Option<bool>)
    ensures
        r == selector_of(s@),
{
    if s.unicode_len() != 1 {
        proof {
            assert(s@ != seq!['0'] && s@ != seq!['1']);
        }
        return None;
    }
    let c = s.get_char(0);
    if c == '0' {
        proof {
            assert(s@ =~= seq!['0']);
        }
        Some(false)
    } else if c == '1' {
        proof {
            assert(s@ =~= seq!['1']);
        }
        Some(true)
    } else {
        proof {
            assert(s@ != seq!['0'] && s@ != seq!['1']);
        }
        None
    }
}

/// Whether the first positional value is a usable iteration count.
pub open spec fn valid_iterations(s: Seq<char>) -> bool {
    is_numeral(s) && numeral_value(s) <= usize::MAX
}

/// Reads the four positional values — iteration count, backend selector,
/// distribution selector, dispatch selector — in order, and reports the first
/// missing or unparseable one.
pub fn parse_config(args: &Vec<String>) -> (r: Result<Config, ConfigError>)
    ensures
        r is Ok <==> args@.len() >= 4 && valid_iterations(args@[0]@) && selector_of(args@[1]@)
            is Some && selector_of(args@[2]@) is Some && selector_of(args@[3]@) is Some,
        r matches Ok(c) ==> c.iters == numeral_value(args@[0]@) && selector_of(args@[1]@)
            == Some(c.is_arena) && selector_of(args@[2]@) == Some(c.is_zero) && selector_of(
            args@[3]@,
        ) == Some(c.is_direct),
        r == Err::<Config, ConfigError>(ConfigError::MissingIterations) <==> args@.len() == 0,
        r == Err::<Config, ConfigError>(ConfigError::InvalidIterations) <==> args@.len() >= 1
            && !valid_iterations(args@[0]@),
        r == Err::<Config, ConfigError>(ConfigError::MissingBackend) <==> args@.len() == 1
            && valid_iterations(args@[0]@),
        r == Err::<Config, ConfigError>(ConfigError::InvalidBackend) <==> args@.len() >= 2
            && valid_iterations(args@[0]@) && selector_of(args@[1]@) is None,
        r == Err::<Config, ConfigError>(ConfigError::MissingDistribution) <==> args@.len() == 2
            && valid_iterations(args@[0]@) && selector_of(args@[1]@) is Some,
        r == Err::<Config, ConfigError>(ConfigError::InvalidDistribution) <==> args@.len() >= 3
            && valid_iterations(args@[0]@) && selector_of(args@[1]@) is Some && selector_of(
            args@[2]@,
        ) is None,
        r == Err::<Config, ConfigError>(ConfigError::MissingDispatch) <==> args@.len() == 3
            && valid_iterations(args@[0]@) && selector_of(args@[1]@) is Some && selector_of(
            args@[2]@,
        ) is Some,
        r == Err::<Config, ConfigError>(ConfigError::InvalidDispatch) <==> args@.len() >= 4
            && valid_iterations(args@[0]@) && selector_of(args@[1]@) is Some && selector_of(
            args@[2]@,
        ) is Some && selector_of(args@[3]@) is None,
{
    if args.len() < 1 {
        return Err(ConfigError::MissingIterations);
    }
    let iters: usize = match parse_usize(args[0].as_str()) {
        Some(v) => v,
        None => {
            return Err(ConfigError::InvalidIterations);
        },
    };
    if args.len() < 2 {
        return Err(ConfigError::MissingBackend);
    }
    let is_arena: bool = match parse_selector(args[1].as_str()) {
        Some(b) => b,
        None => {
            return Err(ConfigError::InvalidBackend);
        },
    };
    if args.len() < 3 {
        return Err(ConfigError::MissingDistribution);
    }
    let is_zero: bool = match parse_selector(args[2].as_str()) {
        Some(b) => b,
        None => {
            return Err(ConfigError::InvalidDistribution);
        },
    };
    if args.len() < 4 {
        return Err(ConfigError::MissingDispatch);
    }
    let is_direct: bool = match parse_selector(args[3].as_str()) {
        Some(b) => b,
        None => {
            return Err(ConfigError::InvalidDispatch);
        },
    };
    Ok(Config { iters, is_arena, is_zero, is_direct })
}

} // verus!
