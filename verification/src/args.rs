//! Command-line validation.
//!
//! A run is configured by a flat flag list: `-f`/`--folder` with a path,
//! `-n`/`--num-threads` with an unsigned integer, and `-d`/`--delete` with no
//! value. Validation either yields the whole configuration or rejects the
//! list as a whole; a rejected list must cause the caller to do no work at
//! all.
use vstd::prelude::*;
use vstd::string::StrSliceExecFns;

use crate::text::str_eq;
use crate::text::views_of;

verus! {

/// The configuration of one run: the directory to scan, the requested worker
/// count (`0` asks for all available parallelism) and whether the originals
/// are deleted after the batch.
pub struct RunConfig {
    pub folder: String,
    pub num_threads: usize,
    pub delete: bool,
}

/// The mathematical image of a configuration.
pub struct ConfigView {
    pub folder: Seq<char>,
    pub num_threads: usize,
    pub delete: bool,
}

/// The image of an executable configuration.
pub open spec fn config_view(c: RunConfig) -> ConfigView {
    ConfigView { folder: c.folder@, num_threads: c.num_threads, delete: c.delete }
}

/// The configuration of a run given no flags: scan the current directory
/// with all available parallelism and keep the originals.
pub open spec fn default_config() -> ConfigView {
    ConfigView { folder: "."@, num_threads: 0, delete: false }
}

/// True for the ten decimal digit characters.
pub open spec fn is_dec_digit(c: char) -> bool {
    48 <= c as int && c as int <= 57
}

/// The value of one decimal digit character.
pub open spec fn digit_val(c: char) -> int {
    c as int - 48
}

/// True when every character of `s` is a decimal digit.
pub open spec fn all_digits(s: Seq<char>) -> bool {
    forall|i: int| 0 <= i < s.len() ==> is_dec_digit(#[trigger] s[i])
}

/// The value of a digit string read in base ten.
pub open spec fn digits_val(s: Seq<char>) -> int
    decreases s.len(),
{
    if s.len() == 0 {
        0
    } else {
        digits_val(s.drop_last()) * 10 + digit_val(s.last())
    }
}

/// The digit run of a numeral: an unsigned numeral may carry one leading
/// plus sign before its digits.
pub open spec fn numeral_digits(s: Seq<char>) -> Seq<char> {
    if s.len() > 0 && s[0] == '+' {
        s.skip(1)
    } else {
        s
    }
}

/// True when `s` is a numeral that denotes a value representable as `usize`:
/// an optional plus sign, then at least one digit, with the value in range.
pub open spec fn is_usize_numeral(s: Seq<char>) -> bool {
    numeral_digits(s).len() > 0 && all_digits(numeral_digits(s)) && digits_val(numeral_digits(s))
        <= usize::MAX as int
}

/// The value of a digit string never goes down when digits are appended.
proof fn lemma_digits_val_prefix(s: Seq<char>, j: int)
    requires
        all_digits(s),
        0 <= j <= s.len(),
    ensures
        0 <= digits_val(s.take(j)) <= digits_val(s),
    decreases s.len(),
{
    if s.len() == 0 {
        assert(s.take(j) =~= s);
    } else if j == s.len() {
        assert(s.take(j) =~= s);
        lemma_digits_val_prefix(s.drop_last(), s.len() - 1);
        assert(s.drop_last().take(s.len() - 1) =~= s.drop_last());
    } else {
        assert(all_digits(s.drop_last()));
        lemma_digits_val_prefix(s.drop_last(), j);
        assert(s.drop_last().take(j) =~= s.take(j));
    }
}

/// Parses an unsigned decimal numeral, with std's surface syntax for
/// unsigned integers: an optional leading `+`, then one or more digits.
/// Returns the value exactly when the numeral is well formed and in range.
pub fn parse_usize(s: &str) -> (r: Option<usize>)
    ensures
        r is Some <==> is_usize_numeral(s@),
        r is Some ==> r->Some_0 as int == digits_val(numeral_digits(s@)),
{
    let n = s.unicode_len();
    if n == 0 {
        return None;
    }
    let first = s.get_char(0);
    let start: usize = if first == '+' {
        1
    } else {
        0
    };
    let ghost d = numeral_digits(s@);
    proof {
        assert(d =~= s@.skip(start as int));
    }
    if start == n {
        return None;
    }
    let mut v: usize = 0;
    let mut i: usize = start;
    proof {
        assert(d.take(0) =~= Seq::<char>::empty());
    }
    while i < n
        invariant
            start <= i <= n,
            n == s@.len(),
            d == numeral_digits(s@),
            d == s@.skip(start as int),
            d.len() == n - start,
            all_digits(d.take(i - start)),
            v as int == digits_val(d.take(i - start)),
        decreases n - i,
    {
        let ghost k = i - start;
        let c = s.get_char(i);
        let u = c as u32;
        proof {
            assert(d[k as int] == s@[i as int]);
        }
        if u < 48 || u > 57 {
            proof {
                assert(!is_dec_digit(d[k as int]));
            }
            return None;
        }
        let dv = (u - 48) as usize;
        proof {
            assert(d.take(k as int + 1).drop_last() =~= d.take(k as int));
            assert(d.take(k as int + 1).last() == d[k as int]);
        }
        if v > usize::MAX / 10 || (v == usize::MAX / 10 && dv > usize::MAX % 10) {
            proof {
                assert(digits_val(d.take(k as int + 1)) > usize::MAX as int) by {
                    assert(v as int * 10 + dv as int > usize::MAX as int) by (nonlinear_arith)
                        requires
                            v as int > usize::MAX as int / 10 || (v as int == usize::MAX as int
                                / 10 && dv as int > usize::MAX as int % 10),
                            0 <= dv as int,
                            usize::MAX as int == (usize::MAX as int / 10) * 10 + usize::MAX as int
                                % 10,
                            0 <= usize::MAX as int % 10 < 10,
                    ;
                }
                if all_digits(d) {
                    lemma_digits_val_prefix(d, k as int + 1);
                }
            }
            return None;
        }
        v = v * 10 + dv;
        i = i + 1;
    }
    proof {
        assert(d.take(d.len() as int) =~= d);
    }
    Some(v)
}

/// What validation makes of the argument list from position `i` on, given
/// the configuration accumulated so far. A flag that needs a value consumes
/// the following entry; a missing value, a malformed or out-of-range thread
/// count, or an unrecognized entry rejects the whole list.
pub open spec fn parse_from(args: Seq<Seq<char>>, i: int, acc: ConfigView) -> Option<ConfigView>
    decreases args.len() - i,
{
    if i >= args.len() {
        Some(acc)
    } else if args[i] == "-f"@ || args[i] == "--folder"@ {
        if i + 1 < args.len() {
            parse_from(
                args,
                i + 2,
                ConfigView { folder: args[i + 1], num_threads: acc.num_threads, delete: acc.delete },
            )
        } else {
            None
        }
    } else if args[i] == "-n"@ || args[i] == "--num-threads"@ {
        if i + 1 < args.len() && is_usize_numeral(args[i + 1]) {
            parse_from(
                args,
                i + 2,
                ConfigView {
                    folder: acc.folder,
                    num_threads: digits_val(numeral_digits(args[i + 1])) as usize,
                    delete: acc.delete,
                },
            )
        } else {
            None
        }
    } else if args[i] == "-d"@ || args[i] == "--delete"@ {
        parse_from(
            args,
            i + 1,
            ConfigView { folder: acc.folder, num_threads: acc.num_threads, delete: true },
        )
    } else {
        None
    }
}

/// What validation makes of a whole argument list (the program name stands
/// first and is skipped). A list of more than six entries is rejected
/// outright.
pub open spec fn validated(args: Seq<Seq<char>>) -> Option<ConfigView> {
    if args.len() <= 6 {
        parse_from(args, 1, default_config())
    } else {
        None
    }
}

/// Validates the command line, the program name first. Yields the run's
/// configuration exactly when the list is well formed, and nothing
/// otherwise; a rejected list configures nothing.
pub fn validate_args(args: Vec<String>) -> (r: Option<RunConfig>)
    ensures
        r is Some <==> validated(views_of(args@)) is Some,
        r is Some ==> config_view(r->Some_0) == validated(views_of(args@))->Some_0,
{
    let ghost av = views_of(args@);
    if args.len() > 6 {
        return None;
    }
    let mut cfg = RunConfig { folder: ".".to_owned(), num_threads: 0, delete: false };
    let mut i: usize = 1;
    while i < args.len()
        invariant
            1 <= i <= args.len() || args.len() == 0,
            av == views_of(args@),
            av.len() == args.len(),
            validated(av) == parse_from(av, i as int, config_view(cfg)),
        decreases args.len() - i,
    {
        let a = args[i].as_str();
        if str_eq(a, "-f") || str_eq(a, "--folder") {
            if i + 1 < args.len() {
                cfg.folder = args[i + 1].clone();
                i = i + 2;
            } else {
                return None;
            }
        } else if str_eq(a, "-n") || str_eq(a, "--num-threads") {
            if i + 1 < args.len() {
                match parse_usize(args[i + 1].as_str()) {
                    Some(v) => {
                        cfg.num_threads = v;
                        i = i + 2;
                    },
                    None => {
                        return None;
                    },
                }
            } else {
                return None;
            }
        } else if str_eq(a, "-d") || str_eq(a, "--delete") {
            cfg.delete = true;
            i = i + 1;
        } else {
            return None;
        }
    }
    Some(cfg)
}

} // verus!
