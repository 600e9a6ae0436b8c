//! Run parameters: the distribution mode, the random seed and the pair
//! count, together with their validation from command-line style tokens.

use vstd::prelude::*;

verus! {

/// Selects how sampled coordinate pairs are spread over the globe:
/// uniformly over the whole longitude/latitude domain, or grouped into
/// randomly placed cluster regions.
#[derive(Clone, Copy, Debug, PartialEq, Eq, Structural)]
pub enum PointsDistribution {
    Uniform,
    Cluster,
}

/// Validated, immutable parameters of one generation run.
#[derive(Clone, Copy, Debug, PartialEq, Eq, Structural)]
pub struct RunParams {
    pub distribution: PointsDistribution,
    pub random_seed: u64,
    pub pair_count: usize,
}

/// A decimal digit character.
pub open spec fn is_dec_digit(c: char) -> bool {
    48 <= c as u32 && c as u32 <= 57
}

/// The numeric value of one decimal digit character.
pub open spec fn digit_val(c: char) -> nat {
    (c as u32 - 48) as nat
}

/// A non-empty string of decimal digits.
pub open spec fn is_dec(s: Seq<char>) -> bool {
    s.len() > 0 && forall|i: int| 0 <= i < s.len() ==> is_dec_digit(s[i])
}

/// The value of a string of decimal digits, most significant digit first.
pub open spec fn dec_val(s: Seq<char>) -> nat
    decreases s.len(),
{
    if s.len() == 0 {
        0
    } else {
        dec_val(s.drop_last()) * 10 + digit_val(s.last())
    }
}

/// The value of a digit-string prefix never exceeds the value of the
/// whole string.
proof fn lemma_dec_val_prefix_le(s: Seq<char>, i: int)
    requires
        0 <= i <= s.len(),
        forall|j: int| 0 <= j < s.len() ==> is_dec_digit(s[j]),
    ensures
        dec_val(s.take(i)) <= dec_val(s),
    decreases s.len(),
{
    if i == s.len() {
        assert(s.take(i) =~= s);
    } else {
        let d = s.drop_last();
        assert(s.take(i) =~= d.take(i));
        lemma_dec_val_prefix_le(d, i);
        assert(dec_val(d) * 10 >= dec_val(d)) by (nonlinear_arith);
    }
}

/// Parses a non-empty all-decimal string into its value; rejects anything
/// else, and any value that does not fit in 64 bits.
pub fn parse_u64(s: &str) -> (r: Option<u64>)
    ensures
        r is Some <==> is_dec(s@) && dec_val(s@) <= u64::MAX,
        r matches Some(v) ==> v == dec_val(s@),
{
    let n: usize = s.unicode_len();
    if n == 0 {
        return None;
    }
    let mut acc: u64 = 0;
    let mut i: usize = 0;
    while i < n
        invariant
            0 <= i <= n,
            n == s@.len(),
            forall|j: int| 0 <= j < i ==> is_dec_digit(s@[j]),
            acc == dec_val(s@.take(i as int)),
        decreases n - i,
    {
        let c: char = s.get_char(i);
        let d: u32 = c as u32;
        if d < 48 || 57 < d {
            assert(!is_dec_digit(s@[i as int]));
            return None;
        }
        let ghost pre = s@.take(i as int);
        let ghost cur = s@.take(i + 1);
        proof {
            assert(cur.drop_last() =~= pre);
            assert(cur.last() == s@[i as int]);
        }
        let step = match acc.checked_mul(10) {
            Some(m) => m.checked_add((d - 48) as u64),
            None => None,
        };
        match step {
            Some(v) => {
                acc = v;
            },
            None => {
                proof {
                    assert(dec_val(cur) > u64::MAX);
                    if is_dec(s@) {
                        lemma_dec_val_prefix_le(s@, i + 1);
                    }
                }
                return None;
            },
        }
        i += 1;
    }
    proof {
        assert(s@.take(n as int) =~= s@);
    }
    Some(acc)
}

/// Parses the distribution mode token: exactly `uniform` or `cluster`.
pub fn parse_distribution(s: &String) -> (r: Option<PointsDistribution>)
    ensures
        r == Some(PointsDistribution::Uniform) <==> s@ == "uniform"@,
        r == Some(PointsDistribution::Cluster) <==> s@ == "cluster"@,
        r is Some <==> (s@ == "uniform"@ || s@ == "cluster"@),
{
    proof {
        reveal_strlit("uniform");
        reveal_strlit("cluster");
        assert("uniform"@[0] != "cluster"@[0]);
    }
    let uniform_tok: String = String::from_str("uniform");
    if *s == uniform_tok {
        return Some(PointsDistribution::Uniform);
    }
    let cluster_tok: String = String::from_str("cluster");
    if *s == cluster_tok {
        return Some(PointsDistribution::Cluster);
    }
    None
}

/// The three positional tokens are valid: a known mode, a seed that fits
/// in 64 bits, and a pair count that fits in a machine word.
pub open spec fn valid_arguments(args: Seq<String>) -> bool {
    &&& args.len() >= 3
    &&& (args[0]@ == "uniform"@ || args[0]@ == "cluster"@)
    &&& is_dec(args[1]@)
    &&& dec_val(args[1]@) <= u64::MAX
    &&& is_dec(args[2]@)
    &&& dec_val(args[2]@) <= usize::MAX
}

/// Validates the positional arguments of a generation run: the mode token,
/// the decimal random seed and the decimal pair count, in that order.
/// Extra tokens after the first three are ignored.
pub fn start_generate_data(selected_arguments: &Vec<String>) -> (r: Option<RunParams>)
    ensures
        r is Some <==> valid_arguments(selected_arguments@),
        r matches Some(p) ==> {
            &&& (p.distribution == PointsDistribution::Uniform <==> selected_arguments@[0]@
                == "uniform"@)
            &&& (p.distribution == PointsDistribution::Cluster <==> selected_arguments@[0]@
                == "cluster"@)
            &&& p.random_seed == dec_val(selected_arguments@[1]@)
            &&& p.pair_count == dec_val(selected_arguments@[2]@)
        },
{
    if selected_arguments.len() < 3 {
        return None;
    }
    let distribution = match parse_distribution(&selected_arguments[0]) {
        Some(d) => d,
        None => {
            return None;
        },
    };
    let seed = match parse_u64(selected_arguments[1].as_str()) {
        Some(v) => v,
        None => {
            return None;
        },
    };
    let count_wide = match parse_u64(selected_arguments[2].as_str()) {
        Some(v) => v,
        None => {
            return None;
        },
    };
    if count_wide > usize::MAX as u64 {
        return None;
    }
    let pair_count: usize = count_wide as usize;
    Some(RunParams { distribution, random_seed: seed, pair_count })
}

} // verus!
