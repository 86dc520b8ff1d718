//! The commands of each resource operation, as argument lists.

use vstd::prelude::*;
use crate::builder::{conditional_flag_tokens, opt_view, optional_param_tokens, AzCommandBuilder};
use crate::text::{decimal, decimal_string};

pub mod account;
pub mod cosmos;

pub use account::{AccountCommands, ResourceGroup, ResourceGroupProperties};
pub use cosmos::CosmosCommands;

verus! {

/// The decimal rendering of an optional number.
pub open spec fn opt_decimal(v: Option<i32>) -> Option<Seq<char>> {
    match v {
        Some(n) => Some(decimal(n as int)),
        None => None,
    }
}

/// A switch that is set when the option holds `true`, and left out when it
/// holds `false` or nothing.
pub open spec fn optional_flag_tokens(flag: Seq<char>, v: Option<bool>) -> Seq<Seq<char>> {
    match v {
        Some(c) => conditional_flag_tokens(flag, c),
        None => seq![],
    }
}

/// The pair `[flag, value]` once for each value, in order.
pub open spec fn repeated_tokens(flag: Seq<char>, values: Seq<Seq<char>>) -> Seq<Seq<char>>
    decreases values.len(),
{
    if values.len() == 0 {
        seq![]
    } else {
        repeated_tokens(flag, values.drop_last()) + seq![flag, values.last()]
    }
}

/// The repeated pairs for an optional list of values.
pub open spec fn optional_repeated_tokens(flag: Seq<char>, v: Option<Vec<&str>>) -> Seq<Seq<char>> {
    match v {
        Some(vs) => repeated_tokens(flag, vs@.map_values(|s: &str| s@)),
        None => seq![],
    }
}

/// One failover policy as the tool takes it: `location=priority`.
pub open spec fn failover_entry(location: Seq<char>, priority: i32) -> Seq<char> {
    location + "="@ + decimal(priority as int)
}

/// The pair `[flag, location=priority]` once for each policy, in order.
pub open spec fn failover_tokens(flag: Seq<char>, policies: Seq<(String, i32)>) -> Seq<Seq<char>>
    decreases policies.len(),
{
    if policies.len() == 0 {
        seq![]
    } else {
        failover_tokens(flag, policies.drop_last()) + seq![
            flag,
            failover_entry(policies.last().0@, policies.last().1),
        ]
    }
}

/// Appends `[flag, value]` when a value is given.
fn append_optional(b: AzCommandBuilder, flag: &str, v: Option<&str>) -> (r: AzCommandBuilder)
    ensures
        r@ == b@ + optional_param_tokens(flag@, opt_view(v)),
{
    match v {
        Some(x) => b.param(flag, x),
        None => {
            assert(b@ =~= b@ + optional_param_tokens(flag@, opt_view(v)));
            b
        },
    }
}

/// Appends `[flag, value]` in decimal when a value is given.
fn append_optional_number(b: AzCommandBuilder, flag: &str, v: Option<i32>) -> (r: AzCommandBuilder)
    ensures
        r@ == b@ + optional_param_tokens(flag@, opt_decimal(v)),
{
    match v {
        Some(n) => {
            let s = decimal_string(n as i64);
            b.param(flag, s.as_str())
        },
        None => {
            assert(b@ =~= b@ + optional_param_tokens(flag@, opt_decimal(v)));
            b
        },
    }
}

/// Appends the switch when the option holds `true`.
fn append_optional_flag(b: AzCommandBuilder, flag: &str, v: Option<bool>) -> (r: AzCommandBuilder)
    ensures
        r@ == b@ + optional_flag_tokens(flag@, v),
{
    match v {
        Some(c) => b.conditional_flag(flag, c),
        None => {
            assert(b@ =~= b@ + optional_flag_tokens(flag@, v));
            b
        },
    }
}

/// Appends `[flag, value]` for each value, when a list is given.
fn append_optional_repeated(b: AzCommandBuilder, flag: &str, v: &Option<Vec<&str>>) -> (r:
    AzCommandBuilder)
    ensures
        r@ == b@ + optional_repeated_tokens(flag@, *v),
{
    match v {
        Some(values) => {
            let ghost vals = values@.map_values(|s: &str| s@);
            let ghost start = b@;
            let mut b = b;
            let mut i: usize = 0;
            while i < values.len()
                invariant
                    i <= values@.len(),
                    vals == values@.map_values(|s: &str| s@),
                    b@ == start + repeated_tokens(flag@, vals.take(i as int)),
                decreases values@.len() - i,
            {
                b = b.param(flag, values[i]);
                proof {
                    let t = vals.take(i + 1);
                    assert(t.drop_last() =~= vals.take(i as int));
                }
                assert(b@ =~= start + repeated_tokens(flag@, vals.take(i + 1)));
                i = i + 1;
            }
            assert(vals.take(i as int) =~= vals);
            b
        },
        None => {
            assert(b@ =~= b@ + optional_repeated_tokens(flag@, *v));
            b
        },
    }
}

/// Appends `[flag, location=priority]` for each policy.
fn append_failover(b: AzCommandBuilder, flag: &str, policies: &Vec<(String, i32)>) -> (r:
    AzCommandBuilder)
    ensures
        r@ == b@ + failover_tokens(flag@, policies@),
{
    let ghost start = b@;
    let mut b = b;
    let mut i: usize = 0;
    assert(b@ =~= start + failover_tokens(flag@, policies@.take(0)));
    while i < policies.len()
        invariant
            i <= policies@.len(),
            b@ == start + failover_tokens(flag@, policies@.take(i as int)),
        decreases policies@.len() - i,
    {
        let (location, priority) = &policies[i];
        let mut entry = location.clone();
        entry.append("=");
        let digits = decimal_string(*priority as i64);
        entry.append(digits.as_str());
        b = b.param(flag, entry.as_str());
        proof {
            let t = policies@.take(i + 1);
            assert(t.drop_last() =~= policies@.take(i as int));
        }
        assert(b@ =~= start + failover_tokens(flag@, policies@.take(i + 1)));
        i = i + 1;
    }
    assert(policies@.take(i as int) =~= policies@);
    b
}

} // verus!
