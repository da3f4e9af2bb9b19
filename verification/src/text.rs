//! The texts that callers present to their users: the Fibonacci response
//! line and the age report, each pinned down character for character.

use vstd::prelude::*;
use vstd::string::StringExecFns;

use crate::decimal::{dec_rep, u32_to_string};
use crate::fib::{fib, fibonacci};

verus! {

/// The year against which an age is computed.
pub const CURRENT_YEAR: u16 = 2025;

/// The response line for the Fibonacci number at index `n`:
/// `Fibonacci (<n>) = <fib(n)>`.
pub open spec fn fib_message(n: nat) -> Seq<char> {
    "Fibonacci ("@ + dec_rep(n) + ") = "@ + dec_rep(fib(n))
}

/// The report of an `age` in years: `You are <age> years old`.
pub open spec fn age_message(age: nat) -> Seq<char> {
    "You are "@ + dec_rep(age) + " years old"@
}

/// Computes the `n`-th Fibonacci number and writes the response line for
/// it. As with `fibonacci`, the caller keeps `n` below the `u32` overflow
/// boundary.
pub fn format_fibonacci(n: u32) -> (s: String)
    requires
        fib(n as nat) <= u32::MAX,
    ensures
        s@ == fib_message(n as nat),
{
    let r = fibonacci(n);
    let mut s = String::from_str("Fibonacci (");
    let n_text = u32_to_string(n);
    s.append(n_text.as_str());
    s.append(") = ");
    let r_text = u32_to_string(r);
    s.append(r_text.as_str());
    proof {
        assert(s@ =~= fib_message(n as nat));
    }
    s
}

/// Reports the age in years of someone born in `birth_year`, counted
/// against `CURRENT_YEAR`; a year in the future is rejected with an error
/// text.
pub fn calculate_age(birth_year: u16) -> (r: Result<String, String>)
    ensures
        r is Ok <==> birth_year <= CURRENT_YEAR,
        r is Ok ==> r->Ok_0@ == age_message((CURRENT_YEAR - birth_year) as nat),
        r is Err ==> r->Err_0@ == "Birth year cant be in the future"@,
{
    if birth_year > CURRENT_YEAR {
        return Err(String::from_str("Birth year cant be in the future"));
    }
    let age = CURRENT_YEAR - birth_year;
    let mut s = String::from_str("You are ");
    let age_text = u32_to_string(age as u32);
    s.append(age_text.as_str());
    s.append(" years old");
    proof {
        assert(s@ =~= age_message((CURRENT_YEAR - birth_year) as nat));
    }
    Ok(s)
}

} // verus!
