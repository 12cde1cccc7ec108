//! Price rendering, the administrator check, and the storefront display
//! configuration.

use vstd::prelude::*;

use crate::numeric::{dec_digits, digit_char, u64_to_dec};
use crate::schema::EngineError;

verus! {

broadcast use vstd::string::group_string_axioms;

/// How a price in integer minor currency units is displayed: a dollar sign,
/// the sign, the whole units, a dot, and exactly two minor-unit digits. The
/// stored integer is never scaled; only the display divides by 100.
pub open spec fn spec_format_price(p: int) -> Seq<char> {
    if p >= 0 {
        seq!['$'] + dec_digits((p / 100) as nat) + seq!['.'] + spec_two_digits((p % 100) as nat)
    } else {
        seq!['$', '-'] + dec_digits(((-p) / 100) as nat) + seq!['.'] + spec_two_digits(
            ((-p) % 100) as nat,
        )
    }
}

/// A value below 100 padded to exactly two digits.
pub open spec fn spec_two_digits(n: nat) -> Seq<char> {
    seq![digit_char((n / 10) as int), digit_char((n % 10) as int)]
}

/// Render a price held in integer minor units for display, e.g. `500` as
/// `$5.00`.
pub fn format_price(price: i64) -> (r: String)
    ensures
        r@ == spec_format_price(price as int),
{
    let mag: u64 = if price >= 0 {
        price as u64
    } else {
        (-(price as i128)) as u64
    };
    let head: &str = if price >= 0 {
        "$"
    } else {
        "$-"
    };
    let mut r = String::from_str(head);
    let dollars = u64_to_dec(mag / 100);
    r.append(dollars.as_str());
    r.append(".");
    let cents = mag % 100;
    let d10 = u64_to_dec(cents / 10);
    r.append(d10.as_str());
    let d1 = u64_to_dec(cents % 10);
    r.append(d1.as_str());
    proof {
        reveal_strlit("$");
        reveal_strlit("$-");
        reveal_strlit(".");
        assert(r@ =~= spec_format_price(price as int));
    }
    r
}

/// Entry guard for the admin-only flows. The administrator identity is an
/// explicit configuration value, handed in by the caller, so the check does
/// not depend on ambient process state.
pub fn assert_admin_id(id: i64, admin_id: i64) -> (r: Result<(), EngineError>)
    ensures
        r is Ok <==> id == admin_id,
        r is Err ==> r == Result::<(), EngineError>::Err(EngineError::NotAdmin),
{
    if id != admin_id {
        Err(EngineError::NotAdmin)
    } else {
        Ok(())
    }
}

/// Storefront display configuration: operating hours and the payment and
/// fulfillment method lists. Loaded once at startup, never mutated by the
/// core.
pub struct Config {
    pub open: String,
    pub close: String,
    pub payment_methods: Vec<String>,
    pub fulfillment_methods: Vec<String>,
}

impl Default for Config {
    /// The default configuration is entirely empty.
    fn default() -> (r: Self)
        ensures
            r.open@.len() == 0,
            r.close@.len() == 0,
            r.payment_methods@.len() == 0,
            r.fulfillment_methods@.len() == 0,
    {
        Config {
            open: String::new(),
            close: String::new(),
            payment_methods: Vec::new(),
            fulfillment_methods: Vec::new(),
        }
    }
}

} // verus!
