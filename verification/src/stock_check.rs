use vstd::prelude::*;

use vstd::string::StringExecFns;

use crate::wire::{chars_to_string, hex_digit, hex_digit_char};

verus! {

/// The decimal digits of a non-negative integer, most significant first.
pub open spec fn dec_digits(n: int) -> Seq<char>
    decreases n,
{
    if n < 10 {
        seq![hex_digit(n)]
    } else {
        dec_digits(n / 10).push(hex_digit(n % 10))
    }
}

/// The decimal rendering of an integer, with a leading minus sign when it is
/// negative.
pub open spec fn dec_of_int(n: int) -> Seq<char> {
    if n < 0 {
        "-"@ + dec_digits(-n)
    } else {
        dec_digits(n)
    }
}

fn digits_of(v: u32) -> (cs: Vec<char>)
    ensures
        cs@ == dec_digits(v as int),
    decreases v,
{
    if v < 10 {
        let mut cs: Vec<char> = Vec::new();
        cs.push(hex_digit_char(v));
        proof {
            assert(cs@ =~= seq![hex_digit(v as int)]);
        }
        cs
    } else {
        let mut cs = digits_of(v / 10);
        cs.push(hex_digit_char(v % 10));
        cs
    }
}

fn format_i32(n: i32) -> (s: String)
    ensures
        s@ == dec_of_int(n as int),
{
    if n >= 0 {
        let cs = digits_of(n as u32);
        chars_to_string(&cs)
    } else {
        let magnitude = (-(n as i64)) as u32;
        proof {
            assert(magnitude as int == -(n as int));
        }
        let cs = digits_of(magnitude);
        let mut s = String::from_str("-");
        s.append(chars_to_string(&cs).as_str());
        s
    }
}

/// The message a stock check answers with when the row covers the request.
pub open spec fn stock_available_message() -> Seq<char> {
    "Stock available"@
}

/// The message a stock check answers with when the row falls short.
pub open spec fn not_enough_message(current: int, requested: int) -> Seq<char> {
    "Not enough stock. Available: "@ + dec_of_int(current) + ", Requested: "@ + dec_of_int(
        requested,
    )
}

/// The answer of a stock-lookup check for one product.
pub struct CheckStockResponse {
    pub product_id: String,
    pub available: bool,
    pub current_stock: i32,
    pub message: String,
}

/// The stock-lookup decision: given the product's current quantity (or its
/// absence) and a requested quantity, says whether the request is covered and
/// renders the answer's message. `None` exactly when the product has no stock
/// row; the caller turns that into its own not-found error.
pub fn check_stock(product_id: String, current: Option<i32>, requested: i32) -> (r: Option<
    CheckStockResponse,
>)
    ensures
        (r is Some) == (current is Some),
        current matches Option::Some(q) ==> (r matches Option::Some(resp) && {
            &&& resp.product_id@ == product_id@
            &&& resp.available == (q >= requested)
            &&& resp.current_stock == q
            &&& q >= requested ==> resp.message@ == stock_available_message()
            &&& q < requested ==> resp.message@ == not_enough_message(q as int, requested as int)
        }),
{
    match current {
        Some(q) => {
            let available = q >= requested;
            let message = if available {
                String::from_str("Stock available")
            } else {
                let mut m = String::from_str("Not enough stock. Available: ");
                m.append(format_i32(q).as_str());
                m.append(", Requested: ");
                m.append(format_i32(requested).as_str());
                m
            };
            Some(CheckStockResponse { product_id, available, current_stock: q, message })
        },
        None => None,
    }
}

} // verus!
