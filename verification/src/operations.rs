//! Arithmetic operations offered by the command-line GCD calculator.

use vstd::prelude::*;
use crate::math::{gcd_spec, lemma_gcd_commutative};
use crate::text::{decimal_seq, push_decimal};

verus! {

/// Parameters of a GCD request submitted through the calculator's form.
pub struct GcdParameters {
    pub n: u64,
    pub m: u64,
}

/// Greatest common divisor of two non-zero numbers. The loop keeps the
/// smaller value in `n` and reduces `m` modulo it until `m` reaches zero.
pub fn gcd(n: u64, m: u64) -> (r: u64)
    requires
        n != 0 && m != 0,
    ensures
        r == gcd_spec(n as nat, m as nat),
        r != 0,
{
    let mut n = n;
    let mut m = m;
    let ghost target = gcd_spec(n as nat, m as nat);
    while m != 0
        invariant
            n != 0,
            gcd_spec(n as nat, m as nat) == target,
        decreases m,
    {
        if m < n {
            proof {
                lemma_gcd_commutative(n as nat, m as nat);
            }
            let temp = m;
            m = n;
            n = temp;
        }
        proof {
            lemma_gcd_commutative(n as nat, m as nat);
        }
        m = m % n;
    }
    n
}

/// The GCD of all the numbers, taken left to right (the number itself for
/// one number, 0 for none).
pub open spec fn gcd_fold(s: Seq<u64>) -> nat
    decreases s.len(),
{
    if s.len() == 0 {
        0
    } else if s.len() == 1 {
        s[0] as nat
    } else {
        gcd_spec(gcd_fold(s.drop_last()), s.last() as nat)
    }
}

/// The GCD of one or more non-zero numbers, combining them left to right.
pub fn gcd_of_numbers(numbers: &Vec<u64>) -> (r: u64)
    requires
        numbers.len() >= 1,
        forall|i: int| 0 <= i < numbers.len() ==> numbers[i] != 0,
    ensures
        r == gcd_fold(numbers@),
        r != 0,
{
    let mut result = numbers[0];
    let mut i: usize = 1;
    assert(numbers@.take(1) =~= seq![numbers@[0]]);
    while i < numbers.len()
        invariant
            1 <= i <= numbers.len(),
            forall|k: int| 0 <= k < numbers.len() ==> numbers[k] != 0,
            result != 0,
            result == gcd_fold(numbers@.take(i as int)),
        decreases numbers.len() - i,
    {
        assert(numbers@.take(i + 1).drop_last() =~= numbers@.take(i as int));
        assert(numbers@.take(i + 1).last() == numbers@[i as int]);
        result = gcd(result, numbers[i]);
        i = i + 1;
    }
    assert(numbers@.take(i as int) =~= numbers@);
    result
}

/// The numbers as `{:?}` prints a list of them: "[a, b, c]".
pub open spec fn number_list_text(s: Seq<u64>) -> Seq<char> {
    "["@ + joined_numbers(s) + "]"@
}

/// The numbers in decimal, separated by ", ".
pub open spec fn joined_numbers(s: Seq<u64>) -> Seq<char>
    decreases s.len(),
{
    if s.len() == 0 {
        Seq::empty()
    } else if s.len() == 1 {
        decimal_seq(s[0] as nat)
    } else {
        joined_numbers(s.drop_last()) + ", "@ + decimal_seq(s.last() as nat)
    }
}

fn number_list(numbers: &Vec<u64>) -> (r: String)
    ensures
        r@ == number_list_text(numbers@),
{
    let mut s = String::from_str("[");
    let mut i: usize = 0;
    while i < numbers.len()
        invariant
            i <= numbers.len(),
            s@ == "["@ + joined_numbers(numbers@.take(i as int)),
        decreases numbers.len() - i,
    {
        assert(numbers@.take(i + 1).drop_last() =~= numbers@.take(i as int));
        if i > 0 {
            s.append(", ");
        }
        push_decimal(&mut s, numbers[i]);
        proof {
            let t = numbers@.take(i + 1);
            assert(t.last() == numbers@[i as int]);
            if i == 0 {
                assert(t.len() == 1);
            }
        }
        assert(s@ =~= "["@ + joined_numbers(numbers@.take(i + 1)));
        i = i + 1;
    }
    assert(numbers@.take(i as int) =~= numbers@);
    s.concat("]")
}

/// What the calculator prints for the numbers given on its command line:
/// a hint when there are none or one, else their GCD.
pub open spec fn cli_report_text(numbers: Seq<u64>) -> Seq<char> {
    if numbers.len() == 0 {
        "No command-line numbers provided; submit values via the /gcd form instead."@
    } else if numbers.len() == 1 {
        "Only one number ("@ + decimal_seq(numbers[0] as nat)
            + ") provided; add another to compute a GCD on the CLI."@
    } else {
        "The greatest common divisor of the numbers of "@ + number_list_text(numbers) + " is "@
            + decimal_seq(gcd_fold(numbers))
    }
}

/// The calculator's report on its command-line numbers. Two or more
/// numbers must all be non-zero.
pub fn cli_report(numbers: &Vec<u64>) -> (r: String)
    requires
        numbers.len() >= 2 ==> forall|i: int| 0 <= i < numbers.len() ==> numbers[i] != 0,
    ensures
        r@ == cli_report_text(numbers@),
{
    if numbers.len() == 0 {
        String::from_str("No command-line numbers provided; submit values via the /gcd form instead.")
    } else if numbers.len() == 1 {
        let mut s = String::from_str("Only one number (");
        push_decimal(&mut s, numbers[0]);
        s.concat(") provided; add another to compute a GCD on the CLI.")
    } else {
        let g = gcd_of_numbers(numbers);
        let mut s = String::from_str("The greatest common divisor of the numbers of ").concat(
            number_list(numbers).as_str(),
        ).concat(" is ");
        push_decimal(&mut s, g);
        s
    }
}

/// The calculator's form page.
pub fn gcd_form_page() -> (r: &'static str)
    ensures
        r@ == "\n    <html>\n      <head><title>GCD Calculator</title></head>\n      <body>\n        <form action=\"/gcd\" method=\"post\">\n          <input type=\"text\" name=\"n\" />\n          <input type=\"text\" name=\"m\" />\n          <button type=\"submit\">Compute GCD</button>\n        </form>\n      </body>\n    </html>\n  "@,
{
    "\n    <html>\n      <head><title>GCD Calculator</title></head>\n      <body>\n        <form action=\"/gcd\" method=\"post\">\n          <input type=\"text\" name=\"n\" />\n          <input type=\"text\" name=\"m\" />\n          <button type=\"submit\">Compute GCD</button>\n        </form>\n      </body>\n    </html>\n  "
}

/// The answer to a submitted form: whether it was accepted, and the page.
#[derive(Debug, Clone, PartialEq, Eq)]
pub struct GcdReply {
    pub ok: bool,
    pub body: String,
}

/// The answer to a form asking for the GCD of `p.n` and `p.m`: a zero is
/// refused, else the GCD is shown in bold.
pub fn gcd_form_reply(p: &GcdParameters) -> (r: GcdReply)
    ensures
        (p.n == 0 || p.m == 0) ==> !r.ok && r.body@
            == "Error: Computing the GCD with zero is boring."@,
        (p.n != 0 && p.m != 0) ==> r.ok && r.body@ == "The greatest common divisor of the numbers "@
            + decimal_seq(p.n as nat) + " and "@ + decimal_seq(p.m as nat) + " is <b>"@
            + decimal_seq(gcd_spec(p.n as nat, p.m as nat)) + "</b>"@,
{
    if p.n == 0 || p.m == 0 {
        return GcdReply {
            ok: false,
            body: String::from_str("Error: Computing the GCD with zero is boring."),
        };
    }
    let g = gcd(p.n, p.m);
    let mut s = String::from_str("The greatest common divisor of the numbers ");
    push_decimal(&mut s, p.n);
    s.append(" and ");
    push_decimal(&mut s, p.m);
    s.append(" is <b>");
    push_decimal(&mut s, g);
    GcdReply { ok: true, body: s.concat("</b>") }
}

} // verus!
