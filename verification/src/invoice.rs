//! The text of a payment invoice, line by line.
use vstd::prelude::*;

verus! {

/// The document title of the invoice for transaction `tid`.
pub open spec fn invoice_title_text(tid: Seq<char>) -> Seq<char> {
    "Invoice "@ + tid
}

/// A rule of `n` underscores.
pub open spec fn rule_text(n: nat) -> Seq<char> {
    Seq::new(n, |i: int| '_')
}

/// The lines of an invoice that come before its amount: the heading, the
/// invoice number, a rule of 70 underscores, the customer and the workshop,
/// and the label of the amount.
pub open spec fn invoice_lines_text(
    tid: Seq<char>,
    user_name: Seq<char>,
    user_email: Seq<char>,
    workshop_title: Seq<char>,
) -> Seq<Seq<char>> {
    seq![
        "INVOICE"@,
        "Invoice #: "@ + tid,
        rule_text(70),
        "Bill To:"@,
        user_name,
        user_email,
        "Workshop:"@,
        workshop_title,
        "Amount Paid:"@,
    ]
}

/// The views of a list of strings.
pub open spec fn strings_view(v: Seq<String>) -> Seq<Seq<char>> {
    v.map_values(|s: String| s@)
}

/// The document title of the invoice for transaction `tid`.
pub fn invoice_title(tid: &str) -> (s: String)
    ensures
        s@ == invoice_title_text(tid@),
{
    let mut s = "Invoice ".to_owned();
    s.append(tid);
    s
}

/// A rule of `n` underscores.
fn rule(n: usize) -> (s: String)
    ensures
        s@ == rule_text(n as nat),
{
    let mut s = String::new();
    let mut i: usize = 0;
    while i < n
        invariant
            i <= n,
            s@ == rule_text(i as nat),
        decreases n - i,
    {
        proof { reveal_strlit("_"); }
        s.append("_");
        assert(s@ =~= rule_text((i + 1) as nat));
        i = i + 1;
    }
    s
}

/// The lines of the invoice for transaction `tid` that come before its
/// amount (see [`invoice_lines_text`]).
pub fn invoice_lines(tid: &str, user_name: &str, user_email: &str, workshop_title: &str) -> (v: Vec<String>)
    ensures
        strings_view(v@) == invoice_lines_text(tid@, user_name@, user_email@, workshop_title@),
{
    let mut number = "Invoice #: ".to_owned();
    number.append(tid);
    let mut v: Vec<String> = Vec::new();
    v.push("INVOICE".to_owned());
    v.push(number);
    v.push(rule(70));
    v.push("Bill To:".to_owned());
    v.push(user_name.to_owned());
    v.push(user_email.to_owned());
    v.push("Workshop:".to_owned());
    v.push(workshop_title.to_owned());
    v.push("Amount Paid:".to_owned());
    assert(strings_view(v@) =~= invoice_lines_text(tid@, user_name@, user_email@, workshop_title@));
    v
}

/// The closing line of an invoice.
pub fn closing_line() -> (s: String)
    ensures
        s@ == "Thank you for your purchase!"@,
{
    "Thank you for your purchase!".to_owned()
}

} // verus!
