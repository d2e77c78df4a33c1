//! How project ids are issued.
//!
//! An id is the text `proj-<counter>-<seconds>-<tag>`: the counter value under
//! which the project was created and the creation time in seconds, both in
//! decimal, followed by the first six characters of the creator's identity.
//! The counter alone makes ids distinct: the digits that follow `proj-` and
//! end at the next `-` determine it.

use vstd::prelude::*;
use vstd::string::*;

verus! {

/// The character that stands for a digit `d`, for `d` below ten.
pub open spec fn digit_char(d: nat) -> char {
    if d == 0 {
        '0'
    } else if d == 1 {
        '1'
    } else if d == 2 {
        '2'
    } else if d == 3 {
        '3'
    } else if d == 4 {
        '4'
    } else if d == 5 {
        '5'
    } else if d == 6 {
        '6'
    } else if d == 7 {
        '7'
    } else if d == 8 {
        '8'
    } else {
        '9'
    }
}

/// Whether `c` is one of the ten decimal digits.
pub open spec fn is_digit(c: char) -> bool {
    exists|d: nat| d < 10 && c == #[trigger] digit_char(d)
}

/// The decimal representation of `n`, without leading zeros.
pub open spec fn decimal(n: nat) -> Seq<char>
    decreases n,
{
    if n < 10 {
        seq![digit_char(n)]
    } else {
        decimal(n / 10).push(digit_char(n % 10))
    }
}

/// The text that opens every project id.
pub open spec fn id_lead() -> Seq<char> {
    seq!['p', 'r', 'o', 'j', '-']
}

/// The separator between the parts of a project id.
pub open spec fn id_dash() -> Seq<char> {
    seq!['-']
}

/// The part of an identity that enters a project id: its first six
/// characters, or all of it when it is shorter.
pub open spec fn sender_tag(sender: Seq<char>) -> Seq<char> {
    if sender.len() <= 6 {
        sender
    } else {
        sender.subrange(0, 6)
    }
}

/// The start of every id issued under the counter value `count`.
pub open spec fn id_prefix(count: nat) -> Seq<char> {
    id_lead() + decimal(count) + id_dash()
}

/// The id of the project created under counter value `count`, at time
/// `seconds`, by `sender`.
pub open spec fn project_id_text(count: nat, seconds: nat, sender: Seq<char>) -> Seq<char> {
    id_prefix(count) + decimal(seconds) + id_dash() + sender_tag(sender)
}

/// Whether `id` has the form of an id issued under the counter value `count`.
pub open spec fn issued_under(id: Seq<char>, count: nat) -> bool {
    id_prefix(count).is_prefix_of(id)
}

/// Whether `id` has the form of an issued id, under any counter value.
pub open spec fn is_issued(id: Seq<char>) -> bool {
    exists|count: nat| issued_under(id, count)
}

/// The counter value under which `id` was issued. It is meaningful where
/// `is_issued(id)` holds, and then it is the only such value.
pub open spec fn counter_of(id: Seq<char>) -> nat {
    choose|count: nat| issued_under(id, count)
}

/// Every character of a decimal representation is a digit, and there is at
/// least one.
pub proof fn lemma_decimal_digits(n: nat)
    ensures
        decimal(n).len() >= 1,
        forall|i: int| 0 <= i < decimal(n).len() ==> is_digit(#[trigger] decimal(n)[i]),
    decreases n,
{
    if n < 10 {
        assert(decimal(n)[0] == digit_char(n));
    } else {
        lemma_decimal_digits(n / 10);
        let last = digit_char(n % 10);
        assert(is_digit(last));
        assert forall|i: int| 0 <= i < decimal(n).len() implies is_digit(
            #[trigger] decimal(n)[i],
        ) by {
            if i < decimal(n / 10).len() {
                assert(decimal(n)[i] == decimal(n / 10)[i]);
            } else {
                assert(decimal(n)[i] == last);
            }
        }
    }
}

/// A number of two or more digits does not start with a zero, and only
/// numbers below ten have a single digit.
proof fn lemma_decimal_length(n: nat)
    ensures
        n < 10 <==> decimal(n).len() == 1,
    decreases n,
{
    if n >= 10 {
        lemma_decimal_digits(n / 10);
    }
}

/// Different digits have different characters.
proof fn lemma_digit_char_injective(a: nat, b: nat)
    requires
        a < 10,
        b < 10,
        digit_char(a) == digit_char(b),
    ensures
        a == b,
{
}

/// Different numbers have different decimal representations.
pub proof fn lemma_decimal_injective(a: nat, b: nat)
    requires
        decimal(a) == decimal(b),
    ensures
        a == b,
    decreases a,
{
    lemma_decimal_length(a);
    lemma_decimal_length(b);
    if a < 10 {
        assert(decimal(a)[0] == digit_char(a));
        assert(decimal(b)[0] == digit_char(b));
        lemma_digit_char_injective(a, b);
    } else {
        let da = decimal(a / 10);
        let db = decimal(b / 10);
        assert(decimal(a).last() == digit_char(a % 10));
        assert(decimal(b).last() == digit_char(b % 10));
        lemma_digit_char_injective(a % 10, b % 10);
        assert(da == db) by {
            assert(decimal(a).drop_last() =~= da);
            assert(decimal(b).drop_last() =~= db);
        }
        lemma_decimal_injective(a / 10, b / 10);
    }
}

/// The dash is not a digit.
proof fn lemma_dash_is_no_digit()
    ensures
        !is_digit('-'),
{
    assert forall|d: nat| d < 10 implies '-' != #[trigger] digit_char(d) by {}
}

/// An id is issued under one counter value at most.
pub proof fn lemma_issued_under_unique(id: Seq<char>, c1: nat, c2: nat)
    requires
        issued_under(id, c1),
        issued_under(id, c2),
    ensures
        c1 == c2,
{
    let d1 = decimal(c1);
    let d2 = decimal(c2);
    let n1 = d1.len() as int;
    let n2 = d2.len() as int;
    lemma_decimal_digits(c1);
    lemma_decimal_digits(c2);
    lemma_dash_is_no_digit();
    let lead_a = id_prefix(c1);
    let lead_b = id_prefix(c2);
    // Both prefixes lie at the start of `id`, so they agree wherever both reach.
    assert forall|i: int| 0 <= i < lead_a.len() implies lead_a[i] == id[i] by {
        assert(lead_a[i] == id.subrange(0, lead_a.len() as int)[i]);
    }
    assert forall|i: int| 0 <= i < lead_b.len() implies lead_b[i] == id[i] by {
        assert(lead_b[i] == id.subrange(0, lead_b.len() as int)[i]);
    }
    assert forall|i: int| 0 <= i < d1.len() implies d1[i] == #[trigger] lead_a[5 + i] by {}
    assert forall|i: int| 0 <= i < d2.len() implies d2[i] == #[trigger] lead_b[5 + i] by {}
    assert(lead_a[5 + n1] == '-');
    assert(lead_b[5 + n2] == '-');
    if n1 < n2 {
        // The dash that ends the first counter would be a digit of the second.
        assert(d2[n1] == lead_b[5 + n1]);
        assert(is_digit(d2[n1]));
        assert(false);
    } else if n2 < n1 {
        assert(d1[n2] == lead_a[5 + n2]);
        assert(is_digit(d1[n2]));
        assert(false);
    } else {
        assert forall|i: int| 0 <= i < d1.len() implies d1[i] == d2[i] by {
            assert(d1[i] == lead_a[5 + i]);
            assert(d2[i] == lead_b[5 + i]);
        }
        assert(d1 =~= d2);
        lemma_decimal_injective(c1, c2);
    }
}

/// An id that is issued under `count` has `count` as its counter.
pub proof fn lemma_counter_of_issued(id: Seq<char>, count: nat)
    requires
        issued_under(id, count),
    ensures
        is_issued(id),
        counter_of(id) == count,
{
    lemma_issued_under_unique(id, count, counter_of(id));
}

/// The id made for a counter value is issued under that value.
pub proof fn lemma_project_id_issued(count: nat, seconds: nat, sender: Seq<char>)
    ensures
        issued_under(project_id_text(count, seconds, sender), count),
        is_issued(project_id_text(count, seconds, sender)),
        counter_of(project_id_text(count, seconds, sender)) == count,
{
    let id = project_id_text(count, seconds, sender);
    let p = id_prefix(count);
    assert(p =~= id.subrange(0, p.len() as int));
    lemma_counter_of_issued(id, count);
}

/// Ids made for different counter values differ, whatever the times and the
/// senders are.
pub proof fn lemma_project_ids_differ(
    c1: nat,
    t1: nat,
    s1: Seq<char>,
    c2: nat,
    t2: nat,
    s2: Seq<char>,
)
    requires
        c1 != c2,
    ensures
        project_id_text(c1, t1, s1) != project_id_text(c2, t2, s2),
{
    lemma_project_id_issued(c1, t1, s1);
    lemma_project_id_issued(c2, t2, s2);
}

/// The one-character text of a digit.
fn digit_text(d: u64) -> (s: &'static str)
    requires
        d < 10,
    ensures
        s@ == seq![digit_char(d as nat)],
{
    proof {
        reveal_strlit("0");
        reveal_strlit("1");
        reveal_strlit("2");
        reveal_strlit("3");
        reveal_strlit("4");
        reveal_strlit("5");
        reveal_strlit("6");
        reveal_strlit("7");
        reveal_strlit("8");
        reveal_strlit("9");
    }
    let s = if d == 0 {
        "0"
    } else if d == 1 {
        "1"
    } else if d == 2 {
        "2"
    } else if d == 3 {
        "3"
    } else if d == 4 {
        "4"
    } else if d == 5 {
        "5"
    } else if d == 6 {
        "6"
    } else if d == 7 {
        "7"
    } else if d == 8 {
        "8"
    } else {
        "9"
    };
    assert(s@ =~= seq![digit_char(d as nat)]);
    s
}

/// Writes `n` in decimal.
pub fn decimal_string(n: u64) -> (s: String)
    ensures
        s@ == decimal(n as nat),
    decreases n,
{
    if n < 10 {
        String::from_str(digit_text(n))
    } else {
        let mut s = decimal_string(n / 10);
        s.append(digit_text(n % 10));
        assert(s@ =~= decimal(n as nat));
        s
    }
}

/// Builds the id of the project created under counter value `count`, at time
/// `seconds`, by `sender`.
pub fn make_project_id(count: u64, seconds: u64, sender: &str) -> (id: String)
    ensures
        id@ == project_id_text(count as nat, seconds as nat, sender@),
{
    proof {
        reveal_strlit("proj-");
        reveal_strlit("-");
    }
    let mut id = String::from_str("proj-");
    assert(id@ =~= id_lead());
    let counter = decimal_string(count);
    id.append(counter.as_str());
    id.append("-");
    assert(id@ =~= id_prefix(count as nat));
    let time = decimal_string(seconds);
    id.append(time.as_str());
    id.append("-");
    let length = sender.unicode_len();
    let taken: usize = if length <= 6 {
        length
    } else {
        6
    };
    let tag = sender.substring_char(0, taken);
    assert(tag@ =~= sender_tag(sender@));
    id.append(tag);
    assert(id@ =~= project_id_text(count as nat, seconds as nat, sender@));
    id
}

} // verus!
