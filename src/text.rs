//! Names and labels derived from layer digests and task counts.
use vstd::prelude::*;

verus! {

/// The file name under which a layer with digest `d` is stored: every `:` becomes `_`.
pub open spec fn layer_file_name_spec(d: Seq<char>) -> Seq<char> {
    d.map_values(|c: char| if c == ':' { '_' } else { c })
}

/// The file name under which the layer with the given digest is stored: the digest with
/// every `:` replaced by `_`.
pub fn layer_file_name(digest: &str) -> (r: String)
    ensures
        r@ == layer_file_name_spec(digest@),
{
    let n = digest.unicode_len();
    let mut r = String::new();
    let mut i: usize = 0;
    while i < n
        invariant
            n == digest@.len(),
            i <= n,
            r@ == layer_file_name_spec(digest@.take(i as int)),
        decreases n - i,
    {
        let c = digest.get_char(i);
        let ghost prev = r@;
        if c == ':' {
            proof { reveal_strlit("_"); }
            r.append("_");
        } else {
            let piece = digest.substring_char(i, i + 1);
            assert(piece@ =~= seq![c]);
            r.append(piece);
        }
        assert(r@ =~= prev.push(if c == ':' { '_' } else { c }));
        assert(digest@.take(i + 1) =~= digest@.take(i as int).push(c));
        assert(layer_file_name_spec(digest@.take(i + 1)) =~= layer_file_name_spec(
            digest@.take(i as int),
        ).push(if c == ':' { '_' } else { c }));
        i = i + 1;
    }
    assert(digest@.take(n as int) =~= digest@);
    r
}

/// `base` followed by `singular` when `count` is one, by `plural` otherwise.
pub open spec fn pluralize_spec(
    base: Seq<char>,
    singular: Seq<char>,
    plural: Seq<char>,
    count: nat,
) -> Seq<char> {
    base + if count == 1 { singular } else { plural }
}

/// Appends the singular or the plural ending to `base` according to `count`.
pub fn pluralize(base: &str, singular: &str, plural: &str, count: usize) -> (r: String)
    ensures
        r@ == pluralize_spec(base@, singular@, plural@, count as nat),
{
    let mut r = String::from_str(base);
    if count == 1 {
        r.append(singular);
    } else {
        r.append(plural);
    }
    r
}

pub open spec fn digit_char(d: nat) -> char {
    if d == 0 {
        '0'
    } else if d == 1 {
        '1'
    } else if d == 2 {
        '2'
    } else if d == 3 {
        '3'
    } else if d == 4 {
        '4'
    } else if d == 5 {
        '5'
    } else if d == 6 {
        '6'
    } else if d == 7 {
        '7'
    } else if d == 8 {
        '8'
    } else {
        '9'
    }
}

/// The decimal digits of `n`, most significant first, without leading zeros.
pub open spec fn decimal_spec(n: nat) -> Seq<char>
    decreases n,
{
    if n < 10 {
        seq![digit_char(n)]
    } else {
        decimal_spec(n / 10) + seq![digit_char(n % 10)]
    }
}

fn digit(d: usize) -> (r: &'static str)
    requires
        d < 10,
    ensures
        r@ == seq![digit_char(d as nat)],
{
    if d == 0 {
        proof { reveal_strlit("0"); }
        "0"
    } else if d == 1 {
        proof { reveal_strlit("1"); }
        "1"
    } else if d == 2 {
        proof { reveal_strlit("2"); }
        "2"
    } else if d == 3 {
        proof { reveal_strlit("3"); }
        "3"
    } else if d == 4 {
        proof { reveal_strlit("4"); }
        "4"
    } else if d == 5 {
        proof { reveal_strlit("5"); }
        "5"
    } else if d == 6 {
        proof { reveal_strlit("6"); }
        "6"
    } else if d == 7 {
        proof { reveal_strlit("7"); }
        "7"
    } else if d == 8 {
        proof { reveal_strlit("8"); }
        "8"
    } else {
        proof { reveal_strlit("9"); }
        "9"
    }
}

/// The decimal representation of `n`.
pub fn decimal(n: usize) -> (r: String)
    ensures
        r@ == decimal_spec(n as nat),
    decreases n,
{
    if n < 10 {
        String::from_str(digit(n))
    } else {
        let mut r = decimal(n / 10);
        r.append(digit(n % 10));
        r
    }
}

/// The label `[task/task_count]` shown in front of a task's progress indicator.
pub open spec fn progress_prefix_spec(task: nat, task_count: nat) -> Seq<char> {
    seq!['['] + decimal_spec(task) + seq!['/'] + decimal_spec(task_count) + seq![']']
}

/// The label `[task/task_count]` shown in front of a task's progress indicator.
pub fn progress_prefix(task: usize, task_count: usize) -> (r: String)
    ensures
        r@ == progress_prefix_spec(task as nat, task_count as nat),
{
    proof {
        reveal_strlit("[");
        reveal_strlit("/");
        reveal_strlit("]");
    }
    let mut r = String::from_str("[");
    let a = decimal(task);
    r.append(a.as_str());
    r.append("/");
    let b = decimal(task_count);
    r.append(b.as_str());
    r.append("]");
    r
}

} // verus!
