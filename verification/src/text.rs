//! Small operations on text: decimal numbers, the last segment of a
//! location, and trimming.

use vstd::prelude::*;

verus! {

/// The text of a string that may be missing.
pub open spec fn optional(s: Option<String>) -> Option<Seq<char>> {
    match s {
        Some(s) => Some(s@),
        None => None,
    }
}

/// The character that stands for the digit `d`.
pub open spec fn digit(d: nat) -> char {
    if d == 0 {
        '0'
    } else if d == 1 {
        '1'
    } else if d == 2 {
        '2'
    } else if d == 3 {
        '3'
    } else if d == 4 {
        '4'
    } else if d == 5 {
        '5'
    } else if d == 6 {
        '6'
    } else if d == 7 {
        '7'
    } else if d == 8 {
        '8'
    } else {
        '9'
    }
}

/// The decimal digits of `n`, most significant first, without leading zeros.
pub open spec fn digits(n: nat) -> Seq<char>
    decreases n,
{
    if n < 10 {
        seq![digit(n)]
    } else {
        digits(n / 10).push(digit(n % 10))
    }
}

/// The decimal form of `n`: its digits, after a minus sign when it is
/// negative.
pub open spec fn decimal(n: int) -> Seq<char> {
    if n < 0 {
        seq!['-'] + digits((-n) as nat)
    } else {
        digits(n as nat)
    }
}

fn digit_text(d: u64) -> (one: &'static str)
    requires
        d < 10,
    ensures
        one@ == seq![digit(d as nat)],
{
    proof {
        reveal_strlit("0");
        reveal_strlit("1");
        reveal_strlit("2");
        reveal_strlit("3");
        reveal_strlit("4");
        reveal_strlit("5");
        reveal_strlit("6");
        reveal_strlit("7");
        reveal_strlit("8");
        reveal_strlit("9");
    }
    let one = if d == 0 {
        "0"
    } else if d == 1 {
        "1"
    } else if d == 2 {
        "2"
    } else if d == 3 {
        "3"
    } else if d == 4 {
        "4"
    } else if d == 5 {
        "5"
    } else if d == 6 {
        "6"
    } else if d == 7 {
        "7"
    } else if d == 8 {
        "8"
    } else {
        "9"
    };
    assert(one@ =~= seq![digit(d as nat)]);
    one
}

fn push_digits(out: &mut String, n: u64)
    ensures
        final(out)@ == old(out)@ + digits(n as nat),
    decreases n,
{
    if n >= 10 {
        push_digits(out, n / 10);
    }
    out.append(digit_text(n % 10));
    assert(final(out)@ =~= old(out)@ + digits(n as nat));
}

/// Writes `n` in decimal.
pub fn decimal_string(n: i64) -> (out: String)
    ensures
        out@ == decimal(n as int),
{
    let mut out = String::new();
    if n < 0 {
        proof {
            reveal_strlit("-");
        }
        out.append("-");
        let size: u64 = (-(n + 1)) as u64 + 1;
        push_digits(&mut out, size);
        assert(out@ =~= decimal(n as int));
    } else {
        push_digits(&mut out, n as u64);
        assert(out@ =~= decimal(n as int));
    }
    out
}

/// The part of `location` after its last `/`, or all of it when it has none.
pub open spec fn final_segment(location: Seq<char>) -> Seq<char>
    decreases location.len(),
{
    if location.len() == 0 || location.last() == '/' {
        Seq::empty()
    } else {
        final_segment(location.drop_last()).push(location.last())
    }
}

/// The name under which the file at `location` is kept: its final segment.
/// A location that ends in `/`, or whose final segment is `.` or `..`, names
/// no file.
pub open spec fn file_name(location: Seq<char>) -> Option<Seq<char>> {
    let name = final_segment(location);
    if name.len() == 0 || name == seq!['.'] || name == seq!['.', '.'] {
        None
    } else {
        Some(name)
    }
}

proof fn lemma_final_segment_tail(s: Seq<char>, i: int)
    requires
        0 <= i <= s.len(),
        forall|j: int| i <= j < s.len() ==> s[j] != '/',
    ensures
        final_segment(s) == final_segment(s.subrange(0, i)) + s.subrange(i, s.len() as int),
    decreases s.len() - i,
{
    let n = s.len() as int;
    if i == n {
        assert(s.subrange(0, i) =~= s);
        assert(final_segment(s) + s.subrange(i, n) =~= final_segment(s));
    } else {
        let front = s.drop_last();
        assert(forall|j: int| i <= j < front.len() ==> front[j] == s[j]);
        lemma_final_segment_tail(front, i);
        assert(front.subrange(0, i) =~= s.subrange(0, i));
        assert(front.subrange(i, n - 1).push(s.last()) =~= s.subrange(i, n));
        assert((final_segment(s.subrange(0, i)) + front.subrange(i, n - 1)).push(s.last())
            =~= final_segment(s.subrange(0, i)) + s.subrange(i, n));
    }
}

/// Finds the name under which the file at `location` is kept.
pub fn file_name_of(location: &str) -> (name: Option<String>)
    ensures
        optional(name) == file_name(location@),
{
    let n = location.unicode_len();
    let mut i: usize = n;
    while i > 0 && location.get_char(i - 1) != '/'
        invariant
            n == location@.len(),
            i <= n,
            forall|j: int| i <= j < n ==> location@[j] != '/',
        decreases i,
    {
        i = i - 1;
    }
    proof {
        lemma_final_segment_tail(location@, i as int);
        assert(final_segment(location@.subrange(0, i as int)) =~= Seq::<char>::empty());
        assert(final_segment(location@) =~= location@.subrange(i as int, n as int));
    }
    let name = location.substring_char(i, n);
    let size = n - i;
    if size == 0 {
        None
    } else if size == 1 && name.get_char(0) == '.' {
        assert(name@ =~= seq!['.']);
        None
    } else if size == 2 && name.get_char(0) == '.' && name.get_char(1) == '.' {
        assert(name@ =~= seq!['.', '.']);
        None
    } else {
        Some(name.to_owned())
    }
}

/// Whether `c` is one of the blanks of ASCII: space, tab, line feed, form
/// feed or carriage return.
pub open spec fn is_ascii_blank(c: char) -> bool {
    c == ' ' || c == '\t' || c == '\n' || c == '\x0C' || c == '\r'
}

/// `s` without the ASCII blanks at its end.
pub open spec fn trimmed_end(s: Seq<char>) -> Seq<char>
    decreases s.len(),
{
    if s.len() > 0 && is_ascii_blank(s.last()) {
        trimmed_end(s.drop_last())
    } else {
        s
    }
}

proof fn lemma_trimmed_end_tail(s: Seq<char>, i: int)
    requires
        0 <= i <= s.len(),
        forall|j: int| i <= j < s.len() ==> is_ascii_blank(s[j]),
    ensures
        trimmed_end(s) == trimmed_end(s.subrange(0, i)),
    decreases s.len() - i,
{
    if i == s.len() {
        assert(s.subrange(0, i) =~= s);
    } else {
        let front = s.drop_last();
        assert(forall|j: int| i <= j < front.len() ==> front[j] == s[j]);
        lemma_trimmed_end_tail(front, i);
        assert(front.subrange(0, i) =~= s.subrange(0, i));
    }
}

/// Removes the ASCII blanks at the end of `s`.
pub fn trim_end(s: &str) -> (out: String)
    ensures
        out@ == trimmed_end(s@),
{
    let n = s.unicode_len();
    let mut i: usize = n;
    while i > 0 && is_blank(s.get_char(i - 1))
        invariant
            n == s@.len(),
            i <= n,
            forall|j: int| i <= j < n ==> is_ascii_blank(s@[j]),
        decreases i,
    {
        i = i - 1;
    }
    proof {
        lemma_trimmed_end_tail(s@, i as int);
    }
    s.substring_char(0, i).to_owned()
}

fn is_blank(c: char) -> (blank: bool)
    ensures
        blank == is_ascii_blank(c),
{
    c == ' ' || c == '\t' || c == '\n' || c == '\x0C' || c == '\r'
}

} // verus!
