//! Text building blocks: decimal numbers, upper case, comparison, and the
//! part of a topic that names its stream.

use vstd::prelude::*;

verus! {

/// `String::push` appends one character.
pub assume_specification[ String::push ](s: &mut String, ch: char)
    ensures
        final(s)@ == old(s)@.push(ch),
;

/// The upper-case form of a text, as the standard library computes it.
pub uninterp spec fn uppercased(s: Seq<char>) -> Seq<char>;

/// `str::to_uppercase` returns the upper-case form of the whole slice. The
/// mapping follows the Unicode tables and is not spelled out here.
pub assume_specification[ str::to_uppercase ](s: &str) -> (upper: String)
    ensures
        upper@ == uppercased(s@),
;

/// Whether two texts hold the same characters.
pub fn same_text(a: &str, b: &str) -> (same: bool)
    ensures
        same == (a@ == b@),
{
    a.to_owned() == b.to_owned()
}

/// The character that writes the digit `d`.
pub open spec fn digit_char(d: int) -> char {
    if d == 0 {
        '0'
    } else if d == 1 {
        '1'
    } else if d == 2 {
        '2'
    } else if d == 3 {
        '3'
    } else if d == 4 {
        '4'
    } else if d == 5 {
        '5'
    } else if d == 6 {
        '6'
    } else if d == 7 {
        '7'
    } else if d == 8 {
        '8'
    } else {
        '9'
    }
}

/// The decimal digits of a natural number, most significant first, without
/// leading zeros.
pub open spec fn decimal_digits(n: nat) -> Seq<char>
    decreases n,
{
    if n < 10 {
        seq![digit_char(n as int)]
    } else {
        decimal_digits(n / 10).push(digit_char((n % 10) as int))
    }
}

/// The decimal form of an integer: a minus sign for a negative number, then
/// the digits of its magnitude.
pub open spec fn decimal(n: int) -> Seq<char> {
    if n < 0 {
        seq!['-'] + decimal_digits((-n) as nat)
    } else {
        decimal_digits(n as nat)
    }
}

fn digit(d: u64) -> (c: char)
    requires
        d < 10,
    ensures
        c == digit_char(d as int),
{
    if d == 0 {
        '0'
    } else if d == 1 {
        '1'
    } else if d == 2 {
        '2'
    } else if d == 3 {
        '3'
    } else if d == 4 {
        '4'
    } else if d == 5 {
        '5'
    } else if d == 6 {
        '6'
    } else if d == 7 {
        '7'
    } else if d == 8 {
        '8'
    } else {
        '9'
    }
}

fn push_digits(out: &mut String, n: u64)
    ensures
        final(out)@ == old(out)@ + decimal_digits(n as nat),
    decreases n,
{
    if n >= 10 {
        push_digits(out, n / 10);
    }
    out.push(digit(n % 10));
}

/// Appends the decimal form of `n` to `out`.
pub fn push_decimal(out: &mut String, n: i32)
    ensures
        final(out)@ == old(out)@ + decimal(n as int),
{
    if n < 0 {
        out.push('-');
        let magnitude: u64 = (-(n as i64)) as u64;
        push_digits(out, magnitude);
    } else {
        push_digits(out, n as u64);
    }
}

/// The part of a topic that names its stream: the characters before the
/// first dot, or the whole topic if it has no dot.
pub open spec fn stream_kind(topic: Seq<char>) -> Seq<char>
    decreases topic.len(),
{
    if topic.len() == 0 || topic[0] == '.' {
        Seq::empty()
    } else {
        seq![topic[0]] + stream_kind(topic.drop_first())
    }
}

/// A prefix without a dot that ends the topic, or that a dot follows, is the
/// topic's stream kind.
pub proof fn lemma_stream_kind_is_prefix(topic: Seq<char>, n: int)
    requires
        0 <= n <= topic.len(),
        forall|i: int| 0 <= i < n ==> topic[i] != '.',
        n == topic.len() || topic[n] == '.',
    ensures
        stream_kind(topic) == topic.take(n),
    decreases n,
{
    if n == 0 {
        assert(topic.take(0) =~= Seq::<char>::empty());
    } else {
        let rest = topic.drop_first();
        assert forall|i: int| 0 <= i < n - 1 implies rest[i] != '.' by {
            assert(rest[i] == topic[i + 1]);
        }
        lemma_stream_kind_is_prefix(rest, n - 1);
        assert(topic.take(n) =~= seq![topic[0]] + rest.take(n - 1));
    }
}

/// The stream kind of a topic, as a text of its own.
pub fn stream_kind_of(topic: &str) -> (kind: String)
    ensures
        kind@ == stream_kind(topic@),
{
    let n = topic.unicode_len();
    let mut kind = String::new();
    let mut i: usize = 0;
    while i < n
        invariant
            n == topic@.len(),
            i <= n,
            kind@ == topic@.take(i as int),
            forall|j: int| 0 <= j < i ==> topic@[j] != '.',
        decreases n - i,
    {
        let c = topic.get_char(i);
        if c == '.' {
            proof {
                lemma_stream_kind_is_prefix(topic@, i as int);
            }
            return kind;
        }
        kind.push(c);
        assert(topic@.take(i + 1) =~= topic@.take(i as int).push(c));
        i += 1;
    }
    proof {
        lemma_stream_kind_is_prefix(topic@, n as int);
    }
    kind
}

} // verus!
