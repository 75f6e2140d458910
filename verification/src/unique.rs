//! The text of a request determines the request.
//!
//! Escaping is a code without ambiguity: no escaped character starts with a
//! quote, and none is the beginning of another. So a string literal ends
//! where its closing quote stands, and the members of a request can be told
//! apart in its text.

use crate::json::{escaped, escaped_char, hex_char, json_quoted};
use crate::util::{quoted_list, request_text, OutboundRequestView};
use vstd::prelude::*;

verus! {

proof fn lemma_same_rest<A>(head: Seq<A>, x: Seq<A>, y: Seq<A>)
    requires
        head + x == head + y,
    ensures
        x == y,
{
    assert(x =~= (head + x).subrange(head.len() as int, (head + x).len() as int));
    assert(y =~= (head + y).subrange(head.len() as int, (head + y).len() as int));
}

proof fn lemma_escaped_concat(a: Seq<char>, b: Seq<char>)
    ensures
        escaped(a + b) == escaped(a) + escaped(b),
    decreases b.len(),
{
    if b.len() == 0 {
        assert(a + b =~= a);
        assert(escaped(a) + escaped(b) =~= escaped(a));
    } else {
        lemma_escaped_concat(a, b.drop_last());
        assert((a + b).drop_last() =~= a + b.drop_last());
        assert((a + b).last() == b.last());
        let body = escaped(b.drop_last());
        let end = escaped_char(b.last());
        assert(escaped(a) + body + end =~= escaped(a) + (body + end));
    }
}

proof fn lemma_escaped_first(s: Seq<char>)
    requires
        s.len() > 0,
    ensures
        escaped(s) == escaped_char(s[0]) + escaped(s.drop_first()),
{
    let head = seq![s[0]];
    lemma_escaped_concat(head, s.drop_first());
    assert(head + s.drop_first() =~= s);
    assert(head.drop_last() =~= Seq::<char>::empty());
    assert(escaped(head.drop_last()) =~= Seq::<char>::empty());
    assert(head.last() == s[0]);
    assert(escaped(head) =~= escaped_char(s[0]));
}

proof fn lemma_hex_chars_differ(a: int, b: int)
    requires
        0 <= a < 16,
        0 <= b < 16,
        hex_char(a) == hex_char(b),
    ensures
        a == b,
{
}

/// An escaped character has at least one character and does not start with
/// a quote.
proof fn lemma_escaped_char_start(c: char)
    ensures
        escaped_char(c).len() >= 1,
        escaped_char(c)[0] != '"',
{
}

/// No escaped character is the beginning of another one: two texts that
/// start with escaped characters and are equal start with the same character.
proof fn lemma_escaped_chars_differ(c: char, d: char, x: Seq<char>, y: Seq<char>)
    requires
        escaped_char(c) + x == escaped_char(d) + y,
    ensures
        c == d,
        x == y,
{
    let s = escaped_char(c) + x;
    let t = escaped_char(d) + y;
    assert(s[0] == escaped_char(c)[0]);
    assert(t[0] == escaped_char(d)[0]);
    if escaped_char(c).len() >= 2 {
        assert(s[1] == escaped_char(c)[1]);
    }
    if escaped_char(d).len() >= 2 {
        assert(t[1] == escaped_char(d)[1]);
    }
    if escaped_char(c).len() == 6 && escaped_char(d).len() == 6 {
        assert(s[4] == escaped_char(c)[4]);
        assert(s[5] == escaped_char(c)[5]);
        assert(t[4] == escaped_char(d)[4]);
        assert(t[5] == escaped_char(d)[5]);
        let cc = c as u32 as int;
        let dd = d as u32 as int;
        lemma_hex_chars_differ(cc / 16, dd / 16);
        lemma_hex_chars_differ(cc % 16, dd % 16);
        assert(cc == dd);
    }
    assert(c == d);
    lemma_same_rest(escaped_char(c), x, y);
}

/// Escaped texts that are followed by a quote are read in one way only.
proof fn lemma_escaped_ends_at_quote(a: Seq<char>, b: Seq<char>, x: Seq<char>, y: Seq<char>)
    requires
        escaped(a) + x == escaped(b) + y,
        x.len() > 0 && x[0] == '"',
        y.len() > 0 && y[0] == '"',
    ensures
        a == b,
        x == y,
    decreases a.len(),
{
    if a.len() == 0 {
        assert(escaped(a) + x =~= x);
        if b.len() > 0 {
            lemma_escaped_first(b);
            lemma_escaped_char_start(b[0]);
            assert((escaped(b) + y)[0] == escaped_char(b[0])[0]);
        }
        assert(b.len() == 0);
        assert(escaped(b) + y =~= y);
        assert(a =~= b);
    } else {
        lemma_escaped_first(a);
        lemma_escaped_char_start(a[0]);
        if b.len() == 0 {
            assert(escaped(b) + y =~= y);
            assert((escaped(a) + x)[0] == escaped_char(a[0])[0]);
        }
        assert(b.len() > 0);
        lemma_escaped_first(b);
        let rest_a = escaped(a.drop_first()) + x;
        let rest_b = escaped(b.drop_first()) + y;
        assert(escaped(a) + x =~= escaped_char(a[0]) + rest_a);
        assert(escaped(b) + y =~= escaped_char(b[0]) + rest_b);
        lemma_escaped_chars_differ(a[0], b[0], rest_a, rest_b);
        lemma_escaped_ends_at_quote(a.drop_first(), b.drop_first(), x, y);
        assert(a =~= seq![a[0]] + a.drop_first());
        assert(b =~= seq![b[0]] + b.drop_first());
    }
}

/// Two texts that start with string literals and are equal start with the
/// literal of the same string, and go on in the same way.
pub proof fn lemma_quoted_is_unique(a: Seq<char>, b: Seq<char>, x: Seq<char>, y: Seq<char>)
    requires
        json_quoted(a) + x == json_quoted(b) + y,
    ensures
        a == b,
        x == y,
{
    let quote = seq!['"'];
    let after_a = quote + x;
    let after_b = quote + y;
    assert(json_quoted(a) + x =~= quote + (escaped(a) + after_a));
    assert(json_quoted(b) + y =~= quote + (escaped(b) + after_b));
    lemma_same_rest(quote, escaped(a) + after_a, escaped(b) + after_b);
    lemma_escaped_ends_at_quote(a, b, after_a, after_b);
    lemma_same_rest(quote, x, y);
}

proof fn lemma_quoted_list_first(items: Seq<Seq<char>>)
    requires
        items.len() > 0,
    ensures
        quoted_list(items) == json_quoted(items[0]) + if items.len() == 1 {
            Seq::<char>::empty()
        } else {
            seq![','] + quoted_list(items.drop_first())
        },
    decreases items.len(),
{
    if items.len() == 1 {
        assert(json_quoted(items[0]) + Seq::<char>::empty() =~= json_quoted(items[0]));
    } else {
        let shorter = items.drop_last();
        lemma_quoted_list_first(shorter);
        assert(shorter[0] == items[0]);
        let rest = items.drop_first();
        assert(rest.drop_last() =~= shorter.drop_first());
        assert(rest.last() == items.last());
        if items.len() == 2 {
            assert(rest.len() == 1);
            assert(rest[0] == items.last());
            assert(quoted_list(items) =~= json_quoted(items[0]) + (seq![','] + quoted_list(
                rest,
            )));
        } else {
            assert(quoted_list(rest) == quoted_list(shorter.drop_first()) + seq![',']
                + json_quoted(items.last()));
            assert(quoted_list(items) =~= json_quoted(items[0]) + (seq![','] + quoted_list(
                rest,
            )));
        }
    }
}

/// Lists of string literals that are followed by a closing bracket are read
/// in one way only.
proof fn lemma_quoted_list_is_unique(
    a: Seq<Seq<char>>,
    b: Seq<Seq<char>>,
    x: Seq<char>,
    y: Seq<char>,
)
    requires
        quoted_list(a) + seq![']'] + x == quoted_list(b) + seq![']'] + y,
    ensures
        a == b,
        x == y,
    decreases a.len(),
{
    let close = seq![']'];
    let left = quoted_list(a) + close + x;
    let right = quoted_list(b) + close + y;
    if a.len() == 0 {
        assert(left =~= close + x);
        if b.len() > 0 {
            lemma_quoted_list_first(b);
            assert(right[0] == json_quoted(b[0])[0]);
            assert(left[0] == ']');
        }
        assert(right =~= close + y);
        lemma_same_rest(close, x, y);
        assert(a =~= b);
    } else {
        lemma_quoted_list_first(a);
        if b.len() == 0 {
            assert(right =~= close + y);
            assert(left[0] == json_quoted(a[0])[0]);
            assert(right[0] == ']');
        }
        lemma_quoted_list_first(b);
        let more_a = if a.len() == 1 {
            close + x
        } else {
            seq![','] + (quoted_list(a.drop_first()) + close + x)
        };
        let more_b = if b.len() == 1 {
            close + y
        } else {
            seq![','] + (quoted_list(b.drop_first()) + close + y)
        };
        assert(left =~= json_quoted(a[0]) + more_a);
        assert(right =~= json_quoted(b[0]) + more_b);
        lemma_quoted_is_unique(a[0], b[0], more_a, more_b);
        assert(more_a[0] == more_b[0]);
        if a.len() == 1 {
            assert(b.len() == 1);
            lemma_same_rest(close, x, y);
            assert(a =~= b);
        } else {
            assert(b.len() > 1);
            lemma_same_rest(
                seq![','],
                quoted_list(a.drop_first()) + close + x,
                quoted_list(b.drop_first()) + close + y,
            );
            lemma_quoted_list_is_unique(a.drop_first(), b.drop_first(), x, y);
            assert(a =~= seq![a[0]] + a.drop_first());
            assert(b =~= seq![b[0]] + b.drop_first());
        }
    }
}

/// The part of a request's text that every request has: the operation and
/// the identifier.
spec fn tail_text(op: Seq<char>, req_id: Seq<char>) -> Seq<char> {
    "\"op\":"@ + json_quoted(op) + ",\"req_id\":"@ + json_quoted(req_id) + "}"@
}

proof fn lemma_tail_is_unique(op: Seq<char>, req_id: Seq<char>, op2: Seq<char>, req_id2: Seq<char>)
    requires
        tail_text(op, req_id) == tail_text(op2, req_id2),
    ensures
        op == op2,
        req_id == req_id2,
{
    let key = "\"op\":"@;
    let next_key = ",\"req_id\":"@;
    let end = "}"@;
    let after = next_key + (json_quoted(req_id) + end);
    let after2 = next_key + (json_quoted(req_id2) + end);
    assert(tail_text(op, req_id) =~= key + (json_quoted(op) + after));
    assert(tail_text(op2, req_id2) =~= key + (json_quoted(op2) + after2));
    lemma_same_rest(key, json_quoted(op) + after, json_quoted(op2) + after2);
    lemma_quoted_is_unique(op, op2, after, after2);
    lemma_same_rest(next_key, json_quoted(req_id) + end, json_quoted(req_id2) + end);
    lemma_quoted_is_unique(req_id, req_id2, end, end);
}

/// Writing a request out loses nothing: two requests with the same text have
/// the same operation, the same topics in the same order, and the same
/// identifier.
pub proof fn lemma_request_text_is_unique(first: OutboundRequestView, second: OutboundRequestView)
    requires
        request_text(first) == request_text(second),
    ensures
        first == second,
{
    reveal_strlit("{\"args\":[");
    reveal_strlit("{");
    reveal_strlit("],");
    reveal_strlit("\"op\":");
    let open = "{\"args\":["@;
    let brace = "{"@;
    let tail = tail_text(first.op, first.req_id);
    let tail2 = tail_text(second.op, second.req_id);
    match (first.args, second.args) {
        (Some(topics), Some(topics2)) => {
            let close = seq![']'];
            let comma = seq![','];
            assert("],"@ =~= close + comma);
            assert(request_text(first) =~= open + (quoted_list(topics) + close + (comma + tail)));
            assert(request_text(second) =~= open + (quoted_list(topics2) + close + (comma
                + tail2)));
            lemma_same_rest(
                open,
                quoted_list(topics) + close + (comma + tail),
                quoted_list(topics2) + close + (comma + tail2),
            );
            lemma_quoted_list_is_unique(topics, topics2, comma + tail, comma + tail2);
            lemma_same_rest(comma, tail, tail2);
            lemma_tail_is_unique(first.op, first.req_id, second.op, second.req_id);
        },
        (None, None) => {
            assert(request_text(first) =~= brace + tail);
            assert(request_text(second) =~= brace + tail2);
            lemma_same_rest(brace, tail, tail2);
            lemma_tail_is_unique(first.op, first.req_id, second.op, second.req_id);
        },
        (Some(topics), None) => {
            assert(request_text(first)[2] == open[2]);
            assert(request_text(second) =~= brace + tail2);
            assert(request_text(second)[2] == "\"op\":"@[1]);
            assert(false);
        },
        (None, Some(topics2)) => {
            assert(request_text(second)[2] == open[2]);
            assert(request_text(first) =~= brace + tail);
            assert(request_text(first)[2] == "\"op\":"@[1]);
            assert(false);
        },
    }
}

} // verus!
