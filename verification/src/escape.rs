//! Escaping of text for Go double-quoted string literals.
use vstd::prelude::*;

verus! {

/// Trusts std's `String::push`: it appends one character.
pub assume_specification[ std::string::String::push ](s: &mut std::string::String, ch: char)
    ensures
        final(s)@ == old(s)@.push(ch),
;

/// The escape sequence that stands for one character inside a Go
/// double-quoted literal: backslash, double quote, newline and tab are
/// escaped, every other character stands for itself.
pub open spec fn escape_char(c: char) -> Seq<char> {
    if c == '\\' {
        seq!['\\', '\\']
    } else if c == '"' {
        seq!['\\', '"']
    } else if c == '\n' {
        seq!['\\', 'n']
    } else if c == '\t' {
        seq!['\\', 't']
    } else {
        seq![c]
    }
}

/// The escaped form of a text: each character replaced by its escape.
pub open spec fn escape(s: Seq<char>) -> Seq<char>
    decreases s.len(),
{
    if s.len() == 0 {
        Seq::empty()
    } else {
        escape(s.drop_last()) + escape_char(s.last())
    }
}

/// The character that a Go escape sequence `\c` stands for (for the
/// escapes that `escape` produces).
pub open spec fn unescape_char(c: char) -> char {
    if c == 'n' {
        '\n'
    } else if c == 't' {
        '\t'
    } else {
        c
    }
}

/// How a Go compiler reads the body of a double-quoted literal that holds
/// only the escapes `\\`, `\"`, `\n` and `\t`.
pub open spec fn unescape(s: Seq<char>) -> Seq<char>
    decreases s.len(),
{
    if s.len() == 0 {
        Seq::empty()
    } else if s[0] == '\\' && s.len() >= 2 {
        seq![unescape_char(s[1])] + unescape(s.skip(2))
    } else {
        seq![s[0]] + unescape(s.skip(1))
    }
}

/// Escaping distributes over concatenation.
pub proof fn lemma_escape_concat(a: Seq<char>, b: Seq<char>)
    ensures
        escape(a + b) == escape(a) + escape(b),
    decreases b.len(),
{
    if b.len() == 0 {
        assert(a + b =~= a);
        assert(escape(b) =~= Seq::<char>::empty());
        assert(escape(a) + escape(b) =~= escape(a));
    } else {
        lemma_escape_concat(a, b.drop_last());
        assert((a + b).drop_last() =~= a + b.drop_last());
        assert((a + b).last() == b.last());
        assert(escape(a + b) =~= escape(a) + escape(b.drop_last()) + escape_char(b.last()));
    }
}

proof fn lemma_escape_front(s: Seq<char>)
    requires
        s.len() > 0,
    ensures
        escape(s) == escape_char(s[0]) + escape(s.skip(1)),
{
    let head = seq![s[0]];
    assert(s =~= head + s.skip(1));
    lemma_escape_concat(head, s.skip(1));
    assert(head.drop_last() =~= Seq::<char>::empty());
    assert(head.last() == s[0]);
    assert(escape(head) == escape(head.drop_last()) + escape_char(head.last()));
    assert(Seq::<char>::empty() + escape_char(s[0]) =~= escape_char(s[0]));
}

proof fn lemma_unescape_step(c: char, rest: Seq<char>)
    ensures
        unescape(escape_char(c) + rest) == seq![c] + unescape(rest),
{
    let e = escape_char(c) + rest;
    if c == '\\' || c == '"' || c == '\n' || c == '\t' {
        assert(e.skip(2) =~= rest);
    } else {
        assert(e.skip(1) =~= rest);
    }
}

/// Reading the escaped text back as a Go literal gives the original text.
pub proof fn lemma_unescape_escape(s: Seq<char>)
    ensures
        unescape(escape(s)) == s,
    decreases s.len(),
{
    if s.len() == 0 {
    } else {
        lemma_escape_front(s);
        lemma_unescape_step(s[0], escape(s.skip(1)));
        lemma_unescape_escape(s.skip(1));
        assert(seq![s[0]] + s.skip(1) =~= s);
    }
}

/// The escaped text holds no raw newline and no raw tab, so it fits on one
/// line of a Go literal.
pub proof fn lemma_escape_single_line(s: Seq<char>)
    ensures
        forall|i: int| 0 <= i < escape(s).len() ==> escape(s)[i] != '\n' && escape(s)[i] != '\t',
    decreases s.len(),
{
    if s.len() > 0 {
        lemma_escape_single_line(s.drop_last());
        let e = escape(s);
        let p = escape(s.drop_last());
        assert forall|i: int| 0 <= i < e.len() implies e[i] != '\n' && e[i] != '\t' by {
            if i < p.len() {
                assert(e[i] == p[i]);
            }
        }
    }
}

/// Escape a string for use in a Go string literal (double-quoted).
pub fn escape_go_string(s: &str) -> (res: String)
    ensures
        res@ == escape(s@),
{
    let mut out = String::new();
    for c in it: s.chars()
        invariant
            it.seq() == s@,
            out@ == escape(s@.take(it.index() as int)),
    {
        if c == '\\' {
            out.push('\\');
            out.push('\\');
        } else if c == '"' {
            out.push('\\');
            out.push('"');
        } else if c == '\n' {
            out.push('\\');
            out.push('n');
        } else if c == '\t' {
            out.push('\\');
            out.push('t');
        } else {
            out.push(c);
        }
        assert(s@.take(it.index() + 1).drop_last() =~= s@.take(it.index() as int));
    }
    assert(s@.take(s@.len() as int) =~= s@);
    out
}

/// The characters that a Go double-quoted literal cannot hold as they are.
pub open spec fn needs_escape(c: char) -> bool {
    c == '\\' || c == '"' || c == '\n' || c == '\t'
}

/// A text is a valid body of a Go double-quoted literal whose escapes are
/// all among `\\`, `\"`, `\n` and `\t`: every backslash starts one of these,
/// and there is no raw double quote or newline.
pub open spec fn valid_go_literal_body(t: Seq<char>) -> bool
    decreases t.len(),
{
    if t.len() == 0 {
        true
    } else if t[0] == '\\' {
        t.len() >= 2 && (t[1] == '\\' || t[1] == '"' || t[1] == 'n' || t[1] == 't')
            && valid_go_literal_body(t.skip(2))
    } else if t[0] == '"' || t[0] == '\n' {
        false
    } else {
        valid_go_literal_body(t.skip(1))
    }
}

/// Text without backslash, double quote, newline or tab is left exactly as
/// it is: only those four characters are escaped.
pub proof fn lemma_escape_keeps_plain_text(s: Seq<char>)
    requires
        forall|i: int| 0 <= i < s.len() ==> !needs_escape(#[trigger] s[i]),
    ensures
        escape(s) == s,
    decreases s.len(),
{
    if s.len() > 0 {
        lemma_escape_keeps_plain_text(s.drop_last());
        assert(!needs_escape(s[s.len() - 1]));
        assert(s.drop_last().push(s.last()) =~= s);
    }
}

proof fn lemma_valid_go_literal_body_concat(a: Seq<char>, b: Seq<char>)
    requires
        valid_go_literal_body(a),
        valid_go_literal_body(b),
    ensures
        valid_go_literal_body(a + b),
    decreases a.len(),
{
    if a.len() > 0 {
        if a[0] == '\\' {
            lemma_valid_go_literal_body_concat(a.skip(2), b);
            assert((a + b).skip(2) =~= a.skip(2) + b);
        } else {
            lemma_valid_go_literal_body_concat(a.skip(1), b);
            assert((a + b).skip(1) =~= a.skip(1) + b);
        }
    } else {
        assert(a + b =~= b);
    }
}

/// Every escaped text is a valid Go literal body: each backslash in it
/// starts one of the escapes `\\`, `\"`, `\n`, `\t`, and it holds no raw
/// double quote or newline.
pub proof fn lemma_escape_valid_go_literal(s: Seq<char>)
    ensures
        valid_go_literal_body(escape(s)),
    decreases s.len(),
{
    if s.len() > 0 {
        lemma_escape_valid_go_literal(s.drop_last());
        let c = s.last();
        let e = escape_char(c);
        assert(valid_go_literal_body(Seq::<char>::empty()));
        if needs_escape(c) {
            assert(e.skip(2) =~= Seq::<char>::empty());
        } else {
            assert(e.skip(1) =~= Seq::<char>::empty());
        }
        assert(valid_go_literal_body(e));
        lemma_valid_go_literal_body_concat(escape(s.drop_last()), e);
    }
}

} // verus!
