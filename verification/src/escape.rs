//! Escaping of free text for the rich-text message format.
//!
//! The rich-text format reserves a set of punctuation characters for markup.
//! Any untrusted text substituted into a message template (a sender's display
//! name) must have each reserved character preceded by a backslash, so that
//! the rendered message shows the text literally instead of treating it as
//! markup.

use vstd::prelude::*;

verus! {

/// The characters the rich-text format reserves: its markup punctuation, and
/// the backslash, which is the escape character itself and would otherwise
/// swallow whatever follows it.
pub open spec fn is_reserved(c: char) -> bool {
    c == '\\' || c == '_' || c == '*' || c == '[' || c == ']' || c == '(' || c == ')'
        || c == '~' || c == '`' || c == '>' || c == '#' || c == '+' || c == '-'
        || c == '=' || c == '|' || c == '{' || c == '}' || c == '.' || c == '!'
}

/// How one character appears after escaping: reserved characters gain a
/// leading backslash, all others stay as they are.
pub open spec fn escape_char(c: char) -> Seq<char> {
    if is_reserved(c) {
        seq!['\\', c]
    } else {
        seq![c]
    }
}

/// The escaped form of a character sequence: each character escaped in place,
/// order preserved.
pub open spec fn escape_seq(s: Seq<char>) -> Seq<char>
    decreases s.len(),
{
    if s.len() == 0 {
        Seq::empty()
    } else {
        escape_char(s[0]) + escape_seq(s.skip(1))
    }
}

/// How the rich-text renderer reads text back: a backslash followed by any
/// character stands for that character literally; every other character
/// stands for itself.
pub open spec fn render_plain(s: Seq<char>) -> Seq<char>
    decreases s.len(),
{
    if s.len() == 0 {
        Seq::empty()
    } else if s[0] == '\\' && s.len() >= 2 {
        seq![s[1]] + render_plain(s.skip(2))
    } else {
        seq![s[0]] + render_plain(s.skip(1))
    }
}

/// Escaping distributes over concatenation.
pub proof fn lemma_escape_seq_concat(a: Seq<char>, b: Seq<char>)
    ensures
        escape_seq(a + b) == escape_seq(a) + escape_seq(b),
    decreases a.len(),
{
    if a.len() == 0 {
        assert(a + b =~= b);
        assert(escape_seq(a) + escape_seq(b) =~= escape_seq(b));
    } else {
        assert((a + b).skip(1) =~= a.skip(1) + b);
        lemma_escape_seq_concat(a.skip(1), b);
        assert(escape_seq(a + b) =~= escape_seq(a) + escape_seq(b));
    }
}

/// Round trip: any text, once escaped, renders back to exactly the original
/// text — substituted names appear literally and unformatted, with no
/// character acting as markup or as a stray escape prefix.
pub proof fn lemma_escape_then_render(s: Seq<char>)
    ensures
        render_plain(escape_seq(s)) == s,
    decreases s.len(),
{
    if s.len() == 0 {
    } else {
        let c = s[0];
        lemma_escape_then_render(s.skip(1));
        let e = escape_seq(s);
        if is_reserved(c) {
            assert(e[0] == '\\');
            assert(e[1] == c);
            assert(e.skip(2) =~= escape_seq(s.skip(1)));
            assert(render_plain(e) =~= seq![c] + s.skip(1));
        } else {
            assert(e[0] == c);
            assert(e.skip(1) =~= escape_seq(s.skip(1)));
            assert(render_plain(e) =~= seq![c] + s.skip(1));
        }
        assert(seq![c] + s.skip(1) =~= s);
    }
}

/// Whether a character is reserved by the rich-text format.
pub fn is_reserved_char(c: char) -> (b: bool)
    ensures
        b == is_reserved(c),
{
    c == '\\' || c == '_' || c == '*' || c == '[' || c == ']' || c == '(' || c == ')'
        || c == '~' || c == '`' || c == '>' || c == '#' || c == '+' || c == '-'
        || c == '=' || c == '|' || c == '{' || c == '}' || c == '.' || c == '!'
}

/// Escape a text for the rich-text format: every reserved character gets a
/// leading backslash, everything else is copied through unchanged.
pub fn escape_markdown(s: &str) -> (r: String)
    ensures
        r@ == escape_seq(s@),
{
    let n = s.unicode_len();
    let mut out = String::new();
    let mut i: usize = 0;
    while i < n
        invariant
            n == s@.len(),
            i <= n,
            out@ == escape_seq(s@.take(i as int)),
        decreases n - i,
    {
        let c = s.get_char(i);
        if is_reserved_char(c) {
            out.append("\\");
        }
        let piece = s.substring_char(i, i + 1);
        out.append(piece);
        proof {
            reveal_strlit("\\");
            let c0 = s@[i as int];
            let cs = seq![c0];
            assert(piece@ =~= cs);
            assert(cs.skip(1) =~= Seq::<char>::empty());
            assert(escape_seq(cs) =~= escape_char(c0)) by {
                assert(escape_seq(cs.skip(1)) =~= Seq::<char>::empty());
            }
            assert(s@.take(i + 1) =~= s@.take(i as int) + cs);
            lemma_escape_seq_concat(s@.take(i as int), cs);
            assert(out@ =~= escape_seq(s@.take(i + 1)));
        }
        i += 1;
    }
    proof {
        assert(s@.take(n as int) =~= s@);
    }
    out
}

} // verus!
