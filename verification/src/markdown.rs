//! Escaping of plain text for Telegram's MarkdownV2 parse mode.

use vstd::prelude::*;

verus! {

/// The characters that MarkdownV2 gives a meaning to and that must be
/// preceded by a backslash to stand for themselves.
pub open spec fn is_markdown_reserved(c: char) -> bool {
    c == '\\' || c == '_' || c == '*' || c == '[' || c == ']' || c == '(' || c == ')' || c
        == '~' || c == '`' || c == '>' || c == '#' || c == '+' || c == '-' || c == '=' || c
        == '|' || c == '{' || c == '}' || c == '.' || c == '!'
}

/// The escape of one character.
pub open spec fn escape_char(c: char) -> Seq<char> {
    if is_markdown_reserved(c) {
        seq!['\\', c]
    } else {
        seq![c]
    }
}

/// The escape of a text: each character escaped in turn.
pub open spec fn markdown_escaped(s: Seq<char>) -> Seq<char>
    decreases s.len(),
{
    if s.len() == 0 {
        seq![]
    } else {
        escape_char(s[0]) + markdown_escaped(s.drop_first())
    }
}

/// Text in which every reserved character is escaped: it reads as a sequence
/// of ordinary characters and of escape pairs (a backslash followed by a
/// reserved character).
pub open spec fn markdown_safe(t: Seq<char>) -> bool
    decreases t.len(),
{
    if t.len() == 0 {
        true
    } else if t[0] == '\\' {
        t.len() >= 2 && is_markdown_reserved(t[1]) && markdown_safe(t.subrange(2, t.len() as int))
    } else {
        !is_markdown_reserved(t[0]) && markdown_safe(t.drop_first())
    }
}

/// Reads escaped text back: every backslash is dropped and the character
/// after it kept.
pub open spec fn markdown_unescaped(t: Seq<char>) -> Seq<char>
    decreases t.len(),
{
    if t.len() == 0 {
        seq![]
    } else if t[0] == '\\' && t.len() >= 2 {
        seq![t[1]] + markdown_unescaped(t.subrange(2, t.len() as int))
    } else {
        seq![t[0]] + markdown_unescaped(t.drop_first())
    }
}

/// Escaping a text made of two parts escapes each part in turn.
pub proof fn lemma_markdown_escaped_concat(a: Seq<char>, b: Seq<char>)
    ensures
        markdown_escaped(a + b) == markdown_escaped(a) + markdown_escaped(b),
    decreases a.len(),
{
    if a.len() == 0 {
        assert(a + b =~= b);
        assert(markdown_escaped(a) + markdown_escaped(b) =~= markdown_escaped(b));
    } else {
        assert((a + b).drop_first() =~= a.drop_first() + b);
        assert((a + b)[0] == a[0]);
        lemma_markdown_escaped_concat(a.drop_first(), b);
        assert(markdown_escaped(a + b) =~= escape_char(a[0]) + (markdown_escaped(a.drop_first())
            + markdown_escaped(b)));
    }
}

/// The escaped form of any text is safe for MarkdownV2: no reserved
/// character in it is left without its backslash.
pub proof fn lemma_markdown_escape_is_safe(s: Seq<char>)
    ensures
        markdown_safe(markdown_escaped(s)),
    decreases s.len(),
{
    if s.len() > 0 {
        lemma_markdown_escape_is_safe(s.drop_first());
        let rest = markdown_escaped(s.drop_first());
        let t = markdown_escaped(s);
        if is_markdown_reserved(s[0]) {
            assert(t.subrange(2, t.len() as int) =~= rest);
        } else {
            assert(t.drop_first() =~= rest);
        }
    }
}

/// Escaping loses nothing: reading the escaped text back gives the
/// original text.
pub proof fn lemma_markdown_escape_round_trip(s: Seq<char>)
    ensures
        markdown_unescaped(markdown_escaped(s)) == s,
    decreases s.len(),
{
    if s.len() == 0 {
        assert(markdown_escaped(s) =~= seq![]);
    } else {
        lemma_markdown_escape_round_trip(s.drop_first());
        let rest = markdown_escaped(s.drop_first());
        let t = markdown_escaped(s);
        if is_markdown_reserved(s[0]) {
            assert(t.subrange(2, t.len() as int) =~= rest);
        } else {
            assert(t.drop_first() =~= rest);
        }
        assert(markdown_unescaped(t) =~= s);
    }
}

/// Two texts with the same escaped form are the same text.
pub proof fn lemma_markdown_escape_injective(a: Seq<char>, b: Seq<char>)
    requires
        markdown_escaped(a) == markdown_escaped(b),
    ensures
        a == b,
{
    lemma_markdown_escape_round_trip(a);
    lemma_markdown_escape_round_trip(b);
}

/// MarkdownV2 reserves exactly the characters `\ _ * [ ] ( ) ~ ` > # + - =
/// | { } . !`: each of them is escaped with one backslash, and every other
/// character, such as a letter, a space, a newline or any character above
/// U+007E, is kept as it is.
pub proof fn lemma_markdown_escapes_exactly_the_reserved(c: char)
    ensures
        (c == '\\' || c == '_' || c == '*' || c == '[' || c == ']' || c == '(' || c == ')'
            || c == '~' || c == '`' || c == '>' || c == '#' || c == '+' || c == '-' || c == '='
            || c == '|' || c == '{' || c == '}' || c == '.' || c == '!') ==> markdown_escaped(
            seq![c],
        ) == seq!['\\', c],
        !(c == '\\' || c == '_' || c == '*' || c == '[' || c == ']' || c == '(' || c == ')'
            || c == '~' || c == '`' || c == '>' || c == '#' || c == '+' || c == '-' || c == '='
            || c == '|' || c == '{' || c == '}' || c == '.' || c == '!') ==> markdown_escaped(
            seq![c],
        ) == seq![c],
        (c as u32) > 0x7e ==> markdown_escaped(seq![c]) == seq![c],
{
    assert(seq![c].drop_first() =~= Seq::<char>::empty());
    assert(markdown_escaped(Seq::<char>::empty()) =~= Seq::<char>::empty());
    assert(seq![c][0] == c);
    assert(markdown_escaped(seq![c]) =~= escape_char(c));
}

/// Text in which none of the reserved characters occurs, such as text made
/// of letters, digits, spaces and characters above U+007E, comes out of the
/// escape unchanged.
pub proof fn lemma_markdown_plain_text_unchanged(s: Seq<char>)
    requires
        forall|i: int|
            0 <= i < s.len() ==> !(#[trigger] s[i] == '\\' || s[i] == '_' || s[i] == '*' || s[i]
                == '[' || s[i] == ']' || s[i] == '(' || s[i] == ')' || s[i] == '~' || s[i] == '`'
                || s[i] == '>' || s[i] == '#' || s[i] == '+' || s[i] == '-' || s[i] == '=' || s[i]
                == '|' || s[i] == '{' || s[i] == '}' || s[i] == '.' || s[i] == '!'),
    ensures
        markdown_escaped(s) == s,
    decreases s.len(),
{
    if s.len() > 0 {
        assert(s[0] == s[0]);
        assert forall|i: int| 0 <= i < s.drop_first().len() implies !(#[trigger] s.drop_first()[i]
            == '\\' || s.drop_first()[i] == '_' || s.drop_first()[i] == '*' || s.drop_first()[i]
            == '[' || s.drop_first()[i] == ']' || s.drop_first()[i] == '(' || s.drop_first()[i]
            == ')' || s.drop_first()[i] == '~' || s.drop_first()[i] == '`' || s.drop_first()[i]
            == '>' || s.drop_first()[i] == '#' || s.drop_first()[i] == '+' || s.drop_first()[i]
            == '-' || s.drop_first()[i] == '=' || s.drop_first()[i] == '|' || s.drop_first()[i]
            == '{' || s.drop_first()[i] == '}' || s.drop_first()[i] == '.' || s.drop_first()[i]
            == '!') by {
            assert(s.drop_first()[i] == s[i + 1]);
        }
        lemma_markdown_plain_text_unchanged(s.drop_first());
        assert(markdown_escaped(s) =~= seq![s[0]] + s.drop_first());
        assert(seq![s[0]] + s.drop_first() =~= s);
    }
}

/// Escapes `text` for MarkdownV2: every reserved character gets a
/// backslash in front of it, every other character is kept.
pub fn markdown_escape(text: String) -> (escaped: String)
    ensures
        escaped@ == markdown_escaped(text@),
{
    let mut out = String::new();
    let ghost s = text@;
    for c in it: text.as_str().chars()
        invariant
            it.seq() == s,
            out@ == markdown_escaped(s.take(it.index() as int)),
    {
        let ghost i = it.index() as int;
        proof {
            assert(s.take(i + 1) =~= s.take(i) + seq![c]);
            lemma_markdown_escaped_concat(s.take(i), seq![c]);
            assert(seq![c].drop_first() =~= Seq::<char>::empty());
            assert(markdown_escaped(Seq::<char>::empty()) =~= Seq::<char>::empty());
            assert(seq![c][0] == c);
            assert(markdown_escaped(seq![c]) =~= escape_char(c));
        }
        if c == '\\' || c == '_' || c == '*' || c == '[' || c == ']' || c == '(' || c == ')' || c
            == '~' || c == '`' || c == '>' || c == '#' || c == '+' || c == '-' || c == '=' || c
            == '|' || c == '{' || c == '}' || c == '.' || c == '!' {
            out.push('\\');
        }
        out.push(c);
    }
    proof {
        assert(s.take(s.len() as int) =~= s);
    }
    out
}

} // verus!
