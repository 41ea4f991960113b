//! Platform-specific utilities shared across modules.
use vstd::prelude::*;

use crate::text::str_to_chars;

verus! {

/// How one character appears inside a PowerShell single-quoted string:
/// quotes are doubled, shell metacharacters are backtick-escaped, line
/// breaks and tabs become named escapes, and null bytes are removed.
pub open spec fn ps_escape_char(c: char) -> Seq<char> {
    if c == '\'' {
        seq!['\'', '\'']
    } else if c == '`' || c == '$' || c == '"' || c == '\\' {
        seq!['`', c]
    } else if c == '\n' {
        seq!['`', 'n']
    } else if c == '\r' {
        seq!['`', 'r']
    } else if c == '\t' {
        seq!['`', 't']
    } else if c == '\u{00}' {
        Seq::empty()
    } else {
        seq![c]
    }
}

/// The PowerShell-safe escaping of a whole string.
pub open spec fn spec_ps_escape(s: Seq<char>) -> Seq<char>
    decreases s.len(),
{
    if s.len() == 0 {
        Seq::empty()
    } else {
        ps_escape_char(s[0]) + spec_ps_escape(s.drop_first())
    }
}

proof fn lemma_ps_escape_snoc(s: Seq<char>, c: char)
    ensures
        spec_ps_escape(s.push(c)) == spec_ps_escape(s) + ps_escape_char(c),
    decreases s.len(),
{
    if s.len() == 0 {
        assert(s.push(c) =~= seq![c]);
        assert(s.push(c).drop_first() =~= Seq::<char>::empty());
        assert(spec_ps_escape(Seq::<char>::empty()) =~= Seq::<char>::empty());
        assert(spec_ps_escape(s.push(c)) =~= ps_escape_char(c));
        assert(spec_ps_escape(s) + ps_escape_char(c) =~= ps_escape_char(c));
    } else {
        assert(s.push(c).drop_first() =~= s.drop_first().push(c));
        lemma_ps_escape_snoc(s.drop_first(), c);
        assert(spec_ps_escape(s.push(c)) =~= spec_ps_escape(s) + ps_escape_char(c));
    }
}

/// Escapes a string for safe use in PowerShell single-quoted strings.
/// Handles special characters that could cause command injection or
/// parsing issues.
pub fn escape_powershell(text: &str) -> (r: String)
    ensures
        r@ == spec_ps_escape(text@),
{
    let chars = str_to_chars(text);
    let mut out: Vec<char> = Vec::new();
    let mut i: usize = 0;
    while i < chars.len()
        invariant
            chars@ == text@,
            i <= chars@.len(),
            out@ == spec_ps_escape(text@.take(i as int)),
        decreases chars@.len() - i,
    {
        let c = chars[i];
        let ghost pre = out@;
        if c == '\'' {
            out.push('\'');
            out.push('\'');
            assert(out@ =~= pre + ps_escape_char(c));
        } else if c == '`' || c == '$' || c == '"' || c == '\\' {
            out.push('`');
            out.push(c);
            assert(out@ =~= pre + ps_escape_char(c));
        } else if c == '\n' {
            out.push('`');
            out.push('n');
            assert(out@ =~= pre + ps_escape_char(c));
        } else if c == '\r' {
            out.push('`');
            out.push('r');
            assert(out@ =~= pre + ps_escape_char(c));
        } else if c == '\t' {
            out.push('`');
            out.push('t');
            assert(out@ =~= pre + ps_escape_char(c));
        } else if c == '\u{00}' {
            assert(out@ =~= pre + ps_escape_char(c));
        } else {
            out.push(c);
            assert(out@ =~= pre + ps_escape_char(c));
        }
        proof {
            lemma_ps_escape_snoc(text@.take(i as int), text@[i as int]);
            assert(text@.take(i as int).push(text@[i as int]) =~= text@.take(i + 1 as int));
            assert(out@ =~= spec_ps_escape(text@.take(i + 1 as int)));
        }
        i += 1;
    }
    proof {
        assert(text@.take(text@.len() as int) =~= text@);
    }
    crate::text::chars_to_string(&out)
}

} // verus!
