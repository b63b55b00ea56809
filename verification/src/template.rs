//! Command templates and the substitution of a value into them.

use vstd::prelude::*;
use vstd::string::StrSliceExecFns;

verus! {

/// Whether `s` begins with the token that stands for the current value: an
/// opening brace directly followed by a closing one.
pub open spec fn starts_with_token(s: Seq<char>) -> bool {
    s.len() >= 2 && s[0] == '{' && s[1] == '}'
}

/// Whether the token occurs anywhere in `s`.
pub open spec fn has_token(s: Seq<char>) -> bool {
    exists|i: int| 0 <= i && i + 1 < s.len() && s[i] == '{' && #[trigger] s[i + 1] == '}'
}

/// `template` with every occurrence of the token replaced by `value`, read
/// from left to right.
pub open spec fn substitute(template: Seq<char>, value: Seq<char>) -> Seq<char>
    decreases template.len(),
{
    if template.len() == 0 {
        template
    } else if starts_with_token(template) {
        value + substitute(template.skip(2), value)
    } else {
        seq![template[0]] + substitute(template.skip(1), value)
    }
}

/// `String::push` appends one character to the end of the string.
pub assume_specification[ String::push ](s: &mut String, ch: char)
    ensures
        final(s)@ == old(s)@.push(ch),
;

/// `String::push_str` appends the whole of `string` to the end of the string.
pub assume_specification[ String::push_str ](s: &mut String, string: &str)
    ensures
        final(s)@ == old(s)@ + string@,
;

/// Replaces every occurrence of the token in `template` by `value`.
pub fn fill(template: &str, value: &str) -> (res: String)
    ensures
        res@ == substitute(template@, value@),
{
    let n: usize = template.unicode_len();
    let mut out = String::new();
    let mut i: usize = 0;
    proof {
        assert(template@.skip(0) =~= template@);
        assert(out@ + substitute(template@, value@) =~= substitute(template@, value@));
    }
    while i < n
        invariant
            i <= n,
            n == template@.len(),
            substitute(template@, value@) == out@ + substitute(template@.skip(i as int), value@),
        decreases n - i,
    {
        let ghost rest = template@.skip(i as int);
        let c = template.get_char(i);
        let mut token = false;
        if c == '{' && i + 1 < n {
            token = template.get_char(i + 1) == '}';
        }
        proof {
            assert(token == starts_with_token(rest));
        }
        let ghost before = out@;
        if token {
            out.push_str(value);
            proof {
                assert(rest.skip(2) =~= template@.skip(i + 2));
                let after = substitute(rest.skip(2), value@);
                assert(before + (value@ + after) =~= (before + value@) + after);
            }
            i = i + 2;
        } else {
            out.push(c);
            proof {
                assert(rest.skip(1) =~= template@.skip(i + 1));
                let after = substitute(rest.skip(1), value@);
                assert(before + (seq![c] + after) =~= before.push(c) + after);
            }
            i = i + 1;
        }
    }
    proof {
        assert(out@ + Seq::<char>::empty() =~= out@);
    }
    out
}

/// A template without the token is left as it is, whatever the value: nothing
/// is inserted by accident.
pub proof fn lemma_substitute_without_token(template: Seq<char>, value: Seq<char>)
    requires
        !has_token(template),
    ensures
        substitute(template, value) == template,
    decreases template.len(),
{
    if template.len() > 0 {
        if starts_with_token(template) {
            assert(template[0] == '{' && template[0int + 1] == '}');
            assert(has_token(template));
        }
        let rest = template.skip(1);
        if has_token(rest) {
            let i = choose|i: int| 0 <= i && i + 1 < rest.len() && rest[i] == '{' && #[trigger] rest[i + 1] == '}';
            assert(template[i + 1] == '{' && template[(i + 1) + 1] == '}');
            assert(has_token(template));
        }
        lemma_substitute_without_token(rest, value);
        assert(seq![template[0]] + rest =~= template);
    }
}

} // verus!
