//! Strings as sequences of characters: the few string operations the rest of the library
//! is built from.

use crate::hex::{digit_char, digit_char_of};
use vstd::prelude::*;

verus! {

/// `text` with every occurrence of `token` replaced by `with`. Occurrences are found from
/// left to right and do not overlap. An empty token occurs nowhere.
pub open spec fn replace_all(text: Seq<char>, token: Seq<char>, with: Seq<char>) -> Seq<char>
    decreases text.len(),
{
    if token.len() == 0 || text.len() < token.len() {
        text
    } else if text.subrange(0, token.len() as int) == token {
        with + replace_all(text.subrange(token.len() as int, text.len() as int), token, with)
    } else {
        seq![text[0]] + replace_all(text.subrange(1, text.len() as int), token, with)
    }
}

/// The decimal digits of `n`, without leading zeros.
pub open spec fn decimal(n: nat) -> Seq<char>
    decreases n,
{
    if n < 10 {
        seq![digit_char(n)]
    } else {
        decimal(n / 10).push(digit_char(n % 10))
    }
}

/// The characters of `str::to_lowercase` applied to a string with the characters `s`.
pub uninterp spec fn unicode_lowercase(s: Seq<char>) -> Seq<char>;

/// Calls `str::to_lowercase`. Trusted: the result depends on the characters of `source`
/// alone. Nothing else is claimed about it.
#[verifier::external_body]
pub(crate) fn to_lowercase(source: &str) -> (lowered: String)
    ensures
        lowered@ == unicode_lowercase(source@),
{
    source.to_lowercase()
}

/// Calls `String::push`. Trusted: afterwards the string holds the characters it held before,
/// followed by `c`.
#[verifier::external_body]
pub(crate) fn push_char(text: &mut String, c: char)
    ensures
        final(text)@ == old(text)@.push(c),
{
    text.push(c);
}

/// The characters of `source`, in order.
pub fn collect_chars(source: &str) -> (chars: Vec<char>)
    ensures
        chars@ == source@,
{
    let mut chars: Vec<char> = Vec::new();
    for c in it: source.chars()
        invariant
            chars@ == it.seq().take(it.index()),
    {
        chars.push(c);
    }
    chars
}

/// Whether `token` stands in `text` at the index `at`.
fn occurs_at(text: &Vec<char>, at: usize, token: &Vec<char>) -> (yes: bool)
    requires
        at <= text@.len(),
    ensures
        yes == (at + token@.len() <= text@.len() && text@.subrange(
            at as int,
            at + token@.len(),
        ) == token@),
{
    if token.len() > text.len() - at {
        return false;
    }
    let mut i: usize = 0;
    while i < token.len()
        invariant
            i <= token@.len(),
            at + token@.len() <= text@.len() <= usize::MAX,
            forall|j: int| 0 <= j < i ==> text@[at + j] == token@[j],
        decreases token@.len() - i,
    {
        if text[at + i] != token[i] {
            proof {
                assert(text@.subrange(at as int, at + token@.len())[i as int] == text@[at + i]);
            }
            return false;
        }
        i += 1;
    }
    proof {
        assert(text@.subrange(at as int, at + token@.len()) =~= token@);
    }
    true
}

/// `text` with every occurrence of `token` replaced by `with`. With an empty token the
/// result is `text` itself.
pub fn substitute(text: &str, token: &str, with: &str) -> (out: String)
    ensures
        out@ == replace_all(text@, token@, with@),
{
    let chars = collect_chars(text);
    let pattern = collect_chars(token);
    if pattern.len() == 0 {
        return String::from_str(text);
    }
    let mut out = String::new();
    let mut i: usize = 0;
    proof {
        assert(chars@.subrange(0, chars@.len() as int) =~= chars@);
    }
    while i < chars.len()
        invariant
            i <= chars@.len(),
            pattern@ == token@,
            chars@ == text@,
            token@.len() > 0,
            out@ + replace_all(chars@.subrange(i as int, chars@.len() as int), token@, with@)
                == replace_all(text@, token@, with@),
        decreases chars@.len() - i,
    {
        let ghost rest = chars@.subrange(i as int, chars@.len() as int);
        let ghost before = out@;
        if occurs_at(&chars, i, &pattern) {
            proof {
                assert(rest.subrange(0, token@.len() as int) =~= chars@.subrange(
                    i as int,
                    i + token@.len(),
                ));
                assert(rest.subrange(token@.len() as int, rest.len() as int) =~= chars@.subrange(
                    i + token@.len(),
                    chars@.len() as int,
                ));
            }
            out.append(with);
            i += pattern.len();
            proof {
                let next = chars@.subrange(i as int, chars@.len() as int);
                assert(replace_all(rest, token@, with@) == with@ + replace_all(
                    next,
                    token@,
                    with@,
                ));
                assert(out@ + replace_all(next, token@, with@) =~= before + (with@ + replace_all(
                    next,
                    token@,
                    with@,
                )));
            }
        } else {
            proof {
                if rest.len() >= token@.len() {
                    assert(rest.subrange(0, token@.len() as int) =~= chars@.subrange(
                        i as int,
                        i + token@.len(),
                    ));
                }
                assert(rest.subrange(1, rest.len() as int) =~= chars@.subrange(
                    i + 1,
                    chars@.len() as int,
                ));
                assert(rest[0] == chars@[i as int]);
            }
            push_char(&mut out, chars[i]);
            i += 1;
            proof {
                let next = chars@.subrange(i as int, chars@.len() as int);
                lemma_replace_all_keeps_first(rest, next, token@, with@);
                assert(out@ + replace_all(next, token@, with@) =~= before + (seq![rest[0]]
                    + replace_all(next, token@, with@)));
            }
        }
    }
    proof {
        assert(chars@.subrange(i as int, chars@.len() as int) =~= Seq::<char>::empty());
        assert(out@ + Seq::<char>::empty() =~= out@);
    }
    out
}

/// Where `token` does not stand at the start of `text`, replacing keeps the first character
/// and goes on behind it.
proof fn lemma_replace_all_keeps_first(
    text: Seq<char>,
    rest: Seq<char>,
    token: Seq<char>,
    with: Seq<char>,
)
    requires
        text.len() > 0,
        token.len() > 0,
        rest == text.subrange(1, text.len() as int),
        text.len() < token.len() || text.subrange(0, token.len() as int) != token,
    ensures
        replace_all(text, token, with) == seq![text[0]] + replace_all(rest, token, with),
{
    if text.len() < token.len() {
        assert(rest.len() < token.len());
        assert(replace_all(rest, token, with) == rest);
        assert(seq![text[0]] + rest =~= text);
    }
}

/// Appends the decimal digits of `n`.
pub fn push_decimal(out: &mut String, n: u32)
    ensures
        final(out)@ == old(out)@ + decimal(n as nat),
    decreases n,
{
    if n >= 10 {
        push_decimal(out, n / 10);
    }
    push_char(out, digit_char_of((n % 10) as u8));
    proof {
        assert(out@ =~= old(out)@ + decimal(n as nat));
    }
}

} // verus!
