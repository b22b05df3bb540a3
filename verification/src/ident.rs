//! Event identifier derivation: the timestamp and the section label are
//! concatenated and every whitespace character is removed from the result.

use vstd::prelude::*;

verus! {

/// Whether `c` carries the Unicode `White_Space` property, the class of
/// characters that `str::split_whitespace` splits on.
pub open spec fn is_space_char(c: char) -> bool {
    ||| c == '\u{9}'
    ||| c == '\u{a}'
    ||| c == '\u{b}'
    ||| c == '\u{c}'
    ||| c == '\u{d}'
    ||| c == ' '
    ||| c == '\u{85}'
    ||| c == '\u{a0}'
    ||| c == '\u{1680}'
    ||| c == '\u{2000}'
    ||| c == '\u{2001}'
    ||| c == '\u{2002}'
    ||| c == '\u{2003}'
    ||| c == '\u{2004}'
    ||| c == '\u{2005}'
    ||| c == '\u{2006}'
    ||| c == '\u{2007}'
    ||| c == '\u{2008}'
    ||| c == '\u{2009}'
    ||| c == '\u{200a}'
    ||| c == '\u{2028}'
    ||| c == '\u{2029}'
    ||| c == '\u{202f}'
    ||| c == '\u{205f}'
    ||| c == '\u{3000}'
}

/// Decides `is_space_char`.
pub fn is_space(c: char) -> (r: bool)
    ensures
        r == is_space_char(c),
{
    c == '\u{9}' || c == '\u{a}' || c == '\u{b}' || c == '\u{c}' || c == '\u{d}' || c == ' ' || c
        == '\u{85}' || c == '\u{a0}' || c == '\u{1680}' || c == '\u{2000}' || c == '\u{2001}' || c
        == '\u{2002}' || c == '\u{2003}' || c == '\u{2004}' || c == '\u{2005}' || c == '\u{2006}'
        || c == '\u{2007}' || c == '\u{2008}' || c == '\u{2009}' || c == '\u{200a}' || c
        == '\u{2028}' || c == '\u{2029}' || c == '\u{202f}' || c == '\u{205f}' || c == '\u{3000}'
}

/// `s` with every whitespace character removed.
pub open spec fn strip_spaces_spec(s: Seq<char>) -> Seq<char> {
    s.filter(|c: char| !is_space_char(c))
}

/// Relies on `String::push`: appends the single character `c` to `s`.
#[verifier::external_body]
fn push_char(s: &mut String, c: char)
    ensures
        final(s)@ == old(s)@.push(c),
{
    s.push(c)
}

/// Derives the event identifier: the timestamp followed by the section
/// label, with every whitespace character removed. The result is a function
/// of the two inputs alone and contains no whitespace character.
pub fn create_uid(section_name: String, timestamp: String) -> (r: String)
    ensures
        r@ == strip_spaces_spec(timestamp@ + section_name@),
        forall|i: int| 0 <= i < r@.len() ==> !is_space_char(#[trigger] r@[i]),
{
    broadcast use vstd::seq_lib::group_seq_properties;

    let combined = timestamp.concat(section_name.as_str());
    let ghost keep = |c: char| !is_space_char(c);
    let n = combined.as_str().unicode_len();
    let mut out = String::new();
    let mut i: usize = 0;
    while i < n
        invariant
            n == combined@.len(),
            0 <= i <= n,
            keep == (|c: char| !is_space_char(c)),
            out@ == combined@.take(i as int).filter(keep),
        decreases n - i,
    {
        let c = combined.as_str().get_char(i);
        proof {
            combined@.lemma_take_succ_push(i as int);
            combined@.take(i as int).lemma_filter_push(c, keep);
        }
        if !is_space(c) {
            push_char(&mut out, c);
        }
        i += 1;
    }
    proof {
        combined@.lemma_take_len();
        lemma_strip_no_spaces(combined@);
    }
    out
}

/// No whitespace character survives `strip_spaces_spec`.
pub proof fn lemma_strip_no_spaces(s: Seq<char>)
    ensures
        forall|i: int|
            0 <= i < strip_spaces_spec(s).len() ==> !is_space_char(
                #[trigger] strip_spaces_spec(s)[i],
            ),
{
    let keep = |c: char| !is_space_char(c);
    assert forall|i: int| 0 <= i < strip_spaces_spec(s).len() implies !is_space_char(
        strip_spaces_spec(s)[i],
    ) by {
        s.lemma_filter_pred(keep, i);
    }
}

} // verus!
