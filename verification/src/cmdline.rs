//! Command templates for generic backends: a shell-style template is split
//! into words, and each word has its placeholders substituted before the
//! command runs.

use vstd::prelude::*;

verus! {

use vstd::string::*;
use crate::strutil::occurs_at;

/// The words of a shell-style template, as the outside splitter produces
/// them; a function of the template text alone.
pub uninterp spec fn shell_words_of(s: Seq<char>) -> Option<Seq<String>>;

/// Relies on `shlex::split`: splits a shell-style command template into
/// words, or nothing for erroneous input (an unclosed quote).  The result
/// depends on the template text alone.
#[verifier::external_body]
fn split_shell_words(template: &str) -> (r: Option<Vec<String>>)
    ensures
        (match r {
            Option::Some(v) => shell_words_of(template@) == Option::Some(v@),
            Option::None => shell_words_of(template@) is None,
        }),
{
    shlex::split(template)
}

/// `s` with every occurrence of `pat` replaced by `rep`, scanning left to
/// right.
pub open spec fn replace_seq(s: Seq<char>, pat: Seq<char>, rep: Seq<char>) -> Seq<char>
    decreases s.len(),
{
    if s.len() == 0 {
        Seq::empty()
    } else if pat.len() > 0 && occurs_at(s, pat, 0) {
        rep + replace_seq(s.subrange(pat.len() as int, s.len() as int), pat, rep)
    } else {
        s.subrange(0, 1) + replace_seq(s.subrange(1, s.len() as int), pat, rep)
    }
}

/// Replaces every occurrence of `pat` in `s` by `rep`.
pub fn replace_all(s: &str, pat: &str, rep: &str) -> (r: String)
    ensures
        r@ == replace_seq(s@, pat@, rep@),
    decreases s@.len(),
{
    let n = s.unicode_len();
    let m = pat.unicode_len();
    if n == 0 {
        return String::new();
    }
    if m > 0 && m <= n {
        let head = s.substring_char(0, m);
        if crate::strutil::str_eq(head, pat) {
            proof {
                assert(occurs_at(s@, pat@, 0));
            }
            let rest = replace_all(s.substring_char(m, n), pat, rep);
            let mut out = rep.to_owned();
            crate::strutil::s_append(&mut out, rest.as_str());
            return out;
        }
        proof {
            assert(!occurs_at(s@, pat@, 0));
        }
    }
    proof {
        if m > n {
            assert(!occurs_at(s@, pat@, 0));
        }
    }
    let first = s.substring_char(0, 1);
    let rest = replace_all(s.substring_char(1, n), pat, rep);
    let mut out = first.to_owned();
    crate::strutil::s_append(&mut out, rest.as_str());
    out
}

/// Builds the argument words of a generic command template: the template's
/// shell words, each with the artifact placeholder substituted.  An
/// erroneous or empty template yields nothing.
pub fn build_template_args(template: &str, artifact: &str) -> (r: Option<Vec<String>>)
    ensures
        r is Some <==> (shell_words_of(template@) matches Some(ws) && ws.len() > 0),
        r matches Some(words) ==> {
            let ws = shell_words_of(template@)->Some_0;
            &&& words@.len() == ws.len()
            &&& words@.len() > 0
            &&& forall|i: int|
                0 <= i < ws.len() ==> (#[trigger] words@[i])@ == replace_seq(
                    ws[i]@,
                    "{artifact}"@,
                    artifact@,
                )
        },
{
    let words = match split_shell_words(template) {
        Some(w) => w,
        None => {
            return None;
        },
    };
    if words.len() == 0 {
        return None;
    }
    let mut out: Vec<String> = Vec::new();
    let mut i: usize = 0;
    while i < words.len()
        invariant
            i <= words@.len(),
            out@.len() == i,
            shell_words_of(template@) == Some(words@),
            forall|k: int|
                0 <= k < i ==> (#[trigger] out@[k])@ == replace_seq(
                    words@[k]@,
                    "{artifact}"@,
                    artifact@,
                ),
        decreases words@.len() - i,
    {
        let w = replace_all(words[i].as_str(), "{artifact}", artifact);
        out.push(w);
        i = i + 1;
    }
    Some(out)
}

} // verus!
