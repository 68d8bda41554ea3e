//! The rule engine: ordered literal find/replace over text.
//!
//! Rules are applied in list order, each operating on the output of the
//! previous rule, so a later rule can match text introduced by an earlier
//! one.  Matching is literal substring replacement, leftmost first and
//! non-overlapping; a replacement is not rescanned for the same rule.  A
//! rule with an empty pattern is a no-op.  Rule application is total and
//! never fails.

use vstd::prelude::*;

use crate::config::ReplaceRule;
use crate::config::RuleModel;
use crate::config::rules_model;

verus! {

/// The result of replacing every occurrence of `pat` in `s` by `rep`,
/// scanning left to right and never rescanning a replacement: at each
/// position, either `pat` matches and is consumed, or one character is
/// kept.  An empty pattern leaves `s` unchanged.
pub open spec fn replace_all_spec(s: Seq<char>, pat: Seq<char>, rep: Seq<char>) -> Seq<char>
    decreases s.len(),
{
    if pat.len() == 0 || s.len() < pat.len() {
        s
    } else if s.take(pat.len() as int) == pat {
        rep + replace_all_spec(s.skip(pat.len() as int), pat, rep)
    } else {
        seq![s[0]] + replace_all_spec(s.skip(1), pat, rep)
    }
}

/// The result of applying each rule in `rules` in list order, each to the
/// output of the previous one.
pub open spec fn apply_rules_spec(s: Seq<char>, rules: Seq<RuleModel>) -> Seq<char>
    decreases rules.len(),
{
    if rules.len() == 0 {
        s
    } else {
        apply_rules_spec(replace_all_spec(s, rules[0].pattern, rules[0].replacement), rules.skip(1))
    }
}

/// Whether `pat` occurs in `s` starting at character position `i`.
fn matches_at(s: &str, i: usize, pat: &str) -> (b: bool)
    requires
        i + pat@.len() <= s@.len(),
        s@.len() <= usize::MAX,
    ensures
        b <==> s@.subrange(i as int, i + pat@.len()) == pat@,
{
    let n = pat.unicode_len();
    let mut j: usize = 0;
    while j < n
        invariant
            n == pat@.len(),
            i + n <= s@.len() <= usize::MAX,
            j <= n,
            forall|k: int| 0 <= k < j ==> s@[i + k] == pat@[k],
        decreases n - j,
    {
        if s.get_char(i + j) != pat.get_char(j) {
            proof {
                assert(s@.subrange(i as int, i + pat@.len())[j as int] == s@[i + j]);
            }
            return false;
        }
        j += 1;
    }
    proof {
        assert(s@.subrange(i as int, i + pat@.len()) =~= pat@);
    }
    true
}

/// Replaces every occurrence of `pat` in `s` by `rep`, leftmost first and
/// non-overlapping; an empty `pat` returns `s` unchanged.
pub fn replace_all(s: &str, pat: &str, rep: &str) -> (r: String)
    ensures
        r@ == replace_all_spec(s@, pat@, rep@),
{
    let s_len = s.unicode_len();
    let pat_len = pat.unicode_len();
    if pat_len == 0 || pat_len > s_len {
        return s.to_owned();
    }
    let mut result = String::new();
    let mut i: usize = 0;
    proof {
        assert(s@.skip(0) =~= s@);
        assert(result@ + replace_all_spec(s@, pat@, rep@) =~= replace_all_spec(s@, pat@, rep@));
    }
    while i <= s_len - pat_len
        invariant
            s_len == s@.len(),
            pat_len == pat@.len(),
            1 <= pat_len <= s_len,
            i <= s_len,
            replace_all_spec(s@, pat@, rep@) == result@ + replace_all_spec(
                s@.skip(i as int),
                pat@,
                rep@,
            ),
        decreases s_len - i,
    {
        let ghost tail = s@.skip(i as int);
        if matches_at(s, i, pat) {
            proof {
                assert(tail.take(pat@.len() as int) =~= s@.subrange(i as int, i + pat@.len()));
                assert(tail.skip(pat@.len() as int) =~= s@.skip(i + pat@.len()));
                assert(result@ + (rep@ + replace_all_spec(s@.skip(i + pat@.len()), pat@, rep@))
                    =~= (result@ + rep@) + replace_all_spec(s@.skip(i + pat@.len()), pat@, rep@));
            }
            result.append(rep);
            i += pat_len;
        } else {
            let piece = s.substring_char(i, i + 1);
            proof {
                assert(tail.take(pat@.len() as int) =~= s@.subrange(i as int, i + pat@.len()));
                assert(seq![tail[0]] =~= s@.subrange(i as int, i + 1));
                assert(tail.skip(1) =~= s@.skip(i + 1));
                assert(result@ + (piece@ + replace_all_spec(s@.skip(i + 1), pat@, rep@)) =~= (
                result@ + piece@) + replace_all_spec(s@.skip(i + 1), pat@, rep@));
            }
            result.append(piece);
            i += 1;
        }
    }
    let rest = s.substring_char(i, s_len);
    proof {
        let tail = s@.skip(i as int);
        assert(rest@ =~= tail);
        assert(replace_all_spec(tail, pat@, rep@) == tail);
    }
    result.append(rest);
    result
}

/// Applies each rule in `rules` in list order, each operating on the
/// output of the previous one.  The source text handed in is not changed;
/// only the returned text is rule-transformed.
pub fn apply_rules(text: &str, rules: &Vec<ReplaceRule>) -> (r: String)
    ensures
        r@ == apply_rules_spec(text@, rules_model(rules@)),
{
    let mut cur = text.to_owned();
    let mut i: usize = 0;
    proof {
        assert(rules_model(rules@).skip(0) =~= rules_model(rules@));
    }
    while i < rules.len()
        invariant
            i <= rules.len(),
            apply_rules_spec(text@, rules_model(rules@)) == apply_rules_spec(
                cur@,
                rules_model(rules@).skip(i as int),
            ),
        decreases rules.len() - i,
    {
        let next = replace_all(cur.as_str(), rules[i].pattern.as_str(), rules[i].replacement.as_str());
        proof {
            let models = rules_model(rules@);
            assert(models.skip(i as int)[0] == models[i as int]);
            assert(models.skip(i as int).skip(1) =~= models.skip(i + 1));
        }
        cur = next;
        i += 1;
    }
    proof {
        assert(rules_model(rules@).skip(rules@.len() as int) =~= Seq::<RuleModel>::empty());
    }
    cur
}

/// Rule application composes sequentially: applying the rules of `rules1`
/// followed by those of `rules2` is the same as applying the concatenated
/// list in order.  In particular an earlier rule's output is what a later
/// rule matches on, never the original text.
pub proof fn lemma_apply_rules_compose(s: Seq<char>, rules1: Seq<RuleModel>, rules2: Seq<RuleModel>)
    ensures
        apply_rules_spec(s, rules1 + rules2) == apply_rules_spec(
            apply_rules_spec(s, rules1),
            rules2,
        ),
    decreases rules1.len(),
{
    if rules1.len() == 0 {
        assert(rules1 + rules2 =~= rules2);
    } else {
        assert((rules1 + rules2)[0] == rules1[0]);
        assert((rules1 + rules2).skip(1) =~= rules1.skip(1) + rules2);
        lemma_apply_rules_compose(
            replace_all_spec(s, rules1[0].pattern, rules1[0].replacement),
            rules1.skip(1),
            rules2,
        );
    }
}

} // verus!
