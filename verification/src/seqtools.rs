//! Small sequence tools shared by the console line buffer and the guest's
//! uevent parser: splitting a sequence at a separator, and reading a decimal
//! number out of a character sequence.

use vstd::prelude::*;

verus! {

/// Splits a sequence at every occurrence of `sep`. The separator itself is
/// dropped; the result always has one more element than there are
/// separators, so it is never empty, and an empty input yields one empty
/// piece.
pub open spec fn split_on<A>(s: Seq<A>, sep: A) -> Seq<Seq<A>>
    decreases s.len(),
{
    if s.len() == 0 {
        seq![Seq::empty()]
    } else {
        let prior = split_on(s.drop_last(), sep);
        if s.last() == sep {
            prior.push(Seq::empty())
        } else {
            prior.drop_last().push(prior.last().push(s.last()))
        }
    }
}

/// A split always yields at least one piece.
pub proof fn lemma_split_on_nonempty<A>(s: Seq<A>, sep: A)
    ensures
        split_on(s, sep).len() >= 1,
    decreases s.len(),
{
    if s.len() > 0 {
        lemma_split_on_nonempty(s.drop_last(), sep);
    }
}

/// A sequence without the separator splits into just itself.
pub proof fn lemma_split_on_no_sep<A>(s: Seq<A>, sep: A)
    requires
        !s.contains(sep),
    ensures
        split_on(s, sep) == seq![s],
    decreases s.len(),
{
    if s.len() == 0 {
        assert(split_on(s, sep) =~~= seq![s]);
    } else {
        assert(s.last() != sep) by {
            assert(s[s.len() - 1] == s.last());
        }
        assert(!s.drop_last().contains(sep)) by {
            assert(forall|i: int|
                0 <= i < s.drop_last().len() ==> s.drop_last()[i] == s[i] && s[i] != sep);
        }
        lemma_split_on_no_sep(s.drop_last(), sep);
        assert(split_on(s, sep) =~~= seq![s]);
    }
}

/// The piece after the last separator never contains the separator.
pub proof fn lemma_split_on_last_no_sep<A>(s: Seq<A>, sep: A)
    ensures
        !split_on(s, sep).last().contains(sep),
    decreases s.len(),
{
    lemma_split_on_nonempty(s, sep);
    if s.len() > 0 {
        lemma_split_on_last_no_sep(s.drop_last(), sep);
        if s.last() != sep {
            let prior = split_on(s.drop_last(), sep);
            assert(split_on(s, sep).last() == prior.last().push(s.last()));
            assert(forall|i: int|
                0 <= i < prior.last().push(s.last()).len() ==> prior.last().push(s.last())[i]
                    != sep);
        }
    }
}

/// Splits a character vector at every occurrence of `sep`.
pub fn split_chars(s: &Vec<char>, sep: char) -> (r: Vec<Vec<char>>)
    ensures
        r.deep_view() == split_on(s@, sep),
        r@.len() >= 1,
{
    let mut out: Vec<Vec<char>> = Vec::new();
    let mut cur: Vec<char> = Vec::new();
    let mut i: usize = 0;
    proof {
        assert(out.deep_view().push(cur@) =~~= split_on(s@.subrange(0, 0), sep));
    }
    while i < s.len()
        invariant
            0 <= i <= s@.len(),
            out.deep_view().push(cur@) == split_on(s@.subrange(0, i as int), sep),
        decreases s@.len() - i,
    {
        let ghost prefix = s@.subrange(0, i as int);
        let ghost next_prefix = s@.subrange(0, i + 1);
        proof {
            assert(next_prefix.drop_last() =~= prefix);
            assert(next_prefix.last() == s@[i as int]);
        }
        let c = s[i];
        if c == sep {
            out.push(cur);
            cur = Vec::new();
            proof {
                assert(out.deep_view().push(cur@) =~~= split_on(next_prefix, sep));
            }
        } else {
            cur.push(c);
            proof {
                let prior = split_on(prefix, sep);
                lemma_split_on_nonempty(prefix, sep);
                assert(out.deep_view().push(cur@) =~~= prior.drop_last().push(
                    prior.last().push(s@[i as int]),
                ));
            }
        }
        i = i + 1;
    }
    proof {
        assert(s@.subrange(0, s@.len() as int) =~= s@);
        lemma_split_on_nonempty(s@, sep);
    }
    out.push(cur);
    proof {
        assert(out.deep_view() =~~= split_on(s@, sep));
    }
    out
}

/// Compares two character vectors for equality of their contents.
pub fn chars_eq(a: &Vec<char>, b: &Vec<char>) -> (r: bool)
    ensures
        r == (a@ == b@),
{
    if a.len() != b.len() {
        return false;
    }
    let mut i: usize = 0;
    while i < a.len()
        invariant
            0 <= i <= a@.len(),
            a@.len() == b@.len(),
            forall|j: int| 0 <= j < i ==> a@[j] == b@[j],
        decreases a@.len() - i,
    {
        if a[i] != b[i] {
            return false;
        }
        i = i + 1;
    }
    proof {
        assert(a@ =~= b@);
    }
    true
}

/// A decimal digit.
pub open spec fn is_digit(c: char) -> bool {
    48 <= c as u32 && c as u32 <= 57
}

/// Every character of the sequence is a decimal digit.
pub open spec fn all_digits(s: Seq<char>) -> bool {
    forall|i: int| 0 <= i < s.len() ==> is_digit(s[i])
}

/// The number a digit sequence denotes, most significant digit first.
pub open spec fn digits_val(s: Seq<char>) -> int
    decreases s.len(),
{
    if s.len() == 0 {
        0
    } else {
        digits_val(s.drop_last()) * 10 + (s.last() as u32 - 48)
    }
}

/// A character sequence that denotes a `usize`: nonempty, all decimal
/// digits, and small enough to fit.
pub open spec fn is_usize_digits(s: Seq<char>) -> bool {
    &&& s.len() > 0
    &&& all_digits(s)
    &&& digits_val(s) <= usize::MAX
}

/// A digit sequence never denotes a negative number.
pub proof fn lemma_digits_val_nonneg(s: Seq<char>)
    requires
        all_digits(s),
    ensures
        digits_val(s) >= 0,
    decreases s.len(),
{
    if s.len() > 0 {
        assert(all_digits(s.drop_last())) by {
            assert(forall|i: int| 0 <= i < s.drop_last().len() ==> s.drop_last()[i] == s[i]);
        }
        lemma_digits_val_nonneg(s.drop_last());
        assert(is_digit(s[s.len() - 1]));
    }
}

/// Extending an all-digit sequence to the right never decreases its value.
pub proof fn lemma_digits_val_prefix_le(s: Seq<char>, n: int)
    requires
        all_digits(s),
        0 <= n <= s.len(),
    ensures
        digits_val(s.subrange(0, n)) <= digits_val(s),
    decreases s.len() - n,
{
    if n == s.len() {
        assert(s.subrange(0, n) =~= s);
    } else {
        let p = s.subrange(0, n + 1);
        assert(p.drop_last() =~= s.subrange(0, n));
        assert(all_digits(p)) by {
            assert(forall|i: int| 0 <= i < p.len() ==> p[i] == s[i]);
        }
        lemma_digits_val_nonneg(p.drop_last());
        assert(is_digit(p.last())) by {
            assert(p.last() == s[n]);
        }
        assert(digits_val(s.subrange(0, n)) <= digits_val(p));
        lemma_digits_val_prefix_le(s, n + 1);
    }
}

/// Reads a decimal `usize` out of a character vector: succeeds exactly on
/// nonempty all-digit inputs whose value fits.
pub fn parse_usize(s: &Vec<char>) -> (r: Option<usize>)
    ensures
        r is Some <==> is_usize_digits(s@),
        r matches Some(v) ==> v == digits_val(s@),
{
    if s.len() == 0 {
        return None;
    }
    let mut acc: usize = 0;
    let mut i: usize = 0;
    proof {
        assert(s@.subrange(0, 0) =~= Seq::<char>::empty());
    }
    while i < s.len()
        invariant
            0 <= i <= s@.len(),
            s@.len() > 0,
            all_digits(s@.subrange(0, i as int)),
            acc == digits_val(s@.subrange(0, i as int)),
        decreases s@.len() - i,
    {
        let ghost prefix = s@.subrange(0, i as int);
        let ghost next_prefix = s@.subrange(0, i + 1);
        proof {
            assert(next_prefix.drop_last() =~= prefix);
            assert(next_prefix.last() == s@[i as int]);
            assert(forall|j: int| 0 <= j < next_prefix.len() ==> next_prefix[j] == s@[j]);
        }
        let c = s[i];
        let cu = c as u32;
        if cu < 48 || cu > 57 {
            // a non-digit anywhere means the whole sequence is no number
            proof {
                assert(!is_digit(s@[i as int]));
            }
            return None;
        }
        let d = (cu - 48) as usize;
        proof {
            assert(is_digit(s@[i as int]));
            assert(d == s@[i as int] as u32 - 48);
            assert(all_digits(next_prefix));
            assert(digits_val(next_prefix) == acc * 10 + d);
        }
        if acc > (usize::MAX - d) / 10 {
            // the value would overflow a usize here, so the full value
            // cannot fit either
            proof {
                vstd::arithmetic::div_mod::lemma_fundamental_div_mod(
                    usize::MAX - d,
                    10,
                );
                vstd::arithmetic::mul::lemma_mul_inequality(
                    (usize::MAX - d) / 10 + 1,
                    acc as int,
                    10,
                );
                assert(acc * 10 + d > usize::MAX);
                if all_digits(s@) {
                    lemma_digits_val_prefix_le(s@, i + 1);
                    assert(digits_val(s@) > usize::MAX);
                }
            }
            return None;
        }
        proof {
            vstd::arithmetic::div_mod::lemma_fundamental_div_mod(usize::MAX - d, 10);
            vstd::arithmetic::mul::lemma_mul_inequality(
                acc as int,
                (usize::MAX - d) / 10,
                10,
            );
            assert(acc * 10 + d <= usize::MAX);
        }
        acc = acc * 10 + d;
        i = i + 1;
    }
    proof {
        assert(s@.subrange(0, s@.len() as int) =~= s@);
    }
    Some(acc)
}

} // verus!
