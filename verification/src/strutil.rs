//! Comma-delimited token machinery for the flattened wire form.
//!
//! The flattened encoding of a model value is a single line of tokens joined
//! by `,`. These spec functions fix the mathematical meaning of splitting and
//! joining, and the executable functions are proved against them.

use vstd::prelude::*;

verus! {

/// A token that can travel in the flattened form: it contains no delimiter.
pub open spec fn no_comma(s: Seq<char>) -> bool {
    forall|i: int| 0 <= i < s.len() ==> s[i] != ','
}

/// Index of the first `,` in `s`, or `s.len()` if there is none.
pub open spec fn first_comma(s: Seq<char>) -> nat
    decreases s.len(),
{
    if s.len() == 0 {
        0
    } else if s[0] == ',' {
        0
    } else {
        1 + first_comma(s.drop_first())
    }
}

/// The segments of `s` between commas, in order. Splitting the empty string
/// yields one empty segment, as `str::split` does.
pub open spec fn split_commas(s: Seq<char>) -> Seq<Seq<char>>
    decreases s.len(),
{
    let i = first_comma(s);
    if i >= s.len() {
        seq![s]
    } else {
        seq![s.take(i as int)] + split_commas(s.skip(i as int + 1))
    }
}

/// The segments joined back into one line with `,` between them.
pub open spec fn join_commas(segs: Seq<Seq<char>>) -> Seq<char>
    decreases segs.len(),
{
    if segs.len() == 0 {
        Seq::empty()
    } else if segs.len() == 1 {
        segs[0]
    } else {
        segs[0] + seq![','] + join_commas(segs.drop_first())
    }
}

/// A comma-free string has no first comma before its end.
pub proof fn lemma_first_comma_none(s: Seq<char>)
    requires
        no_comma(s),
    ensures
        first_comma(s) == s.len(),
    decreases s.len(),
{
    if s.len() == 0 {
    } else {
        assert(s.drop_first().len() == s.len() - 1);
        assert forall|i: int| 0 <= i < s.drop_first().len() implies s.drop_first()[i] != ',' by {
            assert(s.drop_first()[i] == s[i + 1]);
        }
        lemma_first_comma_none(s.drop_first());
    }
}

/// The first comma of `a + "," + b` is right after `a` when `a` is comma-free.
pub proof fn lemma_first_comma_append(a: Seq<char>, b: Seq<char>)
    requires
        no_comma(a),
    ensures
        first_comma(a + seq![','] + b) == a.len(),
    decreases a.len(),
{
    let s = a + seq![','] + b;
    if a.len() == 0 {
        assert(s[0] == ',');
    } else {
        assert(s[0] == a[0]);
        lemma_first_comma_append(a.drop_first(), b);
        assert(s.drop_first() =~= a.drop_first() + seq![','] + b);
    }
}

/// Splitting undoes joining, as long as every segment is comma-free.
pub proof fn lemma_split_join(segs: Seq<Seq<char>>)
    requires
        segs.len() >= 1,
        forall|i: int| 0 <= i < segs.len() ==> no_comma(#[trigger] segs[i]),
    ensures
        split_commas(join_commas(segs)) == segs,
    decreases segs.len(),
{
    if segs.len() == 1 {
        lemma_first_comma_none(segs[0]);
        assert(split_commas(join_commas(segs)) =~= segs);
    } else {
        let a = segs[0];
        let rest = segs.drop_first();
        let s = join_commas(segs);
        assert(s == a + seq![','] + join_commas(rest));
        lemma_first_comma_append(a, join_commas(rest));
        assert(s.take(a.len() as int) =~= a);
        assert(s.skip(a.len() as int + 1) =~= join_commas(rest));
        lemma_split_join(rest);
        assert(split_commas(s) =~= seq![a] + split_commas(join_commas(rest)));
        assert(seq![a] + rest =~= segs);
    }
}

/// Joining one more segment appends a comma and the segment.
pub proof fn lemma_join_push(segs: Seq<Seq<char>>, x: Seq<char>)
    ensures
        segs.len() == 0 ==> join_commas(segs.push(x)) == x,
        segs.len() >= 1 ==> join_commas(segs.push(x)) == join_commas(segs) + seq![','] + x,
    decreases segs.len(),
{
    if segs.len() == 0 {
        assert(segs.push(x)[0] == x);
        assert(join_commas(segs.push(x)) == x);
    } else if segs.len() == 1 {
        let p = segs.push(x);
        assert(p.len() == 2);
        assert(p.drop_first() =~= seq![x]);
        assert(seq![x][0] == x);
        assert(join_commas(seq![x]) == x);
        assert(p[0] == segs[0]);
        assert(join_commas(p) == segs[0] + seq![','] + x);
    } else {
        let p = segs.push(x);
        assert(p.drop_first() =~= segs.drop_first().push(x));
        lemma_join_push(segs.drop_first(), x);
        assert(join_commas(p) == p[0] + seq![','] + join_commas(segs.drop_first().push(x)));
        assert(join_commas(segs) + seq![','] + x =~= p[0] + seq![','] + (join_commas(
            segs.drop_first(),
        ) + seq![','] + x));
    }
}

/// Appends one character to a string. Relies on `String::push` from std:
/// it appends the given character to the end of the string.
#[verifier::external_body]
pub fn push_char(s: &mut String, c: char)
    ensures
        final(s)@ == old(s)@.push(c),
{
    s.push(c);
}

/// True exactly when the two string slices hold the same characters.
pub fn str_eq(a: &str, b: &str) -> (r: bool)
    ensures
        r == (a@ == b@),
{
    let alen = a.unicode_len();
    let blen = b.unicode_len();
    if alen != blen {
        return false;
    }
    let mut i: usize = 0;
    while i < alen
        invariant
            alen == a@.len(),
            blen == b@.len(),
            alen == blen,
            i <= alen,
            forall|j: int| 0 <= j < i ==> a@[j] == b@[j],
        decreases alen - i,
    {
        if a.get_char(i) != b.get_char(i) {
            return false;
        }
        i += 1;
    }
    proof {
        assert(a@ =~= b@);
    }
    true
}

/// True exactly when the token equals the given keyword.
pub fn is_kw(t: &String, kw: &str) -> (r: bool)
    ensures
        r == (t@ == kw@),
{
    str_eq(t.as_str(), kw)
}

/// Splits a line into its comma-separated tokens.
pub fn split_commas_exec(s: &str) -> (r: Vec<String>)
    ensures
        r@.map_values(|t: String| t@) == split_commas(s@),
{
    let len = s.unicode_len();
    let mut done: Vec<String> = Vec::new();
    let mut cur: String = String::new();
    let mut i: usize = 0;
    proof {
        assert(cur@ + s@.skip(0) =~= s@);
        assert(done@.map_values(|t: String| t@) =~= Seq::<Seq<char>>::empty());
        assert(Seq::<Seq<char>>::empty() + split_commas(s@) =~= split_commas(s@));
    }
    while i < len
        invariant
            len == s@.len(),
            i <= len,
            no_comma(cur@),
            split_commas(s@) == done@.map_values(|t: String| t@) + split_commas(
                cur@ + s@.skip(i as int),
            ),
        decreases len - i,
    {
        let c = s.get_char(i);
        let ghost pre_done = done@.map_values(|t: String| t@);
        let ghost pre_cur = cur@;
        if c == ',' {
            proof {
                lemma_first_comma_append(pre_cur, s@.skip(i as int + 1));
                assert(pre_cur + s@.skip(i as int) =~= pre_cur + seq![','] + s@.skip(i as int + 1));
                let whole = pre_cur + seq![','] + s@.skip(i as int + 1);
                assert(whole.take(pre_cur.len() as int) =~= pre_cur);
                assert(whole.skip(pre_cur.len() as int + 1) =~= s@.skip(i as int + 1));
                assert(split_commas(whole) == seq![pre_cur] + split_commas(s@.skip(i as int + 1)));
            }
            done.push(cur);
            cur = String::new();
            proof {
                assert(done@.map_values(|t: String| t@) =~= pre_done.push(pre_cur));
                assert(pre_done.push(pre_cur) + split_commas(s@.skip(i as int + 1)) =~= pre_done + (
                seq![pre_cur] + split_commas(s@.skip(i as int + 1))));
                assert(cur@ + s@.skip(i as int + 1) =~= s@.skip(i as int + 1));
            }
        } else {
            push_char(&mut cur, c);
            proof {
                assert(cur@ + s@.skip(i as int + 1) =~= pre_cur + s@.skip(i as int));
                assert forall|j: int| 0 <= j < cur@.len() implies cur@[j] != ',' by {
                    if j < pre_cur.len() {
                        assert(cur@[j] == pre_cur[j]);
                    }
                }
            }
        }
        i += 1;
    }
    proof {
        assert(cur@ + s@.skip(i as int) =~= cur@);
        lemma_first_comma_none(cur@);
        assert(split_commas(cur@) =~= seq![cur@]);
    }
    let ghost pre_done = done@.map_values(|t: String| t@);
    let ghost pre_cur = cur@;
    done.push(cur);
    proof {
        assert(done@.map_values(|t: String| t@) =~= pre_done.push(pre_cur));
        assert(pre_done.push(pre_cur) =~= pre_done + seq![pre_cur]);
    }
    done
}

/// Joins tokens with a comma between each pair of neighbours.
pub fn join_commas_exec(segs: &Vec<String>) -> (r: String)
    ensures
        r@ == join_commas(segs@.map_values(|t: String| t@)),
{
    let mut out = String::new();
    let mut i: usize = 0;
    while i < segs.len()
        invariant
            i <= segs.len(),
            out@ == join_commas(segs@.map_values(|t: String| t@).take(i as int)),
        decreases segs.len() - i,
    {
        let ghost all = segs@.map_values(|t: String| t@);
        let ghost pre = all.take(i as int);
        if i > 0 {
            push_char(&mut out, ',');
        }
        out.append(segs[i].as_str());
        proof {
            lemma_join_push(pre, all[i as int]);
            assert(all.take(i as int + 1) =~= pre.push(all[i as int]));
            if i == 0 {
                assert(out@ =~= all[0]);
            } else {
                assert(out@ =~= join_commas(pre) + seq![','] + all[i as int]);
            }
        }
        i += 1;
    }
    proof {
        assert(segs@.map_values(|t: String| t@).take(segs@.len() as int) =~= segs@.map_values(
            |t: String| t@,
        ));
    }
    out
}

} // verus!
