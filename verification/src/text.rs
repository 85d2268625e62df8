//! Splitting text on a separator character, as `str::split` does.

use vstd::prelude::*;

verus! {

/// The fields of `s` between occurrences of `sep`, in order: `s.split(sep)`.
/// There is always at least one field; an empty text has one empty field.
pub open spec fn split_on(s: Seq<char>, sep: char) -> Seq<Seq<char>>
    decreases s.len(),
{
    if s.len() == 0 {
        seq![Seq::<char>::empty()]
    } else {
        let rest = split_on(s.drop_first(), sep);
        if s[0] == sep {
            seq![Seq::<char>::empty()] + rest
        } else {
            rest.update(0, seq![s[0]] + rest[0])
        }
    }
}

/// `s` holds no occurrence of `sep`.
pub open spec fn free_of(s: Seq<char>, sep: char) -> bool {
    forall|i: int| 0 <= i < s.len() ==> s[i] != sep
}

/// Splitting always gives at least one field.
pub proof fn lemma_split_nonempty(s: Seq<char>, sep: char)
    ensures
        split_on(s, sep).len() >= 1,
    decreases s.len(),
{
    if s.len() > 0 {
        lemma_split_nonempty(s.drop_first(), sep);
    }
}

/// A separator-free prefix joins the first field of what follows it.
pub proof fn lemma_split_free_prefix(a: Seq<char>, b: Seq<char>, sep: char)
    requires
        free_of(a, sep),
    ensures
        split_on(a + b, sep) == split_on(b, sep).update(0, a + split_on(b, sep)[0]),
    decreases a.len(),
{
    lemma_split_nonempty(b, sep);
    if a.len() == 0 {
        assert(a + b =~= b);
        assert(a + split_on(b, sep)[0] =~= split_on(b, sep)[0]);
        assert(split_on(b, sep).update(0, split_on(b, sep)[0]) =~= split_on(b, sep));
    } else {
        let t = a.drop_first();
        assert((a + b).drop_first() =~= t + b);
        assert(free_of(t, sep));
        lemma_split_free_prefix(t, b, sep);
        assert((a + b)[0] == a[0]);
        let r = split_on(b, sep);
        assert(seq![a[0]] + (t + r[0]) =~= a + r[0]);
        assert(r.update(0, t + r[0]).update(0, a + r[0]) =~= r.update(0, a + r[0]));
    }
}

/// A text without the separator is a single field.
pub proof fn lemma_split_single(a: Seq<char>, sep: char)
    requires
        free_of(a, sep),
    ensures
        split_on(a, sep) == seq![a],
{
    lemma_split_free_prefix(a, Seq::<char>::empty(), sep);
    assert(a + Seq::<char>::empty() =~= a);
    assert(seq![Seq::<char>::empty()].update(0, a + Seq::<char>::empty()) =~= seq![a]);
}

/// A separator-free text, the separator and the rest: the first field is the
/// text, the other fields are those of the rest.
pub proof fn lemma_split_at_separator(a: Seq<char>, b: Seq<char>, sep: char)
    requires
        free_of(a, sep),
    ensures
        split_on(a + seq![sep] + b, sep) == seq![a] + split_on(b, sep),
{
    let sb = seq![sep] + b;
    assert(a + seq![sep] + b =~= a + sb);
    lemma_split_free_prefix(a, sb, sep);
    assert(sb.drop_first() =~= b);
    let e = Seq::<char>::empty();
    assert(split_on(sb, sep) == seq![e] + split_on(b, sep));
    assert(a + e =~= a);
    assert((seq![e] + split_on(b, sep)).update(0, a) =~= seq![a] + split_on(b, sep));
}

/// Joining fields that hold no separator with the separator, then splitting,
/// gives the fields back.
pub proof fn lemma_split_join(fields: Seq<Seq<char>>, sep: char)
    requires
        fields.len() >= 1,
        forall|i: int| 0 <= i < fields.len() ==> free_of(#[trigger] fields[i], sep),
    ensures
        split_on(join_with(fields, sep), sep) == fields,
    decreases fields.len(),
{
    if fields.len() == 1 {
        assert(free_of(fields[0], sep));
        lemma_split_single(fields[0], sep);
        assert(seq![fields[0]] =~= fields);
    } else {
        let rest = fields.drop_first();
        assert forall|i: int| 0 <= i < rest.len() implies free_of(#[trigger] rest[i], sep) by {
            assert(rest[i] == fields[i + 1]);
        }
        lemma_split_join(rest, sep);
        assert(free_of(fields[0], sep));
        lemma_split_at_separator(fields[0], join_with(rest, sep), sep);
        assert(seq![fields[0]] + rest =~= fields);
    }
}

/// The fields joined with the separator between neighbours.
pub open spec fn join_with(fields: Seq<Seq<char>>, sep: char) -> Seq<char>
    decreases fields.len(),
{
    if fields.len() <= 1 {
        if fields.len() == 0 { Seq::<char>::empty() } else { fields[0] }
    } else {
        fields[0] + seq![sep] + join_with(fields.drop_first(), sep)
    }
}

/// The first position at or after `from` that holds `c`, or the length of the
/// text if there is none.
fn find_char(s: &str, c: char, from: usize, n: usize) -> (r: usize)
    requires
        n == s@.len(),
        from <= n,
    ensures
        from <= r <= n,
        forall|i: int| from <= i < r ==> s@[i] != c,
        r < n ==> s@[r as int] == c,
{
    let mut i: usize = from;
    while i < n
        invariant
            n == s@.len(),
            from <= i <= n,
            forall|k: int| from <= k < i ==> s@[k] != c,
        decreases n - i,
    {
        if s.get_char(i) == c {
            return i;
        }
        i = i + 1;
    }
    i
}

/// The field at `index` of `s` split on `sep`, or `None` when `s` has fewer
/// fields: `s.split(sep).nth(index)`.
pub fn split_field(s: &str, sep: char, index: usize) -> (r: Option<String>)
    ensures
        r is Some <==> index < split_on(s@, sep).len(),
        r matches Some(f) ==> f@ == split_on(s@, sep)[index as int],
{
    let n: usize = s.unicode_len();
    let mut start: usize = 0;
    let mut k: usize = 0;
    proof {
        assert(s@.subrange(0, n as int) =~= s@);
    }
    loop
        invariant
            n == s@.len(),
            start <= n,
            k <= index,
            split_on(s@, sep).len() >= k,
            split_on(s@, sep).subrange(k as int, split_on(s@, sep).len() as int)
                == split_on(s@.subrange(start as int, n as int), sep),
        decreases index - k,
    {
        let j: usize = find_char(s, sep, start, n);
        let ghost t = s@.subrange(start as int, n as int);
        let ghost a = s@.subrange(start as int, j as int);
        let ghost whole = split_on(s@, sep);
        proof {
            lemma_split_nonempty(t, sep);
            assert(free_of(a, sep));
            if j == n {
                assert(a =~= t);
                lemma_split_single(a, sep);
            } else {
                let b = s@.subrange(j + 1, n as int);
                assert(t =~= a + seq![sep] + b);
                lemma_split_at_separator(a, b, sep);
            }
            assert(whole.subrange(k as int, whole.len() as int)[0] == whole[k as int]);
        }
        if k == index {
            let f = s.substring_char(start, j);
            return Some(f.to_owned());
        }
        if j == n {
            proof {
                assert(whole.subrange(k as int, whole.len() as int).len() == 1);
            }
            return None;
        }
        proof {
            let b = s@.subrange(j + 1, n as int);
            let ws = whole.subrange(k as int, whole.len() as int);
            assert(ws == seq![a] + split_on(b, sep));
            assert(whole.subrange(k + 1, whole.len() as int) =~= ws.drop_first());
            assert(ws.drop_first() =~= split_on(b, sep));
        }
        start = j + 1;
        k = k + 1;
    }
}

} // verus!
