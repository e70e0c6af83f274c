use vstd::prelude::*;

verus! {

/// The pieces of `s` between occurrences of `sep`, in order; there is always one
/// more piece than there are separators, so the empty text has one empty piece.
pub open spec fn split_spec(s: Seq<char>, sep: char) -> Seq<Seq<char>>
    decreases s.len(),
{
    if s.len() == 0 {
        seq![Seq::<char>::empty()]
    } else {
        let prev = split_spec(s.drop_last(), sep);
        if s.last() == sep {
            prev.push(Seq::<char>::empty())
        } else {
            prev.update(prev.len() - 1, prev.last().push(s.last()))
        }
    }
}

/// `split_spec` never yields an empty list of pieces.
pub proof fn lemma_split_nonempty(s: Seq<char>, sep: char)
    ensures
        split_spec(s, sep).len() >= 1,
    decreases s.len(),
{
    if s.len() > 0 {
        lemma_split_nonempty(s.drop_last(), sep);
    }
}

/// The pieces joined together with `sep` between each two.
pub open spec fn join_spec(parts: Seq<Seq<char>>, sep: char) -> Seq<char>
    decreases parts.len(),
{
    if parts.len() == 0 {
        Seq::<char>::empty()
    } else if parts.len() == 1 {
        parts[0]
    } else {
        join_spec(parts.drop_last(), sep) + seq![sep] + parts.last()
    }
}

/// Splitting loses nothing: joining the pieces again with the separator gives
/// back the text, and no piece holds the separator.
pub proof fn lemma_split_join(s: Seq<char>, sep: char)
    ensures
        join_spec(split_spec(s, sep), sep) == s,
        forall|i: int| 0 <= i < split_spec(s, sep).len() ==> !(#[trigger] split_spec(s, sep)[i]).contains(sep),
    decreases s.len(),
{
    if s.len() == 0 {
        assert(join_spec(split_spec(s, sep), sep) =~= s);
    } else {
        let prev = split_spec(s.drop_last(), sep);
        lemma_split_join(s.drop_last(), sep);
        lemma_split_nonempty(s.drop_last(), sep);
        let parts = split_spec(s, sep);
        if s.last() == sep {
            assert(parts.drop_last() =~= prev);
            assert(join_spec(parts, sep) =~= s);
            assert forall|i: int| 0 <= i < parts.len() implies !(#[trigger] parts[i]).contains(sep) by {
                if i < prev.len() {
                    assert(parts[i] == prev[i]);
                }
            }
        } else {
            let c = s.last();
            let last = prev.last().push(c);
            if prev.len() == 1 {
                assert(parts.len() == 1);
                assert(parts[0] == prev[0].push(c));
                assert(prev[0] == s.drop_last());
                assert(s.drop_last().push(c) =~= s);
                assert(join_spec(parts, sep) == parts[0]);
            } else {
                assert(parts.drop_last() =~= prev.drop_last());
                assert(join_spec(prev, sep) == join_spec(prev.drop_last(), sep) + seq![sep] + prev.last());
                let x = join_spec(prev.drop_last(), sep);
                assert(parts.last() == last);
                assert(join_spec(parts, sep) == x + seq![sep] + last);
                assert(x + seq![sep] + last =~= (x + seq![sep] + prev.last()).push(c));
                assert(s =~= s.drop_last().push(c));
            }
            assert forall|i: int| 0 <= i < parts.len() implies !(#[trigger] parts[i]).contains(sep) by {
                if i < prev.len() - 1 {
                    assert(parts[i] == prev[i]);
                } else {
                    assert(parts[i] == last);
                    assert(!prev[prev.len() - 1].contains(sep));
                    if last.contains(sep) {
                        let k = choose|k: int| 0 <= k < last.len() && last[k] == sep;
                        if k < last.len() - 1 {
                            assert(prev.last()[k] == sep);
                        }
                    }
                }
            }
        }
    }
}

/// Text without the separator is a single piece.
pub proof fn lemma_split_without_separator(s: Seq<char>, sep: char)
    requires
        !s.contains(sep),
    ensures
        split_spec(s, sep) == seq![s],
    decreases s.len(),
{
    if s.len() == 0 {
        assert(s =~= Seq::<char>::empty());
    } else {
        assert(!s.drop_last().contains(sep)) by {
            if s.drop_last().contains(sep) {
                let k = choose|k: int| 0 <= k < s.drop_last().len() && s.drop_last()[k] == sep;
                assert(s[k] == sep);
            }
        }
        lemma_split_without_separator(s.drop_last(), sep);
        assert(s[s.len() - 1] != sep);
        assert(s.drop_last().push(s.last()) =~= s);
        let prev = split_spec(s.drop_last(), sep);
        assert(prev == seq![s.drop_last()]);
        assert(split_spec(s, sep) == prev.update(prev.len() - 1, prev.last().push(s.last())));
        assert(split_spec(s, sep)[0] == s);
        assert(split_spec(s, sep).len() == 1);
        assert(split_spec(s, sep) =~= seq![s]);
    }
}

/// Splitting at a separator between two texts gives the pieces of the first
/// followed by the pieces of the second.
pub proof fn lemma_split_concat(a: Seq<char>, b: Seq<char>, sep: char)
    ensures
        split_spec(a + seq![sep] + b, sep) == split_spec(a, sep) + split_spec(b, sep),
    decreases b.len(),
{
    let s = a + seq![sep] + b;
    lemma_split_nonempty(a, sep);
    if b.len() == 0 {
        assert(s.drop_last() =~= a);
        assert(split_spec(s, sep) =~= split_spec(a, sep) + split_spec(b, sep));
    } else {
        let b0 = b.drop_last();
        lemma_split_concat(a, b0, sep);
        lemma_split_nonempty(b0, sep);
        assert(s.drop_last() =~= a + seq![sep] + b0);
        assert(s.last() == b.last());
        assert(split_spec(s, sep) =~= split_spec(a, sep) + split_spec(b, sep));
    }
}

/// Splits `s` at every occurrence of `sep`.
pub fn split_on(s: &str, sep: char) -> (parts: Vec<String>)
    ensures
        parts.deep_view() == split_spec(s@, sep),
{
    let n = s.unicode_len();
    let mut parts: Vec<String> = Vec::new();
    let mut start: usize = 0;
    let mut i: usize = 0;
    assert(s@.take(0) =~= Seq::<char>::empty());
    assert(s@.subrange(0, 0) =~= Seq::<char>::empty());
    while i < n
        invariant
            n == s@.len(),
            start <= i <= n,
            split_spec(s@.take(i as int), sep) =~= parts.deep_view().push(s@.subrange(start as int, i as int)),
        decreases n - i,
    {
        let c = s.get_char(i);
        let ghost prefix = s@.take(i + 1);
        assert(prefix.drop_last() =~= s@.take(i as int));
        assert(prefix.last() == c);
        if c == sep {
            let piece = String::from_str(s.substring_char(start, i));
            parts.push(piece);
            start = i + 1;
            assert(s@.subrange(start as int, start as int) =~= Seq::<char>::empty());
        } else {
            assert(s@.subrange(start as int, i + 1) =~= s@.subrange(start as int, i as int).push(c));
        }
        i = i + 1;
    }
    let last = String::from_str(s.substring_char(start, n));
    parts.push(last);
    assert(s@.take(n as int) =~= s@);
    assert(parts.deep_view() =~= split_spec(s@, sep));
    parts
}

} // verus!
