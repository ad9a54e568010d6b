//! Lists of names written in one string, a single space between two names.

use vstd::prelude::*;
use vstd::string::*;

verus! {

/// The fields of `s`: what stands between one space and the next. A string
/// with `n` spaces has `n + 1` fields, empty ones included.
pub open spec fn fields(s: Seq<char>) -> Seq<Seq<char>>
    decreases s.len(),
{
    if s.len() == 0 {
        seq![Seq::<char>::empty()]
    } else {
        let before = fields(s.drop_last());
        if s.last() == ' ' {
            before.push(Seq::<char>::empty())
        } else {
            before.update(before.len() - 1, before.last().push(s.last()))
        }
    }
}

/// What each string of a list holds.
pub open spec fn texts(strings: Seq<String>) -> Seq<Seq<char>> {
    Seq::new(strings.len(), |i: int| strings[i]@)
}

/// Joining the fields with single spaces gives the string back.
pub open spec fn joined(parts: Seq<Seq<char>>) -> Seq<char>
    decreases parts.len(),
{
    if parts.len() == 0 {
        Seq::<char>::empty()
    } else if parts.len() == 1 {
        parts[0]
    } else {
        joined(parts.drop_last()).push(' ') + parts.last()
    }
}

/// The fields are never empty as a list, hold no space, and joined by
/// spaces they give the string back.
pub proof fn lemma_fields_join(s: Seq<char>)
    ensures
        fields(s).len() >= 1,
        forall|i: int, j: int|
            0 <= i < fields(s).len() && 0 <= j < fields(s)[i].len() ==> fields(s)[i][j] != ' ',
        joined(fields(s)) == s,
    decreases s.len(),
{
    if s.len() == 0 {
        assert(joined(fields(s)) =~= s);
    } else {
        let head = s.drop_last();
        lemma_fields_join(head);
        let before = fields(head);
        if s.last() == ' ' {
            let all = before.push(Seq::<char>::empty());
            assert(all.drop_last() =~= before);
            assert(joined(all) =~= s);
        } else {
            let all = before.update(before.len() - 1, before.last().push(s.last()));
            if before.len() == 1 {
                assert(joined(all) =~= s);
            } else {
                assert(all.drop_last() =~= before.drop_last());
                let stem = joined(before.drop_last()).push(' ');
                assert(stem + before.last().push(s.last()) =~= (stem + before.last()).push(
                    s.last(),
                ));
                assert(head.push(s.last()) =~= s);
            }
        }
    }
}

/// Splits `data` at every space.
pub fn split_names(data: &str) -> (names: Vec<String>)
    ensures
        texts(names@) == fields(data@),
{
    let n: usize = data.unicode_len();
    let mut names: Vec<String> = Vec::new();
    let mut start: usize = 0;
    let mut i: usize = 0;
    assert(data@.subrange(0, 0) =~= Seq::<char>::empty());
    assert(texts(names@).push(data@.subrange(0, 0)) =~= fields(data@.subrange(0, 0)));
    while i < n
        invariant
            n == data@.len(),
            start <= i <= n,
            texts(names@).push(data@.subrange(start as int, i as int)) == fields(
                data@.subrange(0, i as int),
            ),
        decreases n - i,
    {
        let ghost seen = data@.subrange(0, i as int);
        let ghost next = data@.subrange(0, i + 1);
        let ghost field = data@.subrange(start as int, i as int);
        let ghost before = texts(names@);
        assert(next.drop_last() =~= seen);
        if data.get_char(i) == ' ' {
            names.push(String::from_str(data.substring_char(start, i)));
            start = i + 1;
            assert(texts(names@) =~= before.push(field));
            assert(data@.subrange(start as int, i + 1) =~= Seq::<char>::empty());
        } else {
            assert(data@.subrange(start as int, i + 1) =~= field.push(data@[i as int]));
            assert(before.push(field).update(before.len() as int, field.push(data@[i as int]))
                =~= before.push(field.push(data@[i as int])));
        }
        i += 1;
    }
    let ghost before = texts(names@);
    names.push(String::from_str(data.substring_char(start, n)));
    assert(texts(names@) =~= before.push(data@.subrange(start as int, n as int)));
    assert(data@.subrange(0, n as int) =~= data@);
    names
}

} // verus!
