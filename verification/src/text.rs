use vstd::prelude::*;

verus! {

/// The fields joined back with the separator between them.
pub open spec fn join_with(fields: Seq<Seq<char>>, sep: char) -> Seq<char>
    decreases fields.len(),
{
    if fields.len() == 0 {
        Seq::empty()
    } else if fields.len() == 1 {
        fields[0]
    } else {
        join_with(fields.drop_last(), sep) + seq![sep] + fields.last()
    }
}

/// `fields` is the split of `s` on `sep`: joining them with the separator
/// gives `s` back, and no field holds the separator.  These two clauses
/// determine the fields uniquely.
pub open spec fn is_split_of(fields: Seq<Seq<char>>, sep: char, s: Seq<char>) -> bool {
    &&& fields.len() >= 1
    &&& join_with(fields, sep) == s
    &&& forall|i: int| 0 <= i < fields.len() ==> !(#[trigger] fields[i]).contains(sep)
}

/// The split of `s` on `sep`, as a function: everything before the first
/// separator, then the split of what follows it.
pub open spec fn split_spec(s: Seq<char>, sep: char) -> Seq<Seq<char>>
    decreases s.len(),
{
    match s.index_of_first(sep) {
        Some(i) => if 0 <= i < s.len() {
            seq![s.take(i)] + split_spec(s.skip(i + 1), sep)
        } else {
            seq![s]
        },
        None => seq![s],
    }
}

/// Joining decomposes at the front as well as at the back.
proof fn lemma_join_head(fields: Seq<Seq<char>>, sep: char)
    requires
        fields.len() >= 2,
    ensures
        join_with(fields, sep) == fields[0] + seq![sep] + join_with(fields.drop_first(), sep),
    decreases fields.len(),
{
    if fields.len() == 2 {
        assert(fields.drop_last() =~= seq![fields[0]]);
        assert(fields.drop_first() =~= seq![fields[1]]);
        assert(join_with(seq![fields[0]], sep) == fields[0]);
        assert(join_with(seq![fields[1]], sep) == fields[1]);
    } else {
        lemma_join_head(fields.drop_last(), sep);
        assert(fields.drop_last()[0] == fields[0]);
        assert(fields.drop_last().drop_first() =~= fields.drop_first().drop_last());
        assert(fields.drop_first().last() == fields.last());
        assert(join_with(fields.drop_first(), sep) == join_with(
            fields.drop_first().drop_last(),
            sep,
        ) + seq![sep] + fields.last());
        assert((fields[0] + seq![sep] + join_with(fields.drop_first().drop_last(), sep)) + seq![
            sep,
        ] + fields.last() =~= fields[0] + seq![sep] + (join_with(
            fields.drop_first().drop_last(),
            sep,
        ) + seq![sep] + fields.last()));
    }
}

/// Splitting and joining round-trip: the split's pieces, joined with the
/// separator again, give the string back, and no piece holds the separator.
pub proof fn lemma_split_joins_back(s: Seq<char>, sep: char)
    ensures
        is_split_of(split_spec(s, sep), sep, s),
    decreases s.len(),
{
    s.index_of_first_ensures(sep);
    match s.index_of_first(sep) {
        Some(i) => {
            let head = s.take(i);
            let rest = s.skip(i + 1);
            lemma_split_joins_back(rest, sep);
            let tail_fields = split_spec(rest, sep);
            let fields = seq![head] + tail_fields;
            assert(!head.contains(sep)) by {
                assert(forall|j: int| 0 <= j < i ==> #[trigger] head[j] == s[j]);
            }
            assert(forall|k: int|
                0 <= k < fields.len() ==> !(#[trigger] fields[k]).contains(sep)) by {
                assert(forall|k: int|
                    1 <= k < fields.len() ==> fields[k] == #[trigger] tail_fields[k - 1]);
            }
            assert(join_with(fields, sep) == s) by {
                if tail_fields.len() == 0 {
                } else {
                    lemma_join_head(fields, sep);
                    assert(fields.drop_first() =~= tail_fields);
                    assert(head + seq![sep] + rest =~= s);
                }
            }
        },
        None => {
            assert(join_with(seq![s], sep) == s);
        },
    }
}

/// Any split in the relational sense is the split function's value: the two
/// characterizations agree.
pub proof fn lemma_split_unique(fields: Seq<Seq<char>>, sep: char, s: Seq<char>)
    requires
        is_split_of(fields, sep, s),
    ensures
        fields == split_spec(s, sep),
    decreases fields.len(),
{
    s.index_of_first_ensures(sep);
    if fields.len() == 1 {
        assert(join_with(fields, sep) == fields[0]);
        assert(!s.contains(sep));
        assert(s.index_of_first(sep) is None);
        assert(fields =~= seq![s]);
    } else {
        lemma_join_head(fields, sep);
        let f0 = fields[0];
        let rest = join_with(fields.drop_first(), sep);
        let k = f0.len() as int;
        assert(s =~= f0 + seq![sep] + rest);
        assert(s[k] == sep);
        assert(forall|j: int| 0 <= j < k ==> s[j] == f0[j] && !f0.contains(sep));
        assert(forall|j: int| 0 <= j < k ==> s[j] != sep) by {
            assert(forall|j: int| 0 <= j < k ==> s[j] == f0[j]);
        }
        match s.index_of_first(sep) {
            Some(i) => {
                assert(i <= k);
                assert(i >= k) by {
                    if i < k {
                        assert(s[i] != sep);
                    }
                }
                assert(s.take(k) =~= f0);
                assert(s.skip(k + 1) =~= rest);
                assert(is_split_of(fields.drop_first(), sep, rest)) by {
                    assert(forall|j: int|
                        0 <= j < fields.drop_first().len() ==> #[trigger] fields.drop_first()[j]
                            == fields[j + 1]);
                }
                lemma_split_unique(fields.drop_first(), sep, rest);
                assert(fields =~= seq![f0] + fields.drop_first());
            },
            None => {
                assert(s.contains(sep)) by {
                    assert(s[k] == sep);
                }
            },
        }
    }
}

pub open spec fn views_of(fields: Seq<String>) -> Seq<Seq<char>> {
    fields.map_values(|f: String| f@)
}

proof fn lemma_join_push(fields: Seq<Seq<char>>, sep: char, f: Seq<char>)
    ensures
        join_with(fields.push(f), sep) == (if fields.len() == 0 {
            f
        } else {
            join_with(fields, sep) + seq![sep] + f
        }),
{
    assert(fields.push(f).drop_last() =~= fields);
    assert(fields.push(f).last() == f);
    if fields.len() == 0 {
        assert(fields.push(f)[0] == f);
    }
}

/// Splits a string on a separator character.  The result is never empty:
/// a string without the separator comes back as its only field.
pub fn split_on_char(s: &str, sep: char) -> (r: Vec<String>)
    ensures
        is_split_of(views_of(r@), sep, s@),
        views_of(r@) == split_spec(s@, sep),
{
    let len = s.unicode_len();
    let mut r: Vec<String> = Vec::new();
    let mut field_start: usize = 0;
    let mut i: usize = 0;
    while i < len
        invariant
            0 <= field_start <= i <= len,
            len == s@.len(),
            r@.len() == 0 ==> field_start == 0,
            r@.len() > 0 ==> s@.take(field_start as int) =~= join_with(views_of(r@), sep)
                + seq![sep],
            forall|k: int| 0 <= k < r@.len() ==> !(#[trigger] views_of(r@)[k]).contains(sep),
            forall|j: int| field_start <= j < i ==> s@[j] != sep,
        decreases len - i,
    {
        if s.get_char(i) == sep {
            let field = s.substring_char(field_start, i).to_owned();
            proof {
                let fields = views_of(r@);
                lemma_join_push(fields, sep, field@);
                assert(!field@.contains(sep)) by {
                    assert(forall|j: int|
                        0 <= j < field@.len() ==> #[trigger] field@[j] == s@[field_start + j]
                            && s@[field_start + j] != sep);
                }
                assert(views_of(r@.push(field)) =~= fields.push(field@));
                if r@.len() == 0 {
                    assert(s@.take(i + 1) =~= field@ + seq![sep]);
                } else {
                    assert(s@.take(i + 1) =~= s@.take(field_start as int) + field@ + seq![sep]);
                }
            }
            r.push(field);
            field_start = i + 1;
        }
        i = i + 1;
    }
    let field = s.substring_char(field_start, len).to_owned();
    proof {
        let fields = views_of(r@);
        lemma_join_push(fields, sep, field@);
        assert(!field@.contains(sep)) by {
            assert(forall|j: int|
                0 <= j < field@.len() ==> #[trigger] field@[j] == s@[field_start + j] && s@[
                    field_start + j] != sep);
        }
        assert(views_of(r@.push(field)) =~= fields.push(field@));
        if r@.len() == 0 {
            assert(s@.take(len as int) =~= s@);
            assert(field@ =~= s@);
        } else {
            assert(s@ =~= s@.take(field_start as int) + field@);
        }
    }
    r.push(field);
    proof {
        assert(is_split_of(views_of(r@), sep, s@));
        lemma_split_unique(views_of(r@), sep, s@);
    }
    r
}

/// Whether two strings hold the same characters.
pub fn str_eq(a: &str, b: &str) -> (r: bool)
    ensures
        r == (a@ == b@),
{
    a.to_owned().eq(&b.to_owned())
}

/// Whether some string of the list equals the value.
pub open spec fn seq_contains_string(list: Seq<String>, value: Seq<char>) -> bool {
    exists|i: int| 0 <= i < list.len() && #[trigger] list[i]@ == value
}

/// Whether the list of strings holds the given value.
pub fn list_contains_str(list: &Vec<String>, value: &str) -> (r: bool)
    ensures
        r == seq_contains_string(list@, value@),
{
    let v = value.to_owned();
    let mut i: usize = 0;
    while i < list.len()
        invariant
            v@ == value@,
            0 <= i <= list@.len(),
            forall|j: int| 0 <= j < i ==> #[trigger] list@[j]@ != value@,
        decreases list@.len() - i,
    {
        if list[i].eq(&v) {
            return true;
        }
        i = i + 1;
    }
    false
}

} // verus!
