//! Choosing the inner field.
//!
//! Among the fields of a struct, the one marked `#[shrinkwrap(main_field)]`
//! is the inner value. A struct with a single field needs no mark. Anything
//! else is an error: no field or several fields to choose from without a
//! mark, or several marks.

use vstd::prelude::*;

use crate::ast::Field;

verus! {

/// Why no inner field could be chosen.
#[derive(Debug, Clone, Copy, PartialEq, Eq, Structural)]
pub enum SelectionError {
    /// There are no fields at all.
    Empty,
    /// Several fields and none of them marked.
    Ambiguous,
    /// More than one field marked.
    MultiplyMarked,
}

/// The number of marked fields.
pub open spec fn marked_count<T>(fields: Seq<Field<T>>) -> nat
    decreases fields.len(),
{
    if fields.len() == 0 {
        0
    } else {
        marked_count(fields.drop_last()) + if fields.last().is_marked {
            1nat
        } else {
            0nat
        }
    }
}

/// The position of a marked field, where there is one.
pub open spec fn marked_index<T>(fields: Seq<Field<T>>) -> int {
    choose|i: int| 0 <= i < fields.len() && fields[i].is_marked
}

/// The position of the inner field, or why there is none: the one marked
/// field whatever the others are, else the only field if it stands alone.
pub open spec fn selection<T>(fields: Seq<Field<T>>) -> Result<int, SelectionError> {
    if marked_count(fields) == 1 {
        Ok(marked_index(fields))
    } else if marked_count(fields) == 0 && fields.len() == 1 {
        Ok(0)
    } else if fields.len() == 0 {
        Err(SelectionError::Empty)
    } else if marked_count(fields) == 0 {
        Err(SelectionError::Ambiguous)
    } else {
        Err(SelectionError::MultiplyMarked)
    }
}

proof fn lemma_count_take<T>(fields: Seq<Field<T>>, i: int)
    requires
        0 <= i < fields.len(),
    ensures
        marked_count(fields.take(i + 1)) == marked_count(fields.take(i)) + if fields[i].is_marked {
            1nat
        } else {
            0nat
        },
{
    assert(fields.take(i + 1).drop_last() =~= fields.take(i));
}

proof fn lemma_none_marked<T>(fields: Seq<Field<T>>)
    ensures
        marked_count(fields) == 0 <==> forall|i: int| 0 <= i < fields.len() ==> !fields[i].is_marked,
    decreases fields.len(),
{
    if fields.len() > 0 {
        let rest = fields.drop_last();
        lemma_none_marked(rest);
        assert forall|i: int| 0 <= i < rest.len() implies rest[i] == fields[i] by {}
        if marked_count(fields) == 0 {
            assert forall|i: int| 0 <= i < fields.len() implies !fields[i].is_marked by {
                if i < rest.len() {
                    assert(rest[i] == fields[i]);
                }
            }
        }
    }
}

proof fn lemma_count_without<T>(fields: Seq<Field<T>>, i: int)
    requires
        0 <= i < fields.len(),
    ensures
        marked_count(fields) == marked_count(fields.remove(i)) + if fields[i].is_marked {
            1nat
        } else {
            0nat
        },
    decreases fields.len(),
{
    if i == fields.len() - 1 {
        assert(fields.remove(i) =~= fields.drop_last());
    } else {
        let rest = fields.drop_last();
        lemma_count_without(rest, i);
        assert(rest.remove(i) =~= fields.remove(i).drop_last());
        assert(fields.remove(i).last() == fields.last());
    }
}

/// Where exactly one field is marked, no other field is.
proof fn lemma_single_mark<T>(fields: Seq<Field<T>>, i: int)
    requires
        0 <= i < fields.len(),
        fields[i].is_marked,
    ensures
        marked_count(fields) == 1 <==> forall|j: int| 0 <= j < fields.len() && j != i ==> !fields[j].is_marked,
{
    let rest = fields.remove(i);
    lemma_count_without(fields, i);
    lemma_none_marked(rest);
    if marked_count(fields) == 1 {
        assert forall|j: int| 0 <= j < fields.len() && j != i implies !fields[j].is_marked by {
            if j < i {
                assert(rest[j] == fields[j]);
            } else {
                assert(rest[j - 1] == fields[j]);
            }
        }
    } else {
        if forall|j: int| 0 <= j < fields.len() && j != i ==> !fields[j].is_marked {
            assert forall|k: int| 0 <= k < rest.len() implies !rest[k].is_marked by {
                if k < i {
                    assert(rest[k] == fields[k]);
                } else {
                    assert(rest[k] == fields[k + 1]);
                }
            }
        }
    }
}

/// Where exactly one field is marked, it is the one that `marked_index` names.
proof fn lemma_marked_index_unique<T>(fields: Seq<Field<T>>, i: int)
    requires
        0 <= i < fields.len(),
        fields[i].is_marked,
        marked_count(fields) == 1,
    ensures
        marked_index(fields) == i,
{
    lemma_single_mark(fields, i);
    assert(fields[marked_index(fields)].is_marked);
}

/// A lone field is the inner field, marked or not.
pub proof fn lemma_single_field_selected<T>(fields: Seq<Field<T>>)
    requires
        fields.len() == 1,
    ensures
        selection(fields) == Ok::<int, SelectionError>(0),
{
    lemma_none_marked(fields);
    if fields[0].is_marked {
        lemma_single_mark(fields, 0);
        lemma_marked_index_unique(fields, 0);
    }
}

/// The one marked field is the inner field, however many fields there are
/// and wherever it stands.
pub proof fn lemma_unique_mark_selected<T>(fields: Seq<Field<T>>, i: int)
    requires
        0 <= i < fields.len(),
        fields[i].is_marked,
        forall|j: int| 0 <= j < fields.len() && j != i ==> !fields[j].is_marked,
    ensures
        selection(fields) == Ok::<int, SelectionError>(i),
{
    lemma_single_mark(fields, i);
    lemma_marked_index_unique(fields, i);
}

/// Several fields and no mark: the choice is ambiguous.
pub proof fn lemma_unmarked_ambiguous<T>(fields: Seq<Field<T>>)
    requires
        fields.len() > 1,
        forall|j: int| 0 <= j < fields.len() ==> !fields[j].is_marked,
    ensures
        selection(fields) == Err::<int, SelectionError>(SelectionError::Ambiguous),
{
    lemma_none_marked(fields);
}

/// Two marked fields or more: the marks contradict each other.
pub proof fn lemma_multiply_marked<T>(fields: Seq<Field<T>>, i: int, j: int)
    requires
        0 <= i < fields.len(),
        0 <= j < fields.len(),
        i != j,
        fields[i].is_marked,
        fields[j].is_marked,
    ensures
        selection(fields) == Err::<int, SelectionError>(SelectionError::MultiplyMarked),
{
    lemma_single_mark(fields, i);
    lemma_count_without(fields, i);
    lemma_none_marked(fields);
}

/// Two sequences that hold the same fields are as long and have as many
/// marked fields.
proof fn lemma_count_permutation<T>(a: Seq<Field<T>>, b: Seq<Field<T>>)
    requires
        a.to_multiset() == b.to_multiset(),
    ensures
        a.len() == b.len(),
        marked_count(a) == marked_count(b),
    decreases a.len(),
{
    broadcast use vstd::seq_lib::group_to_multiset_ensures;

    if a.len() > 0 {
        let x = a.last();
        let rest = a.drop_last();
        assert(a =~= rest.push(x));
        assert(a.to_multiset().count(x) > 0) by {
            assert(a.contains(x)) by {
                assert(a[a.len() - 1] == x);
            }
        }
        assert(b.to_multiset().count(x) > 0);
        assert(b.contains(x));
        let j = choose|j: int| 0 <= j < b.len() && b[j] == x;
        assert(b.remove(j).to_multiset() =~= rest.to_multiset());
        lemma_count_permutation(rest, b.remove(j));
        lemma_count_without(b, j);
    } else {
        a.to_multiset_ensures();
        b.to_multiset_ensures();
    }
}

/// Selection does not depend on the order of the fields: two sequences that
/// hold the same fields select the same field, or fail with the same error.
pub proof fn lemma_selection_order_independent<T>(a: Seq<Field<T>>, b: Seq<Field<T>>)
    requires
        a.to_multiset() == b.to_multiset(),
    ensures
        match (selection(a), selection(b)) {
            (Ok(i), Ok(j)) => a[i] == b[j],
            (Err(x), Err(y)) => x == y,
            _ => false,
        },
{
    broadcast use vstd::seq_lib::group_to_multiset_ensures;

    lemma_count_permutation(a, b);
    if marked_count(a) == 1 {
        let i = marked_index(a);
        lemma_none_marked(a);
        assert(a[i].is_marked);
        assert(a.contains(a[i]));
        assert(b.to_multiset().count(a[i]) > 0);
        assert(b.contains(a[i]));
        let j = choose|j: int| 0 <= j < b.len() && b[j] == a[i];
        lemma_marked_index_unique(b, j);
    } else if marked_count(a) == 0 && a.len() == 1 {
        assert(a.contains(a[0]));
        assert(b.to_multiset().count(a[0]) > 0);
        assert(b.contains(a[0]));
    }
}

/// Finds the inner field. On success, returns its position, the field, and
/// the remaining fields in their order.
pub fn find_marked_field<T>(fields: Vec<Field<T>>) -> (r: Result<(usize, Field<T>, Vec<Field<T>>), SelectionError>)
    ensures
        match r {
            Ok((i, field, rest)) => {
                &&& i < fields@.len()
                &&& selection(fields@) == Ok::<int, SelectionError>(i as int)
                &&& field == fields@[i as int]
                &&& rest@ == fields@.remove(i as int)
            },
            Err(e) => selection(fields@) == Err::<int, SelectionError>(e),
        },
{
    let ghost all = fields@;
    let mut fields = fields;
    let n = fields.len();
    let mut count: usize = 0;
    let mut marked: usize = 0;
    let mut i: usize = 0;
    while i < n
        invariant
            fields@ == all,
            n == all.len(),
            i <= n,
            count <= i,
            count == marked_count(all.take(i as int)),
            count > 0 ==> marked < i && all[marked as int].is_marked,
        decreases n - i,
    {
        proof {
            lemma_count_take(all, i as int);
        }
        if fields[i].is_marked {
            count = count + 1;
            marked = i;
        }
        i = i + 1;
    }
    assert(all.take(n as int) =~= all);
    if count == 1 {
        proof {
            lemma_marked_index_unique(all, marked as int);
        }
        let field = fields.remove(marked);
        Ok((marked, field, fields))
    } else if count == 0 && n == 1 {
        let field = fields.remove(0);
        Ok((0, field, fields))
    } else if n == 0 {
        Err(SelectionError::Empty)
    } else if count == 0 {
        Err(SelectionError::Ambiguous)
    } else {
        Err(SelectionError::MultiplyMarked)
    }
}

} // verus!
