use vstd::prelude::*;

verus! {

/// Relies on `String::push`: appends exactly one character.
pub assume_specification[ String::push ](s: &mut String, ch: char)
    ensures
        final(s)@ == old(s)@.push(ch),
;

/// Items joined by single commas, in the order given.
pub open spec fn comma_join(items: Seq<Seq<char>>) -> Seq<char>
    decreases items.len(),
{
    if items.len() == 0 {
        Seq::empty()
    } else if items.len() == 1 {
        items[0]
    } else {
        comma_join(items.drop_last()) + seq![','] + items.last()
    }
}

} // verus!

verus! {

pub proof fn lemma_comma_join_step(items: Seq<Seq<char>>, i: int)
    requires
        0 <= i < items.len(),
    ensures
        comma_join(items.take(i + 1)) == if i == 0 {
            items[0]
        } else {
            comma_join(items.take(i)) + seq![','] + items[i]
        },
{
    assert(items.take(i + 1).drop_last() =~= items.take(i));
    if i == 0 {
        assert(items.take(1)[0] == items[0]);
    }
}

} // verus!
