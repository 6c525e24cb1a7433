//! Lists of texts: looking a text up and taking it out by its value.

use vstd::prelude::*;

verus! {

/// What a list of strings says: the text of each, in order.
pub open spec fn texts_of(list: Seq<String>) -> Seq<Seq<char>> {
    Seq::new(list.len(), |i: int| list[i]@)
}

/// Whether `index` is where `text` first occurs in `list`.
pub open spec fn first_at(list: Seq<Seq<char>>, text: Seq<char>, index: int) -> bool {
    &&& 0 <= index < list.len()
    &&& list[index] == text
    &&& forall|j: int| 0 <= j < index ==> list[j] != text
}

/// A text that occurs in a list first occurs at one place only, and removing
/// the text by value removes it there.
pub proof fn first_occurrence_is_removed(list: Seq<Seq<char>>, text: Seq<char>, index: int)
    requires
        first_at(list, text, index),
    ensures
        list.contains(text),
        list.index_of_first(text) == Some(index),
        list.remove_value(text) == list.remove(index),
{
    list.index_of_first_ensures(text);
}

/// Removing a text that does not occur in a list leaves the list as it is.
pub proof fn absent_text_is_not_removed(list: Seq<Seq<char>>, text: Seq<char>)
    requires
        !list.contains(text),
    ensures
        list.remove_value(text) == list,
{
    list.index_of_first_ensures(text);
}

/// Where `text` first occurs in `list`, and `None` where it does not occur.
pub fn find_text(list: &Vec<String>, text: &String) -> (r: Option<usize>)
    ensures
        match r {
            Some(index) => first_at(texts_of(list@), text@, index as int),
            None => !texts_of(list@).contains(text@),
        },
{
    let mut i: usize = 0;
    while i < list.len()
        invariant
            i <= list.len(),
            forall|j: int| 0 <= j < i ==> (#[trigger] list@[j])@ != text@,
        decreases list.len() - i,
    {
        if list[i] == *text {
            return Some(i);
        }
        i += 1;
    }
    None
}

/// Takes the first occurrence of `text` out of `list`, and says whether there
/// was one.  The texts that stay keep their order; without an occurrence the
/// list is as it was.
pub fn remove_text(list: &mut Vec<String>, text: &String) -> (found: bool)
    ensures
        found == texts_of(old(list)@).contains(text@),
        texts_of(final(list)@) == texts_of(old(list)@).remove_value(text@),
        !found ==> *final(list) == *old(list),
{
    match find_text(list, text) {
        Some(index) => {
            let ghost before = list@;
            list.remove(index);
            proof {
                assert(texts_of(list@) =~= texts_of(before).remove(index as int));
                first_occurrence_is_removed(texts_of(before), text@, index as int);
            }
            true
        },
        None => {
            proof {
                absent_text_is_not_removed(texts_of(list@), text@);
            }
            false
        },
    }
}

/// Puts `text` at the end of `list`.
pub fn append_text(list: &mut Vec<String>, text: String)
    ensures
        final(list)@ == old(list)@.push(text),
        texts_of(final(list)@) == texts_of(old(list)@).push(text@),
{
    list.push(text);
    assert(texts_of(list@) =~= texts_of(old(list)@).push(text@));
}

/// A copy of `list` that says the same.
pub fn copy_texts(list: &Vec<String>) -> (r: Vec<String>)
    ensures
        r@ == list@,
        texts_of(r@) == texts_of(list@),
{
    let mut copy: Vec<String> = Vec::new();
    let mut i: usize = 0;
    while i < list.len()
        invariant
            i <= list.len(),
            copy@ == list@.subrange(0, i as int),
        decreases list.len() - i,
    {
        copy.push(list[i].clone());
        i += 1;
    }
    assert(copy@ == list@);
    copy
}

} // verus!
