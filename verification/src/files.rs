//! Picking files by their extension. Walking the directories is the
//! caller's part; the decision on each name is made here.
use vstd::prelude::*;
use vstd::string::*;
use crate::text::str_equal;

verus! {

/// The last `.`-separated section of a file name: the text after its last
/// `.`, or the whole name where it holds none.
pub open spec fn last_section(name: Seq<char>) -> Seq<char>
    decreases name.len(),
{
    if name.len() == 0 {
        name
    } else if name.last() == '.' {
        Seq::empty()
    } else {
        last_section(name.drop_last()).push(name.last())
    }
}

/// Whether the last `.`-separated section of `file_name` is `ext`.
pub fn has_extension(file_name: &str, ext: &str) -> (matches: bool)
    ensures
        matches == (last_section(file_name@) == ext@),
{
    let n = file_name.unicode_len();
    let mut i: usize = n;
    assert(file_name@.take(n as int) =~= file_name@);
    assert(last_section(file_name@) =~= last_section(file_name@.take(n as int)) + file_name@.subrange(
        n as int,
        n as int,
    ));
    while i > 0 && file_name.get_char(i - 1) != '.'
        invariant
            n == file_name@.len(),
            i <= n,
            last_section(file_name@) == last_section(file_name@.take(i as int)) + file_name@.subrange(
                i as int,
                n as int,
            ),
        decreases i,
    {
        let ghost prefix = file_name@.take(i as int);
        assert(prefix.drop_last() =~= file_name@.take(i - 1));
        assert(last_section(prefix) == last_section(file_name@.take(i - 1)).push(file_name@[i - 1]));
        assert(last_section(file_name@.take(i - 1)).push(file_name@[i - 1]) + file_name@.subrange(
            i as int,
            n as int,
        ) =~= last_section(file_name@.take(i - 1)) + file_name@.subrange(i - 1, n as int));
        i = i - 1;
    }
    proof {
        if i == 0 {
            assert(file_name@.take(0) =~= Seq::<char>::empty());
        }
        assert(last_section(file_name@.take(i as int)) =~= Seq::<char>::empty());
        assert(last_section(file_name@) =~= file_name@.subrange(i as int, n as int));
    }
    let section = file_name.substring_char(i, n);
    str_equal(section, ext)
}

/// A name made of any stem, a `.`, and an extension without `.` has that
/// extension.
pub proof fn law_appended_extension_is_found(stem: Seq<char>, ext: Seq<char>)
    requires
        forall|i: int| 0 <= i < ext.len() ==> ext[i] != '.',
    ensures
        last_section(stem + seq!['.'] + ext) == ext,
    decreases ext.len(),
{
    let name = stem + seq!['.'] + ext;
    if ext.len() == 0 {
        assert(name.last() == '.');
    } else {
        let shorter = ext.drop_last();
        law_appended_extension_is_found(stem, shorter);
        assert(name.drop_last() =~= stem + seq!['.'] + shorter);
        assert(name.last() == ext.last());
        assert(shorter.push(ext.last()) =~= ext);
    }
}
} // verus!
