//! Text building blocks shared by the report fields.

use vstd::prelude::*;
use vstd::string::*;

verus! {

/// The text that stands in a report field whose probe failed.
pub open spec fn sentinel_text() -> Seq<char> {
    "-1"@
}

/// The texts that a list of strings holds, in the order of the list.
pub open spec fn texts_of(strings: Seq<String>) -> Seq<Seq<char>> {
    Seq::new(strings.len(), |i: int| strings[i]@)
}

/// The indented lines of a block, each introduced by a line break and two tabs,
/// in the order of `lines`.
pub open spec fn block_lines_text(lines: Seq<Seq<char>>) -> Seq<char>
    decreases lines.len(),
{
    if lines.len() == 0 {
        Seq::<char>::empty()
    } else {
        block_lines_text(lines.drop_last()) + "\n\t\t"@ + lines.last()
    }
}

/// A list of lines as one brace-delimited block. The empty list is the empty
/// text, not an empty pair of braces.
pub open spec fn block_text(lines: Seq<Seq<char>>) -> Seq<char> {
    if lines.len() == 0 {
        Seq::<char>::empty()
    } else {
        "{"@ + block_lines_text(lines) + "\n\t}"@
    }
}

/// A fresh string holding the failure sentinel.
pub fn sentinel() -> (s: String)
    ensures
        s@ == sentinel_text(),
{
    "-1".to_owned()
}

/// Renders a list of lines as one brace-delimited block, one indented line per
/// entry, in the order given.
pub fn array_to_string_print(datas: Vec<String>) -> (text: String)
    ensures
        text@ == block_text(texts_of(datas@)),
{
    let ghost lines = texts_of(datas@);
    if datas.len() == 0 {
        return String::new();
    }
    let mut text: String = "{".to_owned();
    let mut i: usize = 0;
    while i < datas.len()
        invariant
            i <= datas.len(),
            lines == texts_of(datas@),
            text@ == "{"@ + block_lines_text(lines.take(i as int)),
        decreases datas.len() - i,
    {
        text.append("\n\t\t");
        text.append(datas[i].as_str());
        proof {
            let next = lines.take(i + 1);
            assert(next.drop_last() =~= lines.take(i as int));
            assert(next.last() == datas[i as int]@);
        }
        i = i + 1;
    }
    text.append("\n\t}");
    proof {
        assert(lines.take(i as int) =~= lines);
    }
    text
}

} // verus!
