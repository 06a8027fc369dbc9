//! How values are shown in the one-line description of a plan: the way
//! `{:?}` prints them.

use vstd::prelude::*;
use crate::file::FilePartition;

verus! {

/// How `{:?}` prints a string: in quotes, with the characters that need it
/// escaped.
pub uninterp spec fn debug_str(text: Seq<char>) -> Seq<char>;

/// `format!` with `{:?}` on a `str`. The contract only gives the text its
/// name: it is a function of the string alone.
#[verifier::external_body]
fn quoted(text: &str) -> (shown: String)
    ensures
        shown@ == debug_str(text@),
{
    format!("{:?}", text)
}

/// The decimal digit for `d`.
pub open spec fn digit(d: nat) -> Seq<char> {
    if d == 0 {
        "0"@
    } else if d == 1 {
        "1"@
    } else if d == 2 {
        "2"@
    } else if d == 3 {
        "3"@
    } else if d == 4 {
        "4"@
    } else if d == 5 {
        "5"@
    } else if d == 6 {
        "6"@
    } else if d == 7 {
        "7"@
    } else if d == 8 {
        "8"@
    } else {
        "9"@
    }
}

/// The decimal digits of `n`, without leading zeros.
pub open spec fn decimal(n: nat) -> Seq<char>
    decreases n,
{
    if n < 10 {
        digit(n)
    } else {
        decimal(n / 10) + digit(n % 10)
    }
}

/// How `{:?}` prints an optional number.
pub open spec fn debug_limit(limit: Option<usize>) -> Seq<char> {
    match limit {
        Some(n) => "Some("@ + decimal(n as nat) + ")"@,
        None => "None"@,
    }
}

/// `items`, each set off from the one before by a comma and a space.
pub open spec fn joined(items: Seq<Seq<char>>) -> Seq<char>
    decreases items.len(),
{
    if items.len() == 0 {
        Seq::empty()
    } else if items.len() == 1 {
        items[0]
    } else {
        joined(items.drop_last()) + ", "@ + items.last()
    }
}

/// How `{:?}` prints a list whose items print as `items`.
pub open spec fn debug_list(items: Seq<Seq<char>>) -> Seq<char> {
    "["@ + joined(items) + "]"@
}

/// The texts of `items`.
pub open spec fn views(items: Seq<String>) -> Seq<Seq<char>> {
    Seq::new(items.len(), |i: int| items[i]@)
}

/// How `{:?}` prints each string of `values`.
pub open spec fn debug_strs(values: Seq<String>) -> Seq<Seq<char>> {
    Seq::new(values.len(), |i: int| debug_str(values[i]@))
}

/// How `{:?}` prints the partition values of a file.
pub open spec fn debug_values(values: Option<Vec<String>>) -> Seq<char> {
    match values {
        Some(list) => "Some("@ + debug_list(debug_strs(list@)) + ")"@,
        None => "None"@,
    }
}

/// How `{:?}` prints a file: its name and every field.
pub open spec fn debug_file(file: FilePartition) -> Seq<char> {
    "FilePartition { location: "@ + debug_str(file.location@) + ", size: "@ + decimal(
        file.size as nat,
    ) + ", partition_values: "@ + debug_values(file.partition_values) + " }"@
}

fn digit_text(d: usize) -> (text: &'static str)
    requires
        d < 10,
    ensures
        text@ == digit(d as nat),
{
    if d == 0 {
        "0"
    } else if d == 1 {
        "1"
    } else if d == 2 {
        "2"
    } else if d == 3 {
        "3"
    } else if d == 4 {
        "4"
    } else if d == 5 {
        "5"
    } else if d == 6 {
        "6"
    } else if d == 7 {
        "7"
    } else if d == 8 {
        "8"
    } else {
        "9"
    }
}

fn append_decimal(out: &mut String, n: usize)
    ensures
        final(out)@ == old(out)@ + decimal(n as nat),
    decreases n,
{
    if n >= 10 {
        append_decimal(out, n / 10);
    }
    out.append(digit_text(n % 10));
    proof {
        assert(out@ =~= old(out)@ + decimal(n as nat));
    }
}

/// The decimal digits of `n`.
pub fn decimal_text(n: usize) -> (shown: String)
    ensures
        shown@ == decimal(n as nat),
{
    let mut shown = String::new();
    append_decimal(&mut shown, n);
    proof {
        assert(shown@ =~= decimal(n as nat));
    }
    shown
}

/// An optional number as `{:?}` prints it.
pub fn limit_text(limit: &Option<usize>) -> (shown: String)
    ensures
        shown@ == debug_limit(*limit),
{
    match limit {
        Some(n) => {
            let mut shown = "Some(".to_owned();
            shown.append(decimal_text(*n).as_str());
            shown.append(")");
            shown
        },
        None => "None".to_owned(),
    }
}

/// A list as `{:?}` prints it, from the texts of its items.
pub fn list_text(items: &Vec<String>) -> (shown: String)
    ensures
        shown@ == debug_list(views(items@)),
{
    let mut shown = "[".to_owned();
    let mut i: usize = 0;
    while i < items.len()
        invariant
            i <= items@.len(),
            shown@ == "["@ + joined(views(items@).take(i as int)),
        decreases items@.len() - i,
    {
        let ghost before = views(items@).take(i as int);
        let ghost after = views(items@).take(i + 1);
        proof {
            assert(after.drop_last() =~= before);
            assert(after.last() == items@[i as int]@);
        }
        if i > 0 {
            shown.append(", ");
        }
        shown.append(items[i].as_str());
        proof {
            assert(shown@ =~= "["@ + joined(after));
        }
        i += 1;
    }
    proof {
        assert(views(items@).take(i as int) =~= views(items@));
    }
    shown.append("]");
    shown
}

/// The partition values of a file as `{:?}` prints them.
fn values_text(values: &Option<Vec<String>>) -> (shown: String)
    ensures
        shown@ == debug_values(*values),
{
    match values {
        Some(list) => {
            let mut texts: Vec<String> = Vec::new();
            let mut i: usize = 0;
            while i < list.len()
                invariant
                    i <= list@.len(),
                    texts@.len() == i,
                    views(texts@) == debug_strs(list@).take(i as int),
                decreases list@.len() - i,
            {
                let ghost before = texts@;
                texts.push(quoted(list[i].as_str()));
                proof {
                    assert forall|j: int| 0 <= j < i implies views(texts@)[j] == debug_strs(
                        list@,
                    )[j] by {
                        assert(views(before)[j] == debug_strs(list@).take(i as int)[j]);
                    }
                    assert(views(texts@) =~= debug_strs(list@).take(i + 1));
                }
                i += 1;
            }
            proof {
                assert(debug_strs(list@).take(i as int) =~= debug_strs(list@));
            }
            let mut shown = "Some(".to_owned();
            shown.append(list_text(&texts).as_str());
            shown.append(")");
            shown
        },
        None => "None".to_owned(),
    }
}

/// A file as `{:?}` prints it.
pub fn file_text(file: &FilePartition) -> (shown: String)
    ensures
        shown@ == debug_file(*file),
{
    let mut shown = "FilePartition { location: ".to_owned();
    shown.append(quoted(file.location.as_str()).as_str());
    shown.append(", size: ");
    shown.append(decimal_text(file.size).as_str());
    shown.append(", partition_values: ");
    shown.append(values_text(&file.partition_values).as_str());
    shown.append(" }");
    shown
}

} // verus!
