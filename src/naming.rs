use vstd::prelude::*;

use crate::text::{push_char, replace_whitespace, underscored};

verus! {

/// Characters that would let a name reach outside the storage directory.
pub open spec fn is_separator(c: char) -> bool {
    c == '/' || c == '\\' || c == '\0'
}

/// A name that denotes one entry directly under the storage directory: not
/// empty, not `.` or `..`, and free of separators.
pub open spec fn entry_name(s: Seq<char>) -> bool {
    &&& s.len() > 0
    &&& s != seq!['.']
    &&& s != seq!['.', '.']
    &&& forall|i: int| 0 <= i < s.len() ==> !is_separator(s[i])
}

/// The name under which an upload is stored: the file name the client gave,
/// or, with an alias, the alias with its whitespace replaced by `_`, then `_`,
/// then that file name.
pub open spec fn stored_name(alias: Option<Seq<char>>, file_name: Seq<char>) -> Seq<char> {
    match alias {
        Some(a) => underscored(a) + seq!['_'] + file_name,
        None => file_name,
    }
}

/// Whether `name` may be used as one entry of the storage directory.
pub fn is_entry_name(name: &str) -> (r: bool)
    ensures
        r == entry_name(name@),
{
    let n = name.unicode_len();
    if n == 0 {
        return false;
    }
    let first = name.get_char(0);
    if n == 1 && first == '.' {
        assert(name@ =~= seq!['.']);
        return false;
    }
    if n == 2 && first == '.' && name.get_char(1) == '.' {
        assert(name@ =~= seq!['.', '.']);
        return false;
    }
    let mut i: usize = 0;
    while i < n
        invariant
            n == name@.len(),
            i <= n,
            forall|j: int| 0 <= j < i ==> !is_separator(name@[j]),
        decreases n - i,
    {
        let c = name.get_char(i);
        if c == '/' || c == '\\' || c == '\0' {
            return false;
        }
        i += 1;
    }
    proof {
        if n == 1 {
            assert(name@[0] != '.');
            assert(name@ != seq!['.']);
        }
        if n == 2 {
            assert(name@[0] != '.' || name@[1] != '.');
            assert(name@ != seq!['.', '.']);
        }
    }
    true
}

/// The stored name for an upload of `file_name` under an optional `alias`.
pub fn final_name(alias: Option<&str>, file_name: &str) -> (r: String)
    ensures
        r@ == stored_name(
            match alias {
                Some(a) => Some(a@),
                None => None,
            },
            file_name@,
        ),
{
    match alias {
        Some(a) => {
            let mut out = replace_whitespace(a);
            push_char(&mut out, '_');
            out.append(file_name);
            out
        },
        None => String::from_str(file_name),
    }
}

} // verus!
