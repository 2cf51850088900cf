//! Text made from what callers hand in.

use vstd::prelude::*;

verus! {

/// `String::from(&str)` of std: the new string holds the characters of the slice.
pub assume_specification<'a>[ <std::string::String as From<&'a str>>::from ](s: &str) -> (text:
    std::string::String)
    ensures
        text@ == s@,
;

/// `From` of a type for itself, in std: the value is handed back as it is. This is
/// what turns an owned `String` into a `String`.
pub assume_specification<Whole>[ <Whole as std::convert::From<Whole>>::from ](whole: Whole) -> (same:
    Whole)
    ensures
        same == whole,
;

/// Whether `text` is what `source` turns into by its conversion to `String`.
pub open spec fn is_text_of<S: Into<String>>(source: S, text: String) -> bool {
    call_ensures(<S as Into<String>>::into, (source,), text)
}

/// A slice turns into the string of its characters.
pub proof fn law_text_of_slice(source: &str, text: String)
    requires
        is_text_of(source, text),
    ensures
        text@ == source@,
{
}

/// An owned string turns into itself.
pub proof fn law_text_of_owned(source: String, text: String)
    requires
        is_text_of(source, text),
    ensures
        text@ == source@,
{
}

} // verus!
