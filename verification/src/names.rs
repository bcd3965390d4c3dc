//! Interned names.
//!
//! A name is a handle to a text in a process-wide cache: cheap to copy and
//! to compare for identity. Two crates provide such handles, and this
//! module says of each what the rest of the library relies on.

use estr::Estr;
use ustr::Ustr;
use vstd::prelude::*;

verus! {

/// `estr::Estr`, a handle whose inside the verifier does not see.
#[verifier::external_type_specification]
#[verifier::external_body]
pub struct ExEstr(Estr);

/// `ustr::Ustr`, a handle whose inside the verifier does not see.
#[verifier::external_type_specification]
#[verifier::external_body]
pub struct ExUstr(Ustr);

/// The text that an `Estr` handle stands for.
pub uninterp spec fn estr_text(name: Estr) -> Seq<char>;

/// The text that a `Ustr` handle stands for.
pub uninterp spec fn ustr_text(name: Ustr) -> Seq<char>;

/// `Estr::from` interns a text: the handle that comes back stands for the
/// text that went in.
pub assume_specification[ Estr::from ](string: &str) -> (name: Estr)
    ensures
        estr_text(name) == string@,
;

/// `Estr::as_str` hands out the text that the handle stands for.
pub assume_specification[ Estr::as_str ](name: &Estr) -> (string: &'static str)
    ensures
        string@ == estr_text(*name),
;

/// Two `Estr` handles are equal exactly where they stand for the same text:
/// the cache holds each text once, and equality compares the places.
pub assume_specification[ <Estr as PartialEq>::eq ](a: &Estr, b: &Estr) -> (same: bool)
    ensures
        same == (estr_text(*a) == estr_text(*b)),
;

/// `Ustr::from` interns a text: the handle that comes back stands for the
/// text that went in.
pub assume_specification[ Ustr::from ](string: &str) -> (name: Ustr)
    ensures
        ustr_text(name) == string@,
;

/// `Ustr::as_str` hands out the text that the handle stands for.
pub assume_specification[ Ustr::as_str ](name: &Ustr) -> (string: &'static str)
    ensures
        string@ == ustr_text(*name),
;

/// A handle to an interned text.
pub trait Name: Copy {
    /// The text that the handle stands for.
    spec fn text(&self) -> Seq<char>;

    /// The text of the handle.
    fn as_text(&self) -> (string: &str)
        ensures
            string@ == self.text(),
    ;
}

impl Name for Estr {
    open spec fn text(&self) -> Seq<char> {
        estr_text(*self)
    }

    fn as_text(&self) -> (string: &str) {
        self.as_str()
    }
}

impl Name for Ustr {
    open spec fn text(&self) -> Seq<char> {
        ustr_text(*self)
    }

    fn as_text(&self) -> (string: &str) {
        self.as_str()
    }
}

} // verus!
