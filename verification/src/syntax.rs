//! Authored syntax names retained by diagnostics.
use vstd::prelude::*;

verus! {

/// Whether `name` spells a custom property: two leading dashes followed by at least one more
/// character (`--` alone is reserved).
pub open spec fn is_custom_property_spelling(name: Seq<char>) -> bool {
    name.len() > 2 && name[0] == '-' && name[1] == '-'
}

/// A case-sensitive authored custom property name such as `--theme`.
#[derive(Clone, Debug, PartialEq, Eq, Hash)]
pub struct CssCustomPropertyName(String);

impl View for CssCustomPropertyName {
    type V = Seq<char>;

    closed spec fn view(&self) -> Seq<char> {
        self.0@
    }
}

impl CssCustomPropertyName {
    /// Creates the name when `value` spells a custom property, and `None` otherwise.
    pub fn try_new(value: &str) -> (name: Option<Self>)
        ensures
            name.is_some() <==> is_custom_property_spelling(value@),
            name matches Some(n) ==> n@ == value@,
    {
        let length = value.unicode_len();
        if length > 2 && value.get_char(0) == '-' && value.get_char(1) == '-' {
            Some(CssCustomPropertyName(value.to_owned()))
        } else {
            None
        }
    }

    /// Returns the authored spelling of the name.
    pub fn as_str(&self) -> (value: &str)
        ensures
            value@ == self@,
    {
        self.0.as_str()
    }

    /// Returns an equal copy of the name.
    pub(crate) fn duplicate(&self) -> (copy: Self)
        ensures
            copy == *self,
    {
        CssCustomPropertyName(self.0.clone())
    }
}

} // verus!
