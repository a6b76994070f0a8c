//! The `list-style` shorthand: assembling its type, position and image from the components in
//! the order they were written.
//!
//! Strings (`S`), counter styles (`C`) and URLs (`U`) are carried through as they were parsed:
//! assembling the shorthand never looks inside them.
use vstd::prelude::*;

use crate::diagnostics::{custom_error_at, unsupported_value, CssParseError};
use crate::error::{expect_declaration_value, CssUnexpectedEndError, ErrorKind};
use crate::source::CssSourceLocation;
use crate::value_keywords::CssListStylePosition;

verus! {

/// A `list-style-type` value.
#[derive(Debug, PartialEq, Eq)]
pub enum CssListStyleType<S, C> {
    NoneKeyword,
    String(S),
    CounterStyle(C),
}

/// A `list-style-image` value.
#[derive(Debug, PartialEq, Eq)]
pub enum CssListStyleImage<U> {
    NoneKeyword,
    Url(U),
}

/// One component of the `list-style` shorthand. A bare `none` is kept apart: it may stand for the
/// type or for the image.
#[derive(Debug, PartialEq, Eq)]
pub enum ListStyleComponent<S, C, U> {
    NoneKeyword,
    Type(CssListStyleType<S, C>),
    Position(CssListStylePosition),
    Image(CssListStyleImage<U>),
}

/// A shorthand component with the source location just past it.
#[derive(Debug, PartialEq, Eq)]
pub struct LocatedListStyleComponent<S, C, U> {
    pub component: ListStyleComponent<S, C, U>,
    pub end: CssSourceLocation,
}

/// A `list-style` value: at least one of its type, position and image is given.
#[derive(Debug, PartialEq, Eq)]
pub struct CssListStyle<S, C, U> {
    style_type: Option<CssListStyleType<S, C>>,
    position: Option<CssListStylePosition>,
    image: Option<CssListStyleImage<U>>,
}

impl<S, C, U> CssListStyle<S, C, U> {
    /// The given type, if any.
    pub closed spec fn spec_style_type(self) -> Option<CssListStyleType<S, C>> {
        self.style_type
    }

    /// The given position, if any.
    pub closed spec fn spec_position(self) -> Option<CssListStylePosition> {
        self.position
    }

    /// The given image, if any.
    pub closed spec fn spec_image(self) -> Option<CssListStyleImage<U>> {
        self.image
    }

    /// The value of the given parts, unless none is given.
    pub fn try_new(
        style_type: Option<CssListStyleType<S, C>>,
        position: Option<CssListStylePosition>,
        image: Option<CssListStyleImage<U>>,
    ) -> (r: Option<Self>)
        ensures
            r is None <==> (style_type is None && position is None && image is None),
            r matches Some(v) ==> v.spec_style_type() == style_type && v.spec_position()
                == position && v.spec_image() == image,
    {
        if style_type.is_none() && position.is_none() && image.is_none() {
            None
        } else {
            Some(CssListStyle { style_type, position, image })
        }
    }

    /// The given type, if any.
    pub fn style_type(&self) -> (r: Option<&CssListStyleType<S, C>>)
        ensures
            match self.spec_style_type() {
                Some(t) => r == Some(&t),
                None => r is None,
            },
    {
        self.style_type.as_ref()
    }

    /// The given position, if any.
    pub fn position(&self) -> (r: Option<CssListStylePosition>)
        ensures
            r == self.spec_position(),
    {
        self.position
    }

    /// The given image, if any.
    pub fn image(&self) -> (r: Option<&CssListStyleImage<U>>)
        ensures
            match self.spec_image() {
                Some(m) => r == Some(&m),
                None => r is None,
            },
    {
        self.image.as_ref()
    }
}

/// Which part a component gives: 0 for a bare `none`, 1 the type, 2 the position, 3 the image.
pub open spec fn list_style_part<S, C, U>(c: LocatedListStyleComponent<S, C, U>) -> int {
    match c.component {
        ListStyleComponent::NoneKeyword => 0,
        ListStyleComponent::Type(_) => 1,
        ListStyleComponent::Position(_) => 2,
        ListStyleComponent::Image(_) => 3,
    }
}

/// Whether a component before `s[j]` gives the same part.
pub open spec fn repeats_earlier_part<S, C, U>(
    s: Seq<LocatedListStyleComponent<S, C, U>>,
    j: int,
) -> bool {
    exists|k: int| 0 <= k < j && list_style_part(#[trigger] s[k]) == list_style_part(s[j])
}

/// Whether `s[j]` is the first component that gives a part already given.
pub open spec fn is_first_repeated_part<S, C, U>(
    s: Seq<LocatedListStyleComponent<S, C, U>>,
    j: int,
) -> bool {
    &&& 0 <= j < s.len()
    &&& repeats_earlier_part(s, j)
    &&& forall|k: int| 0 <= k < j ==> !#[trigger] repeats_earlier_part(s, k)
}

/// Whether no component gives a part already given.
pub open spec fn parts_distinct<S, C, U>(s: Seq<LocatedListStyleComponent<S, C, U>>) -> bool {
    forall|j: int| 0 <= j < s.len() ==> !#[trigger] repeats_earlier_part(s, j)
}

/// Whether some component gives the part `p`.
pub open spec fn gives_part<S, C, U>(s: Seq<LocatedListStyleComponent<S, C, U>>, p: int) -> bool {
    exists|k: int| 0 <= k < s.len() && list_style_part(#[trigger] s[k]) == p
}

/// The diagnostic for a `list-style` value rejected at `location`.
pub open spec fn list_style_error(location: CssSourceLocation) -> CssParseError {
    custom_error_at(
        location,
        ErrorKind::UnexpectedEnd(CssUnexpectedEndError::new(expect_declaration_value())),
    )
}

/// Assembles the `list-style` value of the components, in the order they were written.
///
/// A component that gives a part already given fails the value just past it. After the last
/// component, a bare `none` gives the type and the image that no other component gave; it fails
/// the value at `end` when both were given. With no component the value fails at `end` as empty.
pub fn build_list_style<S, C, U>(
    components: Vec<LocatedListStyleComponent<S, C, U>>,
    end: CssSourceLocation,
) -> (r: Result<CssListStyle<S, C, U>, CssParseError>)
    ensures
        forall|j: int| #[trigger] is_first_repeated_part(components@, j) ==> r == Err::<
            CssListStyle<S, C, U>,
            CssParseError,
        >(list_style_error(components@[j].end)),
        r is Ok <==> components@.len() > 0 && parts_distinct(components@) && !(gives_part(
            components@,
            0,
        ) && gives_part(components@, 1) && gives_part(components@, 3)),
        parts_distinct(components@) && !(r is Ok) ==> r == Err::<CssListStyle<S, C, U>, CssParseError>(
            list_style_error(end),
        ),
        r matches Ok(v) ==> {
            &&& forall|k: int| 0 <= k < components@.len() ==> ((#[trigger] components@[k]).component
                matches ListStyleComponent::Type(t) ==> v.spec_style_type() == Some(t))
            &&& forall|k: int| 0 <= k < components@.len() ==> ((#[trigger] components@[k]).component
                matches ListStyleComponent::Position(p) ==> v.spec_position() == Some(p))
            &&& forall|k: int| 0 <= k < components@.len() ==> ((#[trigger] components@[k]).component
                matches ListStyleComponent::Image(m) ==> v.spec_image() == Some(m))
            &&& !gives_part(components@, 1) ==> v.spec_style_type() == if gives_part(
                components@,
                0,
            ) {
                Some(CssListStyleType::<S, C>::NoneKeyword)
            } else {
                None
            }
            &&& !gives_part(components@, 2) ==> v.spec_position() is None
            &&& !gives_part(components@, 3) ==> v.spec_image() == if gives_part(components@, 0) {
                Some(CssListStyleImage::<U>::NoneKeyword)
            } else {
                None
            }
        },
{
    let ghost s = components@;
    let ghost n = s.len();
    let count: usize = components.len();
    assert(n == count);
    let mut rest = components;
    let mut has_none = false;
    let mut style_type: Option<CssListStyleType<S, C>> = None;
    let mut position: Option<CssListStylePosition> = None;
    let mut image: Option<CssListStyleImage<U>> = None;
    let mut i: usize = 0;
    while rest.len() > 0
        invariant
            s == components@,
            n == s.len(),
            n <= usize::MAX,
            0 <= i <= n,
            rest@ == s.subrange(i as int, n as int),
            forall|k: int| 0 <= k < i ==> !#[trigger] repeats_earlier_part(s, k),
            has_none <==> exists|k: int| 0 <= k < i && list_style_part(#[trigger] s[k]) == 0,
            style_type is Some <==> exists|k: int| 0 <= k < i && list_style_part(#[trigger] s[k]) == 1,
            position is Some <==> exists|k: int| 0 <= k < i && list_style_part(#[trigger] s[k]) == 2,
            image is Some <==> exists|k: int| 0 <= k < i && list_style_part(#[trigger] s[k]) == 3,
            forall|k: int| 0 <= k < i ==> ((#[trigger] s[k]).component matches ListStyleComponent::Type(
                t,
            ) ==> style_type == Some(t)),
            forall|k: int| 0 <= k < i ==> ((#[trigger] s[k]).component
                matches ListStyleComponent::Position(p) ==> position == Some(p)),
            forall|k: int| 0 <= k < i ==> ((#[trigger] s[k]).component matches ListStyleComponent::Image(
                m,
            ) ==> image == Some(m)),
        decreases rest.len(),
    {
        let located = rest.remove(0);
        let ghost j = i as int;
        proof {
            assert(located == s[j]);
        }
        let repeated = match &located.component {
            ListStyleComponent::NoneKeyword => has_none,
            ListStyleComponent::Type(_) => style_type.is_some(),
            ListStyleComponent::Position(_) => position.is_some(),
            ListStyleComponent::Image(_) => image.is_some(),
        };
        if repeated {
            proof {
                assert(repeats_earlier_part(s, j));
                assert forall|m: int| #[trigger] is_first_repeated_part(s, m) implies m == j by {
                    if m > j {
                        assert(!repeats_earlier_part(s, j));
                    }
                }
            }
            return Err(unsupported_value(located.end, None, "list-style has a duplicate component"));
        }
        proof {
            assert(!repeats_earlier_part(s, j));
        }
        match located.component {
            ListStyleComponent::NoneKeyword => {
                has_none = true;
            },
            ListStyleComponent::Type(value) => {
                style_type = Some(value);
            },
            ListStyleComponent::Position(value) => {
                position = Some(value);
            },
            ListStyleComponent::Image(value) => {
                image = Some(value);
            },
        }
        i = i + 1;
    }
    proof {
        assert(s.subrange(i as int, n as int).len() == 0);
        assert(i == n);
        assert(parts_distinct(s));
        if n > 0 {
            let p = list_style_part(s[0]);
            assert(gives_part(s, p));
        }
        assert forall|m: int| #[trigger] is_first_repeated_part(s, m) implies false by {}
        assert(has_none == gives_part(s, 0));
        assert(style_type is Some == gives_part(s, 1));
        assert(position is Some == gives_part(s, 2));
        assert(image is Some == gives_part(s, 3));
    }
    if has_none {
        if style_type.is_some() && image.is_some() {
            return Err(
                unsupported_value(end, None, "`none` duplicates a list-style type or image component"),
            );
        }
        if style_type.is_none() {
            style_type = Some(CssListStyleType::NoneKeyword);
        }
        if image.is_none() {
            image = Some(CssListStyleImage::NoneKeyword);
        }
    }
    match CssListStyle::try_new(style_type, position, image) {
        Some(value) => Ok(value),
        None => Err(unsupported_value(end, None, "list-style shorthand is empty")),
    }
}

} // verus!
