//! One `background` layer: assembling its image, position and size, repeat style, attachment,
//! boxes and color from the components written before the next comma, in any order.
//!
//! Images (`I`), positions (`P`), sizes (`Z`), repeat styles (`R`), colors (`C`) and their I01
//! projections (`K`) are carried through as they were parsed: assembling the layer never looks
//! inside them.
use vstd::prelude::*;

use crate::diagnostics::{custom_error_at, unsupported_value, CssParseError};
use crate::error::{expect_declaration_value, CssUnexpectedEndError, ErrorKind};
use crate::source::CssSourceLocation;
use crate::value_keywords::{CssBackgroundAttachment, CssBackgroundBox};

verus! {

/// One component of a layer, with what each component grammar made of it.
///
/// `image`, `position` and `repeat` are given when the component starts that kind of value (the
/// grammar then commits, and its failure fails the layer); `position` carries the size that a
/// following `/` introduces. `attachment`, `background_box` and `color` are given when the
/// component is one.
pub struct LocatedBackgroundComponent<I, P, Z, R, C, K> {
    pub image: Option<Result<I, CssParseError>>,
    pub position: Option<Result<(P, Option<Result<Z, CssParseError>>), CssParseError>>,
    pub repeat: Option<Result<R, CssParseError>>,
    pub attachment: Option<CssBackgroundAttachment>,
    pub background_box: Option<CssBackgroundBox>,
    pub color: Option<(C, Option<K>)>,
    pub start: CssSourceLocation,
}

/// The boxes a layer names: one box for both the origin and the clip, or the origin then the
/// clip.
#[derive(Clone, Copy, Debug, PartialEq, Eq)]
pub enum CssBackgroundLayerBoxes {
    One(CssBackgroundBox),
    OriginAndClip { origin: CssBackgroundBox, clip: CssBackgroundBox },
}

/// One background layer.
#[derive(Debug, PartialEq, Eq)]
pub struct CssBackgroundLayer<I, P, Z, R, C> {
    pub image: Option<I>,
    pub position: Option<P>,
    pub size: Option<Z>,
    pub repeat: Option<R>,
    pub attachment: Option<CssBackgroundAttachment>,
    pub boxes: Option<CssBackgroundLayerBoxes>,
    pub color: Option<C>,
}

/// The state of reading a layer's components in order: what was read so far, or the failure.
pub struct BackgroundScan<I, P, Z, R, C, K> {
    pub image: Option<I>,
    pub position: Option<P>,
    pub size: Option<Z>,
    pub repeat: Option<R>,
    pub attachment: Option<CssBackgroundAttachment>,
    pub boxes: Seq<CssBackgroundBox>,
    pub color: Option<C>,
    pub color_projection: Option<K>,
    pub color_location: Option<CssSourceLocation>,
    pub failed: Option<CssParseError>,
}

/// The state before any component is read.
pub open spec fn background_scan_start<I, P, Z, R, C, K>() -> BackgroundScan<I, P, Z, R, C, K> {
    BackgroundScan {
        image: None,
        position: None,
        size: None,
        repeat: None,
        attachment: None,
        boxes: Seq::empty(),
        color: None,
        color_projection: None,
        color_location: None,
        failed: None,
    }
}

/// The diagnostic for a layer rejected at `location`.
pub open spec fn background_error(location: CssSourceLocation) -> CssParseError {
    custom_error_at(
        location,
        ErrorKind::UnexpectedEnd(CssUnexpectedEndError::new(expect_declaration_value())),
    )
}

/// The state after reading the component `c` in the state `st`.
///
/// The first of these that applies takes the component: an image while none was read, a
/// position (with the size after `/`) while none was read, a repeat style while none was read,
/// an attachment while none was read, a box while fewer than two were read, a color while none
/// was read. A component none of them takes fails the layer where it starts.
pub open spec fn background_step<I, P, Z, R, C, K>(
    st: BackgroundScan<I, P, Z, R, C, K>,
    c: LocatedBackgroundComponent<I, P, Z, R, C, K>,
) -> BackgroundScan<I, P, Z, R, C, K> {
    if st.failed is Some {
        st
    } else if st.image is None && c.image is Some {
        match c.image->Some_0 {
            Ok(image) => BackgroundScan { image: Some(image), ..st },
            Err(e) => BackgroundScan { failed: Some(e), ..st },
        }
    } else if st.position is None && c.position is Some {
        match c.position->Some_0 {
            Ok((position, size)) => match size {
                None => BackgroundScan { position: Some(position), ..st },
                Some(Ok(size)) => BackgroundScan { position: Some(position), size: Some(size), ..st },
                Some(Err(e)) => BackgroundScan { failed: Some(e), ..st },
            },
            Err(e) => BackgroundScan { failed: Some(e), ..st },
        }
    } else if st.repeat is None && c.repeat is Some {
        match c.repeat->Some_0 {
            Ok(repeat) => BackgroundScan { repeat: Some(repeat), ..st },
            Err(e) => BackgroundScan { failed: Some(e), ..st },
        }
    } else if st.attachment is None && c.attachment is Some {
        BackgroundScan { attachment: c.attachment, ..st }
    } else if st.boxes.len() < 2 && c.background_box is Some {
        BackgroundScan { boxes: st.boxes.push(c.background_box->Some_0), ..st }
    } else if st.color is None && c.color is Some {
        BackgroundScan {
            color: Some(c.color->Some_0.0),
            color_projection: c.color->Some_0.1,
            color_location: Some(c.start),
            ..st
        }
    } else {
        BackgroundScan { failed: Some(background_error(c.start)), ..st }
    }
}

/// The state after reading every component of `s` in order.
pub open spec fn background_scan<I, P, Z, R, C, K>(
    s: Seq<LocatedBackgroundComponent<I, P, Z, R, C, K>>,
) -> BackgroundScan<I, P, Z, R, C, K>
    decreases s.len(),
{
    if s.len() == 0 {
        background_scan_start()
    } else {
        background_step(background_scan(s.drop_last()), s.last())
    }
}

/// The boxes of a finished scan.
pub open spec fn boxes_of(boxes: Seq<CssBackgroundBox>) -> Option<CssBackgroundLayerBoxes> {
    if boxes.len() == 1 {
        Some(CssBackgroundLayerBoxes::One(boxes[0]))
    } else if boxes.len() == 2 {
        Some(CssBackgroundLayerBoxes::OriginAndClip { origin: boxes[0], clip: boxes[1] })
    } else {
        None
    }
}

/// The layer a finished scan gives, with the color's I01 projection and where the color stands;
/// a layer with nothing in it fails at `end`.
pub open spec fn background_layer_of<I, P, Z, R, C, K>(
    scan: BackgroundScan<I, P, Z, R, C, K>,
    end: CssSourceLocation,
) -> Result<(CssBackgroundLayer<I, P, Z, R, C>, Option<K>, Option<CssSourceLocation>), CssParseError> {
    match scan.failed {
        Some(e) => Err(e),
        None => if scan.image is None && scan.position is None && scan.repeat is None
            && scan.attachment is None && scan.boxes.len() == 0 && scan.color is None {
            Err(background_error(end))
        } else {
            Ok(
                (
                    CssBackgroundLayer {
                        image: scan.image,
                        position: scan.position,
                        size: scan.size,
                        repeat: scan.repeat,
                        attachment: scan.attachment,
                        boxes: boxes_of(scan.boxes),
                        color: scan.color,
                    },
                    scan.color_projection,
                    scan.color_location,
                ),
            )
        },
    }
}

proof fn lemma_background_scan_step<I, P, Z, R, C, K>(
    s: Seq<LocatedBackgroundComponent<I, P, Z, R, C, K>>,
    i: int,
)
    requires
        0 <= i < s.len(),
    ensures
        background_scan(s.take(i + 1)) == background_step(background_scan(s.take(i)), s[i]),
{
    assert(s.take(i + 1).drop_last() =~= s.take(i));
}

proof fn lemma_background_scan_stays_failed<I, P, Z, R, C, K>(
    s: Seq<LocatedBackgroundComponent<I, P, Z, R, C, K>>,
    i: int,
)
    requires
        0 <= i <= s.len(),
        background_scan(s.take(i)).failed is Some,
    ensures
        background_scan(s).failed == background_scan(s.take(i)).failed,
    decreases s.len() - i,
{
    if i < s.len() {
        lemma_background_scan_step(s, i);
        lemma_background_scan_stays_failed(s, i + 1);
    } else {
        assert(s.take(i) =~= s);
    }
}

/// Assembles one background layer from its components, in the order they were written; `end` is
/// where the layer ends (the next comma or the end of the value).
pub fn build_background_layer<I, P, Z, R, C, K>(
    components: Vec<LocatedBackgroundComponent<I, P, Z, R, C, K>>,
    end: CssSourceLocation,
) -> (r: Result<(CssBackgroundLayer<I, P, Z, R, C>, Option<K>, Option<CssSourceLocation>), CssParseError>)
    ensures
        r == background_layer_of(background_scan(components@), end),
{
    let ghost s = components@;
    let ghost n = s.len();
    let count: usize = components.len();
    assert(n == count);
    let mut rest = components;
    let mut image: Option<I> = None;
    let mut position: Option<P> = None;
    let mut size: Option<Z> = None;
    let mut repeat: Option<R> = None;
    let mut attachment: Option<CssBackgroundAttachment> = None;
    let mut boxes: Vec<CssBackgroundBox> = Vec::new();
    let mut color: Option<C> = None;
    let mut color_projection: Option<K> = None;
    let mut color_location: Option<CssSourceLocation> = None;
    let mut i: usize = 0;
    while rest.len() > 0
        invariant
            n == s.len(),
            s == components@,
            n <= usize::MAX,
            boxes@.len() <= 2,
            0 <= i <= n,
            rest@ == s.subrange(i as int, n as int),
            background_scan(s.take(i as int)) == (BackgroundScan::<I, P, Z, R, C, K> {
                image,
                position,
                size,
                repeat,
                attachment,
                boxes: boxes@,
                color,
                color_projection,
                color_location,
                failed: None,
            }),
        decreases rest.len(),
    {
        let c = rest.remove(0);
        proof {
            assert(c == s[i as int]);
            lemma_background_scan_step(s, i as int);
        }
        if image.is_none() && c.image.is_some() {
            match c.image {
                Some(Ok(value)) => {
                    image = Some(value);
                },
                Some(Err(e)) => {
                    proof {
                        lemma_background_scan_stays_failed(s, i as int + 1);
                    }
                    return Err(e);
                },
                None => {},
            }
        } else if position.is_none() && c.position.is_some() {
            match c.position {
                Some(Ok((value, after))) => match after {
                    None => {
                        position = Some(value);
                    },
                    Some(Ok(z)) => {
                        position = Some(value);
                        size = Some(z);
                    },
                    Some(Err(e)) => {
                        proof {
                            lemma_background_scan_stays_failed(s, i as int + 1);
                        }
                        return Err(e);
                    },
                },
                Some(Err(e)) => {
                    proof {
                        lemma_background_scan_stays_failed(s, i as int + 1);
                    }
                    return Err(e);
                },
                None => {},
            }
        } else if repeat.is_none() && c.repeat.is_some() {
            match c.repeat {
                Some(Ok(value)) => {
                    repeat = Some(value);
                },
                Some(Err(e)) => {
                    proof {
                        lemma_background_scan_stays_failed(s, i as int + 1);
                    }
                    return Err(e);
                },
                None => {},
            }
        } else if attachment.is_none() && c.attachment.is_some() {
            attachment = c.attachment;
        } else if boxes.len() < 2 && c.background_box.is_some() {
            match c.background_box {
                Some(value) => {
                    boxes.push(value);
                },
                None => {},
            }
        } else if color.is_none() && c.color.is_some() {
            match c.color {
                Some((value, projection)) => {
                    color = Some(value);
                    color_projection = projection;
                    color_location = Some(c.start);
                },
                None => {},
            }
        } else {
            proof {
                lemma_background_scan_stays_failed(s, i as int + 1);
            }
            return Err(
                unsupported_value(c.start, None, "unsupported or duplicate background layer component"),
            );
        }
        i = i + 1;
    }
    proof {
        assert(s.take(i as int) =~= s);
    }
    if image.is_none() && position.is_none() && repeat.is_none() && attachment.is_none()
        && boxes.len() == 0 && color.is_none() {
        return Err(unsupported_value(end, None, "background layer is empty"));
    }
    let layer_boxes = if boxes.len() == 1 {
        Some(CssBackgroundLayerBoxes::One(boxes[0]))
    } else if boxes.len() == 2 {
        Some(CssBackgroundLayerBoxes::OriginAndClip { origin: boxes[0], clip: boxes[1] })
    } else {
        None
    };
    Ok(
        (
            CssBackgroundLayer { image, position, size, repeat, attachment, boxes: layer_boxes, color },
            color_projection,
            color_location,
        ),
    )
}

} // verus!
