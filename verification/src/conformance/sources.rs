//! The specification-source registry in stable declaration order.
use vstd::prelude::*;

use super::{source_follows_profile, CssSpecificationSource, CssSpecificationTier};

verus! {

/// CSS level 2.1 (`O-CSS2`), cited by URL.
#[verifier::allow_in_spec]
pub fn o_css2() -> CssSpecificationSource
    returns
        CssSpecificationSource::spec_from_url(
            "O-CSS2",
            "CSS",
            "2.1",
            CssSpecificationTier::Snapshot2026Official,
            "https://www.w3.org/TR/2011/REC-CSS2-20110607/",
        ),
{
    CssSpecificationSource::from_url(
        "O-CSS2",
        "CSS",
        "2.1",
        CssSpecificationTier::Snapshot2026Official,
        "https://www.w3.org/TR/2011/REC-CSS2-20110607/",
    )
}

/// CSS Syntax level 3 (`O-SYNTAX3`), cited by URL.
#[verifier::allow_in_spec]
pub fn o_syntax3() -> CssSpecificationSource
    returns
        CssSpecificationSource::spec_from_url(
            "O-SYNTAX3",
            "CSS Syntax",
            "3",
            CssSpecificationTier::Snapshot2026Official,
            "https://www.w3.org/TR/2021/CRD-css-syntax-3-20211224/",
        ),
{
    CssSpecificationSource::from_url(
        "O-SYNTAX3",
        "CSS Syntax",
        "3",
        CssSpecificationTier::Snapshot2026Official,
        "https://www.w3.org/TR/2021/CRD-css-syntax-3-20211224/",
    )
}

/// CSS Style Attributes level 1 (`O-STYLE-ATTR`), cited by URL.
#[verifier::allow_in_spec]
pub fn o_style_attr() -> CssSpecificationSource
    returns
        CssSpecificationSource::spec_from_url(
            "O-STYLE-ATTR",
            "CSS Style Attributes",
            "1",
            CssSpecificationTier::Snapshot2026Official,
            "https://www.w3.org/TR/2013/REC-css-style-attr-20131107/",
        ),
{
    CssSpecificationSource::from_url(
        "O-STYLE-ATTR",
        "CSS Style Attributes",
        "1",
        CssSpecificationTier::Snapshot2026Official,
        "https://www.w3.org/TR/2013/REC-css-style-attr-20131107/",
    )
}

/// Media Queries level 3 (`O-MEDIA3`), cited by URL.
#[verifier::allow_in_spec]
pub fn o_media3() -> CssSpecificationSource
    returns
        CssSpecificationSource::spec_from_url(
            "O-MEDIA3",
            "Media Queries",
            "3",
            CssSpecificationTier::Snapshot2026Official,
            "https://www.w3.org/TR/2024/REC-mediaqueries-3-20240521/",
        ),
{
    CssSpecificationSource::from_url(
        "O-MEDIA3",
        "Media Queries",
        "3",
        CssSpecificationTier::Snapshot2026Official,
        "https://www.w3.org/TR/2024/REC-mediaqueries-3-20240521/",
    )
}

/// CSS Conditional Rules level 3 (`O-CONDITIONAL3`), cited by URL.
#[verifier::allow_in_spec]
pub fn o_conditional3() -> CssSpecificationSource
    returns
        CssSpecificationSource::spec_from_url(
            "O-CONDITIONAL3",
            "CSS Conditional Rules",
            "3",
            CssSpecificationTier::Snapshot2026Official,
            "https://www.w3.org/TR/2024/CRD-css-conditional-3-20240815/",
        ),
{
    CssSpecificationSource::from_url(
        "O-CONDITIONAL3",
        "CSS Conditional Rules",
        "3",
        CssSpecificationTier::Snapshot2026Official,
        "https://www.w3.org/TR/2024/CRD-css-conditional-3-20240815/",
    )
}

/// Selectors level 3 (`O-SELECTORS3`), cited by URL.
#[verifier::allow_in_spec]
pub fn o_selectors3() -> CssSpecificationSource
    returns
        CssSpecificationSource::spec_from_url(
            "O-SELECTORS3",
            "Selectors",
            "3",
            CssSpecificationTier::Snapshot2026Official,
            "https://www.w3.org/TR/2018/REC-selectors-3-20181106/",
        ),
{
    CssSpecificationSource::from_url(
        "O-SELECTORS3",
        "Selectors",
        "3",
        CssSpecificationTier::Snapshot2026Official,
        "https://www.w3.org/TR/2018/REC-selectors-3-20181106/",
    )
}

/// CSS Namespaces level 3 (`O-NAMESPACES3`), cited by URL.
#[verifier::allow_in_spec]
pub fn o_namespaces3() -> CssSpecificationSource
    returns
        CssSpecificationSource::spec_from_url(
            "O-NAMESPACES3",
            "CSS Namespaces",
            "3",
            CssSpecificationTier::Snapshot2026Official,
            "https://www.w3.org/TR/2014/REC-css-namespaces-3-20140320/",
        ),
{
    CssSpecificationSource::from_url(
        "O-NAMESPACES3",
        "CSS Namespaces",
        "3",
        CssSpecificationTier::Snapshot2026Official,
        "https://www.w3.org/TR/2014/REC-css-namespaces-3-20140320/",
    )
}

/// CSS Cascading and Inheritance level 4 (`O-CASCADE4`), cited by URL.
#[verifier::allow_in_spec]
pub fn o_cascade4() -> CssSpecificationSource
    returns
        CssSpecificationSource::spec_from_url(
            "O-CASCADE4",
            "CSS Cascading and Inheritance",
            "4",
            CssSpecificationTier::Snapshot2026Official,
            "https://www.w3.org/TR/2022/CR-css-cascade-4-20220113/",
        ),
{
    CssSpecificationSource::from_url(
        "O-CASCADE4",
        "CSS Cascading and Inheritance",
        "4",
        CssSpecificationTier::Snapshot2026Official,
        "https://www.w3.org/TR/2022/CR-css-cascade-4-20220113/",
    )
}

/// CSS Values and Units level 3 (`O-VALUES3`), cited by URL.
#[verifier::allow_in_spec]
pub fn o_values3() -> CssSpecificationSource
    returns
        CssSpecificationSource::spec_from_url(
            "O-VALUES3",
            "CSS Values and Units",
            "3",
            CssSpecificationTier::Snapshot2026Official,
            "https://www.w3.org/TR/2024/CRD-css-values-3-20240322/",
        ),
{
    CssSpecificationSource::from_url(
        "O-VALUES3",
        "CSS Values and Units",
        "3",
        CssSpecificationTier::Snapshot2026Official,
        "https://www.w3.org/TR/2024/CRD-css-values-3-20240322/",
    )
}

/// CSS Custom Properties for Cascading Variables level 1 (`O-VARIABLES1`), cited by URL.
#[verifier::allow_in_spec]
pub fn o_variables1() -> CssSpecificationSource
    returns
        CssSpecificationSource::spec_from_url(
            "O-VARIABLES1",
            "CSS Custom Properties for Cascading Variables",
            "1",
            CssSpecificationTier::Snapshot2026Official,
            "https://www.w3.org/TR/2022/CR-css-variables-1-20220616/",
        ),
{
    CssSpecificationSource::from_url(
        "O-VARIABLES1",
        "CSS Custom Properties for Cascading Variables",
        "1",
        CssSpecificationTier::Snapshot2026Official,
        "https://www.w3.org/TR/2022/CR-css-variables-1-20220616/",
    )
}

/// CSS Box Model level 3 (`O-BOX3`), cited by URL.
#[verifier::allow_in_spec]
pub fn o_box3() -> CssSpecificationSource
    returns
        CssSpecificationSource::spec_from_url(
            "O-BOX3",
            "CSS Box Model",
            "3",
            CssSpecificationTier::Snapshot2026Official,
            "https://www.w3.org/TR/2024/REC-css-box-3-20240411/",
        ),
{
    CssSpecificationSource::from_url(
        "O-BOX3",
        "CSS Box Model",
        "3",
        CssSpecificationTier::Snapshot2026Official,
        "https://www.w3.org/TR/2024/REC-css-box-3-20240411/",
    )
}

/// CSS Color level 4 (`O-COLOR4`), cited by URL.
#[verifier::allow_in_spec]
pub fn o_color4() -> CssSpecificationSource
    returns
        CssSpecificationSource::spec_from_url(
            "O-COLOR4",
            "CSS Color",
            "4",
            CssSpecificationTier::Snapshot2026Official,
            "https://www.w3.org/TR/2026/CRD-css-color-4-20260326/",
        ),
{
    CssSpecificationSource::from_url(
        "O-COLOR4",
        "CSS Color",
        "4",
        CssSpecificationTier::Snapshot2026Official,
        "https://www.w3.org/TR/2026/CRD-css-color-4-20260326/",
    )
}

/// CSS Backgrounds and Borders level 3 (`O-BACKGROUNDS3`), cited by URL.
#[verifier::allow_in_spec]
pub fn o_backgrounds3() -> CssSpecificationSource
    returns
        CssSpecificationSource::spec_from_url(
            "O-BACKGROUNDS3",
            "CSS Backgrounds and Borders",
            "3",
            CssSpecificationTier::Snapshot2026Official,
            "https://www.w3.org/TR/2024/CRD-css-backgrounds-3-20240311/",
        ),
{
    CssSpecificationSource::from_url(
        "O-BACKGROUNDS3",
        "CSS Backgrounds and Borders",
        "3",
        CssSpecificationTier::Snapshot2026Official,
        "https://www.w3.org/TR/2024/CRD-css-backgrounds-3-20240311/",
    )
}

/// CSS Images level 3 (`O-IMAGES3`), cited by URL.
#[verifier::allow_in_spec]
pub fn o_images3() -> CssSpecificationSource
    returns
        CssSpecificationSource::spec_from_url(
            "O-IMAGES3",
            "CSS Images",
            "3",
            CssSpecificationTier::Snapshot2026Official,
            "https://www.w3.org/TR/2023/CRD-css-images-3-20231218/",
        ),
{
    CssSpecificationSource::from_url(
        "O-IMAGES3",
        "CSS Images",
        "3",
        CssSpecificationTier::Snapshot2026Official,
        "https://www.w3.org/TR/2023/CRD-css-images-3-20231218/",
    )
}

/// CSS Fonts level 3 (`O-FONTS3`), cited by URL.
#[verifier::allow_in_spec]
pub fn o_fonts3() -> CssSpecificationSource
    returns
        CssSpecificationSource::spec_from_url(
            "O-FONTS3",
            "CSS Fonts",
            "3",
            CssSpecificationTier::Snapshot2026Official,
            "https://www.w3.org/TR/2018/REC-css-fonts-3-20180920/",
        ),
{
    CssSpecificationSource::from_url(
        "O-FONTS3",
        "CSS Fonts",
        "3",
        CssSpecificationTier::Snapshot2026Official,
        "https://www.w3.org/TR/2018/REC-css-fonts-3-20180920/",
    )
}

/// CSS Writing Modes level 3 (`O-WRITING3`), cited by URL.
#[verifier::allow_in_spec]
pub fn o_writing3() -> CssSpecificationSource
    returns
        CssSpecificationSource::spec_from_url(
            "O-WRITING3",
            "CSS Writing Modes",
            "3",
            CssSpecificationTier::Snapshot2026Official,
            "https://www.w3.org/TR/2019/REC-css-writing-modes-3-20191210/",
        ),
{
    CssSpecificationSource::from_url(
        "O-WRITING3",
        "CSS Writing Modes",
        "3",
        CssSpecificationTier::Snapshot2026Official,
        "https://www.w3.org/TR/2019/REC-css-writing-modes-3-20191210/",
    )
}

/// CSS Multi-column Layout level 1 (`O-MULTICOL1`), cited by URL.
#[verifier::allow_in_spec]
pub fn o_multicol1() -> CssSpecificationSource
    returns
        CssSpecificationSource::spec_from_url(
            "O-MULTICOL1",
            "CSS Multi-column Layout",
            "1",
            CssSpecificationTier::Snapshot2026Official,
            "https://www.w3.org/TR/2024/CR-css-multicol-1-20240516/",
        ),
{
    CssSpecificationSource::from_url(
        "O-MULTICOL1",
        "CSS Multi-column Layout",
        "1",
        CssSpecificationTier::Snapshot2026Official,
        "https://www.w3.org/TR/2024/CR-css-multicol-1-20240516/",
    )
}

/// CSS Flexible Box Layout level 1 (`O-FLEXBOX1`), cited by URL.
#[verifier::allow_in_spec]
pub fn o_flexbox1() -> CssSpecificationSource
    returns
        CssSpecificationSource::spec_from_url(
            "O-FLEXBOX1",
            "CSS Flexible Box Layout",
            "1",
            CssSpecificationTier::Snapshot2026Official,
            "https://www.w3.org/TR/2025/CRD-css-flexbox-1-20251014/",
        ),
{
    CssSpecificationSource::from_url(
        "O-FLEXBOX1",
        "CSS Flexible Box Layout",
        "1",
        CssSpecificationTier::Snapshot2026Official,
        "https://www.w3.org/TR/2025/CRD-css-flexbox-1-20251014/",
    )
}

/// CSS Basic User Interface level 3 (`O-UI3`), cited by URL.
#[verifier::allow_in_spec]
pub fn o_ui3() -> CssSpecificationSource
    returns
        CssSpecificationSource::spec_from_url(
            "O-UI3",
            "CSS Basic User Interface",
            "3",
            CssSpecificationTier::Snapshot2026Official,
            "https://www.w3.org/TR/2018/REC-css-ui-3-20180621/",
        ),
{
    CssSpecificationSource::from_url(
        "O-UI3",
        "CSS Basic User Interface",
        "3",
        CssSpecificationTier::Snapshot2026Official,
        "https://www.w3.org/TR/2018/REC-css-ui-3-20180621/",
    )
}

/// CSS Containment level 1 (`O-CONTAIN1`), cited by URL.
#[verifier::allow_in_spec]
pub fn o_contain1() -> CssSpecificationSource
    returns
        CssSpecificationSource::spec_from_url(
            "O-CONTAIN1",
            "CSS Containment",
            "1",
            CssSpecificationTier::Snapshot2026Official,
            "https://www.w3.org/TR/2024/REC-css-contain-1-20240625/",
        ),
{
    CssSpecificationSource::from_url(
        "O-CONTAIN1",
        "CSS Containment",
        "1",
        CssSpecificationTier::Snapshot2026Official,
        "https://www.w3.org/TR/2024/REC-css-contain-1-20240625/",
    )
}

/// CSS Transforms level 1 (`O-TRANSFORMS1`), cited by URL.
#[verifier::allow_in_spec]
pub fn o_transforms1() -> CssSpecificationSource
    returns
        CssSpecificationSource::spec_from_url(
            "O-TRANSFORMS1",
            "CSS Transforms",
            "1",
            CssSpecificationTier::Snapshot2026Official,
            "https://www.w3.org/TR/2019/CR-css-transforms-1-20190214/",
        ),
{
    CssSpecificationSource::from_url(
        "O-TRANSFORMS1",
        "CSS Transforms",
        "1",
        CssSpecificationTier::Snapshot2026Official,
        "https://www.w3.org/TR/2019/CR-css-transforms-1-20190214/",
    )
}

/// Compositing and Blending level 1 (`O-COMPOSITING1`), cited by URL.
#[verifier::allow_in_spec]
pub fn o_compositing1() -> CssSpecificationSource
    returns
        CssSpecificationSource::spec_from_url(
            "O-COMPOSITING1",
            "Compositing and Blending",
            "1",
            CssSpecificationTier::Snapshot2026Official,
            "https://www.w3.org/TR/2024/CRD-compositing-1-20240321/",
        ),
{
    CssSpecificationSource::from_url(
        "O-COMPOSITING1",
        "Compositing and Blending",
        "1",
        CssSpecificationTier::Snapshot2026Official,
        "https://www.w3.org/TR/2024/CRD-compositing-1-20240321/",
    )
}

/// CSS Easing Functions level 1 (`O-EASING1`), cited by URL.
#[verifier::allow_in_spec]
pub fn o_easing1() -> CssSpecificationSource
    returns
        CssSpecificationSource::spec_from_url(
            "O-EASING1",
            "CSS Easing Functions",
            "1",
            CssSpecificationTier::Snapshot2026Official,
            "https://www.w3.org/TR/2023/CRD-css-easing-1-20230213/",
        ),
{
    CssSpecificationSource::from_url(
        "O-EASING1",
        "CSS Easing Functions",
        "1",
        CssSpecificationTier::Snapshot2026Official,
        "https://www.w3.org/TR/2023/CRD-css-easing-1-20230213/",
    )
}

/// CSS Counter Styles level 3 (`O-COUNTERSTYLES3`), cited by URL.
#[verifier::allow_in_spec]
pub fn o_counterstyles3() -> CssSpecificationSource
    returns
        CssSpecificationSource::spec_from_url(
            "O-COUNTERSTYLES3",
            "CSS Counter Styles",
            "3",
            CssSpecificationTier::Snapshot2026Official,
            "https://www.w3.org/TR/2021/CR-css-counter-styles-3-20210727/",
        ),
{
    CssSpecificationSource::from_url(
        "O-COUNTERSTYLES3",
        "CSS Counter Styles",
        "3",
        CssSpecificationTier::Snapshot2026Official,
        "https://www.w3.org/TR/2021/CR-css-counter-styles-3-20210727/",
    )
}

/// Media Queries level 4 (`R-MEDIA4`), cited by URL.
#[verifier::allow_in_spec]
pub fn r_media4() -> CssSpecificationSource
    returns
        CssSpecificationSource::spec_from_url(
            "R-MEDIA4",
            "Media Queries",
            "4",
            CssSpecificationTier::Snapshot2026Reliable,
            "https://www.w3.org/TR/2026/CRD-mediaqueries-4-20260219/",
        ),
{
    CssSpecificationSource::from_url(
        "R-MEDIA4",
        "Media Queries",
        "4",
        CssSpecificationTier::Snapshot2026Reliable,
        "https://www.w3.org/TR/2026/CRD-mediaqueries-4-20260219/",
    )
}

/// CSS Scrollbars Styling level 1 (`R-SCROLLBARS1`), cited by URL.
#[verifier::allow_in_spec]
pub fn r_scrollbars1() -> CssSpecificationSource
    returns
        CssSpecificationSource::spec_from_url(
            "R-SCROLLBARS1",
            "CSS Scrollbars Styling",
            "1",
            CssSpecificationTier::Snapshot2026Reliable,
            "https://www.w3.org/TR/2021/CR-css-scrollbars-1-20211209/",
        ),
{
    CssSpecificationSource::from_url(
        "R-SCROLLBARS1",
        "CSS Scrollbars Styling",
        "1",
        CssSpecificationTier::Snapshot2026Reliable,
        "https://www.w3.org/TR/2021/CR-css-scrollbars-1-20211209/",
    )
}

/// CSS Grid Layout level 1 (`R-GRID1`), cited by URL.
#[verifier::allow_in_spec]
pub fn r_grid1() -> CssSpecificationSource
    returns
        CssSpecificationSource::spec_from_url(
            "R-GRID1",
            "CSS Grid Layout",
            "1",
            CssSpecificationTier::Snapshot2026Reliable,
            "https://www.w3.org/TR/2025/CRD-css-grid-1-20250326/",
        ),
{
    CssSpecificationSource::from_url(
        "R-GRID1",
        "CSS Grid Layout",
        "1",
        CssSpecificationTier::Snapshot2026Reliable,
        "https://www.w3.org/TR/2025/CRD-css-grid-1-20250326/",
    )
}

/// CSS Grid Layout level 2 (`R-GRID2`), cited by URL.
#[verifier::allow_in_spec]
pub fn r_grid2() -> CssSpecificationSource
    returns
        CssSpecificationSource::spec_from_url(
            "R-GRID2",
            "CSS Grid Layout",
            "2",
            CssSpecificationTier::Snapshot2026Reliable,
            "https://www.w3.org/TR/2025/CRD-css-grid-2-20250326/",
        ),
{
    CssSpecificationSource::from_url(
        "R-GRID2",
        "CSS Grid Layout",
        "2",
        CssSpecificationTier::Snapshot2026Reliable,
        "https://www.w3.org/TR/2025/CRD-css-grid-2-20250326/",
    )
}

/// CSS Cascading and Inheritance level 5 (`R-CASCADE5`), cited by URL.
#[verifier::allow_in_spec]
pub fn r_cascade5() -> CssSpecificationSource
    returns
        CssSpecificationSource::spec_from_url(
            "R-CASCADE5",
            "CSS Cascading and Inheritance",
            "5",
            CssSpecificationTier::Snapshot2026Reliable,
            "https://www.w3.org/TR/2022/CR-css-cascade-5-20220113/",
        ),
{
    CssSpecificationSource::from_url(
        "R-CASCADE5",
        "CSS Cascading and Inheritance",
        "5",
        CssSpecificationTier::Snapshot2026Reliable,
        "https://www.w3.org/TR/2022/CR-css-cascade-5-20220113/",
    )
}

/// CSS Conditional Rules level 4 (`R-CONDITIONAL4`), cited by URL.
#[verifier::allow_in_spec]
pub fn r_conditional4() -> CssSpecificationSource
    returns
        CssSpecificationSource::spec_from_url(
            "R-CONDITIONAL4",
            "CSS Conditional Rules",
            "4",
            CssSpecificationTier::Snapshot2026Reliable,
            "https://www.w3.org/TR/2025/CRD-css-conditional-4-20250904/",
        ),
{
    CssSpecificationSource::from_url(
        "R-CONDITIONAL4",
        "CSS Conditional Rules",
        "4",
        CssSpecificationTier::Snapshot2026Reliable,
        "https://www.w3.org/TR/2025/CRD-css-conditional-4-20250904/",
    )
}

/// CSS Display level 3 (`S-DISPLAY3`), cited by URL.
#[verifier::allow_in_spec]
pub fn s_display3() -> CssSpecificationSource
    returns
        CssSpecificationSource::spec_from_url(
            "S-DISPLAY3",
            "CSS Display",
            "3",
            CssSpecificationTier::Snapshot2026Stable,
            "https://www.w3.org/TR/2026/CRD-css-display-3-20260605/",
        ),
{
    CssSpecificationSource::from_url(
        "S-DISPLAY3",
        "CSS Display",
        "3",
        CssSpecificationTier::Snapshot2026Stable,
        "https://www.w3.org/TR/2026/CRD-css-display-3-20260605/",
    )
}

/// CSS Writing Modes level 4 (`S-WRITING4`), cited by URL.
#[verifier::allow_in_spec]
pub fn s_writing4() -> CssSpecificationSource
    returns
        CssSpecificationSource::spec_from_url(
            "S-WRITING4",
            "CSS Writing Modes",
            "4",
            CssSpecificationTier::Snapshot2026Stable,
            "https://www.w3.org/TR/2019/CR-css-writing-modes-4-20190730/",
        ),
{
    CssSpecificationSource::from_url(
        "S-WRITING4",
        "CSS Writing Modes",
        "4",
        CssSpecificationTier::Snapshot2026Stable,
        "https://www.w3.org/TR/2019/CR-css-writing-modes-4-20190730/",
    )
}

/// CSS Fragmentation level 3 (`S-BREAK3`), cited by URL.
#[verifier::allow_in_spec]
pub fn s_break3() -> CssSpecificationSource
    returns
        CssSpecificationSource::spec_from_url(
            "S-BREAK3",
            "CSS Fragmentation",
            "3",
            CssSpecificationTier::Snapshot2026Stable,
            "https://www.w3.org/TR/2018/CR-css-break-3-20181204/",
        ),
{
    CssSpecificationSource::from_url(
        "S-BREAK3",
        "CSS Fragmentation",
        "3",
        CssSpecificationTier::Snapshot2026Stable,
        "https://www.w3.org/TR/2018/CR-css-break-3-20181204/",
    )
}

/// CSS Box Alignment level 3 (`S-ALIGN3`), cited by URL.
#[verifier::allow_in_spec]
pub fn s_align3() -> CssSpecificationSource
    returns
        CssSpecificationSource::spec_from_url(
            "S-ALIGN3",
            "CSS Box Alignment",
            "3",
            CssSpecificationTier::Snapshot2026Stable,
            "https://www.w3.org/TR/2026/WD-css-align-3-20260130/",
        ),
{
    CssSpecificationSource::from_url(
        "S-ALIGN3",
        "CSS Box Alignment",
        "3",
        CssSpecificationTier::Snapshot2026Stable,
        "https://www.w3.org/TR/2026/WD-css-align-3-20260130/",
    )
}

/// CSS Shapes level 1 (`S-SHAPES1`), cited by URL.
#[verifier::allow_in_spec]
pub fn s_shapes1() -> CssSpecificationSource
    returns
        CssSpecificationSource::spec_from_url(
            "S-SHAPES1",
            "CSS Shapes",
            "1",
            CssSpecificationTier::Snapshot2026Stable,
            "https://www.w3.org/TR/2025/CRD-css-shapes-1-20250612/",
        ),
{
    CssSpecificationSource::from_url(
        "S-SHAPES1",
        "CSS Shapes",
        "1",
        CssSpecificationTier::Snapshot2026Stable,
        "https://www.w3.org/TR/2025/CRD-css-shapes-1-20250612/",
    )
}

/// CSS Text level 3 (`S-TEXT3`), cited by URL.
#[verifier::allow_in_spec]
pub fn s_text3() -> CssSpecificationSource
    returns
        CssSpecificationSource::spec_from_url(
            "S-TEXT3",
            "CSS Text",
            "3",
            CssSpecificationTier::Snapshot2026Stable,
            "https://www.w3.org/TR/2026/CRD-css-text-3-20260608/",
        ),
{
    CssSpecificationSource::from_url(
        "S-TEXT3",
        "CSS Text",
        "3",
        CssSpecificationTier::Snapshot2026Stable,
        "https://www.w3.org/TR/2026/CRD-css-text-3-20260608/",
    )
}

/// CSS Text Decoration level 3 (`S-TEXTDECOR3`), cited by URL.
#[verifier::allow_in_spec]
pub fn s_textdecor3() -> CssSpecificationSource
    returns
        CssSpecificationSource::spec_from_url(
            "S-TEXTDECOR3",
            "CSS Text Decoration",
            "3",
            CssSpecificationTier::Snapshot2026Stable,
            "https://www.w3.org/TR/2022/CRD-css-text-decor-3-20220505/",
        ),
{
    CssSpecificationSource::from_url(
        "S-TEXTDECOR3",
        "CSS Text Decoration",
        "3",
        CssSpecificationTier::Snapshot2026Stable,
        "https://www.w3.org/TR/2022/CRD-css-text-decor-3-20220505/",
    )
}

/// CSS Masking level 1 (`S-MASKING1`), cited by URL.
#[verifier::allow_in_spec]
pub fn s_masking1() -> CssSpecificationSource
    returns
        CssSpecificationSource::spec_from_url(
            "S-MASKING1",
            "CSS Masking",
            "1",
            CssSpecificationTier::Snapshot2026Stable,
            "https://www.w3.org/TR/2021/CRD-css-masking-1-20210805/",
        ),
{
    CssSpecificationSource::from_url(
        "S-MASKING1",
        "CSS Masking",
        "1",
        CssSpecificationTier::Snapshot2026Stable,
        "https://www.w3.org/TR/2021/CRD-css-masking-1-20210805/",
    )
}

/// CSS Transitions level 1 (`I-TRANSITIONS1`), cited by URL.
#[verifier::allow_in_spec]
pub fn i_transitions1() -> CssSpecificationSource
    returns
        CssSpecificationSource::spec_from_url(
            "I-TRANSITIONS1",
            "CSS Transitions",
            "1",
            CssSpecificationTier::Snapshot2026Interop,
            "https://www.w3.org/TR/2026/WD-css-transitions-1-20260108/",
        ),
{
    CssSpecificationSource::from_url(
        "I-TRANSITIONS1",
        "CSS Transitions",
        "1",
        CssSpecificationTier::Snapshot2026Interop,
        "https://www.w3.org/TR/2026/WD-css-transitions-1-20260108/",
    )
}

/// CSS Animations level 1 (`I-ANIMATIONS1`), cited by URL.
#[verifier::allow_in_spec]
pub fn i_animations1() -> CssSpecificationSource
    returns
        CssSpecificationSource::spec_from_url(
            "I-ANIMATIONS1",
            "CSS Animations",
            "1",
            CssSpecificationTier::Snapshot2026Interop,
            "https://www.w3.org/TR/2023/WD-css-animations-1-20230302/",
        ),
{
    CssSpecificationSource::from_url(
        "I-ANIMATIONS1",
        "CSS Animations",
        "1",
        CssSpecificationTier::Snapshot2026Interop,
        "https://www.w3.org/TR/2023/WD-css-animations-1-20230302/",
    )
}

/// Filter Effects level 1 (`I-FILTER1`), cited by URL.
#[verifier::allow_in_spec]
pub fn i_filter1() -> CssSpecificationSource
    returns
        CssSpecificationSource::spec_from_url(
            "I-FILTER1",
            "Filter Effects",
            "1",
            CssSpecificationTier::Snapshot2026Interop,
            "https://www.w3.org/TR/2018/WD-filter-effects-1-20181218/",
        ),
{
    CssSpecificationSource::from_url(
        "I-FILTER1",
        "Filter Effects",
        "1",
        CssSpecificationTier::Snapshot2026Interop,
        "https://www.w3.org/TR/2018/WD-filter-effects-1-20181218/",
    )
}

/// CSS Box Sizing level 3 (`I-SIZING3`), cited by URL.
#[verifier::allow_in_spec]
pub fn i_sizing3() -> CssSpecificationSource
    returns
        CssSpecificationSource::spec_from_url(
            "I-SIZING3",
            "CSS Box Sizing",
            "3",
            CssSpecificationTier::Snapshot2026Interop,
            "https://www.w3.org/TR/2021/WD-css-sizing-3-20211217/",
        ),
{
    CssSpecificationSource::from_url(
        "I-SIZING3",
        "CSS Box Sizing",
        "3",
        CssSpecificationTier::Snapshot2026Interop,
        "https://www.w3.org/TR/2021/WD-css-sizing-3-20211217/",
    )
}

/// CSS Transforms level 2 (`I-TRANSFORMS2`), cited by URL.
#[verifier::allow_in_spec]
pub fn i_transforms2() -> CssSpecificationSource
    returns
        CssSpecificationSource::spec_from_url(
            "I-TRANSFORMS2",
            "CSS Transforms",
            "2",
            CssSpecificationTier::Snapshot2026Interop,
            "https://www.w3.org/TR/2021/WD-css-transforms-2-20211109/",
        ),
{
    CssSpecificationSource::from_url(
        "I-TRANSFORMS2",
        "CSS Transforms",
        "2",
        CssSpecificationTier::Snapshot2026Interop,
        "https://www.w3.org/TR/2021/WD-css-transforms-2-20211109/",
    )
}

/// CSS Lists and Counters level 3 (`I-LISTS3`), cited by URL.
#[verifier::allow_in_spec]
pub fn i_lists3() -> CssSpecificationSource
    returns
        CssSpecificationSource::spec_from_url(
            "I-LISTS3",
            "CSS Lists and Counters",
            "3",
            CssSpecificationTier::Snapshot2026Interop,
            "https://www.w3.org/TR/2020/WD-css-lists-3-20201117/",
        ),
{
    CssSpecificationSource::from_url(
        "I-LISTS3",
        "CSS Lists and Counters",
        "3",
        CssSpecificationTier::Snapshot2026Interop,
        "https://www.w3.org/TR/2020/WD-css-lists-3-20201117/",
    )
}

/// CSS Positioned Layout level 3 (`I-POSITION3`), cited by URL.
#[verifier::allow_in_spec]
pub fn i_position3() -> CssSpecificationSource
    returns
        CssSpecificationSource::spec_from_url(
            "I-POSITION3",
            "CSS Positioned Layout",
            "3",
            CssSpecificationTier::Snapshot2026Interop,
            "https://www.w3.org/TR/2025/WD-css-position-3-20251007/",
        ),
{
    CssSpecificationSource::from_url(
        "I-POSITION3",
        "CSS Positioned Layout",
        "3",
        CssSpecificationTier::Snapshot2026Interop,
        "https://www.w3.org/TR/2025/WD-css-position-3-20251007/",
    )
}

/// CSS Fonts level 4 (`I-FONTS4`), cited by URL.
#[verifier::allow_in_spec]
pub fn i_fonts4() -> CssSpecificationSource
    returns
        CssSpecificationSource::spec_from_url(
            "I-FONTS4",
            "CSS Fonts",
            "4",
            CssSpecificationTier::Snapshot2026Interop,
            "https://www.w3.org/TR/2026/WD-css-fonts-4-20260422/",
        ),
{
    CssSpecificationSource::from_url(
        "I-FONTS4",
        "CSS Fonts",
        "4",
        CssSpecificationTier::Snapshot2026Interop,
        "https://www.w3.org/TR/2026/WD-css-fonts-4-20260422/",
    )
}

/// CSS Color level 5 (`I-COLOR5`), cited by URL.
#[verifier::allow_in_spec]
pub fn i_color5() -> CssSpecificationSource
    returns
        CssSpecificationSource::spec_from_url(
            "I-COLOR5",
            "CSS Color",
            "5",
            CssSpecificationTier::Snapshot2026Interop,
            "https://www.w3.org/TR/2026/WD-css-color-5-20260618/",
        ),
{
    CssSpecificationSource::from_url(
        "I-COLOR5",
        "CSS Color",
        "5",
        CssSpecificationTier::Snapshot2026Interop,
        "https://www.w3.org/TR/2026/WD-css-color-5-20260618/",
    )
}

/// Selectors level 4 (`I-SELECTORS4`), cited by URL.
#[verifier::allow_in_spec]
pub fn i_selectors4() -> CssSpecificationSource
    returns
        CssSpecificationSource::spec_from_url(
            "I-SELECTORS4",
            "Selectors",
            "4",
            CssSpecificationTier::Snapshot2026Interop,
            "https://www.w3.org/TR/2026/WD-selectors-4-20260122/",
        ),
{
    CssSpecificationSource::from_url(
        "I-SELECTORS4",
        "Selectors",
        "4",
        CssSpecificationTier::Snapshot2026Interop,
        "https://www.w3.org/TR/2026/WD-selectors-4-20260122/",
    )
}

/// CSS Containment level 2 (`I-CONTAIN2`), cited by URL.
#[verifier::allow_in_spec]
pub fn i_contain2() -> CssSpecificationSource
    returns
        CssSpecificationSource::spec_from_url(
            "I-CONTAIN2",
            "CSS Containment",
            "2",
            CssSpecificationTier::Snapshot2026Interop,
            "https://www.w3.org/TR/2022/WD-css-contain-2-20220917/",
        ),
{
    CssSpecificationSource::from_url(
        "I-CONTAIN2",
        "CSS Containment",
        "2",
        CssSpecificationTier::Snapshot2026Interop,
        "https://www.w3.org/TR/2022/WD-css-contain-2-20220917/",
    )
}

/// CSS Nesting level 1 (`I-NESTING1`), cited by URL.
#[verifier::allow_in_spec]
pub fn i_nesting1() -> CssSpecificationSource
    returns
        CssSpecificationSource::spec_from_url(
            "I-NESTING1",
            "CSS Nesting",
            "1",
            CssSpecificationTier::Snapshot2026Interop,
            "https://www.w3.org/TR/2026/WD-css-nesting-1-20260122/",
        ),
{
    CssSpecificationSource::from_url(
        "I-NESTING1",
        "CSS Nesting",
        "1",
        CssSpecificationTier::Snapshot2026Interop,
        "https://www.w3.org/TR/2026/WD-css-nesting-1-20260122/",
    )
}

/// CSS Containment level 3 (`X-CONTAIN3`), cited by URL.
#[verifier::allow_in_spec]
pub fn x_contain3() -> CssSpecificationSource
    returns
        CssSpecificationSource::spec_from_url(
            "X-CONTAIN3",
            "CSS Containment",
            "3",
            CssSpecificationTier::SurgeistExtension,
            "https://www.w3.org/TR/2022/WD-css-contain-3-20220818/",
        ),
{
    CssSpecificationSource::from_url(
        "X-CONTAIN3",
        "CSS Containment",
        "3",
        CssSpecificationTier::SurgeistExtension,
        "https://www.w3.org/TR/2022/WD-css-contain-3-20220818/",
    )
}

/// CSS Conditional Rules level 5 (`X-CONDITIONAL5`), cited by URL.
#[verifier::allow_in_spec]
pub fn x_conditional5() -> CssSpecificationSource
    returns
        CssSpecificationSource::spec_from_url(
            "X-CONDITIONAL5",
            "CSS Conditional Rules",
            "5",
            CssSpecificationTier::SurgeistExtension,
            "https://www.w3.org/TR/2025/WD-css-conditional-5-20251030/",
        ),
{
    CssSpecificationSource::from_url(
        "X-CONDITIONAL5",
        "CSS Conditional Rules",
        "5",
        CssSpecificationTier::SurgeistExtension,
        "https://www.w3.org/TR/2025/WD-css-conditional-5-20251030/",
    )
}

/// CSS Cascading and Inheritance level 6 (`X-CASCADE6`), cited by URL.
#[verifier::allow_in_spec]
pub fn x_cascade6() -> CssSpecificationSource
    returns
        CssSpecificationSource::spec_from_url(
            "X-CASCADE6",
            "CSS Cascading and Inheritance",
            "6",
            CssSpecificationTier::SurgeistExtension,
            "https://www.w3.org/TR/2024/WD-css-cascade-6-20240906/",
        ),
{
    CssSpecificationSource::from_url(
        "X-CASCADE6",
        "CSS Cascading and Inheritance",
        "6",
        CssSpecificationTier::SurgeistExtension,
        "https://www.w3.org/TR/2024/WD-css-cascade-6-20240906/",
    )
}

/// CSS Pseudo-Elements level 4 (`X-PSEUDO4`), cited by URL.
#[verifier::allow_in_spec]
pub fn x_pseudo4() -> CssSpecificationSource
    returns
        CssSpecificationSource::spec_from_url(
            "X-PSEUDO4",
            "CSS Pseudo-Elements",
            "4",
            CssSpecificationTier::SurgeistExtension,
            "https://www.w3.org/TR/2025/WD-css-pseudo-4-20250627/",
        ),
{
    CssSpecificationSource::from_url(
        "X-PSEUDO4",
        "CSS Pseudo-Elements",
        "4",
        CssSpecificationTier::SurgeistExtension,
        "https://www.w3.org/TR/2025/WD-css-pseudo-4-20250627/",
    )
}

/// Media Queries level 5 (`X-MEDIA5`), cited by URL.
#[verifier::allow_in_spec]
pub fn x_media5() -> CssSpecificationSource
    returns
        CssSpecificationSource::spec_from_url(
            "X-MEDIA5",
            "Media Queries",
            "5",
            CssSpecificationTier::SurgeistExtension,
            "https://www.w3.org/TR/2026/WD-mediaqueries-5-20260219/",
        ),
{
    CssSpecificationSource::from_url(
        "X-MEDIA5",
        "Media Queries",
        "5",
        CssSpecificationTier::SurgeistExtension,
        "https://www.w3.org/TR/2026/WD-mediaqueries-5-20260219/",
    )
}

/// CSS Overflow level 3 (`X-OVERFLOW3`), cited by URL.
#[verifier::allow_in_spec]
pub fn x_overflow3() -> CssSpecificationSource
    returns
        CssSpecificationSource::spec_from_url(
            "X-OVERFLOW3",
            "CSS Overflow",
            "3",
            CssSpecificationTier::SurgeistExtension,
            "https://www.w3.org/TR/2025/WD-css-overflow-3-20251007/",
        ),
{
    CssSpecificationSource::from_url(
        "X-OVERFLOW3",
        "CSS Overflow",
        "3",
        CssSpecificationTier::SurgeistExtension,
        "https://www.w3.org/TR/2025/WD-css-overflow-3-20251007/",
    )
}

/// CSS Box Sizing level 4 (`X-SIZING4`), cited by URL.
#[verifier::allow_in_spec]
pub fn x_sizing4() -> CssSpecificationSource
    returns
        CssSpecificationSource::spec_from_url(
            "X-SIZING4",
            "CSS Box Sizing",
            "4",
            CssSpecificationTier::SurgeistExtension,
            "https://www.w3.org/TR/2021/WD-css-sizing-4-20210520/",
        ),
{
    CssSpecificationSource::from_url(
        "X-SIZING4",
        "CSS Box Sizing",
        "4",
        CssSpecificationTier::SurgeistExtension,
        "https://www.w3.org/TR/2021/WD-css-sizing-4-20210520/",
    )
}

/// CSS Text level 4 (`X-TEXT4`), cited by URL.
#[verifier::allow_in_spec]
pub fn x_text4() -> CssSpecificationSource
    returns
        CssSpecificationSource::spec_from_url(
            "X-TEXT4",
            "CSS Text",
            "4",
            CssSpecificationTier::SurgeistExtension,
            "https://www.w3.org/TR/2026/WD-css-text-4-20260608/",
        ),
{
    CssSpecificationSource::from_url(
        "X-TEXT4",
        "CSS Text",
        "4",
        CssSpecificationTier::SurgeistExtension,
        "https://www.w3.org/TR/2026/WD-css-text-4-20260608/",
    )
}

/// CSS Text Decoration level 4 (`X-TEXTDECOR4`), cited by URL.
#[verifier::allow_in_spec]
pub fn x_textdecor4() -> CssSpecificationSource
    returns
        CssSpecificationSource::spec_from_url(
            "X-TEXTDECOR4",
            "CSS Text Decoration",
            "4",
            CssSpecificationTier::SurgeistExtension,
            "https://www.w3.org/TR/2022/WD-css-text-decor-4-20220504/",
        ),
{
    CssSpecificationSource::from_url(
        "X-TEXTDECOR4",
        "CSS Text Decoration",
        "4",
        CssSpecificationTier::SurgeistExtension,
        "https://www.w3.org/TR/2022/WD-css-text-decor-4-20220504/",
    )
}

/// CSS Basic User Interface level 4 (`X-UI4`), cited by URL.
#[verifier::allow_in_spec]
pub fn x_ui4() -> CssSpecificationSource
    returns
        CssSpecificationSource::spec_from_url(
            "X-UI4",
            "CSS Basic User Interface",
            "4",
            CssSpecificationTier::SurgeistExtension,
            "https://www.w3.org/TR/2026/WD-css-ui-4-20260120/",
        ),
{
    CssSpecificationSource::from_url(
        "X-UI4",
        "CSS Basic User Interface",
        "4",
        CssSpecificationTier::SurgeistExtension,
        "https://www.w3.org/TR/2026/WD-css-ui-4-20260120/",
    )
}

/// CSS Generated Content level 3 (`X-CONTENT3`), cited by URL.
#[verifier::allow_in_spec]
pub fn x_content3() -> CssSpecificationSource
    returns
        CssSpecificationSource::spec_from_url(
            "X-CONTENT3",
            "CSS Generated Content",
            "3",
            CssSpecificationTier::SurgeistExtension,
            "https://www.w3.org/TR/2025/WD-css-content-3-20251204/",
        ),
{
    CssSpecificationSource::from_url(
        "X-CONTENT3",
        "CSS Generated Content",
        "3",
        CssSpecificationTier::SurgeistExtension,
        "https://www.w3.org/TR/2025/WD-css-content-3-20251204/",
    )
}

/// Fullscreen level unleveled (`X-FULLSCREEN`), cited by URL.
#[verifier::allow_in_spec]
pub fn x_fullscreen() -> CssSpecificationSource
    returns
        CssSpecificationSource::spec_from_url(
            "X-FULLSCREEN",
            "Fullscreen",
            "unleveled",
            CssSpecificationTier::SurgeistExtension,
            "https://www.w3.org/TR/2012/WD-fullscreen-20120703/",
        ),
{
    CssSpecificationSource::from_url(
        "X-FULLSCREEN",
        "Fullscreen",
        "unleveled",
        CssSpecificationTier::SurgeistExtension,
        "https://www.w3.org/TR/2012/WD-fullscreen-20120703/",
    )
}

/// CSS Values and Units, 4 (`X-VALUES4`), cited by repository provenance.
#[verifier::allow_in_spec]
pub fn x_values4() -> CssSpecificationSource
    returns
        CssSpecificationSource::spec_from_repository(
            "X-VALUES4",
            "CSS Values and Units",
            "4",
            "720ea2863696971ea6a6744e0f23acbb3e6936bd:css-values-4/Overview.bs",
        ),
{
    CssSpecificationSource::from_repository(
        "X-VALUES4",
        "CSS Values and Units",
        "4",
        "720ea2863696971ea6a6744e0f23acbb3e6936bd:css-values-4/Overview.bs",
    )
}

/// Filter Effects, 2 baseline subset (`X-FILTER2-BASE`), cited by repository provenance.
#[verifier::allow_in_spec]
pub fn x_filter2_base() -> CssSpecificationSource
    returns
        CssSpecificationSource::spec_from_repository(
            "X-FILTER2-BASE",
            "Filter Effects",
            "2 baseline subset",
            "bc5394f:src/parser/effects.rs",
        ),
{
    CssSpecificationSource::from_repository(
        "X-FILTER2-BASE",
        "Filter Effects",
        "2 baseline subset",
        "bc5394f:src/parser/effects.rs",
    )
}

/// Media Queries, display-mode baseline subset (`X-DISPLAY-MODE-BASE`), cited by repository provenance.
#[verifier::allow_in_spec]
pub fn x_display_mode_base() -> CssSpecificationSource
    returns
        CssSpecificationSource::spec_from_repository(
            "X-DISPLAY-MODE-BASE",
            "Media Queries",
            "display-mode baseline subset",
            "bc5394f:src/parser/queries.rs",
        ),
{
    CssSpecificationSource::from_repository(
        "X-DISPLAY-MODE-BASE",
        "Media Queries",
        "display-mode baseline subset",
        "bc5394f:src/parser/queries.rs",
    )
}

/// CSS Grid Layout, grid-flow-tolerance baseline subset (`X-GRID-TOLERANCE-BASE`), cited by repository provenance.
#[verifier::allow_in_spec]
pub fn x_grid_tolerance_base() -> CssSpecificationSource
    returns
        CssSpecificationSource::spec_from_repository(
            "X-GRID-TOLERANCE-BASE",
            "CSS Grid Layout",
            "grid-flow-tolerance baseline subset",
            "bc5394f:src/parser/grid.rs",
        ),
{
    CssSpecificationSource::from_repository(
        "X-GRID-TOLERANCE-BASE",
        "CSS Grid Layout",
        "grid-flow-tolerance baseline subset",
        "bc5394f:src/parser/grid.rs",
    )
}

/// Surgeist CSS selectors parser, I01 baseline (`I01-BASE-SELECTORS`), cited by repository provenance.
#[verifier::allow_in_spec]
pub fn baseline_selectors() -> CssSpecificationSource
    returns
        CssSpecificationSource::spec_from_repository(
            "I01-BASE-SELECTORS",
            "Surgeist CSS selectors parser",
            "I01 baseline",
            "bc5394f:src/parser/selectors.rs",
        ),
{
    CssSpecificationSource::from_repository(
        "I01-BASE-SELECTORS",
        "Surgeist CSS selectors parser",
        "I01 baseline",
        "bc5394f:src/parser/selectors.rs",
    )
}

/// Surgeist CSS query parser, I01 baseline (`I01-BASE-QUERIES`), cited by repository provenance.
#[verifier::allow_in_spec]
pub fn baseline_queries() -> CssSpecificationSource
    returns
        CssSpecificationSource::spec_from_repository(
            "I01-BASE-QUERIES",
            "Surgeist CSS query parser",
            "I01 baseline",
            "bc5394f:src/parser/queries.rs",
        ),
{
    CssSpecificationSource::from_repository(
        "I01-BASE-QUERIES",
        "Surgeist CSS query parser",
        "I01 baseline",
        "bc5394f:src/parser/queries.rs",
    )
}

/// The registry entries in stable declaration order.
#[verifier::opaque]
pub open spec fn source_list() -> Seq<CssSpecificationSource> {
    seq![
        o_css2(),
        o_syntax3(),
        o_style_attr(),
        o_media3(),
        o_conditional3(),
        o_selectors3(),
        o_namespaces3(),
        o_cascade4(),
        o_values3(),
        o_variables1(),
        o_box3(),
        o_color4(),
        o_backgrounds3(),
        o_images3(),
        o_fonts3(),
        o_writing3(),
        o_multicol1(),
        o_flexbox1(),
        o_ui3(),
        o_contain1(),
        o_transforms1(),
        o_compositing1(),
        o_easing1(),
        o_counterstyles3(),
        r_media4(),
        r_scrollbars1(),
        r_grid1(),
        r_grid2(),
        r_cascade5(),
        r_conditional4(),
        s_display3(),
        s_writing4(),
        s_break3(),
        s_align3(),
        s_shapes1(),
        s_text3(),
        s_textdecor3(),
        s_masking1(),
        i_transitions1(),
        i_animations1(),
        i_filter1(),
        i_sizing3(),
        i_transforms2(),
        i_lists3(),
        i_position3(),
        i_fonts4(),
        i_color5(),
        i_selectors4(),
        i_contain2(),
        i_nesting1(),
        x_contain3(),
        x_conditional5(),
        x_cascade6(),
        x_pseudo4(),
        x_values4(),
        x_media5(),
        x_overflow3(),
        x_sizing4(),
        x_text4(),
        x_textdecor4(),
        x_ui4(),
        x_content3(),
        x_fullscreen(),
        x_filter2_base(),
        x_display_mode_base(),
        x_grid_tolerance_base(),
        baseline_selectors(),
        baseline_queries(),
    ]
}

/// Builds the registry entries in stable declaration order; every entry is well formed.
pub fn source_registry() -> (sources: Vec<CssSpecificationSource>)
    ensures
        sources@ == source_list(),
        forall|i: int| 0 <= i < sources@.len() ==> (#[trigger] sources@[i]).wf(),
{
    proof {
        reveal(source_list);
    }
    let mut sources = Vec::new();
    sources.push(o_css2());
    sources.push(o_syntax3());
    sources.push(o_style_attr());
    sources.push(o_media3());
    sources.push(o_conditional3());
    sources.push(o_selectors3());
    sources.push(o_namespaces3());
    sources.push(o_cascade4());
    sources.push(o_values3());
    sources.push(o_variables1());
    sources.push(o_box3());
    sources.push(o_color4());
    sources.push(o_backgrounds3());
    sources.push(o_images3());
    sources.push(o_fonts3());
    sources.push(o_writing3());
    sources.push(o_multicol1());
    sources.push(o_flexbox1());
    sources.push(o_ui3());
    sources.push(o_contain1());
    sources.push(o_transforms1());
    sources.push(o_compositing1());
    sources.push(o_easing1());
    sources.push(o_counterstyles3());
    sources.push(r_media4());
    sources.push(r_scrollbars1());
    sources.push(r_grid1());
    sources.push(r_grid2());
    sources.push(r_cascade5());
    sources.push(r_conditional4());
    sources.push(s_display3());
    sources.push(s_writing4());
    sources.push(s_break3());
    sources.push(s_align3());
    sources.push(s_shapes1());
    sources.push(s_text3());
    sources.push(s_textdecor3());
    sources.push(s_masking1());
    sources.push(i_transitions1());
    sources.push(i_animations1());
    sources.push(i_filter1());
    sources.push(i_sizing3());
    sources.push(i_transforms2());
    sources.push(i_lists3());
    sources.push(i_position3());
    sources.push(i_fonts4());
    sources.push(i_color5());
    sources.push(i_selectors4());
    sources.push(i_contain2());
    sources.push(i_nesting1());
    sources.push(x_contain3());
    sources.push(x_conditional5());
    sources.push(x_cascade6());
    sources.push(x_pseudo4());
    sources.push(x_values4());
    sources.push(x_media5());
    sources.push(x_overflow3());
    sources.push(x_sizing4());
    sources.push(x_text4());
    sources.push(x_textdecor4());
    sources.push(x_ui4());
    sources.push(x_content3());
    sources.push(x_fullscreen());
    sources.push(x_filter2_base());
    sources.push(x_display_mode_base());
    sources.push(x_grid_tolerance_base());
    sources.push(baseline_selectors());
    sources.push(baseline_queries());
    sources
}

/// The registry holds 68 sources.
pub proof fn lemma_source_list_len()
    ensures
        source_list().len() == 68,
{
    reveal(source_list);
}

/// Every registered source follows the conformance profile: its tier is the one its identity
/// prefix names, and a cited URL is a W3C Technical Report URL.
pub proof fn lemma_sources_follow_profile()
    ensures
        forall|i: int| 0 <= i < source_list().len() ==> #[trigger] source_follows_profile(source_list()[i]),
{
    broadcast use CssSpecificationSource::lemma_from_url_parts, CssSpecificationSource::lemma_from_repository_parts;

    reveal(source_list);
    reveal_strlit("https://www.w3.org/TR/");
    reveal_strlit("O-");
    reveal_strlit("R-");
    reveal_strlit("S-");
    reveal_strlit("I-");
    reveal_strlit("X-");
    reveal_strlit("I01-");
    reveal_strlit("O-CSS2");
    assert("O-CSS2"@[0] == 'O' && "O-CSS2"@[1] == '-' && "O-CSS2"@[2] == 'C');
    reveal_strlit("https://www.w3.org/TR/2011/REC-CSS2-20110607/");
    assert(source_follows_profile(o_css2()));
    reveal_strlit("O-SYNTAX3");
    assert("O-SYNTAX3"@[0] == 'O' && "O-SYNTAX3"@[1] == '-' && "O-SYNTAX3"@[2] == 'S');
    reveal_strlit("https://www.w3.org/TR/2021/CRD-css-syntax-3-20211224/");
    assert(source_follows_profile(o_syntax3()));
    reveal_strlit("O-STYLE-ATTR");
    assert("O-STYLE-ATTR"@[0] == 'O' && "O-STYLE-ATTR"@[1] == '-' && "O-STYLE-ATTR"@[2] == 'S');
    reveal_strlit("https://www.w3.org/TR/2013/REC-css-style-attr-20131107/");
    assert(source_follows_profile(o_style_attr()));
    reveal_strlit("O-MEDIA3");
    assert("O-MEDIA3"@[0] == 'O' && "O-MEDIA3"@[1] == '-' && "O-MEDIA3"@[2] == 'M');
    reveal_strlit("https://www.w3.org/TR/2024/REC-mediaqueries-3-20240521/");
    assert(source_follows_profile(o_media3()));
    reveal_strlit("O-CONDITIONAL3");
    assert("O-CONDITIONAL3"@[0] == 'O' && "O-CONDITIONAL3"@[1] == '-' && "O-CONDITIONAL3"@[2] == 'C');
    reveal_strlit("https://www.w3.org/TR/2024/CRD-css-conditional-3-20240815/");
    assert(source_follows_profile(o_conditional3()));
    reveal_strlit("O-SELECTORS3");
    assert("O-SELECTORS3"@[0] == 'O' && "O-SELECTORS3"@[1] == '-' && "O-SELECTORS3"@[2] == 'S');
    reveal_strlit("https://www.w3.org/TR/2018/REC-selectors-3-20181106/");
    assert(source_follows_profile(o_selectors3()));
    reveal_strlit("O-NAMESPACES3");
    assert("O-NAMESPACES3"@[0] == 'O' && "O-NAMESPACES3"@[1] == '-' && "O-NAMESPACES3"@[2] == 'N');
    reveal_strlit("https://www.w3.org/TR/2014/REC-css-namespaces-3-20140320/");
    assert(source_follows_profile(o_namespaces3()));
    reveal_strlit("O-CASCADE4");
    assert("O-CASCADE4"@[0] == 'O' && "O-CASCADE4"@[1] == '-' && "O-CASCADE4"@[2] == 'C');
    reveal_strlit("https://www.w3.org/TR/2022/CR-css-cascade-4-20220113/");
    assert(source_follows_profile(o_cascade4()));
    reveal_strlit("O-VALUES3");
    assert("O-VALUES3"@[0] == 'O' && "O-VALUES3"@[1] == '-' && "O-VALUES3"@[2] == 'V');
    reveal_strlit("https://www.w3.org/TR/2024/CRD-css-values-3-20240322/");
    assert(source_follows_profile(o_values3()));
    reveal_strlit("O-VARIABLES1");
    assert("O-VARIABLES1"@[0] == 'O' && "O-VARIABLES1"@[1] == '-' && "O-VARIABLES1"@[2] == 'V');
    reveal_strlit("https://www.w3.org/TR/2022/CR-css-variables-1-20220616/");
    assert(source_follows_profile(o_variables1()));
    reveal_strlit("O-BOX3");
    assert("O-BOX3"@[0] == 'O' && "O-BOX3"@[1] == '-' && "O-BOX3"@[2] == 'B');
    reveal_strlit("https://www.w3.org/TR/2024/REC-css-box-3-20240411/");
    assert(source_follows_profile(o_box3()));
    reveal_strlit("O-COLOR4");
    assert("O-COLOR4"@[0] == 'O' && "O-COLOR4"@[1] == '-' && "O-COLOR4"@[2] == 'C');
    reveal_strlit("https://www.w3.org/TR/2026/CRD-css-color-4-20260326/");
    assert(source_follows_profile(o_color4()));
    reveal_strlit("O-BACKGROUNDS3");
    assert("O-BACKGROUNDS3"@[0] == 'O' && "O-BACKGROUNDS3"@[1] == '-' && "O-BACKGROUNDS3"@[2] == 'B');
    reveal_strlit("https://www.w3.org/TR/2024/CRD-css-backgrounds-3-20240311/");
    assert(source_follows_profile(o_backgrounds3()));
    reveal_strlit("O-IMAGES3");
    assert("O-IMAGES3"@[0] == 'O' && "O-IMAGES3"@[1] == '-' && "O-IMAGES3"@[2] == 'I');
    reveal_strlit("https://www.w3.org/TR/2023/CRD-css-images-3-20231218/");
    assert(source_follows_profile(o_images3()));
    reveal_strlit("O-FONTS3");
    assert("O-FONTS3"@[0] == 'O' && "O-FONTS3"@[1] == '-' && "O-FONTS3"@[2] == 'F');
    reveal_strlit("https://www.w3.org/TR/2018/REC-css-fonts-3-20180920/");
    assert(source_follows_profile(o_fonts3()));
    reveal_strlit("O-WRITING3");
    assert("O-WRITING3"@[0] == 'O' && "O-WRITING3"@[1] == '-' && "O-WRITING3"@[2] == 'W');
    reveal_strlit("https://www.w3.org/TR/2019/REC-css-writing-modes-3-20191210/");
    assert(source_follows_profile(o_writing3()));
    reveal_strlit("O-MULTICOL1");
    assert("O-MULTICOL1"@[0] == 'O' && "O-MULTICOL1"@[1] == '-' && "O-MULTICOL1"@[2] == 'M');
    reveal_strlit("https://www.w3.org/TR/2024/CR-css-multicol-1-20240516/");
    assert(source_follows_profile(o_multicol1()));
    reveal_strlit("O-FLEXBOX1");
    assert("O-FLEXBOX1"@[0] == 'O' && "O-FLEXBOX1"@[1] == '-' && "O-FLEXBOX1"@[2] == 'F');
    reveal_strlit("https://www.w3.org/TR/2025/CRD-css-flexbox-1-20251014/");
    assert(source_follows_profile(o_flexbox1()));
    reveal_strlit("O-UI3");
    assert("O-UI3"@[0] == 'O' && "O-UI3"@[1] == '-' && "O-UI3"@[2] == 'U');
    reveal_strlit("https://www.w3.org/TR/2018/REC-css-ui-3-20180621/");
    assert(source_follows_profile(o_ui3()));
    reveal_strlit("O-CONTAIN1");
    assert("O-CONTAIN1"@[0] == 'O' && "O-CONTAIN1"@[1] == '-' && "O-CONTAIN1"@[2] == 'C');
    reveal_strlit("https://www.w3.org/TR/2024/REC-css-contain-1-20240625/");
    assert(source_follows_profile(o_contain1()));
    reveal_strlit("O-TRANSFORMS1");
    assert("O-TRANSFORMS1"@[0] == 'O' && "O-TRANSFORMS1"@[1] == '-' && "O-TRANSFORMS1"@[2] == 'T');
    reveal_strlit("https://www.w3.org/TR/2019/CR-css-transforms-1-20190214/");
    assert(source_follows_profile(o_transforms1()));
    reveal_strlit("O-COMPOSITING1");
    assert("O-COMPOSITING1"@[0] == 'O' && "O-COMPOSITING1"@[1] == '-' && "O-COMPOSITING1"@[2] == 'C');
    reveal_strlit("https://www.w3.org/TR/2024/CRD-compositing-1-20240321/");
    assert(source_follows_profile(o_compositing1()));
    reveal_strlit("O-EASING1");
    assert("O-EASING1"@[0] == 'O' && "O-EASING1"@[1] == '-' && "O-EASING1"@[2] == 'E');
    reveal_strlit("https://www.w3.org/TR/2023/CRD-css-easing-1-20230213/");
    assert(source_follows_profile(o_easing1()));
    reveal_strlit("O-COUNTERSTYLES3");
    assert("O-COUNTERSTYLES3"@[0] == 'O' && "O-COUNTERSTYLES3"@[1] == '-' && "O-COUNTERSTYLES3"@[2] == 'C');
    reveal_strlit("https://www.w3.org/TR/2021/CR-css-counter-styles-3-20210727/");
    assert(source_follows_profile(o_counterstyles3()));
    reveal_strlit("R-MEDIA4");
    assert("R-MEDIA4"@[0] == 'R' && "R-MEDIA4"@[1] == '-' && "R-MEDIA4"@[2] == 'M');
    reveal_strlit("https://www.w3.org/TR/2026/CRD-mediaqueries-4-20260219/");
    assert(source_follows_profile(r_media4()));
    reveal_strlit("R-SCROLLBARS1");
    assert("R-SCROLLBARS1"@[0] == 'R' && "R-SCROLLBARS1"@[1] == '-' && "R-SCROLLBARS1"@[2] == 'S');
    reveal_strlit("https://www.w3.org/TR/2021/CR-css-scrollbars-1-20211209/");
    assert(source_follows_profile(r_scrollbars1()));
    reveal_strlit("R-GRID1");
    assert("R-GRID1"@[0] == 'R' && "R-GRID1"@[1] == '-' && "R-GRID1"@[2] == 'G');
    reveal_strlit("https://www.w3.org/TR/2025/CRD-css-grid-1-20250326/");
    assert(source_follows_profile(r_grid1()));
    reveal_strlit("R-GRID2");
    assert("R-GRID2"@[0] == 'R' && "R-GRID2"@[1] == '-' && "R-GRID2"@[2] == 'G');
    reveal_strlit("https://www.w3.org/TR/2025/CRD-css-grid-2-20250326/");
    assert(source_follows_profile(r_grid2()));
    reveal_strlit("R-CASCADE5");
    assert("R-CASCADE5"@[0] == 'R' && "R-CASCADE5"@[1] == '-' && "R-CASCADE5"@[2] == 'C');
    reveal_strlit("https://www.w3.org/TR/2022/CR-css-cascade-5-20220113/");
    assert(source_follows_profile(r_cascade5()));
    reveal_strlit("R-CONDITIONAL4");
    assert("R-CONDITIONAL4"@[0] == 'R' && "R-CONDITIONAL4"@[1] == '-' && "R-CONDITIONAL4"@[2] == 'C');
    reveal_strlit("https://www.w3.org/TR/2025/CRD-css-conditional-4-20250904/");
    assert(source_follows_profile(r_conditional4()));
    reveal_strlit("S-DISPLAY3");
    assert("S-DISPLAY3"@[0] == 'S' && "S-DISPLAY3"@[1] == '-' && "S-DISPLAY3"@[2] == 'D');
    reveal_strlit("https://www.w3.org/TR/2026/CRD-css-display-3-20260605/");
    assert(source_follows_profile(s_display3()));
    reveal_strlit("S-WRITING4");
    assert("S-WRITING4"@[0] == 'S' && "S-WRITING4"@[1] == '-' && "S-WRITING4"@[2] == 'W');
    reveal_strlit("https://www.w3.org/TR/2019/CR-css-writing-modes-4-20190730/");
    assert(source_follows_profile(s_writing4()));
    reveal_strlit("S-BREAK3");
    assert("S-BREAK3"@[0] == 'S' && "S-BREAK3"@[1] == '-' && "S-BREAK3"@[2] == 'B');
    reveal_strlit("https://www.w3.org/TR/2018/CR-css-break-3-20181204/");
    assert(source_follows_profile(s_break3()));
    reveal_strlit("S-ALIGN3");
    assert("S-ALIGN3"@[0] == 'S' && "S-ALIGN3"@[1] == '-' && "S-ALIGN3"@[2] == 'A');
    reveal_strlit("https://www.w3.org/TR/2026/WD-css-align-3-20260130/");
    assert(source_follows_profile(s_align3()));
    reveal_strlit("S-SHAPES1");
    assert("S-SHAPES1"@[0] == 'S' && "S-SHAPES1"@[1] == '-' && "S-SHAPES1"@[2] == 'S');
    reveal_strlit("https://www.w3.org/TR/2025/CRD-css-shapes-1-20250612/");
    assert(source_follows_profile(s_shapes1()));
    reveal_strlit("S-TEXT3");
    assert("S-TEXT3"@[0] == 'S' && "S-TEXT3"@[1] == '-' && "S-TEXT3"@[2] == 'T');
    reveal_strlit("https://www.w3.org/TR/2026/CRD-css-text-3-20260608/");
    assert(source_follows_profile(s_text3()));
    reveal_strlit("S-TEXTDECOR3");
    assert("S-TEXTDECOR3"@[0] == 'S' && "S-TEXTDECOR3"@[1] == '-' && "S-TEXTDECOR3"@[2] == 'T');
    reveal_strlit("https://www.w3.org/TR/2022/CRD-css-text-decor-3-20220505/");
    assert(source_follows_profile(s_textdecor3()));
    reveal_strlit("S-MASKING1");
    assert("S-MASKING1"@[0] == 'S' && "S-MASKING1"@[1] == '-' && "S-MASKING1"@[2] == 'M');
    reveal_strlit("https://www.w3.org/TR/2021/CRD-css-masking-1-20210805/");
    assert(source_follows_profile(s_masking1()));
    reveal_strlit("I-TRANSITIONS1");
    assert("I-TRANSITIONS1"@[0] == 'I' && "I-TRANSITIONS1"@[1] == '-' && "I-TRANSITIONS1"@[2] == 'T');
    reveal_strlit("https://www.w3.org/TR/2026/WD-css-transitions-1-20260108/");
    assert(source_follows_profile(i_transitions1()));
    reveal_strlit("I-ANIMATIONS1");
    assert("I-ANIMATIONS1"@[0] == 'I' && "I-ANIMATIONS1"@[1] == '-' && "I-ANIMATIONS1"@[2] == 'A');
    reveal_strlit("https://www.w3.org/TR/2023/WD-css-animations-1-20230302/");
    assert(source_follows_profile(i_animations1()));
    reveal_strlit("I-FILTER1");
    assert("I-FILTER1"@[0] == 'I' && "I-FILTER1"@[1] == '-' && "I-FILTER1"@[2] == 'F');
    reveal_strlit("https://www.w3.org/TR/2018/WD-filter-effects-1-20181218/");
    assert(source_follows_profile(i_filter1()));
    reveal_strlit("I-SIZING3");
    assert("I-SIZING3"@[0] == 'I' && "I-SIZING3"@[1] == '-' && "I-SIZING3"@[2] == 'S');
    reveal_strlit("https://www.w3.org/TR/2021/WD-css-sizing-3-20211217/");
    assert(source_follows_profile(i_sizing3()));
    reveal_strlit("I-TRANSFORMS2");
    assert("I-TRANSFORMS2"@[0] == 'I' && "I-TRANSFORMS2"@[1] == '-' && "I-TRANSFORMS2"@[2] == 'T');
    reveal_strlit("https://www.w3.org/TR/2021/WD-css-transforms-2-20211109/");
    assert(source_follows_profile(i_transforms2()));
    reveal_strlit("I-LISTS3");
    assert("I-LISTS3"@[0] == 'I' && "I-LISTS3"@[1] == '-' && "I-LISTS3"@[2] == 'L');
    reveal_strlit("https://www.w3.org/TR/2020/WD-css-lists-3-20201117/");
    assert(source_follows_profile(i_lists3()));
    reveal_strlit("I-POSITION3");
    assert("I-POSITION3"@[0] == 'I' && "I-POSITION3"@[1] == '-' && "I-POSITION3"@[2] == 'P');
    reveal_strlit("https://www.w3.org/TR/2025/WD-css-position-3-20251007/");
    assert(source_follows_profile(i_position3()));
    reveal_strlit("I-FONTS4");
    assert("I-FONTS4"@[0] == 'I' && "I-FONTS4"@[1] == '-' && "I-FONTS4"@[2] == 'F');
    reveal_strlit("https://www.w3.org/TR/2026/WD-css-fonts-4-20260422/");
    assert(source_follows_profile(i_fonts4()));
    reveal_strlit("I-COLOR5");
    assert("I-COLOR5"@[0] == 'I' && "I-COLOR5"@[1] == '-' && "I-COLOR5"@[2] == 'C');
    reveal_strlit("https://www.w3.org/TR/2026/WD-css-color-5-20260618/");
    assert(source_follows_profile(i_color5()));
    reveal_strlit("I-SELECTORS4");
    assert("I-SELECTORS4"@[0] == 'I' && "I-SELECTORS4"@[1] == '-' && "I-SELECTORS4"@[2] == 'S');
    reveal_strlit("https://www.w3.org/TR/2026/WD-selectors-4-20260122/");
    assert(source_follows_profile(i_selectors4()));
    reveal_strlit("I-CONTAIN2");
    assert("I-CONTAIN2"@[0] == 'I' && "I-CONTAIN2"@[1] == '-' && "I-CONTAIN2"@[2] == 'C');
    reveal_strlit("https://www.w3.org/TR/2022/WD-css-contain-2-20220917/");
    assert(source_follows_profile(i_contain2()));
    reveal_strlit("I-NESTING1");
    assert("I-NESTING1"@[0] == 'I' && "I-NESTING1"@[1] == '-' && "I-NESTING1"@[2] == 'N');
    reveal_strlit("https://www.w3.org/TR/2026/WD-css-nesting-1-20260122/");
    assert(source_follows_profile(i_nesting1()));
    reveal_strlit("X-CONTAIN3");
    assert("X-CONTAIN3"@[0] == 'X' && "X-CONTAIN3"@[1] == '-' && "X-CONTAIN3"@[2] == 'C');
    reveal_strlit("https://www.w3.org/TR/2022/WD-css-contain-3-20220818/");
    assert(source_follows_profile(x_contain3()));
    reveal_strlit("X-CONDITIONAL5");
    assert("X-CONDITIONAL5"@[0] == 'X' && "X-CONDITIONAL5"@[1] == '-' && "X-CONDITIONAL5"@[2] == 'C');
    reveal_strlit("https://www.w3.org/TR/2025/WD-css-conditional-5-20251030/");
    assert(source_follows_profile(x_conditional5()));
    reveal_strlit("X-CASCADE6");
    assert("X-CASCADE6"@[0] == 'X' && "X-CASCADE6"@[1] == '-' && "X-CASCADE6"@[2] == 'C');
    reveal_strlit("https://www.w3.org/TR/2024/WD-css-cascade-6-20240906/");
    assert(source_follows_profile(x_cascade6()));
    reveal_strlit("X-PSEUDO4");
    assert("X-PSEUDO4"@[0] == 'X' && "X-PSEUDO4"@[1] == '-' && "X-PSEUDO4"@[2] == 'P');
    reveal_strlit("https://www.w3.org/TR/2025/WD-css-pseudo-4-20250627/");
    assert(source_follows_profile(x_pseudo4()));
    reveal_strlit("X-VALUES4");
    assert("X-VALUES4"@[0] == 'X' && "X-VALUES4"@[1] == '-' && "X-VALUES4"@[2] == 'V');
    assert(source_follows_profile(x_values4()));
    reveal_strlit("X-MEDIA5");
    assert("X-MEDIA5"@[0] == 'X' && "X-MEDIA5"@[1] == '-' && "X-MEDIA5"@[2] == 'M');
    reveal_strlit("https://www.w3.org/TR/2026/WD-mediaqueries-5-20260219/");
    assert(source_follows_profile(x_media5()));
    reveal_strlit("X-OVERFLOW3");
    assert("X-OVERFLOW3"@[0] == 'X' && "X-OVERFLOW3"@[1] == '-' && "X-OVERFLOW3"@[2] == 'O');
    reveal_strlit("https://www.w3.org/TR/2025/WD-css-overflow-3-20251007/");
    assert(source_follows_profile(x_overflow3()));
    reveal_strlit("X-SIZING4");
    assert("X-SIZING4"@[0] == 'X' && "X-SIZING4"@[1] == '-' && "X-SIZING4"@[2] == 'S');
    reveal_strlit("https://www.w3.org/TR/2021/WD-css-sizing-4-20210520/");
    assert(source_follows_profile(x_sizing4()));
    reveal_strlit("X-TEXT4");
    assert("X-TEXT4"@[0] == 'X' && "X-TEXT4"@[1] == '-' && "X-TEXT4"@[2] == 'T');
    reveal_strlit("https://www.w3.org/TR/2026/WD-css-text-4-20260608/");
    assert(source_follows_profile(x_text4()));
    reveal_strlit("X-TEXTDECOR4");
    assert("X-TEXTDECOR4"@[0] == 'X' && "X-TEXTDECOR4"@[1] == '-' && "X-TEXTDECOR4"@[2] == 'T');
    reveal_strlit("https://www.w3.org/TR/2022/WD-css-text-decor-4-20220504/");
    assert(source_follows_profile(x_textdecor4()));
    reveal_strlit("X-UI4");
    assert("X-UI4"@[0] == 'X' && "X-UI4"@[1] == '-' && "X-UI4"@[2] == 'U');
    reveal_strlit("https://www.w3.org/TR/2026/WD-css-ui-4-20260120/");
    assert(source_follows_profile(x_ui4()));
    reveal_strlit("X-CONTENT3");
    assert("X-CONTENT3"@[0] == 'X' && "X-CONTENT3"@[1] == '-' && "X-CONTENT3"@[2] == 'C');
    reveal_strlit("https://www.w3.org/TR/2025/WD-css-content-3-20251204/");
    assert(source_follows_profile(x_content3()));
    reveal_strlit("X-FULLSCREEN");
    assert("X-FULLSCREEN"@[0] == 'X' && "X-FULLSCREEN"@[1] == '-' && "X-FULLSCREEN"@[2] == 'F');
    reveal_strlit("https://www.w3.org/TR/2012/WD-fullscreen-20120703/");
    assert(source_follows_profile(x_fullscreen()));
    reveal_strlit("X-FILTER2-BASE");
    assert("X-FILTER2-BASE"@[0] == 'X' && "X-FILTER2-BASE"@[1] == '-' && "X-FILTER2-BASE"@[2] == 'F');
    assert(source_follows_profile(x_filter2_base()));
    reveal_strlit("X-DISPLAY-MODE-BASE");
    assert("X-DISPLAY-MODE-BASE"@[0] == 'X' && "X-DISPLAY-MODE-BASE"@[1] == '-' && "X-DISPLAY-MODE-BASE"@[2] == 'D');
    assert(source_follows_profile(x_display_mode_base()));
    reveal_strlit("X-GRID-TOLERANCE-BASE");
    assert("X-GRID-TOLERANCE-BASE"@[0] == 'X' && "X-GRID-TOLERANCE-BASE"@[1] == '-' && "X-GRID-TOLERANCE-BASE"@[2] == 'G');
    assert(source_follows_profile(x_grid_tolerance_base()));
    reveal_strlit("I01-BASE-SELECTORS");
    assert("I01-BASE-SELECTORS"@[0] == 'I' && "I01-BASE-SELECTORS"@[1] == '0' && "I01-BASE-SELECTORS"@[2] == '1');
    assert(source_follows_profile(baseline_selectors()));
    reveal_strlit("I01-BASE-QUERIES");
    assert("I01-BASE-QUERIES"@[0] == 'I' && "I01-BASE-QUERIES"@[1] == '0' && "I01-BASE-QUERIES"@[2] == '1');
    assert(source_follows_profile(baseline_queries()));
}

} // verus!
