use surgeist_css::{
    counter_style_descriptor_name, font_face_descriptor_name, CssCounterStyleDescriptorName,
    CssFontFaceDescriptorName, CssParseErrorKind, CssSourceLocation, ErrorKind,
};

fn loc() -> CssSourceLocation {
    CssSourceLocation { line: 2, column: 5 }
}

#[test]
fn font_face_descriptor_names_ignore_ascii_case() {
    assert_eq!(font_face_descriptor_name("SRC", loc()).unwrap(), CssFontFaceDescriptorName::Src);
    assert_eq!(font_face_descriptor_name("Unicode-Range", loc()).unwrap(), CssFontFaceDescriptorName::UnicodeRange);
    let error = font_face_descriptor_name("size-adjust", loc()).unwrap_err();
    assert_eq!(error.location, loc());
    match error.kind {
        CssParseErrorKind::Custom(e) => match e.kind() {
            ErrorKind::UnknownDescriptor(d) => {
                assert_eq!(d.at_rule().as_str(), "font-face");
                assert_eq!(d.descriptor().as_str(), "size-adjust");
            }
            _ => panic!("wrong kind"),
        },
        _ => panic!("wrong kind"),
    }
}

#[test]
fn counter_style_descriptor_names_ignore_ascii_case() {
    assert_eq!(
        counter_style_descriptor_name("Additive-Symbols", loc()).unwrap(),
        CssCounterStyleDescriptorName::AdditiveSymbols
    );
    assert_eq!(counter_style_descriptor_name("speak-as", loc()).unwrap(), CssCounterStyleDescriptorName::SpeakAs);
    assert!(counter_style_descriptor_name("src", loc()).is_err());
}
