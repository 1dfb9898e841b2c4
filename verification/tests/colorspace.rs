use nmos_core::colorspace::Colorspace;

#[test]
fn colorspaces_have_their_names() {
    assert_eq!(Colorspace::BT601.name(), "BT601");
    assert_eq!(Colorspace::BT709.name(), "BT709");
    assert_eq!(Colorspace::BT2020.name(), "BT2020");
    assert_eq!(Colorspace::BT2100.name(), "BT2100");
    assert_eq!(Colorspace::ST2065_1.name(), "ST2065-1");
    assert_eq!(Colorspace::ST2065_3.name(), "ST2065-3");
    assert_eq!(Colorspace::XYZ.name(), "XYZ");
}

#[test]
fn names_lead_back_to_colorspaces() {
    for c in [
        Colorspace::BT601,
        Colorspace::BT709,
        Colorspace::BT2020,
        Colorspace::BT2100,
        Colorspace::ST2065_1,
        Colorspace::ST2065_3,
        Colorspace::XYZ,
    ] {
        assert_eq!(Colorspace::parse(c.name()), Some(c));
    }
    assert_eq!(Colorspace::parse("bt709"), None);
    assert_eq!(Colorspace::parse("ST2065_1"), None);
    assert_eq!(Colorspace::parse(""), None);
}
