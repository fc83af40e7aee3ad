use harper_desktop::icon::icon_data_url;

#[test]
fn icons_become_png_data_urls() {
    assert_eq!(icon_data_url(&[0, 1, 2]), "data:image/png;base64,AAEC");
    assert_eq!(icon_data_url(&[0xff]), "data:image/png;base64,/w==");
    assert_eq!(icon_data_url(&[]), "data:image/png;base64,");
}

#[test]
fn every_length_and_alphabet_end_is_encoded() {
    assert_eq!(icon_data_url(b"Man"), "data:image/png;base64,TWFu");
    assert_eq!(icon_data_url(b"Ma"), "data:image/png;base64,TWE=");
    assert_eq!(icon_data_url(b"M"), "data:image/png;base64,TQ==");
    assert_eq!(icon_data_url(&[0xfb, 0xff]), "data:image/png;base64,+/8=");
    assert_eq!(icon_data_url(b"Hello, world"), "data:image/png;base64,SGVsbG8sIHdvcmxk");
}
