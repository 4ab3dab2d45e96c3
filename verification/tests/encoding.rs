use conversation_engine::encoding::{png_data_url, try_png_data_url};

#[test]
fn data_url_of_three_bytes() {
    assert_eq!(png_data_url(b"Man"), "data:image/png;base64,TWFu");
}

#[test]
fn data_url_pads_short_input() {
    assert_eq!(try_png_data_url(b"M"), Some("data:image/png;base64,TQ==".to_string()));
    assert_eq!(try_png_data_url(b""), Some("data:image/png;base64,".to_string()));
}
