use stellwerksim::error::Error;
use stellwerksim::response::{route_line, starts_with, Incoming, ResponseReader};
use stellwerksim::text::{trimmed, white_space};

#[test]
fn trimming_removes_surrounding_white_space() {
    assert_eq!(trimmed("  <zugliste> \t\r\n"), "<zugliste>");
    assert_eq!(trimmed("\u{3000}x y\u{a0}\u{2009}"), "x y");
    assert_eq!(trimmed(" \n "), "");
    assert_eq!(trimmed(""), "");
    assert_eq!(trimmed("ä"), "ä");
}

#[test]
fn trimming_agrees_with_str_trim() {
    for s in ["  a b  ", "\u{85}x\u{1680}", "\u{200b}y\u{200b}", "\u{feff}z", " \u{202f}\u{205f}q\u{2028}\u{2029}"] {
        assert_eq!(trimmed(s), s.trim());
    }
}

#[test]
fn white_space_agrees_with_char_is_whitespace() {
    for u in 0u32..0x3100 {
        if let Some(c) = char::from_u32(u) {
            assert_eq!(white_space(c), c.is_whitespace(), "{u:#x}");
        }
    }
}

#[test]
fn prefix_check() {
    assert!(starts_with("<ereignis zid='1' />", "<ereignis"));
    assert!(starts_with("abc", ""));
    assert!(!starts_with("<ereig", "<ereignis"));
    assert!(!starts_with("<status", "<ereignis"));
}

#[test]
fn event_lines_go_to_the_subscribers() {
    let r = route_line("  <ereignis zid='1' art='einfahrt' />\n");
    assert_eq!(r, Incoming::Event("<ereignis zid='1' art='einfahrt' />".to_string()));
}

#[test]
fn other_lines_go_to_the_response_reader() {
    let r = route_line("<status code='300'>ok</status>\r\n");
    assert_eq!(r, Incoming::Response("<status code='300'>ok</status>".to_string()));
    assert_eq!(route_line(""), Incoming::Response(String::new()));
}

#[test]
fn single_line_response_is_complete_after_one_line() {
    let mut reader = ResponseReader::new(None);
    assert_eq!(reader.push(Some("<simzeit zeit='1000' />".to_string())), Ok(true));
    assert_eq!(reader.into_text(), "<simzeit zeit='1000' />");
}

#[test]
fn multi_line_response_ends_with_its_tag() {
    let mut reader = ResponseReader::new(Some("</zugliste>"));
    assert_eq!(reader.push(Some("<zugliste>".to_string())), Ok(false));
    assert_eq!(reader.push(Some("<zug zid='1' name='RE 1' />".to_string())), Ok(false));
    assert_eq!(reader.push(Some("  </zugliste> ".to_string())), Ok(true));
    assert_eq!(reader.into_text(), "<zugliste><zug zid='1' name='RE 1' />  </zugliste> ");
}

#[test]
fn closed_channel_is_an_error() {
    let mut reader = ResponseReader::new(Some("</wege>"));
    assert_eq!(reader.push(Some("<wege>".to_string())), Ok(false));
    assert_eq!(reader.push(None), Err(Error::ChannelError("channel closed".to_string())));
}
