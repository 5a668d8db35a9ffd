use statusbar::block::{color_code, Block, ColorTier};
use statusbar::output::{display_bar, encode_block, protocol_header, OutputWriter};

fn block(text: &str, color: Option<ColorTier>, separator: bool) -> Block {
    Block { full_text: text.to_string(), color, separator }
}

fn encoded_text(text: &str) -> String {
    let encoded = encode_block(&block(text, None, false));
    let prefix = "{\"full_text\":";
    let suffix = ",\"color\":null,\"separator\":false}";
    assert!(encoded.starts_with(prefix) && encoded.ends_with(suffix));
    encoded[prefix.len()..encoded.len() - suffix.len()].to_string()
}

#[test]
fn header_is_version_line_then_open_bracket() {
    assert_eq!(protocol_header().as_bytes(), b"{\"version\": 1}\n[\n");
    let header = protocol_header();
    let lines: Vec<&str> = header.lines().collect();
    assert_eq!(lines, vec!["{\"version\": 1}", "["]);
}

#[test]
fn palette_is_fixed() {
    assert_eq!(color_code(ColorTier::Good), "#8fc029");
    assert_eq!(color_code(ColorTier::Bad), "#dc2566");
    assert_eq!(color_code(ColorTier::Unknown), "#9358fe");
    assert_eq!(color_code(ColorTier::Charging), "#e7db75");
}

#[test]
fn block_is_encoded_with_three_fields_in_order() {
    assert_eq!(
        encode_block(&block("home-net", Some(ColorTier::Good), false)),
        "{\"full_text\":\"home-net\",\"color\":\"#8fc029\",\"separator\":false}"
    );
    assert_eq!(
        encode_block(&block("TPE 08:00", None, false)),
        "{\"full_text\":\"TPE 08:00\",\"color\":null,\"separator\":false}"
    );
    assert_eq!(
        encode_block(&block("", Some(ColorTier::Charging), true)),
        "{\"full_text\":\"\",\"color\":\"#e7db75\",\"separator\":true}"
    );
}

#[test]
fn each_tier_is_encoded_as_its_colour() {
    for tier in [ColorTier::Good, ColorTier::Bad, ColorTier::Unknown, ColorTier::Charging] {
        let expected = format!("{{\"full_text\":\"x\",\"color\":\"{}\",\"separator\":false}}", color_code(tier));
        assert_eq!(encode_block(&block("x", Some(tier), false)), expected);
    }
}

#[test]
fn quote_and_backslash_are_escaped() {
    assert_eq!(encoded_text("say \"hi\""), "\"say \\\"hi\\\"\"");
    assert_eq!(encoded_text("a\\b"), "\"a\\\\b\"");
    assert_eq!(encoded_text("\\\""), "\"\\\\\\\"\"");
}

#[test]
fn control_characters_are_escaped() {
    assert_eq!(encoded_text("\u{8}"), "\"\\b\"");
    assert_eq!(encoded_text("\u{c}"), "\"\\f\"");
    assert_eq!(encoded_text("\n"), "\"\\n\"");
    assert_eq!(encoded_text("\r"), "\"\\r\"");
    assert_eq!(encoded_text("\t"), "\"\\t\"");
    assert_eq!(encoded_text("\u{0}"), "\"\\u0000\"");
    assert_eq!(encoded_text("\u{1}"), "\"\\u0001\"");
    assert_eq!(encoded_text("\u{b}"), "\"\\u000b\"");
    assert_eq!(encoded_text("\u{1a}"), "\"\\u001a\"");
    assert_eq!(encoded_text("\u{1f}"), "\"\\u001f\"");
}

#[test]
fn every_character_below_space_is_escaped() {
    let digits = "0123456789abcdef".as_bytes();
    for code in 0u8..0x20 {
        let text = (code as char).to_string();
        let expected = match code {
            0x08 => "\"\\b\"".to_string(),
            0x09 => "\"\\t\"".to_string(),
            0x0a => "\"\\n\"".to_string(),
            0x0c => "\"\\f\"".to_string(),
            0x0d => "\"\\r\"".to_string(),
            _ => format!(
                "\"\\u00{}{}\"",
                digits[(code / 16) as usize] as char,
                digits[(code % 16) as usize] as char
            ),
        };
        assert_eq!(encoded_text(&text), expected);
    }
}

#[test]
fn other_characters_stand_for_themselves() {
    assert_eq!(encoded_text(" "), "\" \"");
    assert_eq!(encoded_text("/"), "\"/\"");
    assert_eq!(encoded_text("\u{7f}"), "\"\u{7f}\"");
    assert_eq!(encoded_text("\u{80}"), "\"\u{80}\"");
    assert_eq!(encoded_text("⚡92.0%"), "\"⚡92.0%\"");
    assert_eq!(encoded_text("110→ (3m)"), "\"110→ (3m)\"");
    assert_eq!(encoded_text("\u{2028}\u{10ffff}"), "\"\u{2028}\u{10ffff}\"");
    for code in 0x20u32..0x2000 {
        let c = char::from_u32(code).unwrap();
        if c != '"' && c != '\\' {
            assert_eq!(encoded_text(&c.to_string()), format!("\"{}\"", c));
        }
    }
}

#[test]
fn escapes_are_made_character_by_character() {
    assert_eq!(encoded_text("a\"b\nc\\d\u{1}e→"), "\"a\\\"b\\nc\\\\d\\u0001e→\"");
}

#[test]
fn encoded_text_is_the_json_literal() {
    for text in ["", "plain", "a\"b", "tab\there", "nul\u{0}", "→⇈", "back\\slash", "\u{1f}\u{20}"] {
        assert_eq!(encoded_text(text), serde_json::to_string(text).unwrap());
        let back: String = serde_json::from_str(&encoded_text(text)).unwrap();
        assert_eq!(back, text);
    }
}

#[test]
fn frame_line_is_array_comma_newline() {
    let blocks = vec![
        block("110→ (3m)", Some(ColorTier::Good), false),
        block("TPE 08:00", None, false),
    ];
    assert_eq!(
        display_bar(&blocks),
        "[{\"full_text\":\"110→ (3m)\",\"color\":\"#8fc029\",\"separator\":false},{\"full_text\":\"TPE 08:00\",\"color\":null,\"separator\":false}],\n"
    );
}

#[test]
fn empty_frame_is_empty_array() {
    assert_eq!(display_bar(&Vec::new()), "[],\n");
}

#[test]
fn frame_of_one_block_has_no_inner_comma() {
    assert_eq!(
        display_bar(&vec![block("x", None, true)]),
        "[{\"full_text\":\"x\",\"color\":null,\"separator\":true}],\n"
    );
}

#[test]
fn frame_line_parses_as_array_of_blocks() {
    let blocks = vec![
        block("a \"quoted\" \\ text\n", Some(ColorTier::Bad), false),
        block("⚡2.0%", Some(ColorTier::Charging), true),
        block("(90.9%)", None, false),
    ];
    let line = display_bar(&blocks);
    assert!(line.ends_with("],\n"));
    assert_eq!(line.matches('\n').count(), 1);
    let value: serde_json::Value = serde_json::from_str(&line[..line.len() - 2]).unwrap();
    let array = value.as_array().unwrap();
    assert_eq!(array.len(), 3);
    for (parsed, block) in array.iter().zip(blocks.iter()) {
        let object = parsed.as_object().unwrap();
        assert_eq!(object.len(), 3);
        assert_eq!(object["full_text"].as_str(), Some(block.full_text.as_str()));
        assert_eq!(object["color"].as_str(), block.color.map(color_code));
        assert_eq!(object["color"].is_null(), block.color.is_none());
        assert_eq!(object["separator"].as_bool(), Some(block.separator));
    }
}

#[test]
fn writer_opens_the_stream_once() {
    let mut writer = OutputWriter::new();
    let frame = vec![block("x", None, false)];
    let line = "[{\"full_text\":\"x\",\"color\":null,\"separator\":false}],\n";
    let first = writer.write(&frame);
    assert_eq!(first, format!("{{\"version\": 1}}\n[\n{}", line));
    assert!(first.as_bytes().starts_with(b"{\"version\": 1}\n[\n"));
    assert_eq!(writer.write(&frame), line);
    assert_eq!(writer.write(&Vec::new()), "[],\n");
}

#[test]
fn stream_starts_with_header_lines() {
    let mut writer = OutputWriter::new();
    let mut stream = String::new();
    for n in 0..4 {
        let frame: Vec<Block> = (0..n).map(|i| block(&i.to_string(), None, false)).collect();
        stream.push_str(&writer.write(&frame));
    }
    let lines: Vec<&str> = stream.lines().collect();
    assert_eq!(lines.len(), 6);
    assert_eq!(lines[0], "{\"version\": 1}");
    assert_eq!(lines[1], "[");
    assert_eq!(lines[2], "[],");
    for line in &lines[2..] {
        assert!(line.starts_with('[') && line.ends_with("],"));
    }
    assert_eq!(stream.matches("version").count(), 1);
}

#[test]
fn cloned_block_is_equal() {
    let first = block("x", Some(ColorTier::Good), true);
    assert_eq!(first.clone(), first);
    let plain = Block::plain("y".to_string(), None);
    assert_eq!(plain, block("y", None, false));
}
