use charformat::codec::{decode_char_format, encode_char_format, try_encode_char_format};
use charformat::flags::{
    CFE_BOLD, CFE_ITALIC, CFM_EFFECTS, CFM_FACE, CHARFORMATW_SIZE, LF_FACESIZE,
};
use charformat::model::{CharEffects, CharFormat, UnderlineType};
use charformat::record::CharFormatW;

fn empty_format() -> CharFormat {
    CharFormat {
        effects: None,
        height: None,
        y_offset: None,
        text_color: None,
        font_face_name: None,
        underline_type: None,
    }
}

fn full_format() -> CharFormat {
    CharFormat {
        effects: Some(CharEffects::from_bits_truncate(CFE_BOLD | CFE_ITALIC)),
        height: Some(240),
        y_offset: Some(0),
        text_color: Some([255, 0, 0]),
        font_face_name: Some(String::from("Arial")),
        underline_type: Some(UnderlineType::Solid),
    }
}

#[test]
fn round_trip_full_specification() {
    let fmt = full_format();
    let rec = encode_char_format(&fmt);
    let back = decode_char_format(&rec);

    assert_eq!(back.effects, Some(CharEffects { bits: CFE_BOLD | CFE_ITALIC }));
    assert_eq!(back.height, Some(240));
    // A true offset of zero is indistinguishable from "not set".
    assert_eq!(back.y_offset, None);
    assert_eq!(back.text_color, Some([255, 0, 0]));
    assert_eq!(back.font_face_name, Some(String::from("Arial")));
    assert_eq!(back.underline_type, Some(UnderlineType::Solid));
}

#[test]
fn round_trip_black_color_reads_back_absent() {
    let mut fmt = full_format();
    fmt.text_color = Some([0, 0, 0]);
    let rec = encode_char_format(&fmt);
    assert_eq!(rec.cr_text_color, 0);
    let back = decode_char_format(&rec);
    assert_eq!(back.text_color, None);
}

#[test]
fn round_trip_zero_height_reads_back_absent() {
    let mut fmt = full_format();
    fmt.height = Some(0);
    let rec = encode_char_format(&fmt);
    let back = decode_char_format(&rec);
    assert_eq!(back.height, None);
}

#[test]
fn round_trip_nonzero_offset() {
    let mut fmt = empty_format();
    fmt.y_offset = Some(-60);
    let rec = encode_char_format(&fmt);
    let back = decode_char_format(&rec);
    assert_eq!(back.y_offset, Some(-60));
}

#[test]
fn mask_independence_face_only() {
    let mut fmt = empty_format();
    fmt.font_face_name = Some(String::from("Arial"));
    let rec = encode_char_format(&fmt);
    assert_eq!(rec.dw_mask, CFM_FACE);
    assert_eq!(rec.dw_effects, 0);
    assert_eq!(rec.y_height, 0);
    assert_eq!(rec.y_offset, 0);
    assert_eq!(rec.cr_text_color, 0);
    assert_eq!(rec.b_underline_type, 0);
}

#[test]
fn face_name_boundary_fits() {
    // 30 name units plus the terminator make 31, one under the capacity.
    let name = "A".repeat(30);
    let mut fmt = empty_format();
    fmt.font_face_name = Some(name.clone());
    let rec = try_encode_char_format(&fmt).expect("a 30-unit name must fit");
    let back = decode_char_format(&rec);
    assert_eq!(back.font_face_name, Some(name));
}

#[test]
fn face_name_boundary_overflows() {
    let name = "A".repeat(31);
    let mut fmt = empty_format();
    fmt.font_face_name = Some(name);
    assert!(try_encode_char_format(&fmt).is_none());
}

#[test]
fn underline_round_trip_table() {
    let variants = [
        UnderlineType::Solid,
        UnderlineType::Dash,
        UnderlineType::DashDot,
        UnderlineType::DashDotDot,
        UnderlineType::Dotted,
        UnderlineType::DoubleSolid,
        UnderlineType::Wave,
    ];
    for &u in variants.iter() {
        let mut fmt = empty_format();
        fmt.underline_type = Some(u);
        let rec = encode_char_format(&fmt);
        let back = decode_char_format(&rec);
        assert_eq!(back.underline_type, Some(u));
    }
}

#[test]
fn underline_explicit_none_reads_back_absent() {
    let mut fmt = empty_format();
    fmt.underline_type = Some(UnderlineType::NoUnderline);
    let rec = encode_char_format(&fmt);
    assert_eq!(rec.b_underline_type, 0);
    let back = decode_char_format(&rec);
    assert_eq!(back.underline_type, None);
}

#[test]
fn underline_codes_match_table() {
    assert_eq!(UnderlineType::NoUnderline.to_code(), 0);
    assert_eq!(UnderlineType::Solid.to_code(), 1);
    assert_eq!(UnderlineType::DoubleSolid.to_code(), 3);
    assert_eq!(UnderlineType::Dotted.to_code(), 4);
    assert_eq!(UnderlineType::Dash.to_code(), 5);
    assert_eq!(UnderlineType::DashDot.to_code(), 6);
    assert_eq!(UnderlineType::DashDotDot.to_code(), 7);
    assert_eq!(UnderlineType::Wave.to_code(), 8);
    assert_eq!(UnderlineType::from_code(2), None);
    assert_eq!(UnderlineType::from_code(9), None);
    assert_eq!(UnderlineType::from_code(0), None);
}

#[test]
fn encoding_is_idempotent() {
    let fmt = full_format();
    let rec1 = encode_char_format(&fmt);
    let rec2 = encode_char_format(&fmt);
    assert_eq!(rec1, rec2);

    let fmt2 = empty_format();
    let rec3 = encode_char_format(&fmt2);
    let rec4 = encode_char_format(&fmt2);
    assert_eq!(rec3, rec4);
}

#[test]
fn empty_format_requests_nothing() {
    let rec = encode_char_format(&empty_format());
    assert_eq!(rec.cb_size, CHARFORMATW_SIZE);
    assert_eq!(rec.dw_mask, 0);
    assert_eq!(rec.dw_effects, 0);
    assert_eq!(rec.y_height, 0);
    assert_eq!(rec.y_offset, 0);
    assert_eq!(rec.cr_text_color, 0);
    assert_eq!(rec.b_underline_type, 0);
    assert_eq!(rec.b_char_set, 0);
    assert_eq!(rec.b_pitch_and_family, 0);
    assert_eq!(rec.w_weight, 0);
    assert_eq!(rec.s_spacing, 0);
    assert_eq!(rec.cr_back_color, 0);
    assert_eq!(rec.lcid, 0);
    assert_eq!(rec.reserved, 0);
    assert_eq!(rec.s_style, 0);
    assert_eq!(rec.w_kerning, 0);
    assert_eq!(rec.b_animation, 0);
    assert_eq!(rec.b_rev_author, 0);
    assert_eq!(rec.b_underline_color, 0);
    assert_eq!(rec.sz_face_name, vec![0u16; LF_FACESIZE]);
}

#[test]
fn packed_color_channel_order() {
    let mut fmt = empty_format();
    fmt.text_color = Some([0x11, 0x22, 0x33]);
    let rec = encode_char_format(&fmt);
    // Red in the lowest byte, then green, then blue.
    assert_eq!(rec.cr_text_color, 0x0033_2211);
    let back = decode_char_format(&rec);
    assert_eq!(back.text_color, Some([0x11, 0x22, 0x33]));
}

#[test]
fn face_buffer_layout() {
    let mut fmt = empty_format();
    fmt.font_face_name = Some(String::from("Ab"));
    let rec = encode_char_format(&fmt);
    assert_eq!(rec.sz_face_name.len(), LF_FACESIZE);
    assert_eq!(rec.sz_face_name[0], 'A' as u16);
    assert_eq!(rec.sz_face_name[1], 'b' as u16);
    for j in 2..LF_FACESIZE {
        assert_eq!(rec.sz_face_name[j], 0);
    }
}

#[test]
fn face_name_beyond_basic_plane_round_trips() {
    // A musical clef encodes as a surrogate pair and must read back intact.
    let name = String::from("a\u{1D11E}b");
    let mut fmt = empty_format();
    fmt.font_face_name = Some(name.clone());
    let rec = encode_char_format(&fmt);
    assert_eq!(rec.sz_face_name[0], 'a' as u16);
    assert_eq!(rec.sz_face_name[1], 0xD834);
    assert_eq!(rec.sz_face_name[2], 0xDD1E);
    assert_eq!(rec.sz_face_name[3], 'b' as u16);
    let back = decode_char_format(&rec);
    assert_eq!(back.font_face_name, Some(name));
}

#[test]
fn empty_face_name_reads_back_absent() {
    let mut fmt = empty_format();
    fmt.font_face_name = Some(String::new());
    let rec = encode_char_format(&fmt);
    assert_eq!(rec.dw_mask, CFM_FACE);
    let back = decode_char_format(&rec);
    assert_eq!(back.font_face_name, None);
}

#[test]
fn effects_truncate_unknown_bits() {
    let e = CharEffects::from_bits_truncate(0xFFFF_FFFF);
    assert_eq!(e.bits(), CFM_EFFECTS);
    assert_eq!(CFM_EFFECTS, 0x4000_003F);
}

#[test]
fn effects_set_operations() {
    let bold = CharEffects::from_bits_truncate(CFE_BOLD);
    let italic = CharEffects::from_bits_truncate(CFE_ITALIC);
    let both = bold.union(italic);
    assert!(both.contains(bold));
    assert!(both.contains(italic));
    assert!(!bold.contains(italic));
    assert_eq!(CharEffects::empty().bits(), 0);
}

#[test]
fn decode_zeroed_record() {
    let rec = CharFormatW::zeroed();
    assert_eq!(rec.cb_size, CHARFORMATW_SIZE);
    let back = decode_char_format(&rec);
    assert_eq!(back.effects, Some(CharEffects { bits: 0 }));
    assert_eq!(back.height, None);
    assert_eq!(back.y_offset, None);
    assert_eq!(back.text_color, None);
    assert_eq!(back.font_face_name, None);
    assert_eq!(back.underline_type, None);
}

#[test]
fn decode_always_reports_effects_present() {
    let mut rec = CharFormatW::zeroed();
    rec.dw_effects = CFE_BOLD;
    let back = decode_char_format(&rec);
    assert_eq!(back.effects, Some(CharEffects { bits: CFE_BOLD }));
}

#[test]
fn decode_truncates_unknown_effect_bits() {
    let mut rec = CharFormatW::zeroed();
    rec.dw_effects = CFE_BOLD | 0x0100;
    let back = decode_char_format(&rec);
    assert_eq!(back.effects, Some(CharEffects { bits: CFE_BOLD }));
}

#[test]
fn decode_trims_face_buffer_at_terminator() {
    let mut rec = CharFormatW::zeroed();
    rec.sz_face_name[0] = 'X' as u16;
    rec.sz_face_name[1] = 'y' as u16;
    // Units after the terminator are ignored.
    rec.sz_face_name[3] = 'z' as u16;
    let back = decode_char_format(&rec);
    assert_eq!(back.font_face_name, Some(String::from("Xy")));
}

#[test]
fn decode_unpaired_high_surrogate_becomes_replacement() {
    let mut rec = CharFormatW::zeroed();
    rec.sz_face_name[0] = 0xD800;
    let back = decode_char_format(&rec);
    assert_eq!(back.font_face_name, Some(String::from("\u{FFFD}")));
}

#[test]
fn decode_lone_low_surrogate_becomes_replacement() {
    let mut rec = CharFormatW::zeroed();
    rec.sz_face_name[0] = 0xDC00;
    rec.sz_face_name[1] = 'q' as u16;
    let back = decode_char_format(&rec);
    assert_eq!(back.font_face_name, Some(String::from("\u{FFFD}q")));
}
