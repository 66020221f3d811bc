use dc_motor_speed_control::sh1106::{Sh1106, OLED_ADDR};

fn font6() -> Vec<[u8; 6]> {
    // glyphs for ' ', '!', '"', '#': byte k of glyph g is 10 * g + k
    (0..4u8).map(|g| [10 * g, 10 * g + 1, 10 * g + 2, 10 * g + 3, 10 * g + 4, 10 * g + 5]).collect()
}

fn font16() -> Vec<[u8; 16]> {
    (0..3u8)
        .map(|g| {
            let mut a = [0u8; 16];
            for k in 0..16u8 {
                a[k as usize] = 100 + 20 * g + k;
            }
            a
        })
        .collect()
}

fn pos(page: u8, col: u8) -> Vec<Vec<u8>> {
    let c = col.saturating_add(2);
    vec![vec![0x00, 0xB0 + page % 8], vec![0x00, c % 16], vec![0x00, 0x10 + c / 16]]
}

#[test]
fn address_is_0x3c() {
    assert_eq!(OLED_ADDR, 0x3C);
}

#[test]
fn new_queues_nothing() {
    let mut d = Sh1106::new();
    assert!(d.take_frames().is_empty());
}

#[test]
fn write_cmd_and_data_frames() {
    let mut d = Sh1106::new();
    d.write_cmd(0xAF);
    d.write_data(&[1, 2, 3]);
    assert_eq!(d.take_frames(), vec![vec![0x00, 0xAF], vec![0x40, 1, 2, 3]]);
    assert!(d.take_frames().is_empty());
}

#[test]
fn write_data_keeps_first_128_bytes() {
    let mut d = Sh1106::new();
    let data: Vec<u8> = (0..200u32).map(|i| i as u8).collect();
    d.write_data(&data);
    let f = d.take_frames();
    assert_eq!(f.len(), 1);
    assert_eq!(f[0].len(), 129);
    assert_eq!(f[0][0], 0x40);
    assert_eq!(&f[0][1..], &data[..128]);
}

#[test]
fn init_sequence() {
    let mut d = Sh1106::new();
    d.init();
    let cmds: Vec<u8> = vec![
        0xAE, 0x02, 0x10, 0x40, 0xB0, 0x81, 0xCF, 0xA1, 0xC8, 0xA8, 0x3F, 0xD3, 0x00, 0xD5, 0x80, 0xAD,
        0x8B, 0xA4, 0xA6, 0xAF,
    ];
    let expected: Vec<Vec<u8>> = cmds.iter().map(|c| vec![0x00, *c]).collect();
    assert_eq!(d.take_frames(), expected);
}

#[test]
fn set_pos_offsets_column_by_two() {
    let mut d = Sh1106::new();
    d.set_pos(3, 10);
    assert_eq!(d.take_frames(), vec![vec![0x00, 0xB3], vec![0x00, 0x0C], vec![0x00, 0x10]]);
    d.set_pos(9, 126);
    assert_eq!(d.take_frames(), vec![vec![0x00, 0xB1], vec![0x00, 0x00], vec![0x00, 0x18]]);
    d.set_pos(0, 254);
    assert_eq!(d.take_frames(), vec![vec![0x00, 0xB0], vec![0x00, 0x0F], vec![0x00, 0x1F]]);
}

#[test]
fn clear_blanks_all_pages() {
    let mut d = Sh1106::new();
    d.clear();
    let f = d.take_frames();
    assert_eq!(f.len(), 32);
    for page in 0..8u8 {
        let base = 4 * page as usize;
        assert_eq!(f[base..base + 3].to_vec(), pos(page, 0));
        let mut blank = vec![0x40u8];
        blank.extend(std::iter::repeat(0u8).take(128));
        assert_eq!(f[base + 3], blank);
    }
}

#[test]
fn clear_cols_cut_at_right_edge() {
    let mut d = Sh1106::new();
    d.clear_cols(2, 0, 0);
    d.clear_cols(2, 128, 10);
    assert!(d.take_frames().is_empty());
    d.clear_cols(2, 100, 50);
    let f = d.take_frames();
    assert_eq!(f[..3].to_vec(), pos(2, 100));
    assert_eq!(f[3].len(), 1 + 28);
    d.clear_cols(5, 0, 70);
    let f = d.take_frames();
    assert_eq!(f[3].len(), 71);
}

#[test]
fn draw_char_6x8_glyphs() {
    let font = font6();
    let mut d = Sh1106::new();
    d.draw_char_6x8(1, 12, '"', &font);
    let f = d.take_frames();
    assert_eq!(f[..3].to_vec(), pos(1, 12));
    assert_eq!(f[3], vec![0x40, 20, 21, 22, 23, 24, 25]);
    // control characters use the first glyph
    d.draw_char_6x8(0, 0, '\n', &font);
    assert_eq!(d.take_frames()[3], vec![0x40, 0, 1, 2, 3, 4, 5]);
    // no glyph, or past the edge: nothing
    d.draw_char_6x8(0, 0, 'A', &font);
    d.draw_char_6x8(0, 123, '!', &font);
    assert!(d.take_frames().is_empty());
    d.draw_char_6x8(0, 122, '!', &font);
    assert_eq!(d.take_frames().len(), 4);
}

#[test]
fn draw_char_8x16_two_pages() {
    let font = font16();
    let mut d = Sh1106::new();
    d.draw_char_8x16(4, 8, '!', &font);
    let f = d.take_frames();
    assert_eq!(f.len(), 8);
    assert_eq!(f[..3].to_vec(), pos(4, 8));
    assert_eq!(f[3], vec![0x40, 120, 121, 122, 123, 124, 125, 126, 127]);
    assert_eq!(f[4..7].to_vec(), pos(5, 8));
    assert_eq!(f[7], vec![0x40, 128, 129, 130, 131, 132, 133, 134, 135]);
    d.draw_char_8x16(4, 121, '!', &font);
    assert!(d.take_frames().is_empty());
}

#[test]
fn draw_string_6x8_stops_at_edge() {
    let font = font6();
    let mut d = Sh1106::new();
    d.draw_string_6x8(0, 0, " !", &font);
    let f = d.take_frames();
    assert_eq!(f.len(), 8);
    assert_eq!(f[4..7].to_vec(), pos(0, 6));
    d.draw_string_6x8(0, 120, "!!!", &font);
    let f = d.take_frames();
    assert_eq!(f.len(), 4);
    assert_eq!(f[..3].to_vec(), pos(0, 120));
    d.draw_string_6x8(0, 250, "", &font);
    assert!(d.take_frames().is_empty());
}

#[test]
fn draw_string_8x16_stops_at_edge() {
    let font = font16();
    let mut d = Sh1106::new();
    d.draw_string_8x16(0, 112, "!!!", &font);
    let f = d.take_frames();
    assert_eq!(f.len(), 16);
    assert_eq!(f[8..11].to_vec(), pos(0, 120));
}

#[test]
fn string_is_drawn_character_by_character() {
    let font = font6();
    let mut whole = Sh1106::new();
    whole.draw_string_6x8(2, 6, "!\"#", &font);
    let mut parts = Sh1106::new();
    parts.draw_string_6x8(2, 6, "!", &font);
    parts.draw_string_6x8(2, 12, "\"#", &font);
    assert_eq!(whole.take_frames(), parts.take_frames());
}
