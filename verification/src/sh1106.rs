use vstd::prelude::*;

verus! {

/// I2C address of the SH1106 controller.
pub const OLED_ADDR: u8 = 0x3C;

/// Control byte that announces a command.
pub const CONTROL_COMMAND: u8 = 0x00;

/// Control byte that announces display data.
pub const CONTROL_DATA: u8 = 0x40;

/// Most display bytes carried by one data transfer (one page row).
pub const MAX_DATA_LEN: usize = 128;

/// The transfer that sends one command byte.
pub open spec fn cmd_frame(cmd: u8) -> Seq<u8> {
    seq![CONTROL_COMMAND, cmd]
}

/// The transfer that sends display data: the data control byte followed by
/// at most the first 128 bytes of `data`.
pub open spec fn data_frame(data: Seq<u8>) -> Seq<u8> {
    let n = if data.len() < MAX_DATA_LEN { data.len() as int } else { MAX_DATA_LEN as int };
    seq![CONTROL_DATA] + data.take(n)
}

/// `n` zero bytes.
pub open spec fn zeros(n: nat) -> Seq<u8> {
    Seq::new(n, |i: int| 0u8)
}

/// The power-up command sequence.
pub open spec fn init_commands() -> Seq<u8> {
    seq![
        0xAEu8, 0x02u8, 0x10u8, 0x40u8, 0xB0u8, 0x81u8, 0xCFu8, 0xA1u8, 0xC8u8, 0xA8u8,
        0x3Fu8, 0xD3u8, 0x00u8, 0xD5u8, 0x80u8, 0xADu8, 0x8Bu8, 0xA4u8, 0xA6u8, 0xAFu8,
    ]
}

/// The transfers that send each of `cmds` as a command.
pub open spec fn cmd_frames(cmds: Seq<u8>) -> Seq<Seq<u8>> {
    cmds.map_values(|c: u8| cmd_frame(c))
}

/// RAM column of display column `col`: the 128 visible columns sit at
/// offset 2 of the controller's 132, saturating at 255.
pub open spec fn ram_column(col: u8) -> int {
    if col + 2 > 255 {
        255
    } else {
        col + 2
    }
}

/// The transfers that move the write position to `page` and `col`: page
/// address, lower column nibble, higher column nibble.
pub open spec fn set_pos_frames(page: u8, col: u8) -> Seq<Seq<u8>> {
    let c = ram_column(col);
    seq![
        cmd_frame((0xB0 + page % 8) as u8),
        cmd_frame((c % 16) as u8),
        cmd_frame((0x10 + c / 16) as u8),
    ]
}

/// The transfers that blank pages `0..n`.
pub open spec fn clear_frames(n: nat) -> Seq<Seq<u8>>
    decreases n,
{
    if n == 0 {
        Seq::empty()
    } else {
        clear_frames((n - 1) as nat) + set_pos_frames((n - 1) as u8, 0) + seq![
            data_frame(zeros(128)),
        ]
    }
}

/// The transfers that blank `len` columns of `page` from `col`, cut at the
/// right edge; nothing when `len` is 0 or `col` is off the display.
pub open spec fn clear_cols_frames(page: u8, col: u8, len: u8) -> Seq<Seq<u8>> {
    if len == 0 || col >= 128 {
        Seq::empty()
    } else {
        let n = if 128 - col < len { 128 - col } else { len as int };
        set_pos_frames(page, col) + seq![data_frame(zeros(n as nat))]
    }
}

/// Index of the glyph for `ch` in a font that starts at the space
/// character: the low byte of the code point minus 32, saturating at 0.
pub open spec fn glyph_index(ch: char) -> int {
    let b = (ch as u32 % 256) as int;
    if b < 32 {
        0
    } else {
        b - 32
    }
}

/// The transfers that draw `ch` with a 6x8 font at `page`, `col`; nothing
/// when the font has no such glyph or the glyph would pass the right edge.
pub open spec fn char_6x8_frames(page: u8, col: u8, ch: char, font: Seq<[u8; 6]>) -> Seq<Seq<u8>> {
    let idx = glyph_index(ch);
    if idx < font.len() && col + 6 <= 128 {
        set_pos_frames(page, col) + seq![data_frame(font[idx]@)]
    } else {
        Seq::empty()
    }
}

/// The transfers that draw `ch` with an 8x16 font: the upper half of the
/// glyph on `page` and the lower half on `page + 1`.
pub open spec fn char_8x16_frames(page: u8, col: u8, ch: char, font: Seq<[u8; 16]>) -> Seq<Seq<u8>> {
    let idx = glyph_index(ch);
    if idx < font.len() && col + 8 <= 128 {
        set_pos_frames(page, col) + seq![data_frame(font[idx]@.subrange(0, 8))]
            + set_pos_frames((page + 1) as u8, col) + seq![data_frame(font[idx]@.subrange(8, 16))]
    } else {
        Seq::empty()
    }
}

/// The transfers that draw `s` with a 6x8 font from `col`, one glyph every
/// 6 columns, stopping at the first glyph that would pass the right edge.
pub open spec fn string_6x8_frames(page: u8, col: int, s: Seq<char>, font: Seq<[u8; 6]>) -> Seq<Seq<u8>>
    decreases s.len(),
{
    if s.len() == 0 || col + 6 > 128 {
        Seq::empty()
    } else {
        char_6x8_frames(page, col as u8, s[0], font) + string_6x8_frames(page, col + 6, s.drop_first(), font)
    }
}

/// The transfers that draw `s` with an 8x16 font from `col`, one glyph every
/// 8 columns, stopping at the first glyph that would pass the right edge.
pub open spec fn string_8x16_frames(page: u8, col: int, s: Seq<char>, font: Seq<[u8; 16]>) -> Seq<Seq<u8>>
    decreases s.len(),
{
    if s.len() == 0 || col + 8 > 128 {
        Seq::empty()
    } else {
        char_8x16_frames(page, col as u8, s[0], font) + string_8x16_frames(page, col + 8, s.drop_first(), font)
    }
}

/// The low byte of the code point of `ch`.
fn glyph_byte(ch: char) -> (b: u8)
    ensures
        b as int == ch as u32 % 256,
{
    let code = ch as u32;
    let b = (code & 0xFF) as u8;
    assert(code & 0xFF == code % 256) by (bit_vector);
    b
}

/// Drawing a string is drawing its characters left to right: drawing
/// `a + b` from `col` queues what drawing `a` from `col` and then `b`
/// right after it queues.
pub proof fn law_string_drawing_concatenates(page: u8, col: int, a: Seq<char>, b: Seq<char>, font: Seq<[u8; 6]>)
    requires
        0 <= col,
    ensures
        string_6x8_frames(page, col, a + b, font) == string_6x8_frames(page, col, a, font)
            + string_6x8_frames(page, col + 6 * a.len(), b, font),
    decreases a.len(),
{
    if a.len() == 0 {
        assert(a + b =~= b);
        assert(string_6x8_frames(page, col, a, font) + string_6x8_frames(page, col, b, font)
            =~= string_6x8_frames(page, col, b, font));
    } else if col + 6 > 128 {
        lemma_string_past_edge(page, col + 6 * a.len(), b, font);
        assert(Seq::<Seq<u8>>::empty() + Seq::<Seq<u8>>::empty() =~= Seq::<Seq<u8>>::empty());
    } else {
        assert((a + b).drop_first() =~= a.drop_first() + b);
        assert((a + b)[0] == a[0]);
        law_string_drawing_concatenates(page, col + 6, a.drop_first(), b, font);
        let c = char_6x8_frames(page, col as u8, a[0], font);
        let x = string_6x8_frames(page, col + 6, a.drop_first(), font);
        let y = string_6x8_frames(page, col + 6 + 6 * a.drop_first().len(), b, font);
        assert(col + 6 + 6 * a.drop_first().len() == col + 6 * a.len());
        assert(c + (x + y) =~= (c + x) + y);
    }
}

proof fn lemma_string_past_edge(page: u8, col: int, s: Seq<char>, font: Seq<[u8; 6]>)
    requires
        col + 6 > 128,
    ensures
        string_6x8_frames(page, col, s, font) == Seq::<Seq<u8>>::empty(),
{
}

/// Every data transfer is the data control byte followed by at most one
/// page row (128 bytes), and every command transfer is two bytes.
pub proof fn law_transfers_fit_a_page_row(data: Seq<u8>, cmd: u8)
    ensures
        data_frame(data)[0] == CONTROL_DATA,
        1 <= data_frame(data).len() <= 1 + MAX_DATA_LEN,
        data.len() <= MAX_DATA_LEN ==> data_frame(data) == seq![CONTROL_DATA] + data,
        cmd_frame(cmd).len() == 2 && cmd_frame(cmd)[0] == CONTROL_COMMAND,
{
    if data.len() <= MAX_DATA_LEN {
        assert(data.take(data.len() as int) =~= data);
    }
}

/// Whether drawing `s` with an 8x16 font from `col` puts at least one
/// glyph on the display.
pub open spec fn string_8x16_draws(col: int, s: Seq<char>, font: Seq<[u8; 16]>) -> bool
    decreases s.len(),
{
    if s.len() == 0 || col + 8 > 128 {
        false
    } else {
        glyph_index(s[0]) < font.len() || string_8x16_draws(col + 8, s.drop_first(), font)
    }
}

/// Driver for the SH1106 132x64 OLED controller.  Every I2C transfer that
/// the display needs is appended, in order, to an outgoing queue; each
/// transfer goes to `OLED_ADDR`.
pub struct Sh1106 {
    frames: Vec<Vec<u8>>,
}

impl View for Sh1106 {
    type V = Seq<Seq<u8>>;

    /// The queued transfers, oldest first.
    closed spec fn view(&self) -> Seq<Seq<u8>> {
        self.frames@.map_values(|f: Vec<u8>| f@)
    }
}

impl Sh1106 {
    /// A driver with nothing queued.
    pub fn new() -> (d: Self)
        ensures
            d@ == Seq::<Seq<u8>>::empty(),
    {
        let d = Sh1106 { frames: Vec::new() };
        assert(d@ =~= Seq::<Seq<u8>>::empty());
        d
    }

    /// Hands out the queued transfers, oldest first, and empties the queue.
    pub fn take_frames(&mut self) -> (out: Vec<Vec<u8>>)
        ensures
            out@.map_values(|f: Vec<u8>| f@) == old(self)@,
            final(self)@ == Seq::<Seq<u8>>::empty(),
    {
        let mut out: Vec<Vec<u8>> = Vec::new();
        core::mem::swap(&mut out, &mut self.frames);
        assert(self@ =~= Seq::<Seq<u8>>::empty());
        out
    }

    fn push_frame(&mut self, frame: Vec<u8>)
        ensures
            final(self)@ == old(self)@.push(frame@),
    {
        self.frames.push(frame);
        assert(self@ =~= old(self)@.push(frame@));
    }

    /// Queues the power-up command sequence: display off, addressing,
    /// contrast, scan directions, multiplex ratio, clock, DC-DC on,
    /// normal display, display on.
    pub fn init(&mut self)
        ensures
            final(self)@ == old(self)@ + cmd_frames(init_commands()),
    {
        self.write_cmd(0xAE);
        self.write_cmd(0x02);
        self.write_cmd(0x10);
        self.write_cmd(0x40);
        self.write_cmd(0xB0);
        self.write_cmd(0x81);
        self.write_cmd(0xCF);
        self.write_cmd(0xA1);
        self.write_cmd(0xC8);
        self.write_cmd(0xA8);
        self.write_cmd(0x3F);
        self.write_cmd(0xD3);
        self.write_cmd(0x00);
        self.write_cmd(0xD5);
        self.write_cmd(0x80);
        self.write_cmd(0xAD);
        self.write_cmd(0x8B);
        self.write_cmd(0xA4);
        self.write_cmd(0xA6);
        self.write_cmd(0xAF);
        assert(self@ =~= old(self)@ + cmd_frames(init_commands()));
    }

    /// Queues the commands that move the write position to `page` (taken
    /// modulo 8) and display column `col`.
    pub fn set_pos(&mut self, page: u8, col: u8)
        ensures
            final(self)@ == old(self)@ + set_pos_frames(page, col),
    {
        let c = col.saturating_add(2);
        assert(page & 0x07 == page % 8) by (bit_vector);
        assert(c & 0x0F == c % 16) by (bit_vector);
        assert(0x10 | ((c >> 4) & 0x0F) == 0x10 + c / 16) by (bit_vector);
        self.write_cmd(0xB0 + (page & 0x07));
        self.write_cmd(c & 0x0F);
        self.write_cmd(0x10 | ((c >> 4) & 0x0F));
        assert(self@ =~= old(self)@ + set_pos_frames(page, col));
    }

    /// Blanks the whole display, page by page.
    pub fn clear(&mut self)
        ensures
            final(self)@ == old(self)@ + clear_frames(8),
    {
        let mut page: u8 = 0;
        while page < 8
            invariant
                page <= 8,
                self@ == old(self)@ + clear_frames(page as nat),
            decreases 8 - page,
        {
            self.set_pos(page, 0);
            let blank = [0u8; 128];
            assert(blank@ =~= zeros(128));
            self.write_data(&blank);
            page = page + 1;
            assert(self@ =~= old(self)@ + clear_frames(page as nat));
        }
    }

    /// Blanks `len` columns of one page from `col`, cut at the right edge.
    pub fn clear_cols(&mut self, page: u8, col: u8, len: u8)
        ensures
            final(self)@ == old(self)@ + clear_cols_frames(page, col, len),
    {
        if len == 0 || col >= 128 {
            assert(self@ =~= old(self)@ + clear_cols_frames(page, col, len));
            return;
        }
        self.set_pos(page, col);
        let room: usize = 128 - col as usize;
        let max_len: usize = if room < len as usize {
            room
        } else {
            len as usize
        };
        let blank = [0u8; 128];
        let part = &blank[0..max_len];
        assert(part@ =~= zeros(max_len as nat));
        self.write_data(part);
        assert(self@ =~= old(self)@ + clear_cols_frames(page, col, len));
    }

    /// Draws one character with a 6x8 font (glyphs from the space
    /// character on) at `page`, `col`.
    pub fn draw_char_6x8(&mut self, page: u8, col: u8, ch: char, font: &[[u8; 6]])
        requires
            col + 6 <= 255,
        ensures
            final(self)@ == old(self)@ + char_6x8_frames(page, col, ch, font@),
    {
        let idx = glyph_byte(ch).saturating_sub(32) as usize;
        if idx < font.len() && col + 6 <= 128 {
            self.set_pos(page, col);
            self.write_data(&font[idx]);
        }
        assert(self@ =~= old(self)@ + char_6x8_frames(page, col, ch, font@));
    }

    /// Draws one character with an 8x16 font at `page` (upper half) and
    /// `page + 1` (lower half), column `col`.
    pub fn draw_char_8x16(&mut self, page: u8, col: u8, ch: char, font: &[[u8; 16]])
        requires
            col + 8 <= 255,
            page == 255 ==> !(glyph_index(ch) < font@.len() && col + 8 <= 128),
        ensures
            final(self)@ == old(self)@ + char_8x16_frames(page, col, ch, font@),
    {
        let idx = glyph_byte(ch).saturating_sub(32) as usize;
        if idx < font.len() && col + 8 <= 128 {
            let glyph: &[u8; 16] = &font[idx];
            self.set_pos(page, col);
            self.write_data(&glyph[0..8]);
            self.set_pos(page + 1, col);
            self.write_data(&glyph[8..16]);
        }
        assert(self@ =~= old(self)@ + char_8x16_frames(page, col, ch, font@));
    }

    /// Draws `s` with a 6x8 font from `col`, stopping at the first
    /// character that would pass the right edge.
    pub fn draw_string_6x8(&mut self, page: u8, col: u8, s: &str, font: &[[u8; 6]])
        requires
            s@.len() > 0 ==> col + 6 <= 255,
        ensures
            final(self)@ == old(self)@ + string_6x8_frames(page, col as int, s@, font@),
    {
        let n = s.unicode_len();
        let mut i: usize = 0;
        let mut c: u8 = col;
        assert(s@.skip(0) =~= s@);
        while i < n && c + 6 <= 128
            invariant
                i <= n,
                n == s@.len(),
                i < n ==> c + 6 <= 255,
                old(self)@ + string_6x8_frames(page, col as int, s@, font@) == self@
                    + string_6x8_frames(page, c as int, s@.skip(i as int), font@),
            decreases n - i,
        {
            let ch = s.get_char(i);
            proof {
                let rest = s@.skip(i as int);
                assert(rest[0] == ch);
                assert(rest.drop_first() =~= s@.skip(i + 1));
            }
            self.draw_char_6x8(page, c, ch, font);
            c = c + 6;
            i = i + 1;
        }
        assert(string_6x8_frames(page, c as int, s@.skip(i as int), font@) =~= Seq::<Seq<u8>>::empty());
        assert(self@ =~= self@ + Seq::<Seq<u8>>::empty());
    }

    /// Draws `s` with an 8x16 font from `col`, stopping at the first
    /// character that would pass the right edge.
    pub fn draw_string_8x16(&mut self, page: u8, col: u8, s: &str, font: &[[u8; 16]])
        requires
            s@.len() > 0 ==> col + 8 <= 255,
            page == 255 ==> !string_8x16_draws(col as int, s@, font@),
        ensures
            final(self)@ == old(self)@ + string_8x16_frames(page, col as int, s@, font@),
    {
        let n = s.unicode_len();
        let mut i: usize = 0;
        let mut c: u8 = col;
        assert(s@.skip(0) =~= s@);
        while i < n && c + 8 <= 128
            invariant
                i <= n,
                n == s@.len(),
                i < n ==> c + 8 <= 255,
                page == 255 ==> !string_8x16_draws(c as int, s@.skip(i as int), font@),
                old(self)@ + string_8x16_frames(page, col as int, s@, font@) == self@
                    + string_8x16_frames(page, c as int, s@.skip(i as int), font@),
            decreases n - i,
        {
            let ch = s.get_char(i);
            proof {
                let rest = s@.skip(i as int);
                assert(rest[0] == ch);
                assert(rest.drop_first() =~= s@.skip(i + 1));
            }
            self.draw_char_8x16(page, c, ch, font);
            c = c + 8;
            i = i + 1;
        }
        assert(string_8x16_frames(page, c as int, s@.skip(i as int), font@) =~= Seq::<Seq<u8>>::empty());
        assert(self@ =~= self@ + Seq::<Seq<u8>>::empty());
    }

    /// Queues one command byte.
    pub fn write_cmd(&mut self, cmd: u8)
        ensures
            final(self)@ == old(self)@.push(cmd_frame(cmd)),
    {
        let frame = vec![CONTROL_COMMAND, cmd];
        assert(frame@ =~= cmd_frame(cmd));
        self.push_frame(frame);
    }

    /// Queues display data; only the first 128 bytes are sent.
    pub fn write_data(&mut self, data: &[u8])
        ensures
            final(self)@ == old(self)@.push(data_frame(data@)),
    {
        let len: usize = if data.len() < MAX_DATA_LEN {
            data.len()
        } else {
            MAX_DATA_LEN
        };
        let mut frame: Vec<u8> = Vec::new();
        frame.push(CONTROL_DATA);
        let mut i: usize = 0;
        while i < len
            invariant
                0 <= i <= len,
                len <= data@.len(),
                len == (if data@.len() < MAX_DATA_LEN { data@.len() as int } else { MAX_DATA_LEN as int }),
                frame@ == seq![CONTROL_DATA] + data@.take(i as int),
            decreases len - i,
        {
            frame.push(data[i]);
            i = i + 1;
            assert(frame@ =~= seq![CONTROL_DATA] + data@.take(i as int));
        }
        self.push_frame(frame);
    }
}

} // verus!
