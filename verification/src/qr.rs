//! The QR code that carries the advertised URL: the symbol as a square of
//! dark and light modules, and its picture as text.
//!
//! Encoding and drawing are done by the `qrcode` crate.

use vstd::prelude::*;

verus! {

/// Side of the largest QR symbol, in modules.
pub const MAX_WIDTH: usize = 177;

/// Side of the smallest QR symbol, in modules.
pub const MIN_QR_WIDTH: usize = 21;

/// Side of the largest symbol that `QrMatrix::encode` makes, in modules: that
/// of a version 9 symbol, which holds 180 bytes.
pub const MAX_ENCODED_SIDE: i16 = 53;

/// Width of the picture of one module, in characters.
pub const CELL_WIDTH: u32 = 2;

/// Height of the picture of one module, in lines.
pub const CELL_HEIGHT: u32 = 1;

/// Why a text could not be made into a QR symbol.
#[derive(Clone, Copy, Debug, PartialEq, Eq, Structural)]
pub enum EncodeError {
    /// The data does not fit into the largest symbol that is made.
    DataTooLong,
    /// Version and error correction level do not go together.
    InvalidVersion,
    /// The symbol's version cannot hold some character of the data.
    UnsupportedCharacterSet,
    /// The ECI designator is out of range.
    InvalidEciDesignator,
    /// A character is outside the character set.
    InvalidCharacter,
}

/// A square of modules: its side, and the modules row by row, `true` for dark.
pub struct Symbol {
    pub width: nat,
    pub modules: Seq<bool>,
}

/// The character that pictures a module.
pub open spec fn cell_char(dark: bool) -> char {
    if dark {
        '\u{2588}'
    } else {
        ' '
    }
}

impl Symbol {
    /// The side is between one and `MAX_WIDTH`, and there is one module for
    /// each place of the square.
    pub open spec fn wf(self) -> bool {
        &&& 1 <= self.width <= MAX_WIDTH
        &&& self.modules.len() == self.width * self.width
    }

    /// Whether the module in column `x` of row `y` is dark.
    pub open spec fn dark(self, x: int, y: int) -> bool {
        self.modules[y * self.width + x]
    }

    /// Length of one line of the picture, the newline that ends it included.
    pub open spec fn stride(self) -> int {
        (2 * self.width + 1) as int
    }

    /// The picture of the symbol: one line for each row, two equal
    /// characters for each module, a newline between lines and none at the
    /// end, and nothing around the symbol.
    pub open spec fn text(self) -> Seq<char> {
        Seq::new(
            (self.width * self.stride() - 1) as nat,
            |i: int|
                if i % self.stride() == 2 * self.width {
                    '\n'
                } else {
                    cell_char(self.dark((i % self.stride()) / 2, i / self.stride()))
                },
        )
    }
}

/// Whether the place in column `x` of row `y` of a bordered picture, counted
/// in modules, holds a dark module. The border is light.
pub open spec fn picture_dark(modules: Seq<bool>, width: nat, border: nat, x: int, y: int) -> bool {
    &&& border <= x < border + width
    &&& border <= y < border + width
    &&& modules[(y - border) * width + (x - border)]
}

/// The text picture of a square of modules with a light border of `border`
/// modules on each side, each module drawn `cell_w` characters wide and
/// `cell_h` lines high; lines are separated by a newline.
pub open spec fn text_art(modules: Seq<bool>, width: nat, border: nat, cell_w: nat, cell_h: nat) -> Seq<
    char,
> {
    let cols = ((width + 2 * border) * cell_w) as int;
    let rows = ((width + 2 * border) * cell_h) as int;
    Seq::new(
        (rows * (cols + 1) - 1) as nat,
        |i: int|
            if i % (cols + 1) == cols {
                '\n'
            } else {
                cell_char(
                    picture_dark(
                        modules,
                        width,
                        border,
                        (i % (cols + 1)) / (cell_w as int),
                        (i / (cols + 1)) / (cell_h as int),
                    ),
                )
            },
    )
}

/// The side of the symbol that `qrcode::bits::encode_auto` picks for a text
/// at the medium error correction level, in modules; `None` where it picks
/// none.
pub uninterp spec fn qr_side(data: Seq<char>) -> Option<i16>;

/// What `qrcode::QrCode::new` returns for a text: the symbol's side and its
/// modules row by row, `true` for a dark one, or the reason why there is no
/// symbol.
pub uninterp spec fn qr_symbol(data: Seq<char>) -> Result<(nat, Seq<bool>), EncodeError>;

/// Whether the symbol for a text would be larger than `encode` makes.
pub open spec fn too_large(data: Seq<char>) -> bool {
    qr_side(data) matches Some(side) && side > MAX_ENCODED_SIDE
}

/// Calls `qrcode::bits::encode_auto` on the bytes of `data`, at the medium
/// error correction level, which is the level of `qrcode::QrCode::new`, then
/// `version` and `width` on the bits. The result is a function of `data`
/// alone. No symbol is drawn.
#[verifier::external_body]
fn pick_side(data: &str) -> (side: Option<i16>)
    ensures
        side == qr_side(data@),
{
    qrcode::bits::encode_auto(data.as_bytes(), qrcode::EcLevel::M).ok().map(
        |bits| bits.version().width(),
    )
}

/// Calls `qrcode::QrCode::new` on the bytes of `data`, then `width` and
/// `into_colors` on the symbol. The result is a function of `data` alone.
///
/// `new` encodes with `encode_auto` at the medium level and draws a symbol of
/// the side picked there; where `encode_auto` fails it draws nothing and
/// fails. The symbol is a normal QR code of version 1 to 40, so its side is
/// between 21 and 177 modules, and it has one module for each place.
///
/// To choose a mask, `new` adds up penalty scores in 16 bits. On a symbol of
/// side 53 the sum stays below 65,536: a line of 53 modules scores at most 53
/// for runs, and in it at most 12 places, four modules apart, can show the
/// finder-like pattern, at 40 each; over the 53 rows and 53 columns that is
/// at most 2 * 2,809 + 2 * 25,440. Blocks score at most 3 * 2,809 and balance
/// at most 100, in all at most 65,025. Smaller symbols score less. Larger
/// ones are left out. The 360 that `new` takes off each finder score is what
/// the three finder patterns of every symbol score there.
#[verifier::external_body]
fn encode_symbol(data: &str) -> (r: Result<(usize, Vec<bool>), EncodeError>)
    requires
        !too_large(data@),
    ensures
        match r {
            Ok(s) => {
                &&& qr_symbol(data@) == Ok::<(nat, Seq<bool>), EncodeError>((s.0 as nat, s.1@))
                &&& qr_side(data@) matches Some(side) && side == s.0
                &&& MIN_QR_WIDTH <= s.0 <= MAX_WIDTH
                &&& s.1@.len() == s.0 * s.0
            },
            Err(e) => qr_symbol(data@) == Err::<(nat, Seq<bool>), EncodeError>(e),
        },
{
    match qrcode::QrCode::new(data) {
        Ok(code) => Ok(
            (code.width(), code.into_colors().into_iter().map(|c| c.select(true, false)).collect()),
        ),
        Err(qrcode::types::QrError::DataTooLong) => Err(EncodeError::DataTooLong),
        Err(qrcode::types::QrError::InvalidVersion) => Err(EncodeError::InvalidVersion),
        Err(qrcode::types::QrError::UnsupportedCharacterSet) => Err(
            EncodeError::UnsupportedCharacterSet,
        ),
        Err(qrcode::types::QrError::InvalidEciDesignator) => Err(EncodeError::InvalidEciDesignator),
        Err(qrcode::types::QrError::InvalidCharacter) => Err(EncodeError::InvalidCharacter),
    }
}

/// Calls `qrcode::render::Renderer::<char>`: `new` on the modules with a
/// quiet zone of `border`, `module_dimensions`, and `build`. The renderer
/// fills a picture of light characters, draws each dark module as a
/// rectangle of dark ones, and joins the lines with newlines. The bounds
/// keep its arithmetic on picture sizes within 32 bits.
#[verifier::external_body]
fn render_text(modules: &Vec<bool>, width: usize, border: u32, cell_w: u32, cell_h: u32) -> (text:
    String)
    requires
        modules@.len() == width * width,
        cell_w >= 1,
        cell_h >= 1,
        1 <= (width + 2 * border) * cell_w <= 0x4000,
        1 <= (width + 2 * border) * cell_h <= 0x4000,
    ensures
        text@ == text_art(modules@, width as nat, border as nat, cell_w as nat, cell_h as nat),
{
    let colors: Vec<qrcode::Color> = modules.iter().map(
        |dark| if *dark { qrcode::Color::Dark } else { qrcode::Color::Light },
    ).collect();
    qrcode::render::Renderer::<char>::new(&colors, width, border).module_dimensions(
        cell_w,
        cell_h,
    ).build()
}

/// A QR symbol held as plain values.
pub struct QrMatrix {
    width: usize,
    modules: Vec<bool>,
}

impl View for QrMatrix {
    type V = Symbol;

    closed spec fn view(&self) -> Symbol {
        Symbol { width: self.width as nat, modules: self.modules@ }
    }
}

/// What `encode` owes for a text. Where the symbol would be larger than
/// `MAX_ENCODED_SIDE`, the refusal `DataTooLong`. Elsewhere the symbol that
/// the encoder makes for the text, well formed and of the side picked for
/// it, or the encoder's reason for refusing.
pub open spec fn encodes(data: Seq<char>, r: Result<QrMatrix, EncodeError>) -> bool {
    if too_large(data) {
        r == Err::<QrMatrix, EncodeError>(EncodeError::DataTooLong)
    } else {
        match r {
            Ok(m) => {
                &&& qr_symbol(data) == Ok::<(nat, Seq<bool>), EncodeError>((m@.width, m@.modules))
                &&& qr_side(data) matches Some(side) && side == m@.width
                &&& m@.wf()
                &&& MIN_QR_WIDTH <= m@.width <= MAX_ENCODED_SIDE
            },
            Err(e) => qr_symbol(data) == Err::<(nat, Seq<bool>), EncodeError>(e),
        }
    }
}

/// What `connect_code` owes for a text. Where the symbol would be larger
/// than `MAX_ENCODED_SIDE`, the refusal `DataTooLong`. Elsewhere the picture
/// of the symbol that the encoder makes for the text, or the encoder's
/// reason for refusing.
pub open spec fn pictures(data: Seq<char>, r: Result<String, EncodeError>) -> bool {
    if too_large(data) {
        r == Err::<String, EncodeError>(EncodeError::DataTooLong)
    } else {
        match qr_symbol(data) {
            Ok(s) => r matches Ok(text) && text@ == (Symbol { width: s.0, modules: s.1 }).text(),
            Err(e) => r == Err::<String, EncodeError>(e),
        }
    }
}

impl QrMatrix {
    #[verifier::type_invariant]
    spec fn inv(&self) -> bool {
        self@.wf()
    }

    /// A symbol of side `width` from its modules, row by row. `None` unless
    /// the side is between one and `MAX_WIDTH` and there are `width * width`
    /// modules.
    pub fn new(width: usize, modules: Vec<bool>) -> (r: Option<QrMatrix>)
        ensures
            r is Some <==> 1 <= width <= MAX_WIDTH && modules@.len() == width * width,
            r matches Some(m) ==> m@ == (Symbol { width: width as nat, modules: modules@ }),
    {
        if 1 <= width && width <= MAX_WIDTH {
            assert(width * width <= MAX_WIDTH * MAX_WIDTH) by (nonlinear_arith)
                requires
                    width <= MAX_WIDTH,
            ;
            if modules.len() == width * width {
                return Some(QrMatrix { width, modules });
            }
        }
        None
    }

    /// The side of the symbol, in modules.
    pub fn width(&self) -> (w: usize)
        ensures
            w == self@.width,
            self@.wf(),
    {
        proof {
            use_type_invariant(self);
        }
        self.width
    }

    /// The modules, row by row; `true` is dark.
    pub fn modules(&self) -> (cells: &Vec<bool>)
        ensures
            cells@ == self@.modules,
            self@.wf(),
    {
        proof {
            use_type_invariant(self);
        }
        &self.modules
    }

    /// The symbol for `data`, at the medium error correction level and in
    /// the smallest version that holds it. Data that needs a symbol of a
    /// side above `MAX_ENCODED_SIDE` is refused as too long.
    pub fn encode(data: &str) -> (r: Result<QrMatrix, EncodeError>)
        ensures
            encodes(data@, r),
    {
        if let Some(side) = pick_side(data) {
            if side > MAX_ENCODED_SIDE {
                return Err(EncodeError::DataTooLong);
            }
        }
        match encode_symbol(data) {
            Ok((width, modules)) => Ok(QrMatrix { width, modules }),
            Err(e) => Err(e),
        }
    }

    /// The picture of the symbol as text: a full block for a dark module and
    /// a space for a light one, each twice, one line for each row.
    pub fn render(&self) -> (text: String)
        ensures
            text@ == self@.text(),
            self@.wf(),
    {
        proof {
            use_type_invariant(self);
            lemma_text_art_of_symbol(self@);
        }
        render_text(&self.modules, self.width, 0, CELL_WIDTH, CELL_HEIGHT)
    }
}

/// The picture of the symbol that encodes `data`.
pub fn connect_code(data: &str) -> (r: Result<String, EncodeError>)
    ensures
        pictures(data@, r),
{
    match QrMatrix::encode(data) {
        Ok(m) => Ok(m.render()),
        Err(e) => Err(e),
    }
}

/// Without a border and with cells two characters wide and one line high,
/// the general picture is the symbol's text.
proof fn lemma_text_art_of_symbol(s: Symbol)
    requires
        s.wf(),
    ensures
        text_art(s.modules, s.width, 0, CELL_WIDTH as nat, CELL_HEIGHT as nat) == s.text(),
{
    let w = s.width as int;
    let n = s.stride();
    let a = text_art(s.modules, s.width, 0, CELL_WIDTH as nat, CELL_HEIGHT as nat);
    let b = s.text();
    let cols = ((s.width + 2 * 0) * (CELL_WIDTH as nat)) as int;
    let rows = ((s.width + 2 * 0) * (CELL_HEIGHT as nat)) as int;
    assert(cols + 1 == n && rows == w);
    assert(rows * (cols + 1) == w * (2 * w + 1));
    assert(w * (2 * w + 1) >= 1) by (nonlinear_arith)
        requires
            w >= 1,
    ;
    assert(a.len() == w * (2 * w + 1) - 1 == b.len());
    assert forall|i: int| 0 <= i < a.len() implies a[i] == b[i] by {
        lemma_place(w, i);
        assert((i / n) / 1 == i / n);
    }
    assert(a =~= b);
}

/// Where the `i`-th character of a picture of side `w` lies: its line and its
/// place in the line are within the picture, and the last line has no newline.
proof fn lemma_place(w: int, i: int)
    requires
        1 <= w,
        0 <= i < w * (2 * w + 1) - 1,
    ensures
        0 <= i / (2 * w + 1) < w,
        0 <= i % (2 * w + 1) <= 2 * w,
        i == (i / (2 * w + 1)) * (2 * w + 1) + i % (2 * w + 1),
{
    let n = 2 * w + 1;
    vstd::arithmetic::div_mod::lemma_fundamental_div_mod(i, n);
    vstd::arithmetic::div_mod::lemma_div_pos_is_pos(i, n);
    let q = i / n;
    assert(n * q == q * n) by (nonlinear_arith);
    if q >= w {
        assert(q * n >= w * n) by (nonlinear_arith)
            requires
                q >= w,
                n > 0,
        ;
    }
}

/// In the symbol's text, the module in column `x` of row `y` is pictured by
/// the two characters at `2 * x` and `2 * x + 1` of line `y`, every line but
/// the last ends in a newline, and the text holds nothing else.
pub proof fn lemma_text_layout(s: Symbol, x: int, y: int)
    requires
        s.wf(),
        0 <= x < s.width,
        0 <= y < s.width,
    ensures
        s.text().len() == s.width * s.stride() - 1,
        0 <= y * s.stride() + 2 * x + 1 < s.text().len(),
        s.text()[y * s.stride() + 2 * x] == cell_char(s.dark(x, y)),
        s.text()[y * s.stride() + 2 * x + 1] == cell_char(s.dark(x, y)),
        y + 1 < s.width ==> s.text()[y * s.stride() + 2 * s.width] == '\n',
{
    let w = s.width as int;
    let n = s.stride();
    assert(y * n + n <= w * n) by (nonlinear_arith)
        requires
            y + 1 <= w,
            n > 0,
    ;
    assert(0 <= y * n) by (nonlinear_arith)
        requires
            0 <= y,
            n > 0,
    ;
    vstd::arithmetic::div_mod::lemma_fundamental_div_mod_converse(y * n + 2 * x, n, y, 2 * x);
    vstd::arithmetic::div_mod::lemma_fundamental_div_mod_converse(
        y * n + 2 * x + 1,
        n,
        y,
        2 * x + 1,
    );
    if y + 1 < w {
        assert(y * n + n + n <= w * n) by (nonlinear_arith)
            requires
                y + 2 <= w,
                n > 0,
        ;
        vstd::arithmetic::div_mod::lemma_fundamental_div_mod_converse(y * n + 2 * w, n, y, 2 * w);
    }
}

/// Every character of the symbol's text is a full block, a space or a
/// newline.
pub proof fn lemma_text_symbols(s: Symbol, i: int)
    requires
        s.wf(),
        0 <= i < s.text().len(),
    ensures
        s.text()[i] == '\u{2588}' || s.text()[i] == ' ' || s.text()[i] == '\n',
{
}

/// Encoding the same text twice gives the same outcome: the same symbol,
/// with the same picture, or the same refusal.
pub proof fn lemma_encode_deterministic(
    data: Seq<char>,
    a: Result<QrMatrix, EncodeError>,
    b: Result<QrMatrix, EncodeError>,
)
    requires
        encodes(data, a),
        encodes(data, b),
    ensures
        a is Ok <==> b is Ok,
        a matches Ok(x) ==> b matches Ok(y) && x@ == y@ && x@.text() == y@.text(),
        a matches Err(e) ==> b == Err::<QrMatrix, EncodeError>(e),
{
}

/// Picturing the same text twice gives the same outcome: the same text
/// block, or the same refusal.
pub proof fn lemma_connect_code_deterministic(
    data: Seq<char>,
    a: Result<String, EncodeError>,
    b: Result<String, EncodeError>,
)
    requires
        pictures(data, a),
        pictures(data, b),
    ensures
        a is Ok <==> b is Ok,
        a matches Ok(s) ==> b matches Ok(t) && s@ == t@,
        a matches Err(e) ==> b == Err::<String, EncodeError>(e),
{
}

} // verus!
