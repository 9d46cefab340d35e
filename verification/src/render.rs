//! Pages, layers and the recorded backend command stream.
//!
//! A [`Renderer`] owns an ordered list of [`Page`]s; every page owns an
//! ordered list of layers.  Drawing never talks to the document backend
//! directly: each layer records the backend calls it wants as a list of
//! [`Command`] values with plain integer coordinates, and an unverified
//! shell replays that list against the real backend when the document is
//! written.  A layer also caches the last fill color, outline color and
//! outline thickness it recorded, so that setting the same value twice
//! issues exactly one command.

use vstd::arithmetic::div_mod::{
    lemma_div_is_ordered, lemma_div_multiples_vanish, lemma_div_multiples_vanish_fancy,
    lemma_fundamental_div_mod, lemma_mod_bound,
};
use vstd::arithmetic::mul::lemma_mul_inequality;
use vstd::prelude::*;
use vstd::string::{StrSliceExecFns, StringExecFns};

use crate::backend;
use crate::backend::win_ansi_encode;
use crate::error::{Error, ErrorKind};
use crate::fonts::{FontCache, Metrics, TextShaping};
use crate::style::Color;
use crate::{Margins, Mm, Position, Rotation, Scale, Size, MAX_UM};

verus! {

/// The outline thickness every layer starts with: one typographic point,
/// rounded to thousandths of a millimeter.
pub const DEFAULT_OUTLINE_THICKNESS_UM: i64 = 353;

/// One recorded backend call.  Positions are in the backend's user space
/// (origin at the lower left corner of the page), in thousandths of a
/// millimeter.
#[derive(Debug)]
pub enum Command {
    SetFillColor(Color),
    SetOutlineColor(Color),
    SetOutlineThickness(Mm),
    AddLineShape { points: Vec<Position>, is_closed: bool },
    SetTextCursor(Position),
    BeginTextSection,
    EndTextSection,
    AddLineBreak,
    SetLineHeight(Mm),
    SetFont { font: usize, size: u8 },
    WritePositionedCodepoints { positions: Vec<i64>, codepoints: Vec<u16> },
    AddImage {
        image: printpdf::image_crate::DynamicImage,
        position: Position,
        scale: Scale,
        rotation_ccw_millidegrees: i64,
        dpi_milli: Option<i64>,
    },
}

/// The fill color a request stands for: an explicit color, or black when
/// none is given.
pub open spec fn spec_effective_fill(color: Option<Color>) -> Color {
    match color {
        Some(c) => c,
        None => Color::Rgb(0, 0, 0),
    }
}

/// The decimal digit character for a value between 0 and 9.
pub open spec fn spec_digit_char(d: int) -> char {
    if d == 0 { '0' }
    else if d == 1 { '1' }
    else if d == 2 { '2' }
    else if d == 3 { '3' }
    else if d == 4 { '4' }
    else if d == 5 { '5' }
    else if d == 6 { '6' }
    else if d == 7 { '7' }
    else if d == 8 { '8' }
    else { '9' }
}

/// The decimal digits of a non-negative number, most significant first.
pub open spec fn spec_decimal(n: int) -> Seq<char>
    decreases n,
{
    if n < 10 {
        seq![spec_digit_char(n)]
    } else {
        spec_decimal(n / 10).push(spec_digit_char(n % 10))
    }
}

/// The automatic name of the `n`-th layer of a page.
pub open spec fn spec_layer_name(n: int) -> Seq<char> {
    "Layer "@ + spec_decimal(n)
}

fn digit_str(d: u64) -> (r: &'static str)
    requires
        d < 10,
    ensures
        r@ == seq![spec_digit_char(d as int)],
{
    proof {
        reveal_strlit("0");
        reveal_strlit("1");
        reveal_strlit("2");
        reveal_strlit("3");
        reveal_strlit("4");
        reveal_strlit("5");
        reveal_strlit("6");
        reveal_strlit("7");
        reveal_strlit("8");
        reveal_strlit("9");
    }
    let r = match d {
        0 => "0",
        1 => "1",
        2 => "2",
        3 => "3",
        4 => "4",
        5 => "5",
        6 => "6",
        7 => "7",
        8 => "8",
        _ => "9",
    };
    proof {
        assert(r@ =~= seq![spec_digit_char(d as int)]);
    }
    r
}

/// Renders a non-negative number as its decimal digits.
fn decimal_string(n: u64) -> (r: String)
    ensures
        r@ == spec_decimal(n as int),
    decreases n,
{
    if n < 10 {
        digit_str(n).to_owned()
    } else {
        proof {
            assert(n / 10 < n) by (nonlinear_arith)
                requires n >= 10;
        }
        let mut s = decimal_string(n / 10);
        let d = digit_str(n % 10);
        s.append(d);
        proof {
            assert(s@ =~= spec_decimal(n as int));
        }
        s
    }
}

/// Builds the automatic name of the `n`-th layer of a page.
fn layer_name_string(n: u64) -> (r: String)
    ensures
        r@ == spec_layer_name(n as int),
{
    let mut s = String::from_str("Layer ");
    let d = decimal_string(n);
    s.append(d.as_str());
    s
}

/// One layer of a page: its name, the cache of the last recorded drawing
/// state, and the recorded backend commands.
#[derive(Debug)]
pub struct LayerData {
    name: String,
    fill_color: Color,
    outline_color: Color,
    outline_thickness: Mm,
    commands: Vec<Command>,
}

impl LayerData {
    /// The layer's name.
    pub closed spec fn spec_name(&self) -> Seq<char> {
        self.name@
    }

    /// The last recorded fill color.
    pub closed spec fn spec_fill_color(&self) -> Color {
        self.fill_color
    }

    /// The last recorded outline color.
    pub closed spec fn spec_outline_color(&self) -> Color {
        self.outline_color
    }

    /// The last recorded outline thickness.
    pub closed spec fn spec_outline_thickness(&self) -> Mm {
        self.outline_thickness
    }

    /// The recorded backend commands, oldest first.
    pub closed spec fn spec_commands(&self) -> Seq<Command> {
        self.commands@
    }

    /// Whether two layer values agree on name and cached state (the
    /// recorded commands may differ).
    pub open spec fn spec_same_cache(a: LayerData, b: LayerData) -> bool {
        a.spec_name() == b.spec_name() && a.spec_fill_color() == b.spec_fill_color()
            && a.spec_outline_color() == b.spec_outline_color() && a.spec_outline_thickness()
            == b.spec_outline_thickness()
    }

    /// A fresh layer: black fill and outline, default outline thickness,
    /// no recorded commands.
    pub fn new(name: String) -> (r: LayerData)
        ensures
            r.spec_name() == name@,
            r.spec_fill_color() == Color::Rgb(0, 0, 0),
            r.spec_outline_color() == Color::Rgb(0, 0, 0),
            r.spec_outline_thickness() == Mm(DEFAULT_OUTLINE_THICKNESS_UM),
            r.spec_commands() == Seq::<Command>::empty(),
    {
        LayerData {
            name,
            fill_color: Color::Rgb(0, 0, 0),
            outline_color: Color::Rgb(0, 0, 0),
            outline_thickness: Mm(DEFAULT_OUTLINE_THICKNESS_UM),
            commands: Vec::new(),
        }
    }

    /// The layer's name.
    pub fn name(&self) -> (r: &String)
        ensures
            r@ == self.spec_name(),
    {
        &self.name
    }

    /// The recorded backend commands.
    pub fn commands(&self) -> (r: &Vec<Command>)
        ensures
            r@ == self.spec_commands(),
    {
        &self.commands
    }

    /// The number of recorded backend commands.
    pub fn command_count(&self) -> (r: usize)
        ensures
            r == self.spec_commands().len(),
    {
        self.commands.len()
    }

    /// Stores the requested fill color in the cache and reports whether it
    /// differed from the cached one.
    pub fn update_fill_color(&mut self, color: Option<Color>) -> (r: bool)
        ensures
            final(self).spec_fill_color() == spec_effective_fill(color),
            r == (old(self).spec_fill_color() != spec_effective_fill(color)),
            final(self).spec_name() == old(self).spec_name(),
            final(self).spec_outline_color() == old(self).spec_outline_color(),
            final(self).spec_outline_thickness() == old(self).spec_outline_thickness(),
            final(self).spec_commands() == old(self).spec_commands(),
    {
        let effective = match color {
            Some(c) => c,
            None => Color::Rgb(0, 0, 0),
        };
        let changed = self.fill_color != effective;
        self.fill_color = effective;
        changed
    }

    /// Stores the requested outline color in the cache and reports whether
    /// it differed from the cached one.
    pub fn update_outline_color(&mut self, color: Color) -> (r: bool)
        ensures
            final(self).spec_outline_color() == color,
            r == (old(self).spec_outline_color() != color),
            final(self).spec_name() == old(self).spec_name(),
            final(self).spec_fill_color() == old(self).spec_fill_color(),
            final(self).spec_outline_thickness() == old(self).spec_outline_thickness(),
            final(self).spec_commands() == old(self).spec_commands(),
    {
        let changed = self.outline_color != color;
        self.outline_color = color;
        changed
    }

    /// Stores the requested outline thickness in the cache and reports
    /// whether it differed from the cached one.
    pub fn update_outline_thickness(&mut self, thickness: Mm) -> (r: bool)
        ensures
            final(self).spec_outline_thickness() == thickness,
            r == (old(self).spec_outline_thickness() != thickness),
            final(self).spec_name() == old(self).spec_name(),
            final(self).spec_fill_color() == old(self).spec_fill_color(),
            final(self).spec_outline_color() == old(self).spec_outline_color(),
            final(self).spec_commands() == old(self).spec_commands(),
    {
        let changed = self.outline_thickness != thickness;
        self.outline_thickness = thickness;
        changed
    }

    /// Records a fill color change, unless the requested color (black when
    /// none is given) is already the cached one: then nothing is recorded.
    pub fn set_fill_color(&mut self, color: Option<Color>)
        ensures
            final(self).spec_fill_color() == spec_effective_fill(color),
            final(self).spec_name() == old(self).spec_name(),
            final(self).spec_outline_color() == old(self).spec_outline_color(),
            final(self).spec_outline_thickness() == old(self).spec_outline_thickness(),
            old(self).spec_fill_color() == spec_effective_fill(color)
                ==> final(self).spec_commands() == old(self).spec_commands(),
            old(self).spec_fill_color() != spec_effective_fill(color)
                ==> final(self).spec_commands() == old(self).spec_commands().push(
                Command::SetFillColor(spec_effective_fill(color)),
            ),
    {
        if self.update_fill_color(color) {
            let c = self.fill_color;
            self.commands.push(Command::SetFillColor(c));
        }
    }

    /// Records an outline color change, unless the requested color is
    /// already the cached one: then nothing is recorded.
    pub fn set_outline_color(&mut self, color: Color)
        ensures
            final(self).spec_outline_color() == color,
            final(self).spec_name() == old(self).spec_name(),
            final(self).spec_fill_color() == old(self).spec_fill_color(),
            final(self).spec_outline_thickness() == old(self).spec_outline_thickness(),
            old(self).spec_outline_color() == color
                ==> final(self).spec_commands() == old(self).spec_commands(),
            old(self).spec_outline_color() != color
                ==> final(self).spec_commands() == old(self).spec_commands().push(
                Command::SetOutlineColor(color),
            ),
    {
        if self.update_outline_color(color) {
            self.commands.push(Command::SetOutlineColor(color));
        }
    }

    /// Records an outline thickness change, unless the requested thickness
    /// is already the cached one: then nothing is recorded.
    pub fn set_outline_thickness(&mut self, thickness: Mm)
        ensures
            final(self).spec_outline_thickness() == thickness,
            final(self).spec_name() == old(self).spec_name(),
            final(self).spec_fill_color() == old(self).spec_fill_color(),
            final(self).spec_outline_color() == old(self).spec_outline_color(),
            old(self).spec_outline_thickness() == thickness ==> final(self).spec_commands()
                == old(self).spec_commands(),
            old(self).spec_outline_thickness() != thickness ==> final(self).spec_commands()
                == old(self).spec_commands().push(Command::SetOutlineThickness(thickness)),
    {
        if self.update_outline_thickness(thickness) {
            self.commands.push(Command::SetOutlineThickness(thickness));
        }
    }

    /// Records the start of a text section.
    pub fn begin_text_section(&mut self)
        ensures
            LayerData::spec_same_cache(*old(self), *final(self)),
            final(self).spec_commands() == old(self).spec_commands().push(
                Command::BeginTextSection,
            ),
    {
        self.commands.push(Command::BeginTextSection);
    }

    /// Records the end of a text section.
    pub fn end_text_section(&mut self)
        ensures
            LayerData::spec_same_cache(*old(self), *final(self)),
            final(self).spec_commands() == old(self).spec_commands().push(
                Command::EndTextSection,
            ),
    {
        self.commands.push(Command::EndTextSection);
    }

    /// Records a line break within a text section.
    pub fn add_line_break(&mut self)
        ensures
            LayerData::spec_same_cache(*old(self), *final(self)),
            final(self).spec_commands() == old(self).spec_commands().push(Command::AddLineBreak),
    {
        self.commands.push(Command::AddLineBreak);
    }

    /// Records the line height used for subsequent line breaks.
    pub fn set_line_height(&mut self, line_height: Mm)
        ensures
            LayerData::spec_same_cache(*old(self), *final(self)),
            final(self).spec_commands() == old(self).spec_commands().push(
                Command::SetLineHeight(line_height),
            ),
    {
        self.commands.push(Command::SetLineHeight(line_height));
    }

    /// Records the active font and font size for subsequent text.
    pub fn set_font(&mut self, font: usize, size: u8)
        ensures
            LayerData::spec_same_cache(*old(self), *final(self)),
            final(self).spec_commands() == old(self).spec_commands().push(
                Command::SetFont { font, size },
            ),
    {
        self.commands.push(Command::SetFont { font, size });
    }

    /// Records the text cursor position, already transformed to user space.
    pub fn set_text_cursor(&mut self, cursor: Position)
        ensures
            LayerData::spec_same_cache(*old(self), *final(self)),
            final(self).spec_commands() == old(self).spec_commands().push(
                Command::SetTextCursor(cursor),
            ),
    {
        self.commands.push(Command::SetTextCursor(cursor));
    }

    /// Records glyphs with per-glyph spacing adjustments, in thousandths of
    /// the font size; negative values tighten the spacing.
    pub fn write_positioned_codepoints(&mut self, positions: Vec<i64>, codepoints: Vec<u16>)
        ensures
            LayerData::spec_same_cache(*old(self), *final(self)),
            final(self).spec_commands() == old(self).spec_commands().push(
                Command::WritePositionedCodepoints { positions, codepoints },
            ),
    {
        self.commands.push(Command::WritePositionedCodepoints { positions, codepoints });
    }

    /// Records one open polyline through the given user-space points.
    pub fn add_line_shape(&mut self, points: Vec<Position>)
        ensures
            LayerData::spec_same_cache(*old(self), *final(self)),
            final(self).spec_commands() == old(self).spec_commands().push(
                Command::AddLineShape { points, is_closed: false },
            ),
    {
        self.commands.push(Command::AddLineShape { points, is_closed: false });
    }

    /// Records an image placement: the user-space position of its lower
    /// left corner, its scale, its counter-clockwise rotation (the backend's
    /// convention) and an optional resolution in thousandths of dots per
    /// inch.
    pub fn add_image_command(
        &mut self,
        image: printpdf::image_crate::DynamicImage,
        position: Position,
        scale: Scale,
        rotation_ccw_millidegrees: i64,
        dpi_milli: Option<i64>,
    )
        ensures
            LayerData::spec_same_cache(*old(self), *final(self)),
            final(self).spec_commands() == old(self).spec_commands().push(
                Command::AddImage {
                    image,
                    position,
                    scale,
                    rotation_ccw_millidegrees,
                    dpi_milli,
                },
            ),
    {
        self.commands.push(
            Command::AddImage { image, position, scale, rotation_ccw_millidegrees, dpi_milli },
        );
    }
}

/// Encodes a string for a built-in font using the Windows-1252 single-byte
/// encoding.  Because the encoding drops characters outside its repertoire,
/// the string is encodable exactly when the backend returns one byte per
/// character; otherwise this fails with [`ErrorKind::UnsupportedEncoding`]
/// and an error message naming the string.
pub fn encode_win1252(s: &str) -> (r: Result<Vec<u16>, Error>)
    ensures
        r is Ok <==> win_ansi_encode(s@).len() == s@.len(),
        r is Ok ==> r->Ok_0@.len() == s@.len(),
        r is Ok ==> forall|i: int|
            0 <= i < s@.len() ==> r->Ok_0@[i] == win_ansi_encode(s@)[i] as u16,
        r is Err ==> r->Err_0.spec_kind() == ErrorKind::UnsupportedEncoding,
        r is Err ==> r->Err_0.spec_msg() == (
        "Tried to print a string with characters that are not supported by the Windows-1252 encoding with a built-in font: "
        )@ + s@,
{
    let bytes = backend::encode_text_win_ansi(s);
    if bytes.len() != s.unicode_len() {
        let mut msg = String::from_str(
            "Tried to print a string with characters that are not supported by the Windows-1252 encoding with a built-in font: ",
        );
        msg.append(s);
        Err(Error::new(msg, ErrorKind::UnsupportedEncoding))
    } else {
        let mut out: Vec<u16> = Vec::new();
        let mut i: usize = 0;
        while i < bytes.len()
            invariant
                i <= bytes@.len(),
                bytes@ == win_ansi_encode(s@),
                bytes@.len() == s@.len(),
                out@.len() == i,
                forall|j: int| 0 <= j < i ==> out@[j] == bytes@[j] as u16,
            decreases bytes@.len() - i,
        {
            let b = bytes[i];
            out.push(b as u16);
            i = i + 1;
        }
        Ok(out)
    }
}

/// A page of a document: its size and its ordered, append-only list of
/// layers.  A page always has at least one layer.
#[derive(Debug)]
pub struct Page {
    size: Size,
    layers: Vec<LayerData>,
}

/// A handle to one layer of a page: the page's size and the layer's index
/// into the page's layer list.  The handle carries no data of its own; all
/// recorded state lives in the page's [`LayerData`].
#[derive(Clone, Copy, PartialEq, Eq, Structural, Debug)]
pub struct Layer {
    pub page_size: Size,
    pub layer_idx: usize,
}

/// Whether a freshly created page value has the given size, exactly one
/// layer with the automatic first-layer name, no recorded commands and the
/// default state cache.
pub open spec fn spec_fresh_page(p: Page, size: Size) -> bool {
    &&& p.spec_size() == size
    &&& p.spec_layers().len() == 1
    &&& p.spec_layers()[0].spec_name() == spec_layer_name(1)
    &&& p.spec_layers()[0].spec_commands() == Seq::<Command>::empty()
    &&& p.spec_layers()[0].spec_fill_color() == Color::Rgb(0, 0, 0)
    &&& p.spec_layers()[0].spec_outline_color() == Color::Rgb(0, 0, 0)
    &&& p.spec_layers()[0].spec_outline_thickness() == Mm(DEFAULT_OUTLINE_THICKNESS_UM)
}

/// Whether `new_page` comes from `old_page` by a "next layer" step from the
/// layer at `idx`, with `r` the resulting layer handle: if a next layer
/// already exists the page is unchanged and `r` points at it; otherwise one
/// auto-named layer was appended and `r` points at that new layer.
pub open spec fn spec_next_layer_post(old_page: Page, new_page: Page, idx: int, r: Layer) -> bool {
    &&& new_page.spec_size() == old_page.spec_size()
    &&& r.page_size == old_page.spec_size()
    &&& r.layer_idx == idx + 1
    &&& idx + 1 < old_page.spec_layers().len() ==> new_page == old_page
    &&& idx + 1 == old_page.spec_layers().len() ==> {
        &&& new_page.spec_layers().len() == old_page.spec_layers().len() + 1
        &&& (forall|i: int|
            0 <= i < old_page.spec_layers().len() ==> new_page.spec_layers()[i]
                == old_page.spec_layers()[i])
        &&& new_page.spec_layers().last().spec_name() == spec_layer_name(
            old_page.spec_layers().len() + 1int,
        )
        &&& new_page.spec_layers().last().spec_commands() == Seq::<Command>::empty()
        &&& new_page.spec_layers().last().spec_fill_color() == Color::Rgb(0, 0, 0)
        &&& new_page.spec_layers().last().spec_outline_color() == Color::Rgb(0, 0, 0)
        &&& new_page.spec_layers().last().spec_outline_thickness() == Mm(
            DEFAULT_OUTLINE_THICKNESS_UM,
        )
    }
}

impl Page {
    /// The page's size.
    pub closed spec fn spec_size(&self) -> Size {
        self.size
    }

    /// The page's layers, in creation order.
    pub closed spec fn spec_layers(&self) -> Seq<LayerData> {
        self.layers@
    }

    /// A page is well formed when it has at least one layer and a
    /// well-formed, non-negative size.
    pub open spec fn wf(&self) -> bool {
        self.spec_layers().len() >= 1 && self.spec_size().wf() && self.spec_size().non_negative()
    }

    /// A new page of the given size with one automatically named layer.
    pub fn new(size: Size) -> (r: Page)
        requires
            size.wf(),
            size.non_negative(),
        ensures
            r.wf(),
            spec_fresh_page(r, size),
    {
        let name = layer_name_string(1);
        let mut layers: Vec<LayerData> = Vec::new();
        layers.push(LayerData::new(name));
        Page { size, layers }
    }

    /// The page's size.
    pub fn size(&self) -> (r: Size)
        ensures
            r == self.spec_size(),
    {
        self.size
    }

    /// Appends a new layer with the given name to the page.
    pub fn add_layer(&mut self, name: String)
        ensures
            final(self).spec_size() == old(self).spec_size(),
            final(self).spec_layers().len() == old(self).spec_layers().len() + 1,
            forall|i: int|
                0 <= i < old(self).spec_layers().len() ==> final(self).spec_layers()[i] == old(
                    self,
                ).spec_layers()[i],
            final(self).spec_layers().last().spec_name() == name@,
            final(self).spec_layers().last().spec_commands() == Seq::<Command>::empty(),
            final(self).spec_layers().last().spec_fill_color() == Color::Rgb(0, 0, 0),
            final(self).spec_layers().last().spec_outline_color() == Color::Rgb(0, 0, 0),
            final(self).spec_layers().last().spec_outline_thickness() == Mm(
                DEFAULT_OUTLINE_THICKNESS_UM,
            ),
    {
        self.layers.push(LayerData::new(name));
    }

    /// The number of layers on this page.
    pub fn layer_count(&self) -> (r: usize)
        ensures
            r == self.spec_layers().len(),
    {
        self.layers.len()
    }

    /// A handle to the layer at the given index, if it exists.
    pub fn get_layer(&self, idx: usize) -> (r: Option<Layer>)
        ensures
            idx < self.spec_layers().len() ==> r == Some(
                Layer { page_size: self.spec_size(), layer_idx: idx },
            ),
            idx >= self.spec_layers().len() ==> r is None,
    {
        if idx < self.layers.len() {
            Some(Layer { page_size: self.size, layer_idx: idx })
        } else {
            None
        }
    }

    /// A handle to the first layer of this page.
    pub fn first_layer(&self) -> (r: Layer)
        requires
            self.wf(),
        ensures
            r == (Layer { page_size: self.spec_size(), layer_idx: 0 }),
    {
        Layer { page_size: self.size, layer_idx: 0 }
    }

    /// A handle to the last layer of this page.
    pub fn last_layer(&self) -> (r: Layer)
        requires
            self.wf(),
        ensures
            r == (Layer {
                page_size: self.spec_size(),
                layer_idx: (self.spec_layers().len() - 1) as usize,
            }),
    {
        Layer { page_size: self.size, layer_idx: self.layers.len() - 1 }
    }

    /// The recorded data of the layer at the given index, if it exists.
    pub fn get_layer_data(&self, idx: usize) -> (r: Option<&LayerData>)
        ensures
            idx < self.spec_layers().len() ==> (r matches Some(ld) && *ld
                == self.spec_layers()[idx as int]),
            idx >= self.spec_layers().len() ==> r is None,
    {
        if idx < self.layers.len() {
            Some(&self.layers[idx])
        } else {
            None
        }
    }

    /// The layer after the one at `idx`: the existing next layer if there
    /// is one, else a newly appended layer named automatically after the
    /// new layer count.
    pub fn next_layer(&mut self, idx: usize) -> (r: Layer)
        requires
            old(self).wf(),
            idx < old(self).spec_layers().len(),
            old(self).spec_layers().len() < usize::MAX,
        ensures
            final(self).wf(),
            spec_next_layer_post(*old(self), *final(self), idx as int, r),
            r.valid_for(*final(self)),
    {
        if idx + 1 < self.layers.len() {
            Layer { page_size: self.size, layer_idx: idx + 1 }
        } else {
            let n = self.layers.len() + 1;
            let name = layer_name_string(n as u64);
            self.layers.push(LayerData::new(name));
            Layer { page_size: self.size, layer_idx: n - 1 }
        }
    }
}

impl Layer {
    /// Whether this handle points at a layer of the given page.
    pub open spec fn valid_for(&self, page: Page) -> bool {
        self.page_size == page.spec_size() && self.layer_idx < page.spec_layers().len()
    }

    /// The next layer of this page: the existing one if this layer is not
    /// the last, else a newly created and automatically named layer.
    pub fn next(&self, page: &mut Page) -> (r: Layer)
        requires
            old(page).wf(),
            self.valid_for(*old(page)),
            old(page).spec_layers().len() < usize::MAX,
        ensures
            final(page).wf(),
            spec_next_layer_post(*old(page), *final(page), self.layer_idx as int, r),
            r.valid_for(*final(page)),
    {
        page.next_layer(self.layer_idx)
    }

    /// A drawable area covering this whole layer.
    pub fn area(&self) -> (r: Area)
        ensures
            r.spec_layer() == *self,
            r.spec_origin().x.0 == 0,
            r.spec_origin().y.0 == 0,
            r.spec_size() == self.page_size,
    {
        Area::new(*self, Position::default(), self.page_size)
    }
}

/// A document renderer: the document title, its pages, and optional
/// document metadata that the backend applies when the document is written.
pub struct Renderer {
    title: String,
    pages: Vec<Page>,
    conformance: Option<printpdf::PdfConformance>,
    creation_date: Option<printpdf::OffsetDateTime>,
    modification_date: Option<printpdf::OffsetDateTime>,
}

impl Renderer {
    /// The document title.
    pub closed spec fn spec_title(&self) -> Seq<char> {
        self.title@
    }

    /// The document's pages, in creation order.
    pub closed spec fn spec_pages(&self) -> Seq<Page> {
        self.pages@
    }

    /// The configured conformance level, if any.
    pub closed spec fn spec_conformance(&self) -> Option<printpdf::PdfConformance> {
        self.conformance
    }

    /// The configured creation date, if any.
    pub closed spec fn spec_creation_date(&self) -> Option<printpdf::OffsetDateTime> {
        self.creation_date
    }

    /// The configured modification date, if any.
    pub closed spec fn spec_modification_date(&self) -> Option<printpdf::OffsetDateTime> {
        self.modification_date
    }

    /// A renderer is well formed when it has at least one page and every
    /// page is well formed.
    pub open spec fn wf(&self) -> bool {
        self.spec_pages().len() >= 1 && forall|i: int|
            0 <= i < self.spec_pages().len() ==> self.spec_pages()[i].wf()
    }

    /// A new document renderer with one page of the given size and the
    /// given title.
    pub fn new(size: Size, title: &str) -> (r: Result<Renderer, Error>)
        requires
            size.wf(),
            size.non_negative(),
        ensures
            r matches Ok(rr) && rr.wf() && rr.spec_title() == title@ && rr.spec_pages().len() == 1
                && spec_fresh_page(rr.spec_pages()[0], size) && rr.spec_conformance() is None
                && rr.spec_creation_date() is None && rr.spec_modification_date() is None,
    {
        let mut pages: Vec<Page> = Vec::new();
        pages.push(Page::new(size));
        Ok(
            Renderer {
                title: title.to_owned(),
                pages,
                conformance: None,
                creation_date: None,
                modification_date: None,
            },
        )
    }

    /// Sets the conformance level for the generated document.
    pub fn with_conformance(self, conformance: printpdf::PdfConformance) -> (r: Renderer)
        ensures
            r.spec_title() == self.spec_title(),
            r.spec_pages() == self.spec_pages(),
            r.spec_conformance() == Some(conformance),
            r.spec_creation_date() == self.spec_creation_date(),
            r.spec_modification_date() == self.spec_modification_date(),
    {
        Renderer { conformance: Some(conformance), ..self }
    }

    /// Sets the creation date for the generated document.
    pub fn with_creation_date(self, date: printpdf::OffsetDateTime) -> (r: Renderer)
        ensures
            r.spec_title() == self.spec_title(),
            r.spec_pages() == self.spec_pages(),
            r.spec_conformance() == self.spec_conformance(),
            r.spec_creation_date() == Some(date),
            r.spec_modification_date() == self.spec_modification_date(),
    {
        Renderer { creation_date: Some(date), ..self }
    }

    /// Sets the modification date for the generated document.
    pub fn with_modification_date(self, date: printpdf::OffsetDateTime) -> (r: Renderer)
        ensures
            r.spec_title() == self.spec_title(),
            r.spec_pages() == self.spec_pages(),
            r.spec_conformance() == self.spec_conformance(),
            r.spec_creation_date() == self.spec_creation_date(),
            r.spec_modification_date() == Some(date),
    {
        Renderer { modification_date: Some(date), ..self }
    }

    /// Appends a new page of the given size to the document.
    pub fn add_page(&mut self, size: Size)
        requires
            size.wf(),
            size.non_negative(),
        ensures
            final(self).spec_title() == old(self).spec_title(),
            final(self).spec_conformance() == old(self).spec_conformance(),
            final(self).spec_creation_date() == old(self).spec_creation_date(),
            final(self).spec_modification_date() == old(self).spec_modification_date(),
            final(self).spec_pages().len() == old(self).spec_pages().len() + 1,
            forall|i: int|
                0 <= i < old(self).spec_pages().len() ==> final(self).spec_pages()[i] == old(
                    self,
                ).spec_pages()[i],
            spec_fresh_page(final(self).spec_pages().last(), size),
            old(self).wf() ==> final(self).wf(),
    {
        self.pages.push(Page::new(size));
    }

    /// The number of pages in this document.
    pub fn page_count(&self) -> (r: usize)
        ensures
            r == self.spec_pages().len(),
    {
        self.pages.len()
    }

    /// The page at the given index, if it exists.
    pub fn get_page(&self, idx: usize) -> (r: Option<&Page>)
        ensures
            idx < self.spec_pages().len() ==> (r matches Some(p) && *p
                == self.spec_pages()[idx as int]),
            idx >= self.spec_pages().len() ==> r is None,
    {
        if idx < self.pages.len() {
            Some(&self.pages[idx])
        } else {
            None
        }
    }

    /// A mutable reference to the page at the given index, if it exists.
    pub fn get_page_mut(&mut self, idx: usize) -> (r: Option<&mut Page>)
        ensures
            idx < old(self).spec_pages().len() ==> (r matches Some(p) && *p == old(
                self,
            ).spec_pages()[idx as int] && final(self).spec_pages() == old(
                self,
            ).spec_pages().update(idx as int, *final(p)) && final(self).spec_title() == old(
                self,
            ).spec_title()),
            idx >= old(self).spec_pages().len() ==> r is None && *final(self) == *old(self),
    {
        if idx < self.pages.len() {
            Some(&mut self.pages[idx])
        } else {
            None
        }
    }

    /// The first page of this document.
    pub fn first_page(&self) -> (r: &Page)
        requires
            self.wf(),
        ensures
            *r == self.spec_pages()[0],
    {
        &self.pages[0]
    }

    /// A mutable reference to the first page of this document.
    pub fn first_page_mut(&mut self) -> (r: &mut Page)
        requires
            old(self).wf(),
        ensures
            *r == old(self).spec_pages()[0],
            final(self).spec_pages() == old(self).spec_pages().update(0, *final(r)),
            final(self).spec_title() == old(self).spec_title(),
            final(self).spec_conformance() == old(self).spec_conformance(),
            final(self).spec_creation_date() == old(self).spec_creation_date(),
            final(self).spec_modification_date() == old(self).spec_modification_date(),
    {
        &mut self.pages[0]
    }

    /// The last page of this document.
    pub fn last_page(&self) -> (r: &Page)
        requires
            self.wf(),
        ensures
            *r == self.spec_pages().last(),
    {
        &self.pages[self.pages.len() - 1]
    }

    /// A mutable reference to the last page of this document.
    pub fn last_page_mut(&mut self) -> (r: &mut Page)
        requires
            old(self).wf(),
        ensures
            *r == old(self).spec_pages().last(),
            final(self).spec_pages() == old(self).spec_pages().update(
                old(self).spec_pages().len() - 1,
                *final(r),
            ),
            final(self).spec_title() == old(self).spec_title(),
            final(self).spec_conformance() == old(self).spec_conformance(),
            final(self).spec_creation_date() == old(self).spec_creation_date(),
            final(self).spec_modification_date() == old(self).spec_modification_date(),
    {
        let idx = self.pages.len() - 1;
        &mut self.pages[idx]
    }

    /// The document title.
    pub fn title(&self) -> (r: &String)
        ensures
            r@ == self.spec_title(),
    {
        &self.title
    }

    /// The configured conformance level, if any.
    pub fn conformance(&self) -> (r: &Option<printpdf::PdfConformance>)
        ensures
            *r == self.spec_conformance(),
    {
        &self.conformance
    }

    /// The configured creation date, if any.
    pub fn creation_date(&self) -> (r: &Option<printpdf::OffsetDateTime>)
        ensures
            *r == self.spec_creation_date(),
    {
        &self.creation_date
    }

    /// The configured modification date, if any.
    pub fn modification_date(&self) -> (r: &Option<printpdf::OffsetDateTime>)
        ensures
            *r == self.spec_modification_date(),
    {
        &self.modification_date
    }
}


/// A view on a rectangular region of a layer that can be drawn on.  The
/// view is defined by the layer handle, the origin of the region relative
/// to the layer's top left corner, and the region's size.  Several area
/// values may view the same layer: the recorded state they share lives in
/// the page's [`LayerData`].
#[derive(Clone, Copy, PartialEq, Eq, Structural, Debug)]
pub struct Area {
    layer: Layer,
    origin: Position,
    size: Size,
}

/// The abscissa of an area-relative position in layer space.
pub open spec fn spec_layer_x(area: Area, p: Position) -> int {
    area.spec_origin().x.0 + p.x.0
}

/// The ordinate of an area-relative position in layer space.
pub open spec fn spec_layer_y(area: Area, p: Position) -> int {
    area.spec_origin().y.0 + p.y.0
}

/// The ordinate of an area-relative position in the backend's user space:
/// the page height minus the layer-space ordinate.
pub open spec fn spec_user_y(area: Area, p: Position) -> int {
    area.spec_layer().page_size.height.0 - spec_layer_y(area, p)
}

/// Whether `out` holds exactly the user-space transforms of `points`.
pub open spec fn spec_user_points(area: Area, points: Seq<Position>, out: Seq<Position>) -> bool {
    out.len() == points.len() && forall|i: int|
        0 <= i < points.len() ==> out[i].x.0 == spec_layer_x(area, points[i]) && out[i].y.0
            == spec_user_y(area, points[i])
}

/// The state commands a line drawing records before its polyline: the new
/// outline thickness and color, each only where it differs from the
/// layer's cached value.
pub open spec fn spec_line_state_cmds(ld: LayerData, style: crate::style::LineStyle) -> Seq<
    Command,
> {
    (if ld.spec_outline_thickness() == style.thickness {
        Seq::<Command>::empty()
    } else {
        seq![Command::SetOutlineThickness(style.thickness)]
    }) + (if ld.spec_outline_color() == style.color {
        Seq::<Command>::empty()
    } else {
        seq![Command::SetOutlineColor(style.color)]
    })
}

/// A position relative to the top left corner of a layer.
#[derive(Clone, Copy, PartialEq, Eq, Structural, Debug)]
pub struct LayerPosition(Position);

impl LayerPosition {
    /// The wrapped position.
    pub closed spec fn spec_pos(&self) -> Position {
        self.0
    }

    /// Translates an area-relative position by the area's origin.
    pub fn from_area(area: &Area, position: Position) -> (r: LayerPosition)
        requires
            area.spec_origin().wf(),
            -4 * MAX_UM <= position.x.0 <= 4 * MAX_UM,
            -4 * MAX_UM <= position.y.0 <= 4 * MAX_UM,
        ensures
            r.spec_pos().x.0 == spec_layer_x(*area, position),
            r.spec_pos().y.0 == spec_layer_y(*area, position),
    {
        LayerPosition(
            Position {
                x: Mm(position.x.0 + area.origin.x.0),
                y: Mm(position.y.0 + area.origin.y.0),
            },
        )
    }

    /// The wrapped position.
    pub fn position(&self) -> (r: Position)
        ensures
            r == self.spec_pos(),
    {
        self.0
    }
}

/// A position relative to the bottom left corner of a layer: the backend's
/// user space.  Values of this type only arise through [`Self::from_layer`],
/// so a user-space coordinate can never be confused with a layer-space one.
#[derive(Clone, Copy, PartialEq, Eq, Structural, Debug)]
pub struct UserSpacePosition(Position);

impl UserSpacePosition {
    /// The wrapped position.
    pub closed spec fn spec_pos(&self) -> Position {
        self.0
    }

    /// Flips a layer-space position into user space: the abscissa is kept
    /// and the ordinate becomes the page height minus the layer ordinate.
    pub fn from_layer(layer: &Layer, position: LayerPosition) -> (r: UserSpacePosition)
        requires
            layer.page_size.height.wf(),
            -5 * MAX_UM <= position.spec_pos().y.0 <= 5 * MAX_UM,
        ensures
            r.spec_pos().x == position.spec_pos().x,
            r.spec_pos().y.0 == layer.page_size.height.0 - position.spec_pos().y.0,
    {
        UserSpacePosition(
            Position {
                x: position.0.x,
                y: Mm(layer.page_size.height.0 - position.0.y.0),
            },
        )
    }

    /// The wrapped position.
    pub fn position(&self) -> (r: Position)
        ensures
            r == self.spec_pos(),
    {
        self.0
    }
}

impl Area {
    /// The layer this area draws on.
    pub closed spec fn spec_layer(&self) -> Layer {
        self.layer
    }

    /// The origin of this area relative to the layer's top left corner.
    pub closed spec fn spec_origin(&self) -> Position {
        self.origin
    }

    /// The size of this area.
    pub closed spec fn spec_size(&self) -> Size {
        self.size
    }

    /// A new view on the given layer with the given origin and size.
    pub fn new(layer: Layer, origin: Position, size: Size) -> (r: Area)
        ensures
            r.spec_layer() == layer,
            r.spec_origin() == origin,
            r.spec_size() == size,
    {
        Area { layer, origin, size }
    }

    /// The layer this area draws on.
    pub fn layer(&self) -> (r: Layer)
        ensures
            r == self.spec_layer(),
    {
        self.layer
    }

    /// The origin of this area relative to the layer's top left corner.
    pub fn origin(&self) -> (r: Position)
        ensures
            r == self.spec_origin(),
    {
        self.origin
    }

    /// The size of this area.
    pub fn size(&self) -> (r: Size)
        ensures
            r == self.spec_size(),
    {
        self.size
    }

    /// A copy of this area on the next layer of the page: the existing
    /// next layer if this area is not on the last layer, else a newly
    /// created one.
    pub fn next_layer(&self, page: &mut Page) -> (r: Area)
        requires
            old(page).wf(),
            self.spec_layer().valid_for(*old(page)),
            old(page).spec_layers().len() < usize::MAX,
        ensures
            final(page).wf(),
            spec_next_layer_post(
                *old(page),
                *final(page),
                self.spec_layer().layer_idx as int,
                r.spec_layer(),
            ),
            r.spec_layer().valid_for(*final(page)),
            r.spec_origin() == self.spec_origin(),
            r.spec_size() == self.spec_size(),
    {
        let layer = self.layer.next(page);
        Area { layer, origin: self.origin, size: self.size }
    }

    /// Shrinks the drawable area by the given margins: the origin moves
    /// right and down by the left and top margins, and the size loses the
    /// margins on both axes.
    pub fn add_margins(&mut self, margins: Margins)
        requires
            old(self).spec_origin().wf(),
            old(self).spec_size().wf(),
            margins.wf(),
        ensures
            final(self).spec_layer() == old(self).spec_layer(),
            final(self).spec_origin().x.0 == old(self).spec_origin().x.0 + margins.left.0,
            final(self).spec_origin().y.0 == old(self).spec_origin().y.0 + margins.top.0,
            final(self).spec_size().width.0 == old(self).spec_size().width.0 - margins.left.0
                - margins.right.0,
            final(self).spec_size().height.0 == old(self).spec_size().height.0 - margins.top.0
                - margins.bottom.0,
    {
        self.origin.x = Mm(self.origin.x.0 + margins.left.0);
        self.origin.y = Mm(self.origin.y.0 + margins.top.0);
        self.size.width = Mm(self.size.width.0 - (margins.left.0 + margins.right.0));
        self.size.height = Mm(self.size.height.0 - (margins.top.0 + margins.bottom.0));
    }

    /// Moves the origin by the given offset and shrinks the size by the
    /// consumed amount.
    pub fn add_offset(&mut self, offset: Position)
        requires
            old(self).spec_origin().wf(),
            old(self).spec_size().wf(),
            offset.wf(),
        ensures
            final(self).spec_layer() == old(self).spec_layer(),
            final(self).spec_origin().x.0 == old(self).spec_origin().x.0 + offset.x.0,
            final(self).spec_origin().y.0 == old(self).spec_origin().y.0 + offset.y.0,
            final(self).spec_size().width.0 == old(self).spec_size().width.0 - offset.x.0,
            final(self).spec_size().height.0 == old(self).spec_size().height.0 - offset.y.0,
    {
        self.origin.x = Mm(self.origin.x.0 + offset.x.0);
        self.origin.y = Mm(self.origin.y.0 + offset.y.0);
        self.size.width = Mm(self.size.width.0 - offset.x.0);
        self.size.height = Mm(self.size.height.0 - offset.y.0);
    }

    /// Overrides the size of this area.
    pub fn set_size(&mut self, size: Size)
        ensures
            final(self).spec_layer() == old(self).spec_layer(),
            final(self).spec_origin() == old(self).spec_origin(),
            final(self).spec_size() == size,
    {
        self.size = size;
    }

    /// Overrides the width of this area.
    pub fn set_width(&mut self, width: Mm)
        ensures
            final(self).spec_layer() == old(self).spec_layer(),
            final(self).spec_origin() == old(self).spec_origin(),
            final(self).spec_size().width == width,
            final(self).spec_size().height == old(self).spec_size().height,
    {
        self.size.width = width;
    }

    /// Overrides the height of this area.
    pub fn set_height(&mut self, height: Mm)
        ensures
            final(self).spec_layer() == old(self).spec_layer(),
            final(self).spec_origin() == old(self).spec_origin(),
            final(self).spec_size().width == old(self).spec_size().width,
            final(self).spec_size().height == height,
    {
        self.size.height = height;
    }

    /// The layer-space position of an area-relative position.
    fn position(&self, position: Position) -> (r: LayerPosition)
        requires
            self.spec_origin().wf(),
            -4 * MAX_UM <= position.x.0 <= 4 * MAX_UM,
            -4 * MAX_UM <= position.y.0 <= 4 * MAX_UM,
        ensures
            r.spec_pos().x.0 == spec_layer_x(*self, position),
            r.spec_pos().y.0 == spec_layer_y(*self, position),
    {
        LayerPosition::from_area(self, position)
    }

    /// Draws an open polyline through the given area-relative points: the
    /// line's thickness and color are recorded first (each only if it
    /// differs from the layer's cached state), then one polyline command
    /// with every point transformed to user space.
    pub fn draw_line(
        &self,
        page: &mut Page,
        points: Vec<Position>,
        line_style: crate::style::LineStyle,
    )
        requires
            old(page).wf(),
            self.spec_layer().valid_for(*old(page)),
            self.spec_origin().wf(),
            forall|i: int| 0 <= i < points@.len() ==> points@[i].wf(),
        ensures
            final(page).wf(),
            final(page).spec_size() == old(page).spec_size(),
            final(page).spec_layers().len() == old(page).spec_layers().len(),
            forall|j: int|
                0 <= j < old(page).spec_layers().len() && j != self.spec_layer().layer_idx
                    ==> final(page).spec_layers()[j] == old(page).spec_layers()[j],
            ({
                let oldld = old(page).spec_layers()[self.spec_layer().layer_idx as int];
                let newld = final(page).spec_layers()[self.spec_layer().layer_idx as int];
                &&& newld.spec_name() == oldld.spec_name()
                &&& newld.spec_fill_color() == oldld.spec_fill_color()
                &&& newld.spec_outline_color() == line_style.color
                &&& newld.spec_outline_thickness() == line_style.thickness
                &&& newld.spec_commands().len() == oldld.spec_commands().len()
                    + spec_line_state_cmds(oldld, line_style).len() + 1
                &&& newld.spec_commands().take(newld.spec_commands().len() - 1)
                    == oldld.spec_commands() + spec_line_state_cmds(oldld, line_style)
                &&& (newld.spec_commands().last() matches Command::AddLineShape {
                    points: pts,
                    is_closed: ic,
                } && !ic && spec_user_points(*self, points@, pts@))
            }),
    {
        let mut user_points: Vec<Position> = Vec::new();
        let mut i: usize = 0;
        while i < points.len()
            invariant
                i <= points@.len(),
                self.spec_origin().wf(),
                self.spec_layer().page_size.height.wf(),
                forall|k: int| 0 <= k < points@.len() ==> points@[k].wf(),
                user_points@.len() == i,
                forall|k: int|
                    0 <= k < i ==> user_points@[k].x.0 == spec_layer_x(*self, points@[k])
                        && user_points@[k].y.0 == spec_user_y(*self, points@[k]),
            decreases points@.len() - i,
        {
            let p = points[i];
            let lp = self.position(p);
            let up = UserSpacePosition::from_layer(&self.layer, lp);
            user_points.push(up.position());
            i = i + 1;
        }
        let ghost oldld = page.spec_layers()[self.layer.layer_idx as int];
        let ld = &mut page.layers[self.layer.layer_idx];
        ld.set_outline_thickness(line_style.thickness);
        ld.set_outline_color(line_style.color);
        ld.add_line_shape(user_points);
        proof {
            let newcmds = final(ld).spec_commands();
            assert(newcmds.take(newcmds.len() - 1) =~= oldld.spec_commands()
                + spec_line_state_cmds(oldld, line_style));
        }
    }

    /// Places an image on the layer: the area-relative position is
    /// transformed to user space, the clockwise rotation is negated into
    /// the backend's counter-clockwise convention, and one image command
    /// is recorded.  No state commands are involved.
    pub fn add_image(
        &self,
        page: &mut Page,
        image: &printpdf::image_crate::DynamicImage,
        position: Position,
        scale: Scale,
        rotation: Rotation,
        dpi_milli: Option<i64>,
    )
        requires
            old(page).wf(),
            self.spec_layer().valid_for(*old(page)),
            self.spec_origin().wf(),
            -4 * MAX_UM <= position.x.0 <= 4 * MAX_UM,
            -4 * MAX_UM <= position.y.0 <= 4 * MAX_UM,
            rotation.is_valid(),
        ensures
            final(page).wf(),
            final(page).spec_size() == old(page).spec_size(),
            final(page).spec_layers().len() == old(page).spec_layers().len(),
            forall|j: int|
                0 <= j < old(page).spec_layers().len() && j != self.spec_layer().layer_idx
                    ==> final(page).spec_layers()[j] == old(page).spec_layers()[j],
            ({
                let oldld = old(page).spec_layers()[self.spec_layer().layer_idx as int];
                let newld = final(page).spec_layers()[self.spec_layer().layer_idx as int];
                &&& LayerData::spec_same_cache(oldld, newld)
                &&& newld.spec_commands().len() == oldld.spec_commands().len() + 1
                &&& newld.spec_commands().take(newld.spec_commands().len() - 1)
                    == oldld.spec_commands()
                &&& (newld.spec_commands().last() matches Command::AddImage {
                    image: im,
                    position: pos,
                    scale: sc,
                    rotation_ccw_millidegrees: rot,
                    dpi_milli: dpi,
                } && im == *image && pos.x.0 == spec_layer_x(*self, position) && pos.y.0
                    == spec_user_y(*self, position) && sc == scale && rot
                    == -rotation.millidegrees && dpi == dpi_milli)
            }),
    {
        let lp = self.position(position);
        let up = UserSpacePosition::from_layer(&self.layer, lp);
        let data = backend::clone_image(image);
        let ld = &mut page.layers[self.layer.layer_idx];
        ld.add_image_command(data, up.position(), scale, -rotation.millidegrees, dpi_milli);
        proof {
            let newcmds = final(ld).spec_commands();
            assert(newcmds.take(newcmds.len() - 1) =~= old(page).spec_layers()[
                self.spec_layer().layer_idx as int].spec_commands());
        }
    }
}


/// The sum of a sequence of weights.
pub open spec fn spec_weight_sum(ws: Seq<usize>) -> int
    decreases ws.len(),
{
    if ws.len() == 0 {
        0
    } else {
        spec_weight_sum(ws.drop_last()) + ws.last()
    }
}

/// The width of one sub-area of a proportional split: the area width times
/// the sub-area's weight, divided by the sum of all weights.
pub open spec fn spec_split_width(width: int, weight: int, total: int) -> int {
    width * weight / total
}

/// The combined width of the first `i` sub-areas of a proportional split:
/// the cumulative offset of the `i`-th sub-area.
pub open spec fn spec_split_offset(width: int, ws: Seq<usize>, total: int, i: int) -> int
    decreases i,
{
    if i <= 0 {
        0
    } else {
        spec_split_offset(width, ws, total, i - 1) + spec_split_width(
            width,
            ws[i - 1] as int,
            total,
        )
    }
}

/// A weight sum is never negative.
proof fn lemma_weight_sum_nonneg(ws: Seq<usize>)
    ensures
        spec_weight_sum(ws) >= 0,
    decreases ws.len(),
{
    if ws.len() > 0 {
        lemma_weight_sum_nonneg(ws.drop_last());
    }
}

/// Extending a prefix by one element adds that element to its sum.
proof fn lemma_weight_sum_take_succ(ws: Seq<usize>, i: int)
    requires
        0 <= i < ws.len(),
    ensures
        spec_weight_sum(ws.take(i + 1)) == spec_weight_sum(ws.take(i)) + ws[i],
{
    assert(ws.take(i + 1).drop_last() =~= ws.take(i));
    assert(ws.take(i + 1).last() == ws[i]);
}

/// A prefix sum never exceeds the sum of the whole sequence.
proof fn lemma_weight_sum_take_le(ws: Seq<usize>, i: int)
    requires
        0 <= i <= ws.len(),
    ensures
        spec_weight_sum(ws.take(i)) <= spec_weight_sum(ws),
    decreases ws.len() - i,
{
    if i == ws.len() {
        assert(ws.take(i) =~= ws);
    } else {
        lemma_weight_sum_take_succ(ws, i);
        lemma_weight_sum_take_le(ws, i + 1);
    }
}

/// Rounding down twice never beats rounding down the sum: the floors of
/// two non-negative quotients are at most the floor of the quotient of the
/// sum.
proof fn lemma_floor_div_add(a: int, b: int, d: int)
    requires
        a >= 0,
        b >= 0,
        d > 0,
    ensures
        a / d + b / d <= (a + b) / d,
{
    lemma_fundamental_div_mod(a, d);
    lemma_fundamental_div_mod(b, d);
    lemma_mod_bound(a, d);
    lemma_mod_bound(b, d);
    let qa = a / d;
    let ra = a % d;
    let qb = b / d;
    let rb = b % d;
    assert(d * (qa + qb) == d * qa + d * qb) by (nonlinear_arith);
    if ra + rb < d {
        lemma_div_multiples_vanish_fancy(qa + qb, ra + rb, d);
        assert((a + b) / d == qa + qb);
    } else {
        assert(d * (qa + qb + 1) == d * qa + d * qb + d) by (nonlinear_arith);
        lemma_div_multiples_vanish_fancy(qa + qb + 1, ra + rb - d, d);
        assert((a + b) / d == qa + qb + 1);
    }
}

/// One sub-area width of a proportional split lies between zero and the
/// area width.
proof fn lemma_split_width_bounds(width: int, weight: int, total: int)
    requires
        0 <= width,
        0 <= weight <= total,
        0 < total,
    ensures
        0 <= spec_split_width(width, weight, total) <= width,
{
    assert(width * weight >= 0) by (nonlinear_arith)
        requires 0 <= width && 0 <= weight;
    lemma_div_is_ordered(0, width * weight, total);
    lemma_mul_inequality(weight, total, width);
    assert(weight * width == width * weight) by (nonlinear_arith);
    assert(total * width == width * total) by (nonlinear_arith);
    lemma_div_is_ordered(width * weight, width * total, total);
    lemma_div_multiples_vanish(width, total);
    assert(total * width == width * total) by (nonlinear_arith);
}

/// The cumulative offset after `i` sub-areas lies between zero and the
/// width of the split area.
proof fn lemma_split_offset_le(width: int, ws: Seq<usize>, total: int, i: int)
    requires
        0 <= width,
        0 < total,
        0 <= i <= ws.len(),
        total == spec_weight_sum(ws),
    ensures
        0 <= spec_split_offset(width, ws, total, i),
        spec_split_offset(width, ws, total, i) <= width * spec_weight_sum(ws.take(i)) / total,
        spec_split_offset(width, ws, total, i) <= width,
    decreases i,
{
    lemma_weight_sum_take_le(ws, i);
    lemma_weight_sum_nonneg(ws.take(i));
    if i == 0 {
        assert(width * 0 == 0) by (nonlinear_arith);
        assert(spec_weight_sum(ws.take(0)) == 0);
        lemma_div_is_ordered(0, width * spec_weight_sum(ws.take(0)), total);
    } else {
        lemma_split_offset_le(width, ws, total, i - 1);
        lemma_weight_sum_take_succ(ws, i - 1);
        lemma_weight_sum_nonneg(ws.take(i - 1));
        let sp = spec_weight_sum(ws.take(i - 1));
        let wi = ws[i - 1] as int;
        assert(width * sp >= 0) by (nonlinear_arith)
            requires 0 <= width && 0 <= sp;
        assert(width * wi >= 0) by (nonlinear_arith)
            requires 0 <= width && 0 <= wi;
        lemma_floor_div_add(width * sp, width * wi, total);
        assert(width * sp + width * wi == width * (sp + wi)) by (nonlinear_arith);
        // sum of the first i weights is at most the total
        let si = spec_weight_sum(ws.take(i));
        lemma_mul_inequality(si, total, width);
        assert(si * width == width * si) by (nonlinear_arith);
        assert(total * width == width * total) by (nonlinear_arith);
        lemma_div_is_ordered(width * si, width * total, total);
        lemma_div_multiples_vanish(width, total);
    }
}

/// A horizontal split fits inside the area it divides: the combined
/// width of all sub-areas never exceeds the area's own width.
pub proof fn lemma_split_fits(width: int, ws: Seq<usize>, total: int)
    requires
        0 <= width,
        0 < total,
        total == spec_weight_sum(ws),
    ensures
        0 <= spec_split_offset(width, ws, total, ws.len() as int) <= width,
{
    lemma_split_offset_le(width, ws, total, ws.len() as int);
}

impl Area {
    /// Splits this area horizontally by the given weights.  The result has
    /// one sub-area per weight: the `i`-th sub-area keeps this area's
    /// layer, ordinate and height, its width is this area's width times
    /// the `i`-th weight divided by the sum of all weights, and the
    /// sub-areas lie left to right, each offset by the combined width of
    /// the ones before it.
    pub fn split_horizontally(&self, weights: &[usize]) -> (r: Vec<Area>)
        requires
            self.spec_origin().wf(),
            self.spec_size().wf(),
            self.spec_size().width.0 >= 0,
            spec_weight_sum(weights@) > 0,
            spec_weight_sum(weights@) <= 1_000_000,
        ensures
            r@.len() == weights@.len(),
            forall|i: int|
                0 <= i < weights@.len() ==> #[trigger] r@[i].spec_layer() == self.spec_layer(),
            forall|i: int|
                0 <= i < weights@.len() ==> #[trigger] r@[i].spec_origin().y
                    == self.spec_origin().y,
            forall|i: int|
                0 <= i < weights@.len() ==> #[trigger] r@[i].spec_size().height
                    == self.spec_size().height,
            forall|i: int|
                0 <= i < weights@.len() ==> #[trigger] r@[i].spec_size().width.0
                    == spec_split_width(
                    self.spec_size().width.0 as int,
                    weights@[i] as int,
                    spec_weight_sum(weights@),
                ),
            forall|i: int|
                0 <= i < weights@.len() ==> #[trigger] r@[i].spec_origin().x.0
                    == self.spec_origin().x.0 + spec_split_offset(
                    self.spec_size().width.0 as int,
                    weights@,
                    spec_weight_sum(weights@),
                    i,
                ),
    {
        let ghost total_g = spec_weight_sum(weights@);
        let mut total: usize = 0;
        let mut i: usize = 0;
        while i < weights.len()
            invariant
                i <= weights@.len(),
                total == spec_weight_sum(weights@.take(i as int)),
                0 <= total <= 1_000_000,
                total_g == spec_weight_sum(weights@),
                total_g <= 1_000_000,
            decreases weights@.len() - i,
        {
            proof {
                lemma_weight_sum_take_succ(weights@, i as int);
                lemma_weight_sum_take_le(weights@, i as int + 1);
                lemma_weight_sum_nonneg(weights@.take(i as int + 1));
            }
            total = total + weights[i];
            i = i + 1;
        }
        proof {
            assert(weights@.take(weights@.len() as int) =~= weights@);
        }
        let w: i64 = self.size.width.0;
        let mut areas: Vec<Area> = Vec::new();
        let mut offset: i64 = 0;
        let mut j: usize = 0;
        while j < weights.len()
            invariant
                j <= weights@.len(),
                areas@.len() == j,
                total == total_g,
                0 < total_g <= 1_000_000,
                total_g == spec_weight_sum(weights@),
                w == self.spec_size().width.0,
                0 <= w <= MAX_UM,
                self.spec_origin().wf(),
                offset == spec_split_offset(w as int, weights@, total_g, j as int),
                0 <= offset <= w,
                forall|k: int|
                    0 <= k < j ==> #[trigger] areas@[k].spec_layer() == self.spec_layer(),
                forall|k: int|
                    0 <= k < j ==> #[trigger] areas@[k].spec_origin().y
                        == self.spec_origin().y,
                forall|k: int|
                    0 <= k < j ==> #[trigger] areas@[k].spec_size().height
                        == self.spec_size().height,
                forall|k: int|
                    0 <= k < j ==> #[trigger] areas@[k].spec_size().width.0 == spec_split_width(
                        w as int,
                        weights@[k] as int,
                        total_g,
                    ),
                forall|k: int|
                    0 <= k < j ==> #[trigger] areas@[k].spec_origin().x.0
                        == self.spec_origin().x.0 + spec_split_offset(
                        w as int,
                        weights@,
                        total_g,
                        k,
                    ),
            decreases weights@.len() - j,
        {
            let wt = weights[j];
            proof {
                lemma_weight_sum_take_succ(weights@, j as int);
                lemma_weight_sum_take_le(weights@, j as int + 1);
                lemma_weight_sum_nonneg(weights@.take(j as int));
                assert(wt <= total_g);
                assert((w as u64) * (wt as u64) <= 1_000_000_000_000u64 * 1_000_000u64)
                    by (nonlinear_arith)
                    requires 0 <= w <= 1_000_000_000_000i64 && 0 <= wt <= 1_000_000;
                lemma_split_width_bounds(w as int, wt as int, total_g);
            }
            let width_j: i64 = (((w as u64) * (wt as u64)) / (total as u64)) as i64;
            let mut area = *self;
            area.origin.x = Mm(self.origin.x.0 + offset);
            area.size.width = Mm(width_j);
            areas.push(area);
            proof {
                lemma_split_offset_le(w as int, weights@, total_g, j as int + 1);
            }
            offset = offset + width_j;
            j = j + 1;
        }
        areas
    }
}


/// A scoped text drawing session over an area.  Creating the section (via
/// [`Area::text_section`]) records a session-start marker and the line
/// height; [`TextSection::end`] records the session-end marker.  The
/// section tracks the cursor state (whether the first string is still
/// pending) and caches the active font so that printing twice with the
/// same font records exactly one font command.
#[derive(Clone, Copy, Debug)]
pub struct TextSection {
    area: Area,
    is_first: bool,
    metrics: Metrics,
    font: Option<(usize, u8)>,
}

/// The abscissa of the text cursor for the first string of a section: the
/// section origin, pulled left by the first glyph's left side bearing (or
/// unshifted for an empty string).
pub open spec fn spec_cursor_x(sec: TextSection, s: Seq<char>, lsb: Mm) -> int {
    sec.spec_area().spec_origin().x.0 + (if s.len() == 0 {
        0int
    } else {
        -(lsb.0 as int)
    })
}

/// The user-space ordinate of the text cursor: the baseline sits one
/// ascent below the section's top edge.
pub open spec fn spec_cursor_y(sec: TextSection) -> int {
    sec.spec_area().spec_layer().page_size.height.0 - (sec.spec_area().spec_origin().y.0
        + sec.spec_metrics().ascent.0)
}

/// The cursor command a print records: one user-space cursor position if
/// the section has not printed yet, nothing otherwise.
pub open spec fn spec_cursor_cmds(sec: TextSection, s: Seq<char>, lsb: Mm) -> Seq<Command> {
    if sec.spec_is_first() {
        seq![
            Command::SetTextCursor(
                Position { x: Mm(spec_cursor_x(sec, s, lsb) as i64), y: Mm(spec_cursor_y(sec) as i64) },
            ),
        ]
    } else {
        Seq::<Command>::empty()
    }
}

/// The state commands a print records before its glyphs: the fill color
/// if it differs from the layer's cache, then the font if it differs from
/// the section's cache.
pub open spec fn spec_text_state_cmds(
    sec: TextSection,
    ld: LayerData,
    style: crate::style::Style,
) -> Seq<Command> {
    (if ld.spec_fill_color() == spec_effective_fill(style.color) {
        Seq::<Command>::empty()
    } else {
        seq![Command::SetFillColor(spec_effective_fill(style.color))]
    }) + (if sec.spec_font() == Some((style.font, style.font_size)) {
        Seq::<Command>::empty()
    } else {
        seq![Command::SetFont { font: style.font, size: style.font_size }]
    })
}

impl TextSection {
    /// The area this section prints into; its origin tracks the cursor
    /// line by line.
    pub closed spec fn spec_area(&self) -> Area {
        self.area
    }

    /// Whether nothing has been printed yet, so that the first print must
    /// place the text cursor.
    pub closed spec fn spec_is_first(&self) -> bool {
        self.is_first
    }

    /// The line metrics this section was created with.
    pub closed spec fn spec_metrics(&self) -> Metrics {
        self.metrics
    }

    /// The font and size last recorded for this section, if any.
    pub closed spec fn spec_font(&self) -> Option<(usize, u8)> {
        self.font
    }

    /// Records the active font and size, unless they are already the
    /// section's cached ones: then nothing is recorded.
    fn set_font(&mut self, page: &mut Page, font: usize, size: u8)
        requires
            old(page).wf(),
            old(self).spec_area().spec_layer().valid_for(*old(page)),
        ensures
            final(page).wf(),
            final(page).spec_size() == old(page).spec_size(),
            final(page).spec_layers().len() == old(page).spec_layers().len(),
            forall|j: int|
                0 <= j < old(page).spec_layers().len()
                    && j != old(self).spec_area().spec_layer().layer_idx
                    ==> final(page).spec_layers()[j] == old(page).spec_layers()[j],
            final(self).spec_area() == old(self).spec_area(),
            final(self).spec_is_first() == old(self).spec_is_first(),
            final(self).spec_metrics() == old(self).spec_metrics(),
            final(self).spec_font() == Some((font, size)),
            ({
                let idx = old(self).spec_area().spec_layer().layer_idx as int;
                let oldld = old(page).spec_layers()[idx];
                let newld = final(page).spec_layers()[idx];
                &&& LayerData::spec_same_cache(oldld, newld)
                &&& newld.spec_commands() == oldld.spec_commands() + (if old(self).spec_font()
                    == Some((font, size)) {
                    Seq::<Command>::empty()
                } else {
                    seq![Command::SetFont { font, size }]
                })
            }),
    {
        let font_is_set = match &self.font {
            Some((f, sz)) => *f == font && *sz == size,
            None => false,
        };
        if !font_is_set {
            self.font = Some((font, size));
            let ld = &mut page.layers[self.area.layer.layer_idx];
            ld.set_font(font, size);
            proof {
                let idx = old(self).spec_area().spec_layer().layer_idx as int;
                let oldld = old(page).spec_layers()[idx];
                assert(final(ld).spec_commands() =~= oldld.spec_commands() + seq![
                    Command::SetFont { font, size },
                ]);
            }
        } else {
            proof {
                let idx = old(self).spec_area().spec_layer().layer_idx as int;
                let oldld = old(page).spec_layers()[idx];
                assert(oldld.spec_commands() + Seq::<Command>::empty() =~= oldld.spec_commands());
            }
        }
    }

    /// Advances to a new line if the area is tall enough for one more
    /// line: a line-break command is recorded and the section's area
    /// shrinks by the line height.  Returns whether the line fit.
    #[must_use]
    pub fn add_newline(&mut self, page: &mut Page) -> (r: bool)
        requires
            old(page).wf(),
            old(self).spec_area().spec_layer().valid_for(*old(page)),
            old(self).spec_area().spec_origin().wf(),
            old(self).spec_area().spec_size().wf(),
            old(self).spec_metrics().line_height.wf(),
        ensures
            final(page).wf(),
            r == (old(self).spec_metrics().line_height.0
                <= old(self).spec_area().spec_size().height.0),
            !r ==> *final(self) == *old(self) && *final(page) == *old(page),
            r ==> final(page).spec_size() == old(page).spec_size()
                && final(page).spec_layers().len() == old(page).spec_layers().len(),
            r ==> forall|j: int|
                0 <= j < old(page).spec_layers().len()
                    && j != old(self).spec_area().spec_layer().layer_idx
                    ==> final(page).spec_layers()[j] == old(page).spec_layers()[j],
            r ==> ({
                let idx = old(self).spec_area().spec_layer().layer_idx as int;
                let oldld = old(page).spec_layers()[idx];
                let newld = final(page).spec_layers()[idx];
                LayerData::spec_same_cache(oldld, newld) && newld.spec_commands()
                    == oldld.spec_commands().push(Command::AddLineBreak)
            }),
            r ==> final(self).spec_is_first() == old(self).spec_is_first()
                && final(self).spec_metrics() == old(self).spec_metrics()
                && final(self).spec_font() == old(self).spec_font(),
            r ==> ({
                let oa = old(self).spec_area();
                let na = final(self).spec_area();
                &&& na.spec_layer() == oa.spec_layer()
                &&& na.spec_origin().x == oa.spec_origin().x
                &&& na.spec_origin().y.0 == oa.spec_origin().y.0
                    + old(self).spec_metrics().line_height.0
                &&& na.spec_size().width == oa.spec_size().width
                &&& na.spec_size().height.0 == oa.spec_size().height.0
                    - old(self).spec_metrics().line_height.0
            }),
    {
        if self.metrics.line_height.0 > self.area.size.height.0 {
            false
        } else {
            let ld = &mut page.layers[self.area.layer.layer_idx];
            ld.add_line_break();
            self.area.add_offset(Position::new(Mm(0), self.metrics.line_height));
            true
        }
    }

    /// Ends the text session: the session-end marker is recorded and the
    /// section is consumed.
    pub fn end(self, page: &mut Page)
        requires
            old(page).wf(),
            self.spec_area().spec_layer().valid_for(*old(page)),
        ensures
            final(page).wf(),
            final(page).spec_size() == old(page).spec_size(),
            final(page).spec_layers().len() == old(page).spec_layers().len(),
            forall|j: int|
                0 <= j < old(page).spec_layers().len() && j
                    != self.spec_area().spec_layer().layer_idx ==> final(page).spec_layers()[j]
                    == old(page).spec_layers()[j],
            ({
                let idx = self.spec_area().spec_layer().layer_idx as int;
                let oldld = old(page).spec_layers()[idx];
                let newld = final(page).spec_layers()[idx];
                LayerData::spec_same_cache(oldld, newld) && newld.spec_commands()
                    == oldld.spec_commands().push(Command::EndTextSection)
            }),
    {
        let ld = &mut page.layers[self.area.layer.layer_idx];
        ld.end_text_section();
    }
}


impl TextSection {
    /// Prints a string with the given style.  On the first print the text
    /// cursor is placed first.  For a built-in font the string is encoded
    /// with the Windows-1252 single-byte encoding and printing fails if a
    /// character falls outside that repertoire; an embedded font prints
    /// the shaped glyph identifiers.  The fill color and the font are each
    /// recorded only when they differ from the cached state, then one
    /// glyph command with the kerning adjustments negated into the
    /// backend's sign convention (negative tightens).
    pub fn print_str(
        &mut self,
        page: &mut Page,
        font_cache: &FontCache,
        s: &str,
        style: crate::style::Style,
        shaping: &TextShaping,
    ) -> (r: Result<(), Error>)
        requires
            old(page).wf(),
            old(self).spec_area().spec_layer().valid_for(*old(page)),
            old(self).spec_area().spec_origin().wf(),
            old(self).spec_metrics().ascent.wf(),
            shaping.left_side_bearing.wf(),
            style.font < font_cache.spec_fonts().len(),
            forall|i: int|
                0 <= i < shaping.kerning_milli_em@.len() ==> shaping.kerning_milli_em@[i]
                    > i64::MIN,
        ensures
            final(page).wf(),
            final(page).spec_size() == old(page).spec_size(),
            final(page).spec_layers().len() == old(page).spec_layers().len(),
            forall|j: int|
                0 <= j < old(page).spec_layers().len()
                    && j != old(self).spec_area().spec_layer().layer_idx
                    ==> final(page).spec_layers()[j] == old(page).spec_layers()[j],
            final(self).spec_area() == old(self).spec_area(),
            final(self).spec_metrics() == old(self).spec_metrics(),
            final(self).spec_is_first() == false,
            (r is Ok) <==> (!font_cache.spec_fonts()[style.font as int].spec_is_builtin()
                || win_ansi_encode(s@).len() == s@.len()),
            r is Err ==> r->Err_0.spec_kind() == ErrorKind::UnsupportedEncoding
                && r->Err_0.spec_msg() == (
            "Tried to print a string with characters that are not supported by the Windows-1252 encoding with a built-in font: "
            )@ + s@ && final(self).spec_font() == old(self).spec_font(),
            r is Err ==> ({
                let idx = old(self).spec_area().spec_layer().layer_idx as int;
                let oldld = old(page).spec_layers()[idx];
                let newld = final(page).spec_layers()[idx];
                LayerData::spec_same_cache(oldld, newld) && newld.spec_commands()
                    == oldld.spec_commands() + spec_cursor_cmds(
                    *old(self),
                    s@,
                    shaping.left_side_bearing,
                )
            }),
            r is Ok ==> final(self).spec_font() == Some((style.font, style.font_size)),
            r is Ok ==> ({
                let idx = old(self).spec_area().spec_layer().layer_idx as int;
                let oldld = old(page).spec_layers()[idx];
                let newld = final(page).spec_layers()[idx];
                &&& newld.spec_name() == oldld.spec_name()
                &&& newld.spec_outline_color() == oldld.spec_outline_color()
                &&& newld.spec_outline_thickness() == oldld.spec_outline_thickness()
                &&& newld.spec_fill_color() == spec_effective_fill(style.color)
                &&& newld.spec_commands().len() == oldld.spec_commands().len()
                    + spec_cursor_cmds(*old(self), s@, shaping.left_side_bearing).len()
                    + spec_text_state_cmds(*old(self), oldld, style).len() + 1
                &&& newld.spec_commands().take(newld.spec_commands().len() - 1)
                    == oldld.spec_commands() + spec_cursor_cmds(
                    *old(self),
                    s@,
                    shaping.left_side_bearing,
                ) + spec_text_state_cmds(*old(self), oldld, style)
                &&& (newld.spec_commands().last() matches Command::WritePositionedCodepoints {
                    positions: pv,
                    codepoints: cv,
                } && pv@.len() == shaping.kerning_milli_em@.len() && (forall|i: int|
                    0 <= i < pv@.len() ==> pv@[i] == -shaping.kerning_milli_em@[i]) && (
                font_cache.spec_fonts()[style.font as int].spec_is_builtin() ==> cv@.len()
                    == s@.len() && (forall|i: int|
                    0 <= i < cv@.len() ==> cv@[i] == win_ansi_encode(s@)[i] as u16)) && (
                !font_cache.spec_fonts()[style.font as int].spec_is_builtin() ==> cv@
                    == shaping.glyph_ids@))
            }),
    {
        let idx = self.area.layer.layer_idx;

        // Adjust the cursor to remove the left bearing of the first
        // character of the first string.
        if self.is_first {
            let x_offset: Mm = if s.unicode_len() > 0 {
                Mm(-shaping.left_side_bearing.0)
            } else {
                Mm(0)
            };
            let lp = self.area.position(Position::new(x_offset, self.metrics.ascent));
            let up = UserSpacePosition::from_layer(&self.area.layer, lp);
            let ld = &mut page.layers[idx];
            ld.set_text_cursor(up.position());
        }
        self.is_first = false;
        proof {
            let oldld = old(page).spec_layers()[idx as int];
            assert(page.spec_layers()[idx as int].spec_commands() =~= oldld.spec_commands()
                + spec_cursor_cmds(*old(self), s@, shaping.left_side_bearing));
        }
        let ghost page1 = *page;

        // Kerning is measured in thousandths of an em; the backend counts
        // positive adjustments as tightening, so each value is negated.
        let mut positions: Vec<i64> = Vec::new();
        let mut i: usize = 0;
        while i < shaping.kerning_milli_em.len()
            invariant
                i <= shaping.kerning_milli_em@.len(),
                positions@.len() == i,
                forall|k: int|
                    0 <= k < shaping.kerning_milli_em@.len() ==> shaping.kerning_milli_em@[k]
                        > i64::MIN,
                forall|k: int| 0 <= k < i ==> positions@[k] == -shaping.kerning_milli_em@[k],
            decreases shaping.kerning_milli_em@.len() - i,
        {
            let k = shaping.kerning_milli_em[i];
            positions.push(-k);
            i = i + 1;
        }

        // Built-in fonts always use the Windows-1252 encoding; embedded
        // fonts use the shaped glyph identifiers.
        let codepoints: Vec<u16>;
        if font_cache.is_builtin(style.font) {
            match encode_win1252(s) {
                Ok(cp) => {
                    codepoints = cp;
                },
                Err(e) => {
                    return Err(e);
                },
            }
        } else {
            let mut cp: Vec<u16> = Vec::new();
            let mut gi: usize = 0;
            while gi < shaping.glyph_ids.len()
                invariant
                    gi <= shaping.glyph_ids@.len(),
                    cp@.len() == gi,
                    forall|k: int| 0 <= k < gi ==> cp@[k] == shaping.glyph_ids@[k],
                decreases shaping.glyph_ids@.len() - gi,
            {
                cp.push(shaping.glyph_ids[gi]);
                gi = gi + 1;
            }
            proof {
                assert(cp@ =~= shaping.glyph_ids@);
            }
            codepoints = cp;
        }

        let ld = &mut page.layers[idx];
        ld.set_fill_color(style.color);
        let ghost page2 = *page;
        self.set_font(page, style.font, style.font_size);
        let ghost page3 = *page;
        let ld2 = &mut page.layers[idx];
        ld2.write_positioned_codepoints(positions, codepoints);

        proof {
            let ii = idx as int;
            let oldld = old(page).spec_layers()[ii];
            let cur = spec_cursor_cmds(*old(self), s@, shaping.left_side_bearing);
            let state = spec_text_state_cmds(*old(self), oldld, style);
            let newcmds = final(page).spec_layers()[ii].spec_commands();
            assert(page1.spec_layers()[ii].spec_fill_color() == oldld.spec_fill_color());
            assert(page2.spec_layers()[ii].spec_commands() =~= oldld.spec_commands() + cur + (
            if oldld.spec_fill_color() == spec_effective_fill(style.color) {
                Seq::<Command>::empty()
            } else {
                seq![Command::SetFillColor(spec_effective_fill(style.color))]
            }));
            assert(page3.spec_layers()[ii].spec_commands() =~= oldld.spec_commands() + cur
                + state);
            assert(newcmds.take(newcmds.len() - 1) =~= oldld.spec_commands() + cur + state);
        }
        Ok(())
    }
}


impl Area {
    /// Starts a text session at the given position if a line of the given
    /// metrics fits vertically: the session-start marker and the line
    /// height are recorded and the returned section draws into this area
    /// shifted by the position.  Returns nothing, and records nothing,
    /// when the first line would not fit.
    pub fn text_section(&self, page: &mut Page, position: Position, metrics: Metrics) -> (r:
        Option<TextSection>)
        requires
            old(page).wf(),
            self.spec_layer().valid_for(*old(page)),
            self.spec_origin().wf(),
            self.spec_size().wf(),
            position.wf(),
        ensures
            final(page).wf(),
            (r is Some) <==> metrics.glyph_height.0 <= self.spec_size().height.0 - position.y.0,
            r is None ==> *final(page) == *old(page),
            final(page).spec_size() == old(page).spec_size(),
            final(page).spec_layers().len() == old(page).spec_layers().len(),
            forall|j: int|
                0 <= j < old(page).spec_layers().len() && j != self.spec_layer().layer_idx
                    ==> final(page).spec_layers()[j] == old(page).spec_layers()[j],
            r matches Some(sec) ==> ({
                let idx = self.spec_layer().layer_idx as int;
                let oldld = old(page).spec_layers()[idx];
                let newld = final(page).spec_layers()[idx];
                &&& sec.spec_area().spec_layer() == self.spec_layer()
                &&& sec.spec_area().spec_origin().x.0 == self.spec_origin().x.0 + position.x.0
                &&& sec.spec_area().spec_origin().y.0 == self.spec_origin().y.0 + position.y.0
                &&& sec.spec_area().spec_size().width.0 == self.spec_size().width.0
                    - position.x.0
                &&& sec.spec_area().spec_size().height.0 == self.spec_size().height.0
                    - position.y.0
                &&& sec.spec_is_first() == true
                &&& sec.spec_font() is None
                &&& sec.spec_metrics() == metrics
                &&& LayerData::spec_same_cache(oldld, newld)
                &&& newld.spec_commands() == oldld.spec_commands() + seq![
                    Command::BeginTextSection,
                    Command::SetLineHeight(metrics.line_height),
                ]
            }),
    {
        let mut area = *self;
        area.add_offset(position);
        if metrics.glyph_height.0 > area.size.height.0 {
            None
        } else {
            let ld = &mut page.layers[self.layer.layer_idx];
            ld.begin_text_section();
            ld.set_line_height(metrics.line_height);
            proof {
                let oldld = old(page).spec_layers()[self.spec_layer().layer_idx as int];
                assert(final(ld).spec_commands() =~= oldld.spec_commands() + seq![
                    Command::BeginTextSection,
                    Command::SetLineHeight(metrics.line_height),
                ]);
            }
            Some(TextSection { area, is_first: true, metrics, font: None })
        }
    }

    /// Prints one string at the given position inside a complete text
    /// session: the session is started, the string printed, and the
    /// session ended on success and on failure alike.  Returns whether
    /// the area was tall enough for the line; a line that does not fit
    /// records nothing.
    pub fn print_str(
        &self,
        page: &mut Page,
        font_cache: &FontCache,
        position: Position,
        style: crate::style::Style,
        s: &str,
        metrics: Metrics,
        shaping: &TextShaping,
    ) -> (r: Result<bool, Error>)
        requires
            old(page).wf(),
            self.spec_layer().valid_for(*old(page)),
            self.spec_origin().wf(),
            self.spec_size().wf(),
            position.wf(),
            -MAX_UM <= self.spec_origin().x.0 + position.x.0 <= MAX_UM,
            -MAX_UM <= self.spec_origin().y.0 + position.y.0 <= MAX_UM,
            metrics.ascent.wf(),
            shaping.left_side_bearing.wf(),
            style.font < font_cache.spec_fonts().len(),
            forall|i: int|
                0 <= i < shaping.kerning_milli_em@.len() ==> shaping.kerning_milli_em@[i]
                    > i64::MIN,
        ensures
            final(page).wf(),
            final(page).spec_size() == old(page).spec_size(),
            final(page).spec_layers().len() == old(page).spec_layers().len(),
            forall|j: int|
                0 <= j < old(page).spec_layers().len() && j != self.spec_layer().layer_idx
                    ==> final(page).spec_layers()[j] == old(page).spec_layers()[j],
            (r matches Ok(b) && !b) <==> metrics.glyph_height.0 > self.spec_size().height.0
                - position.y.0,
            (r matches Ok(b) && !b) ==> *final(page) == *old(page),
            (r is Err) <==> (metrics.glyph_height.0 <= self.spec_size().height.0 - position.y.0
                && font_cache.spec_fonts()[style.font as int].spec_is_builtin()
                && win_ansi_encode(s@).len() != s@.len()),
            r is Err ==> r->Err_0.spec_kind() == ErrorKind::UnsupportedEncoding
                && r->Err_0.spec_msg() == (
            "Tried to print a string with characters that are not supported by the Windows-1252 encoding with a built-in font: "
            )@ + s@,
            metrics.glyph_height.0 <= self.spec_size().height.0 - position.y.0 ==> ({
                let idx = self.spec_layer().layer_idx as int;
                let oldld = old(page).spec_layers()[idx];
                let newld = final(page).spec_layers()[idx];
                &&& newld.spec_name() == oldld.spec_name()
                &&& newld.spec_outline_color() == oldld.spec_outline_color()
                &&& newld.spec_outline_thickness() == oldld.spec_outline_thickness()
                &&& newld.spec_commands().len() >= oldld.spec_commands().len() + 3
                &&& newld.spec_commands().take(oldld.spec_commands().len() as int + 2)
                    == oldld.spec_commands() + seq![
                    Command::BeginTextSection,
                    Command::SetLineHeight(metrics.line_height),
                ]
                &&& newld.spec_commands().last() == Command::EndTextSection
            }),
            (r matches Ok(b) && b) ==> ({
                let idx = self.spec_layer().layer_idx as int;
                let newld = final(page).spec_layers()[idx];
                &&& newld.spec_fill_color() == spec_effective_fill(style.color)
                &&& (newld.spec_commands()[newld.spec_commands().len() - 2] matches
                    Command::WritePositionedCodepoints { positions: pv, codepoints: cv }
                    && pv@.len() == shaping.kerning_milli_em@.len() && (forall|i: int|
                    0 <= i < pv@.len() ==> pv@[i] == -shaping.kerning_milli_em@[i]) && (
                font_cache.spec_fonts()[style.font as int].spec_is_builtin() ==> cv@.len()
                    == s@.len() && (forall|i: int|
                    0 <= i < cv@.len() ==> cv@[i] == win_ansi_encode(s@)[i] as u16)) && (
                !font_cache.spec_fonts()[style.font as int].spec_is_builtin() ==> cv@
                    == shaping.glyph_ids@))
            }),
    {
        match self.text_section(page, position, metrics) {
            Some(mut section) => {
                let ghost page1 = *page;
                let ghost sec1 = section;
                let res = section.print_str(page, font_cache, s, style, shaping);
                let ghost page2 = *page;
                section.end(page);
                proof {
                    let idx = self.spec_layer().layer_idx as int;
                    let oldld = old(page).spec_layers()[idx];
                    let pre = oldld.spec_commands() + seq![
                        Command::BeginTextSection,
                        Command::SetLineHeight(metrics.line_height),
                    ];
                    assert(page1.spec_layers()[idx].spec_commands() == pre);
                    let cmds2 = page2.spec_layers()[idx].spec_commands();
                    let cmds3 = final(page).spec_layers()[idx].spec_commands();
                    assert(cmds3 == cmds2.push(Command::EndTextSection));
                    assert(cmds2.len() >= pre.len());
                    assert forall|i: int| 0 <= i < pre.len() implies cmds2[i] == pre[i] by {
                        if res is Ok {
                            let mid = cmds2.take(cmds2.len() - 1);
                            assert(mid == pre + spec_cursor_cmds(
                                sec1,
                                s@,
                                shaping.left_side_bearing,
                            ) + spec_text_state_cmds(sec1, page1.spec_layers()[idx], style));
                            assert(cmds2[i] == mid[i]);
                        } else {
                            assert(cmds2 == pre + spec_cursor_cmds(
                                sec1,
                                s@,
                                shaping.left_side_bearing,
                            ));
                        }
                    }
                    assert(cmds3.take(oldld.spec_commands().len() as int + 2) =~= pre);
                }
                match res {
                    Ok(()) => Ok(true),
                    Err(e) => Err(e),
                }
            },
            None => Ok(false),
        }
    }
}

} // verus!
