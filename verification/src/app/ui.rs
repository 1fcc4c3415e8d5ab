//! The text that the terminal views show: packet rows, layer details, hex dump and titles.
use vstd::prelude::*;
use super::filter::filter_text;
use super::packet_info::{layers_view, PacketInfo, ProtocolLayer, ProtocolLayerView};
use super::state::{filter_view, App};
use crate::bytes::len_u64;
use crate::ethernet::timestamp::clock_text;
use crate::text::{
    decimal, hex, hex8, push_dec, push_hex, push_str, push_string, string_of, strings_view,
};

verus! {

/// The cells of a packet's row in the packet list: number, time of day, source,
/// destination, protocol, length and summary.
pub open spec fn row_cells(p: PacketInfo) -> Seq<Seq<char>> {
    seq![
        decimal(p.number as nat),
        clock_text(p.timestamp@.0, p.timestamp@.1),
        p.source@,
        p.destination@,
        p.protocol@,
        decimal(p.length as nat),
        p.info@,
    ]
}

/// The cells of a packet's row in the packet list.
pub fn packet_row(packet: &PacketInfo) -> (r: Vec<String>)
    ensures
        strings_view(r@) == row_cells(*packet),
{
    let mut number: Vec<char> = Vec::new();
    push_dec(&mut number, len_u64(packet.number));
    let mut length: Vec<char> = Vec::new();
    push_dec(&mut length, len_u64(packet.length));
    let r = vec![
        string_of(&number),
        packet.timestamp.clock_text(),
        packet.source.clone(),
        packet.destination.clone(),
        packet.protocol.clone(),
        string_of(&length),
        packet.info.clone(),
    ];
    assert(strings_view(r@) =~= row_cells(*packet));
    r
}

/// One line of the packet details panel.
pub enum DetailLine {
    /// The first line of a layer: its name, then its summary.
    Heading {
        /// `▼` and the layer's name.
        title: String,
        /// A comma and the layer's summary.
        summary: String,
    },
    /// A line of plain text.
    Plain(String),
}

/// The text of a details line.
pub enum DetailLineView {
    /// The first line of a layer.
    Heading { title: Seq<char>, summary: Seq<char> },
    /// A line of plain text.
    Plain(Seq<char>),
}

impl View for DetailLine {
    type V = DetailLineView;

    open spec fn view(&self) -> DetailLineView {
        match self {
            DetailLine::Heading { title, summary } => DetailLineView::Heading {
                title: title@,
                summary: summary@,
            },
            DetailLine::Plain(t) => DetailLineView::Plain(t@),
        }
    }
}

/// The view of each line in a list.
pub open spec fn detail_lines_view(v: Seq<DetailLine>) -> Seq<DetailLineView> {
    v.map_values(|l: DetailLine| l@)
}

/// The lines of one layer: a heading, each detail indented by two spaces, and a blank line.
pub open spec fn layer_lines(l: ProtocolLayerView) -> Seq<DetailLineView> {
    seq![DetailLineView::Heading { title: "▼ "@ + l.name, summary: ", "@ + l.summary }]
        + l.details.map_values(|d: Seq<char>| DetailLineView::Plain("  "@ + d))
        + seq![DetailLineView::Plain(""@)]
}

/// The lines of the first `n` layers, outermost first.
pub open spec fn layers_lines(ls: Seq<ProtocolLayerView>, n: int) -> Seq<DetailLineView>
    decreases n,
{
    if n <= 0 {
        seq![]
    } else {
        layers_lines(ls, n - 1) + layer_lines(ls[n - 1])
    }
}

/// Appends the lines of one layer.
fn push_layer_lines(lines: &mut Vec<DetailLine>, layer: &ProtocolLayer)
    ensures
        detail_lines_view(final(lines)@) == detail_lines_view(old(lines)@) + layer_lines(layer@),
{
    let ghost start = detail_lines_view(lines@);
    let mut title: Vec<char> = Vec::new();
    push_str(&mut title, "▼ ");
    push_string(&mut title, &layer.name);
    let mut summary: Vec<char> = Vec::new();
    push_str(&mut summary, ", ");
    push_string(&mut summary, &layer.summary);
    lines.push(DetailLine::Heading { title: string_of(&title), summary: string_of(&summary) });
    let ghost ds = layer@.details;
    let ghost mapped = ds.map_values(|d: Seq<char>| DetailLineView::Plain("  "@ + d));
    assert(detail_lines_view(lines@) =~= start + seq![
        DetailLineView::Heading { title: "▼ "@ + layer@.name, summary: ", "@ + layer@.summary },
    ]);
    let mut i: usize = 0;
    while i < layer.details.len()
        invariant
            i <= layer.details@.len(),
            ds == strings_view(layer.details@),
            mapped == ds.map_values(|d: Seq<char>| DetailLineView::Plain("  "@ + d)),
            detail_lines_view(lines@) == start + seq![
                DetailLineView::Heading { title: "▼ "@ + layer@.name, summary: ", "@ + layer@.summary },
            ] + mapped.take(i as int),
        decreases layer.details@.len() - i,
    {
        let mut l: Vec<char> = Vec::new();
        push_str(&mut l, "  ");
        push_string(&mut l, &layer.details[i]);
        let ghost before = lines@;
        lines.push(DetailLine::Plain(string_of(&l)));
        assert(ds[i as int] == layer.details@[i as int]@);
        assert(mapped.take(i + 1) =~= mapped.take(i as int).push(DetailLineView::Plain("  "@ + ds[i as int])));
        assert(detail_lines_view(lines@) =~= detail_lines_view(before).push(
            DetailLineView::Plain("  "@ + ds[i as int]),
        ));
        i = i + 1;
    }
    assert(mapped.take(i as int) =~= mapped);
    let ghost before = lines@;
    lines.push(DetailLine::Plain(String::new()));
    proof {
        reveal_strlit("");
    }
    assert(""@ =~= Seq::<char>::empty());
    assert(detail_lines_view(lines@) =~= detail_lines_view(before).push(DetailLineView::Plain(""@)));
    assert(detail_lines_view(lines@) =~= start + layer_lines(layer@));
}

/// Format packet details for display: every layer, outermost first.
pub fn format_packet_details(packet: &PacketInfo) -> (r: Vec<DetailLine>)
    ensures
        detail_lines_view(r@) == layers_lines(layers_view(packet.layers@), packet.layers@.len() as int),
{
    let ghost ls = layers_view(packet.layers@);
    let mut lines: Vec<DetailLine> = Vec::new();
    assert(detail_lines_view(lines@) =~= seq![]);
    let mut i: usize = 0;
    while i < packet.layers.len()
        invariant
            i <= packet.layers@.len(),
            ls == layers_view(packet.layers@),
            detail_lines_view(lines@) == layers_lines(ls, i as int),
        decreases packet.layers@.len() - i,
    {
        push_layer_lines(&mut lines, &packet.layers[i]);
        assert(ls[i as int] == packet.layers@[i as int]@);
        i = i + 1;
    }
    lines
}

/// The character the dump shows for a byte: printable ASCII and the space as themselves,
/// anything else as `.`.
pub open spec fn shown_char(b: u8) -> char {
    if 0x20 <= b <= 0x7e {
        b as char
    } else {
        '.'
    }
}

/// The hexadecimal cell of column `j` (0 to 15) of a row: the byte in two digits and a space,
/// or three spaces past the end of the data; column 8 starts with an extra space.
pub open spec fn hex_cell(chunk: Seq<u8>, j: int) -> Seq<char> {
    (if j == 8 {
        " "@
    } else {
        seq![]
    }) + (if j < chunk.len() {
        hex8(chunk[j], 2) + " "@
    } else {
        "   "@
    })
}

/// The first `n` hexadecimal cells of a row.
pub open spec fn hex_cells(chunk: Seq<u8>, n: int) -> Seq<char>
    decreases n,
{
    if n <= 0 {
        seq![]
    } else {
        hex_cells(chunk, n - 1) + hex_cell(chunk, n - 1)
    }
}

/// The bytes of row `i` of a dump: sixteen, or fewer in the last row.
pub open spec fn chunk_at(data: Seq<u8>, i: int) -> Seq<u8> {
    data.subrange(16 * i, if 16 * i + 16 <= data.len() {
        16 * i + 16
    } else {
        data.len() as int
    })
}

/// The text of one row of a hex dump.
pub struct HexLine {
    /// The offset of the row's first byte, in four hexadecimal digits, and two spaces.
    pub offset: String,
    /// The bytes in hexadecimal.
    pub hex: String,
    /// The bytes as characters.
    pub ascii: String,
}

/// The text of one row of a hex dump.
pub struct HexLineView {
    /// Offset text.
    pub offset: Seq<char>,
    /// Hexadecimal text.
    pub hex: Seq<char>,
    /// Character text.
    pub ascii: Seq<char>,
}

impl View for HexLine {
    type V = HexLineView;

    open spec fn view(&self) -> HexLineView {
        HexLineView { offset: self.offset@, hex: self.hex@, ascii: self.ascii@ }
    }
}

/// The view of each row in a list.
pub open spec fn hex_lines_view(v: Seq<HexLine>) -> Seq<HexLineView> {
    v.map_values(|l: HexLine| l@)
}

/// Row `i` of the dump of `data`.
pub open spec fn hex_line(data: Seq<u8>, i: int) -> HexLineView {
    let chunk = chunk_at(data, i);
    HexLineView {
        offset: hex((16 * i) as nat, 4) + "  "@,
        hex: hex_cells(chunk, 16),
        ascii: chunk.map_values(|b: u8| shown_char(b)),
    }
}

/// The dump of `data`: one row per sixteen bytes.
pub open spec fn hex_dump(data: Seq<u8>) -> Seq<HexLineView> {
    Seq::new(((data.len() + 15) / 16) as nat, |i: int| hex_line(data, i))
}

/// The character shown for a byte.
fn shown_char_of(b: u8) -> (c: char)
    ensures
        c == shown_char(b),
{
    if 0x20 <= b && b <= 0x7e {
        b as char
    } else {
        '.'
    }
}

/// One row of the dump: the bytes `data[start..end]` at offset `start`.
fn format_hex_line(data: &[u8], start: usize, end: usize) -> (r: HexLine)
    requires
        start % 16 == 0,
        start < end <= data@.len(),
        end == (if start + 16 <= data@.len() { start + 16 } else { data@.len() as int }),
    ensures
        r@ == hex_line(data@, start as int / 16),
{
    let ghost chunk = chunk_at(data@, start as int / 16);
    assert(chunk =~= data@.subrange(start as int, end as int));
    let mut offset: Vec<char> = Vec::new();
    push_hex(&mut offset, len_u64(start), 4);
    push_str(&mut offset, "  ");
    let mut hex_part: Vec<char> = Vec::new();
    let n = end - start;
    let mut j: usize = 0;
    while j < 16
        invariant
            j <= 16,
            n == end - start,
            start < end <= data@.len(),
            chunk == data@.subrange(start as int, end as int),
            hex_part@ == hex_cells(chunk, j as int),
        decreases 16 - j,
    {
        let ghost before = hex_part@;
        if j == 8 {
            push_str(&mut hex_part, " ");
        }
        if j < n {
            push_hex(&mut hex_part, u64::from(data[start + j]), 2);
            push_str(&mut hex_part, " ");
        } else {
            push_str(&mut hex_part, "   ");
        }
        proof {
            reveal_strlit(" ");
            reveal_strlit("   ");
        }
        assert(hex_part@ =~= before + hex_cell(chunk, j as int));
        j = j + 1;
    }
    let mut ascii: Vec<char> = Vec::new();
    let mut k: usize = start;
    while k < end
        invariant
            start <= k <= end <= data@.len(),
            chunk == data@.subrange(start as int, end as int),
            ascii@ == chunk.take(k - start).map_values(|b: u8| shown_char(b)),
        decreases end - k,
    {
        ascii.push(shown_char_of(data[k]));
        k = k + 1;
        assert(ascii@ =~= chunk.take(k - start).map_values(|b: u8| shown_char(b)));
    }
    assert(chunk.take(k - start) =~= chunk);
    assert(16 * (start as int / 16) == start);
    HexLine { offset: string_of(&offset), hex: string_of(&hex_part), ascii: string_of(&ascii) }
}

/// Format raw bytes as a hex dump, sixteen bytes per row.
pub fn format_hex_dump(data: &[u8]) -> (r: Vec<HexLine>)
    ensures
        hex_lines_view(r@) == hex_dump(data@),
{
    let len = data.len();
    let rows = len / 16 + if len % 16 != 0 {
        1
    } else {
        0
    };
    assert(rows == (len + 15) / 16);
    let mut lines: Vec<HexLine> = Vec::new();
    let mut row: usize = 0;
    while row < rows
        invariant
            len == data@.len(),
            rows == (len + 15) / 16,
            row <= rows,
            hex_lines_view(lines@) == hex_dump(data@).take(row as int),
        decreases rows - row,
    {
        assert(16 * row < len) by (nonlinear_arith)
            requires
                row < rows,
                rows == (len + 15) / 16,
        ;
        let start = 16 * row;
        let end = if len - start >= 16 {
            start + 16
        } else {
            len
        };
        assert(start % 16 == 0 && start as int / 16 == row) by (nonlinear_arith)
            requires
                start == 16 * row,
        ;
        let line = format_hex_line(data, start, end);
        let ghost before = lines@;
        lines.push(line);
        assert(hex_dump(data@)[row as int] == hex_line(data@, row as int));
        assert(hex_lines_view(lines@) =~= hex_lines_view(before).push(hex_line(data@, row as int)));
        assert(hex_dump(data@).take(row + 1) =~= hex_dump(data@).take(row as int).push(
            hex_line(data@, row as int),
        ));
        row = row + 1;
    }
    assert(hex_lines_view(lines@) =~= hex_dump(data@));
    lines
}

/// Whether the filter bar is shown: while editing, while a filter is active, or while an
/// error is reported.
pub fn shows_filter_bar(app: &App) -> (r: bool)
    ensures
        r == (app.filter_mode || app.filter is Some || app.filter_error is Some),
{
    app.filter_mode || app.filter.is_some() || app.filter_error.is_some()
}

/// ` (X/Y)`, the shown and the captured packet counts, while a filter is active; else nothing.
pub open spec fn filter_counts_text(app: App) -> Seq<char> {
    if app.filter is Some {
        " ("@ + decimal(app.packets@.len()) + "/"@ + decimal(app.all_packets@.len()) + ")"@
    } else {
        Seq::<char>::empty()
    }
}

/// The title of the filter bar.
pub open spec fn filter_bar_title_text(app: App) -> Seq<char> {
    if app.filter_mode {
        match app.filter_error {
            Some(e) => "Filter"@ + filter_counts_text(app) + " (Error: "@ + e@
                + ") - Press Enter to apply, Esc to cancel"@,
            None => "Filter"@ + filter_counts_text(app) + " - Press Enter to apply, Esc to cancel"@,
        }
    } else {
        "Filter Active"@ + filter_counts_text(app) + " - Press Enter to edit, Esc to clear"@
    }
}

/// Appends ` (X/Y)`, the shown and the captured packet counts, while a filter is active.
fn push_filter_counts(t: &mut Vec<char>, app: &App)
    ensures
        final(t)@ == old(t)@ + filter_counts_text(*app),
{
    if app.filter.is_some() {
        push_str(t, " (");
        push_dec(t, len_u64(app.packets.len()));
        push_str(t, "/");
        push_dec(t, len_u64(app.all_packets.len()));
        push_str(t, ")");
    }
    assert(t@ =~= old(t)@ + filter_counts_text(*app));
}

/// The title of the filter bar: how to apply or leave the input while editing (with the
/// parse error, if any), how to edit or clear the active filter otherwise; while a filter is
/// active, the shown and the captured packet counts follow the first word.
pub fn filter_bar_title(app: &App) -> (r: String)
    ensures
        r@ == filter_bar_title_text(*app),
{
    let mut t: Vec<char> = Vec::new();
    if app.filter_mode {
        push_str(&mut t, "Filter");
        push_filter_counts(&mut t, app);
        match &app.filter_error {
            Some(e) => {
                push_str(&mut t, " (Error: ");
                push_string(&mut t, e);
                push_str(&mut t, ") - Press Enter to apply, Esc to cancel");
            },
            None => push_str(&mut t, " - Press Enter to apply, Esc to cancel"),
        }
    } else {
        push_str(&mut t, "Filter Active");
        push_filter_counts(&mut t, app);
        push_str(&mut t, " - Press Enter to edit, Esc to clear");
    }
    assert(t@ =~= filter_bar_title_text(*app));
    string_of(&t)
}

/// The text of the filter bar: the input while editing, else the active filter's text.
pub fn filter_bar_text(app: &App) -> (r: String)
    ensures
        r@ == (if app.filter_mode {
            app.filter_input@
        } else {
            match filter_view(app.filter) {
                Some(f) => filter_text(f),
                None => Seq::<char>::empty(),
            }
        }),
{
    if app.filter_mode {
        app.filter_input.clone()
    } else {
        match &app.filter {
            Some(f) => f.to_text(),
            None => String::new(),
        }
    }
}

/// The title of the packet list: the number of shown packets, out of the captured ones
/// while a filter is active, and the navigation keys.
pub open spec fn packet_list_title_text(app: App) -> Seq<char> {
    if app.filter is Some {
        "Captured Packets ("@ + decimal(app.packets@.len()) + "/"@ + decimal(app.all_packets@.len())
            + ") - ↑/↓, j/k, PgUp/PgDn, Home/End"@
    } else {
        "Captured Packets ("@ + decimal(app.packets@.len()) + ") - ↑/↓, j/k, PgUp/PgDn, Home/End"@
    }
}

/// The title of the packet list.
pub fn packet_list_title(app: &App) -> (r: String)
    ensures
        r@ == packet_list_title_text(*app),
{
    let mut t: Vec<char> = Vec::new();
    push_str(&mut t, "Captured Packets (");
    push_dec(&mut t, len_u64(app.packets.len()));
    if app.filter.is_some() {
        push_str(&mut t, "/");
        push_dec(&mut t, len_u64(app.all_packets.len()));
    }
    push_str(&mut t, ") - ↑/↓, j/k, PgUp/PgDn, Home/End");
    assert(t@ =~= packet_list_title_text(*app));
    string_of(&t)
}

/// The number of packet rows that fit in a list panel `height` rows high: the borders and
/// the header row take three.
pub fn visible_rows(height: u16) -> (r: u16)
    ensures
        r == (if height < 3 { 0 } else { height - 3 }),
{
    height.saturating_sub(3)
}

/// A packet's row lists, in this order, its number and capture time of day, its source and
/// its destination address, its protocol, its length in bytes and its summary.
pub proof fn law_packet_row_columns(p: PacketInfo)
    ensures
        row_cells(p).len() == 7,
        row_cells(p)[0] == decimal(p@.number as nat),
        row_cells(p)[1] == clock_text(p@.timestamp@.0, p@.timestamp@.1),
        row_cells(p)[2] == p@.source,
        row_cells(p)[3] == p@.destination,
        row_cells(p)[4] == p@.protocol,
        row_cells(p)[5] == decimal(p@.length as nat),
        row_cells(p)[6] == p@.info,
{
}

/// The dump shows byte `k` of the data in row `k / 16`, column `k % 16`: in the character
/// column as itself when it is printable ASCII and as `.` otherwise, and in the hexadecimal
/// column as two digits and a space (after an extra space in the ninth column). There are
/// just enough rows for sixteen bytes each, and row `i` is labelled with the offset `16 * i`
/// in four hexadecimal digits.
pub proof fn law_hex_dump_layout(data: Seq<u8>, k: int)
    requires
        0 <= k < data.len(),
    ensures
        hex_dump(data).len() * 16 >= data.len(),
        (hex_dump(data).len() - 1) * 16 < data.len(),
        hex_dump(data)[k / 16].ascii.len() == chunk_at(data, k / 16).len(),
        hex_dump(data)[k / 16].ascii[k % 16] == (if 32 <= data[k] <= 126 {
            data[k] as char
        } else {
            '.'
        }),
        hex_cell(chunk_at(data, k / 16), k % 16) == (if k % 16 == 8 {
            " "@
        } else {
            Seq::<char>::empty()
        }) + hex8(data[k], 2) + " "@,
        hex_dump(data)[k / 16].offset == hex((16 * (k / 16)) as nat, 4) + "  "@,
{
    let i = k / 16;
    let j = k % 16;
    let n = data.len() as int;
    assert(k == 16 * i + j && 0 <= j < 16) by (nonlinear_arith)
        requires
            i == k / 16,
            j == k % 16,
            0 <= k,
    ;
    assert(0 <= i < (n + 15) / 16 && ((n + 15) / 16) * 16 >= n && ((n + 15) / 16 - 1) * 16 < n) by (nonlinear_arith)
        requires
            k == 16 * i + j,
            0 <= j < 16,
            0 <= k < n,
    ;
    let chunk = chunk_at(data, i);
    assert(chunk.len() > j);
    assert(chunk[j] == data[k]);
    assert(hex_dump(data)[i] == hex_line(data, i));
}

} // verus!
