//! Rendering light state: a table of all lights, and a detailed view of
//! one. An optional field that is absent shows as `N/A`.

use vstd::prelude::*;
use crate::command::round_div;
use crate::text::{
    decimal, decimal_string, join_cells, joined, pad_left, pad_right, padded_left, padded_right,
    views,
};

verus! {

/// The state of one light as the bridge reports it. The xy chromaticity
/// pair comes as its text.
#[derive(Clone, Debug)]
pub struct LightInfo {
    pub name: String,
    pub on: bool,
    pub bri: u8,
    pub hue: Option<u16>,
    pub sat: Option<u8>,
    /// Colour temperature in mired.
    pub ct: Option<u16>,
    pub alert: String,
    pub effect: Option<String>,
    pub colormode: Option<String>,
    pub xy: Option<String>,
    pub reachable: bool,
}

/// What an absent field shows as.
pub open spec fn na() -> Seq<char> {
    "N/A"@
}

/// The scale of the mired-to-Kelvin conversion on display.
pub const KELVIN_SCALE: u32 = 1000000;

/// The Kelvin value shown for a stored mired value `m`; a zero mired value
/// has none.
pub open spec fn kelvin_of_mired(m: u16) -> Option<u64> {
    if m == 0 {
        None
    } else {
        Some(round_div(KELVIN_SCALE as int, m as int) as u64)
    }
}

/// Converts a stored mired value to the Kelvin value shown.
pub fn mired_to_kelvin(m: u16) -> (r: Option<u64>)
    ensures
        r == kelvin_of_mired(m),
{
    if m == 0 {
        None
    } else {
        Some((2 * (KELVIN_SCALE as u64) + m as u64) / (2 * m as u64))
    }
}

/// A number right-aligned in a column of width `w`, or `N/A` left-aligned.
pub open spec fn num_cell(o: Option<u64>, w: nat) -> Seq<char> {
    match o {
        Some(v) => pad_left(decimal(v as nat), w),
        None => pad_right(na(), w),
    }
}

/// A text left-aligned in a column of width `w`, or `N/A` in its place.
pub open spec fn text_cell(o: Option<String>, w: nat) -> Seq<char> {
    match o {
        Some(s) => pad_right(s@, w),
        None => pad_right(na(), w),
    }
}

/// Renders an optional number in a column of width `w`.
pub fn show_num(o: Option<u64>, w: usize) -> (r: String)
    ensures
        r@ == num_cell(o, w as nat),
{
    match o {
        Some(v) => padded_left(decimal_string(v).as_str(), w),
        None => padded_right("N/A", w),
    }
}

/// Renders an optional text in a column of width `w`.
pub fn show_text(o: &Option<String>, w: usize) -> (r: String)
    ensures
        r@ == text_cell(*o, w as nat),
{
    match o {
        Some(s) => padded_right(s.as_str(), w),
        None => padded_right("N/A", w),
    }
}

/// An optional `u16` as an optional `u64`.
pub open spec fn widen16(o: Option<u16>) -> Option<u64> {
    match o {
        Some(v) => Some(v as u64),
        None => None,
    }
}

/// An optional `u8` as an optional `u64`.
pub open spec fn widen8(o: Option<u8>) -> Option<u64> {
    match o {
        Some(v) => Some(v as u64),
        None => None,
    }
}

/// The Kelvin value shown for an optional stored colour temperature.
pub open spec fn shown_kelvin(ct: Option<u16>) -> Option<u64> {
    match ct {
        Some(m) => kelvin_of_mired(m),
        None => None,
    }
}

fn widen16_exec(o: Option<u16>) -> (r: Option<u64>)
    ensures
        r == widen16(o),
{
    match o {
        Some(v) => Some(v as u64),
        None => None,
    }
}

fn widen8_exec(o: Option<u8>) -> (r: Option<u64>)
    ensures
        r == widen8(o),
{
    match o {
        Some(v) => Some(v as u64),
        None => None,
    }
}

fn kelvin_shown(ct: Option<u16>) -> (r: Option<u64>)
    ensures
        r == shown_kelvin(ct),
{
    match ct {
        Some(m) => mired_to_kelvin(m),
        None => None,
    }
}

/// The word for a light's on flag in the table.
pub open spec fn on_word(on: bool) -> Seq<char> {
    if on { "on"@ } else { "off"@ }
}

/// The word for a flag in the detailed view.
pub open spec fn bool_word(b: bool) -> Seq<char> {
    if b { "true"@ } else { "false"@ }
}

/// The width of the name column: the longest name, and at least 4.
pub open spec fn name_width_of(lights: Seq<(usize, LightInfo)>) -> nat
    decreases lights.len(),
{
    if lights.len() == 0 {
        4
    } else {
        let rest = name_width_of(lights.drop_last());
        let n = lights.last().1.name@.len();
        if n > rest { n } else { rest }
    }
}

/// The name column is exactly as wide as the longest name, and never
/// narrower than 4: it is at least 4 and at least every name's length, and
/// it is 4 or the length of some name.
pub proof fn lemma_name_width(lights: Seq<(usize, LightInfo)>)
    ensures
        name_width_of(lights) >= 4,
        forall|i: int| 0 <= i < lights.len() ==> lights[i].1.name@.len() <= name_width_of(lights),
        name_width_of(lights) == 4 || exists|i: int|
            0 <= i < lights.len() && lights[i].1.name@.len() == name_width_of(lights),
    decreases lights.len(),
{
    if lights.len() > 0 {
        let p = lights.drop_last();
        lemma_name_width(p);
        assert forall|i: int| 0 <= i < lights.len() implies lights[i].1.name@.len()
            <= name_width_of(lights) by {
            if i < p.len() {
                assert(p[i] == lights[i]);
            }
        }
        if name_width_of(lights) != 4 {
            if name_width_of(lights) == name_width_of(p) {
                let k = choose|k: int|
                    0 <= k < p.len() && p[k].1.name@.len() == name_width_of(p);
                assert(lights[k] == p[k]);
            } else {
                assert(lights[lights.len() - 1].1.name@.len() == name_width_of(lights));
            }
        }
    }
}

/// Computes the width of the name column.
pub fn name_width(lights: &Vec<(usize, LightInfo)>) -> (r: usize)
    ensures
        r == name_width_of(lights@),
{
    let mut w: usize = 4;
    let mut i: usize = 0;
    while i < lights.len()
        invariant
            i <= lights.len(),
            w == name_width_of(lights@.take(i as int)),
        decreases lights.len() - i,
    {
        let n = lights[i].1.name.as_str().unicode_len();
        assert(lights@.take(i + 1).drop_last() =~= lights@.take(i as int));
        if n > w {
            w = n;
        }
        i = i + 1;
    }
    assert(lights@.take(i as int) =~= lights@);
    w
}

/// The header line of the table for a name column of width `w`.
pub open spec fn header_line(w: nat) -> Seq<char> {
    "id "@ + pad_right("name"@, w) + " on  bri hue   sat ct    colormode xy"@
}

/// The cells of the table row of light `id`, with a name column of
/// width `w`.
pub open spec fn row_cells(id: usize, l: LightInfo, w: nat) -> Seq<Seq<char>> {
    seq![
        pad_left(decimal(id as nat), 2),
        pad_right(l.name@, w),
        pad_right(on_word(l.on), 3),
        pad_left(decimal(l.bri as nat), 3),
        num_cell(widen16(l.hue), 5),
        num_cell(widen8(l.sat), 3),
        num_cell(shown_kelvin(l.ct), 4) + "K"@,
        text_cell(l.colormode, 9),
        text_cell(l.xy, 0),
    ]
}

/// The lines of the table: the header, then one row per light in the
/// order given.
pub open spec fn table_lines(lights: Seq<(usize, LightInfo)>) -> Seq<Seq<char>> {
    let w = name_width_of(lights);
    seq![header_line(w)] + Seq::new(
        lights.len(),
        |i: int| join_cells(row_cells(lights[i].0, lights[i].1, w)),
    )
}

fn header(w: usize) -> (r: String)
    ensures
        r@ == header_line(w as nat),
{
    let mut out = "id ".to_owned();
    let name = padded_right("name", w);
    out.append(name.as_str());
    out.append(" on  bri hue   sat ct    colormode xy");
    assert(out@ =~= header_line(w as nat));
    out
}

/// Renders the table row of light `id` with a name column of width `w`.
pub fn table_row(id: usize, l: &LightInfo, w: usize) -> (r: String)
    ensures
        r@ == join_cells(row_cells(id, *l, w as nat)),
{
    let on = if l.on { "on" } else { "off" };
    let mut ct = show_num(kelvin_shown(l.ct), 4);
    ct.append("K");
    let cells = vec![
        padded_left(decimal_string(id as u64).as_str(), 2),
        padded_right(l.name.as_str(), w),
        padded_right(on, 3),
        padded_left(decimal_string(l.bri as u64).as_str(), 3),
        show_num(widen16_exec(l.hue), 5),
        show_num(widen8_exec(l.sat), 3),
        ct,
        show_text(&l.colormode, 9),
        show_text(&l.xy, 0),
    ];
    assert(views(cells@) =~= row_cells(id, *l, w as nat));
    joined(&cells)
}

/// Renders the table of all lights, one line per element of the result.
pub fn lights_table(lights: &Vec<(usize, LightInfo)>) -> (r: Vec<String>)
    ensures
        views(r@) == table_lines(lights@),
{
    let w = name_width(lights);
    let mut out: Vec<String> = Vec::new();
    out.push(header(w));
    let mut i: usize = 0;
    while i < lights.len()
        invariant
            i <= lights.len(),
            w == name_width_of(lights@),
            views(out@) == table_lines(lights@).take(i + 1),
        decreases lights.len() - i,
    {
        let row = table_row(lights[i].0, &lights[i].1, w);
        let ghost before = out@;
        let ghost row_text = row@;
        out.push(row);
        assert(views(out@) =~= views(before).push(row_text));
        assert(table_lines(lights@)[i + 1] == row_text);
        i = i + 1;
        assert(views(out@) =~= table_lines(lights@).take(i + 1));
    }
    assert(table_lines(lights@).take(i + 1) =~= table_lines(lights@));
    out
}

/// The lines of the detailed view of light `id`.
pub open spec fn detail_lines(id: usize, l: LightInfo) -> Seq<Seq<char>> {
    seq![
        "id: "@ + pad_left(decimal(id as nat), 2),
        "name: "@ + l.name@,
        "state:"@,
        "    on: "@ + pad_right(bool_word(l.on), 3),
        "    bri: "@ + pad_left(decimal(l.bri as nat), 3),
        "    hue: "@ + num_cell(widen16(l.hue), 5),
        "    sat: "@ + num_cell(widen8(l.sat), 3),
        "    effect: "@ + text_cell(l.effect, 0),
        "    ct: "@ + num_cell(shown_kelvin(l.ct), 4) + "K"@,
        "    alert: "@ + l.alert@,
        "    colormode: "@ + text_cell(l.colormode, 9),
        "    xy: "@ + text_cell(l.xy, 0),
        "    reachable: "@ + bool_word(l.reachable),
    ]
}

/// Every optional field that is absent shows as `N/A`, in the table row
/// and in the detailed view alike.
pub proof fn lemma_absent_shows_na(id: usize, l: LightInfo, w: nat)
    ensures
        l.hue is None ==> row_cells(id, l, w)[4] == pad_right(na(), 5)
            && detail_lines(id, l)[5] == "    hue: "@ + pad_right(na(), 5),
        l.sat is None ==> row_cells(id, l, w)[5] == pad_right(na(), 3)
            && detail_lines(id, l)[6] == "    sat: "@ + pad_right(na(), 3),
        l.ct is None ==> row_cells(id, l, w)[6] == pad_right(na(), 4) + "K"@
            && detail_lines(id, l)[8] == "    ct: "@ + pad_right(na(), 4) + "K"@,
        l.colormode is None ==> row_cells(id, l, w)[7] == pad_right(na(), 9)
            && detail_lines(id, l)[10] == "    colormode: "@ + pad_right(na(), 9),
        l.xy is None ==> row_cells(id, l, w)[8] == na()
            && detail_lines(id, l)[11] == "    xy: "@ + na(),
        l.effect is None ==> detail_lines(id, l)[7] == "    effect: "@ + na(),
        forall|k: nat| pad_right(na(), k).take(3) == na(),
{
    assert forall|k: nat| pad_right(na(), k).take(3) == na() by {
        assert(na().len() == 3) by {
            reveal_strlit("N/A");
        }
        assert(pad_right(na(), k).take(3) =~= na());
    }
}

fn labelled(label: &str, cell: String) -> (r: String)
    ensures
        r@ == label@ + cell@,
{
    let mut out = label.to_owned();
    out.append(cell.as_str());
    out
}

/// Renders the detailed view of light `id`, one line per element of the
/// result.
pub fn light_detail(id: usize, l: &LightInfo) -> (r: Vec<String>)
    ensures
        views(r@) == detail_lines(id, *l),
{
    let on = if l.on { "true" } else { "false" };
    let reachable = if l.reachable { "true" } else { "false" };
    let mut ct = show_num(kelvin_shown(l.ct), 4);
    ct.append("K");
    let lines = vec![
        labelled("id: ", padded_left(decimal_string(id as u64).as_str(), 2)),
        labelled("name: ", l.name.clone()),
        "state:".to_owned(),
        labelled("    on: ", padded_right(on, 3)),
        labelled("    bri: ", padded_left(decimal_string(l.bri as u64).as_str(), 3)),
        labelled("    hue: ", show_num(widen16_exec(l.hue), 5)),
        labelled("    sat: ", show_num(widen8_exec(l.sat), 3)),
        labelled("    effect: ", show_text(&l.effect, 0)),
        labelled("    ct: ", ct),
        labelled("    alert: ", l.alert.clone()),
        labelled("    colormode: ", show_text(&l.colormode, 9)),
        labelled("    xy: ", show_text(&l.xy, 0)),
        labelled("    reachable: ", reachable.to_owned()),
    ];
    assert(lines@[8]@ =~= detail_lines(id, *l)[8]);
    assert(views(lines@) =~= detail_lines(id, *l));
    lines
}

} // verus!
