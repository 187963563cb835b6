//! The line-scanning extraction passes: planimetry, prices, the legacy
//! fallback, and the framing of the structured island.
use vstd::prelude::*;
use crate::numeric::{Decimal, decimal_of, parse_decimal, parse_unsigned, unsigned_of};
use crate::record::{DiscoveryResult, RecordView, fill, overwrite, fill_text, fill_value, overwrite_value};
use crate::scan::{find_line, first_match};
use crate::text::{
    chars_of, contains, contains_exec, find, find_exec, remove_all, remove_all_exec, rfind,
    rfind_exec, string_of, sub_vec, trim, trim_exec, views,
};

verus! {

pub const ROOMS_LABEL: &'static str = "=\"im-mainFeatures__label\">locali";

pub const AREA_LABEL: &'static str = "=\"im-mainFeatures__label\">superficie";

pub const ISLAND_MARKER: &'static str = "id=\"js-hydration\">";

pub const PRICE_LABEL: &'static str = ">prezzo<";

pub const FEES_LABEL: &'static str = ">spese condominio<";

pub const EURO: &'static str = "\u{20ac}";

pub const PER_MONTH: &'static str = "/mese";

pub const THOUSANDS: &'static str = ".";

pub const ROOMS_SUFFIX: &'static str = " locali<";

pub const LIST_OPEN: &'static str = "<li>";

pub const LIST_CLOSE: &'static str = "</li>";

pub const ROOMS_WORD: &'static str = " locali";

pub const SQUARE_METRE: &'static str = "m\u{b2}";

pub const PRICE_OPEN: &'static str = "<strong class=\"price\">";

pub const PRICE_CLOSE: &'static str = "</strong>";

pub const EURO_PER_MONTH: &'static str = "\u{20ac}/mese";

pub const LATITUDE: &'static str = "latitude: '";

pub const LONGITUDE: &'static str = "longitude: '";

pub const QUOTE_COMMA: &'static str = "',";

pub const MAP_LIST_HEADER: &'static str = "header-map-list";

pub const U8_MAX: u64 = 255;

pub const U32_MAX: u64 = 4294967295;

pub open spec fn as_u8(o: Option<nat>) -> Option<u8> {
    match o {
        Some(v) => Some(v as u8),
        None => None,
    }
}

pub open spec fn as_u32(o: Option<nat>) -> Option<u32> {
    match o {
        Some(v) => Some(v as u32),
        None => None,
    }
}

/// The trimmed line right after the first label line holding `label`.
pub open spec fn planimetry_value(ls: Seq<Seq<char>>, label: Seq<char>) -> Option<Seq<char>> {
    match first_match(ls, label, label, ls.len() - 1) {
        Some(i) => Some(trim(ls[i + 1])),
        None => None,
    }
}

/// A value line was found but does not read as a number of the field's width.
pub open spec fn planimetry_fails(ls: Seq<Seq<char>>) -> bool {
    let rooms = planimetry_value(ls, ROOMS_LABEL@);
    let area = planimetry_value(ls, AREA_LABEL@);
    (rooms is Some && unsigned_of(rooms->0, U8_MAX as nat) is None) || (area is Some
        && unsigned_of(area->0, U32_MAX as nat) is None)
}

/// The planimetry pass: room count and surface overwrite, when found.
pub open spec fn planimetry(ls: Seq<Seq<char>>, r: RecordView) -> RecordView {
    let rooms = planimetry_value(ls, ROOMS_LABEL@);
    let area = planimetry_value(ls, AREA_LABEL@);
    RecordView {
        rooms_number: overwrite(
            r.rooms_number,
            match rooms {
                Some(t) => as_u8(unsigned_of(t, U8_MAX as nat)),
                None => None,
            },
        ),
        square_meters: overwrite(
            r.square_meters,
            match area {
                Some(t) => as_u32(unsigned_of(t, U32_MAX as nat)),
                None => None,
            },
        ),
        ..r
    }
}

fn planimetry_value_exec(ls: &Vec<Vec<char>>, label: &[char]) -> (r: Option<Vec<char>>)
    ensures
        match r {
            Some(t) => planimetry_value(views(ls@), label@) == Some(t@),
            None => planimetry_value(views(ls@), label@) is None,
        },
{
    if ls.len() == 0 {
        return None;
    }
    match find_line(ls, label, label, ls.len() - 1) {
        Some(i) => Some(trim_exec(ls[i + 1].as_slice())),
        None => None,
    }
}

/// Runs the planimetry pass over the lines `ls`. Fails when a value line
/// is not a number.
pub fn extract_planimetry(ls: &Vec<Vec<char>>, r: &mut DiscoveryResult) -> (ok: bool)
    ensures
        ok == !planimetry_fails(views(ls@)),
        ok ==> final(r)@ == planimetry(views(ls@), old(r)@),
{
    let rooms_label = chars_of(ROOMS_LABEL);
    let area_label = chars_of(AREA_LABEL);
    let rooms: Option<u8> = match planimetry_value_exec(ls, rooms_label.as_slice()) {
        Some(t) => match parse_unsigned(t.as_slice(), U8_MAX) {
            Some(v) => Some(v as u8),
            None => return false,
        },
        None => None,
    };
    let area: Option<u32> = match planimetry_value_exec(ls, area_label.as_slice()) {
        Some(t) => match parse_unsigned(t.as_slice(), U32_MAX) {
            Some(v) => Some(v as u32),
            None => return false,
        },
        None => None,
    };
    overwrite_value(&mut r.rooms_number, rooms);
    overwrite_value(&mut r.square_meters, area);
    true
}

/// The amount a price line reads as, or zero when it reads as no number.
pub open spec fn price_value(l: Seq<char>) -> nat {
    let cleaned = trim(remove_all(remove_all(remove_all(trim(l), EURO@), THOUSANDS@), PER_MONTH@));
    match unsigned_of(cleaned, U32_MAX as nat) {
        Some(v) => v,
        None => 0,
    }
}

/// Line `i` is a price or fee label whose amount line, two below, shows a currency sign.
pub open spec fn is_price_row(ls: Seq<Seq<char>>, i: int) -> bool {
    &&& 0 <= i
    &&& i + 2 < ls.len()
    &&& contains(ls[i], PRICE_LABEL@) || contains(ls[i], FEES_LABEL@)
    &&& contains(ls[i + 2], EURO@)
}

/// The sum of the amounts of the price rows among the first `n` lines.
pub open spec fn price_total(ls: Seq<Seq<char>>, n: int) -> nat
    decreases n,
{
    if n <= 0 {
        0
    } else {
        price_total(ls, n - 1) + if is_price_row(ls, n - 1) {
            price_value(ls[n + 1])
        } else {
            0
        }
    }
}

/// A sum held in 32 bits, saturating at the largest value.
pub open spec fn capped(t: nat) -> u32 {
    if t > u32::MAX {
        u32::MAX
    } else {
        t as u32
    }
}

/// The price pass: the monthly cost becomes the sum of all price rows, when that sum is positive.
pub open spec fn prices(ls: Seq<Seq<char>>, r: RecordView) -> RecordView {
    let t = price_total(ls, ls.len() as int);
    if t > 0 {
        RecordView { cost: Some(capped(t)), ..r }
    } else {
        r
    }
}

fn price_value_exec(l: &[char]) -> (v: u64)
    ensures
        v == price_value(l@),
        v <= U32_MAX,
{
    let euro = chars_of(EURO);
    let dot = chars_of(THOUSANDS);
    let per_month = chars_of(PER_MONTH);
    let t = trim_exec(l);
    let t = remove_all_exec(t.as_slice(), euro.as_slice());
    let t = remove_all_exec(t.as_slice(), dot.as_slice());
    let t = remove_all_exec(t.as_slice(), per_month.as_slice());
    let t = trim_exec(t.as_slice());
    match parse_unsigned(t.as_slice(), U32_MAX) {
        Some(v) => v,
        None => 0,
    }
}

/// Runs the price pass over the lines `ls`.
pub fn extract_prices(ls: &Vec<Vec<char>>, r: &mut DiscoveryResult)
    ensures
        final(r)@ == prices(views(ls@), old(r)@),
{
    let ghost v = views(ls@);
    let price = chars_of(PRICE_LABEL);
    let fees = chars_of(FEES_LABEL);
    let euro = chars_of(EURO);
    let mut total: u64 = 0;
    let mut i: usize = 0;
    while i < ls.len()
        invariant
            i <= ls@.len(),
            v == views(ls@),
            price@ == PRICE_LABEL@,
            fees@ == FEES_LABEL@,
            euro@ == EURO@,
            total == capped(price_total(v, i as int)),
            total > 0 <==> price_total(v, i as int) > 0,
        decreases ls@.len() - i,
    {
        if ls.len() - i > 2 {
            let label = ls[i].as_slice();
            if (contains_exec(label, price.as_slice()) || contains_exec(label, fees.as_slice()))
                && contains_exec(ls[i + 2].as_slice(), euro.as_slice()) {
                let amount = price_value_exec(ls[i + 2].as_slice());
                total = total + amount;
                if total > U32_MAX {
                    total = U32_MAX;
                }
            }
        }
        i += 1;
    }
    if total > 0 {
        r.cost = Some(total as u32);
    }
}

/// The island's JSON text: in the first line holding the island marker, what
/// stands strictly between its first `>` and its last `<`.
pub open spec fn island_text(ls: Seq<Seq<char>>) -> Option<Seq<char>> {
    match first_match(ls, ISLAND_MARKER@, ISLAND_MARKER@, ls.len() as int) {
        Some(i) => match (find(ls[i], seq!['>']), rfind(ls[i], '<')) {
            (Some(a), Some(b)) => if a < b {
                Some(ls[i].subrange(a + 1, b))
            } else {
                None
            },
            _ => None,
        },
        None => None,
    }
}

/// Finds the island's JSON text in the lines `ls`.
pub fn find_island(ls: &Vec<Vec<char>>) -> (r: Option<String>)
    ensures
        match r {
            Some(t) => island_text(views(ls@)) == Some(t@),
            None => island_text(views(ls@)) is None,
        },
{
    let marker = chars_of(ISLAND_MARKER);
    let i = match find_line(ls, marker.as_slice(), marker.as_slice(), ls.len()) {
        Some(i) => i,
        None => return None,
    };
    let l = ls[i].as_slice();
    let gt: Vec<char> = vec!['>'];
    assert(gt@ =~= seq!['>']);
    match (find_exec(l, gt.as_slice()), rfind_exec(l, '<')) {
        (Some(a), Some(b)) => {
            if a < b {
                let t = sub_vec(l, a + 1, b);
                Some(string_of(t.as_slice()))
            } else {
                None
            }
        },
        _ => None,
    }
}

/// The first line holding both markers, if there is one.
pub open spec fn first_line(ls: Seq<Seq<char>>, a: Seq<char>, b: Seq<char>) -> Option<Seq<char>> {
    match first_match(ls, a, b, ls.len() as int) {
        Some(i) => Some(ls[i]),
        None => None,
    }
}

/// The fallback room count: the first line with the rooms suffix, without list markup and the suffix.
pub open spec fn legacy_rooms(ls: Seq<Seq<char>>) -> Option<u8> {
    match first_line(ls, ROOMS_SUFFIX@, ROOMS_SUFFIX@) {
        Some(l) => as_u8(
            unsigned_of(
                trim(remove_all(remove_all(remove_all(l, LIST_OPEN@), LIST_CLOSE@), ROOMS_WORD@)),
                U8_MAX as nat,
            ),
        ),
        None => None,
    }
}

/// The fallback surface: in the first list item with the area unit, the text before the unit.
pub open spec fn legacy_area(ls: Seq<Seq<char>>) -> Option<u32> {
    match first_line(ls, SQUARE_METRE@, LIST_OPEN@) {
        Some(l) => match find(l, SQUARE_METRE@) {
            Some(k) => as_u32(
                unsigned_of(trim(remove_all(l.subrange(0, k), LIST_OPEN@)), U32_MAX as nat),
            ),
            None => None,
        },
        None => None,
    }
}

/// The fallback monthly cost: the first line with the per-month marker, without its markup.
pub open spec fn legacy_cost(ls: Seq<Seq<char>>) -> Option<u32> {
    match first_line(ls, EURO_PER_MONTH@, EURO_PER_MONTH@) {
        Some(l) => as_u32(
            unsigned_of(
                trim(
                    remove_all(
                        remove_all(
                            remove_all(remove_all(l, PRICE_OPEN@), PRICE_CLOSE@),
                            EURO_PER_MONTH@,
                        ),
                        THOUSANDS@,
                    ),
                ),
                U32_MAX as nat,
            ),
        ),
        None => None,
    }
}

/// A coordinate: the first line holding its assignment marker, without the marker and `',`.
pub open spec fn coordinate(ls: Seq<Seq<char>>, marker: Seq<char>) -> Option<Decimal> {
    match first_line(ls, marker, marker) {
        Some(l) => decimal_of(trim(remove_all(remove_all(l, marker), QUOTE_COMMA@))),
        None => None,
    }
}

/// The trimmed lines that follow a map-list header, for the headers among the first `n` lines.
pub open spec fn map_list_upto(ls: Seq<Seq<char>>, n: int) -> Seq<Seq<char>>
    decreases n,
{
    if n <= 0 {
        Seq::empty()
    } else {
        let p = map_list_upto(ls, n - 1);
        if n < ls.len() && contains(ls[n - 1], MAP_LIST_HEADER@) {
            p.push(trim(ls[n]))
        } else {
            p
        }
    }
}

/// The map-list candidates of the whole document, in document order.
pub open spec fn map_list(ls: Seq<Seq<char>>) -> Seq<Seq<char>> {
    map_list_upto(ls, ls.len() as int)
}

pub open spec fn first_of(m: Seq<Seq<char>>) -> Option<Seq<char>> {
    if m.len() > 0 {
        Some(m[0])
    } else {
        None
    }
}

pub open spec fn second_of(m: Seq<Seq<char>>) -> Option<Seq<char>> {
    if m.len() > 1 {
        Some(m[1])
    } else {
        None
    }
}

pub open spec fn last_of(m: Seq<Seq<char>>) -> Option<Seq<char>> {
    if m.len() > 0 {
        Some(m.last())
    } else {
        None
    }
}

/// The legacy pass: every finding only fills a field that is still absent.
pub open spec fn legacy(ls: Seq<Seq<char>>, r: RecordView) -> RecordView {
    let m = map_list(ls);
    RecordView {
        city: fill(r.city, last_of(m)),
        zone: fill(r.zone, second_of(m)),
        street: fill(r.street, first_of(m)),
        lat: fill(r.lat, coordinate(ls, LATITUDE@)),
        lng: fill(r.lng, coordinate(ls, LONGITUDE@)),
        rooms_number: fill(r.rooms_number, legacy_rooms(ls)),
        square_meters: fill(r.square_meters, legacy_area(ls)),
        cost: fill(r.cost, legacy_cost(ls)),
    }
}

fn first_line_exec<'a>(ls: &'a Vec<Vec<char>>, a: &[char], b: &[char]) -> (r: Option<&'a Vec<char>>)
    ensures
        match r {
            Some(l) => first_line(views(ls@), a@, b@) == Some(l@),
            None => first_line(views(ls@), a@, b@) is None,
        },
{
    match find_line(ls, a, b, ls.len()) {
        Some(i) => Some(&ls[i]),
        None => None,
    }
}

fn legacy_rooms_exec(ls: &Vec<Vec<char>>) -> (r: Option<u8>)
    ensures
        r == legacy_rooms(views(ls@)),
{
    let suffix = chars_of(ROOMS_SUFFIX);
    let open = chars_of(LIST_OPEN);
    let close = chars_of(LIST_CLOSE);
    let word = chars_of(ROOMS_WORD);
    match first_line_exec(ls, suffix.as_slice(), suffix.as_slice()) {
        Some(l) => {
            let t = remove_all_exec(l.as_slice(), open.as_slice());
            let t = remove_all_exec(t.as_slice(), close.as_slice());
            let t = remove_all_exec(t.as_slice(), word.as_slice());
            let t = trim_exec(t.as_slice());
            match parse_unsigned(t.as_slice(), U8_MAX) {
                Some(v) => Some(v as u8),
                None => None,
            }
        },
        None => None,
    }
}

fn legacy_area_exec(ls: &Vec<Vec<char>>) -> (r: Option<u32>)
    ensures
        r == legacy_area(views(ls@)),
{
    let unit = chars_of(SQUARE_METRE);
    let open = chars_of(LIST_OPEN);
    match first_line_exec(ls, unit.as_slice(), open.as_slice()) {
        Some(l) => match find_exec(l.as_slice(), unit.as_slice()) {
            Some(k) => {
                let before = sub_vec(l.as_slice(), 0, k);
                let t = remove_all_exec(before.as_slice(), open.as_slice());
                let t = trim_exec(t.as_slice());
                match parse_unsigned(t.as_slice(), U32_MAX) {
                    Some(v) => Some(v as u32),
                    None => None,
                }
            },
            None => None,
        },
        None => None,
    }
}

fn legacy_cost_exec(ls: &Vec<Vec<char>>) -> (r: Option<u32>)
    ensures
        r == legacy_cost(views(ls@)),
{
    let marker = chars_of(EURO_PER_MONTH);
    let open = chars_of(PRICE_OPEN);
    let close = chars_of(PRICE_CLOSE);
    let dot = chars_of(THOUSANDS);
    match first_line_exec(ls, marker.as_slice(), marker.as_slice()) {
        Some(l) => {
            let t = remove_all_exec(l.as_slice(), open.as_slice());
            let t = remove_all_exec(t.as_slice(), close.as_slice());
            let t = remove_all_exec(t.as_slice(), marker.as_slice());
            let t = remove_all_exec(t.as_slice(), dot.as_slice());
            let t = trim_exec(t.as_slice());
            match parse_unsigned(t.as_slice(), U32_MAX) {
                Some(v) => Some(v as u32),
                None => None,
            }
        },
        None => None,
    }
}

fn coordinate_exec(ls: &Vec<Vec<char>>, marker: &[char]) -> (r: Option<Decimal>)
    ensures
        r == coordinate(views(ls@), marker@),
{
    let tail = chars_of(QUOTE_COMMA);
    match first_line_exec(ls, marker, marker) {
        Some(l) => {
            let t = remove_all_exec(l.as_slice(), marker);
            let t = remove_all_exec(t.as_slice(), tail.as_slice());
            let t = trim_exec(t.as_slice());
            parse_decimal(t.as_slice())
        },
        None => None,
    }
}

fn map_list_exec(ls: &Vec<Vec<char>>) -> (m: Vec<Vec<char>>)
    ensures
        views(m@) == map_list(views(ls@)),
{
    let ghost v = views(ls@);
    let header = chars_of(MAP_LIST_HEADER);
    let mut m: Vec<Vec<char>> = Vec::new();
    let mut n: usize = 0;
    assert(views(m@) =~= map_list_upto(v, 0));
    while n < ls.len()
        invariant
            n <= ls@.len(),
            v == views(ls@),
            header@ == MAP_LIST_HEADER@,
            views(m@) == map_list_upto(v, n as int),
        decreases ls@.len() - n,
    {
        n += 1;
        if n < ls.len() && contains_exec(ls[n - 1].as_slice(), header.as_slice()) {
            let t = trim_exec(ls[n].as_slice());
            let ghost before = m@;
            m.push(t);
            assert(views(m@) =~= views(before).push(t@));
        }
    }
    m
}

fn text_at(m: &Vec<Vec<char>>, i: usize) -> (r: Option<String>)
    ensures
        match r {
            Some(s) => i < m@.len() && s@ == m@[i as int]@,
            None => i >= m@.len(),
        },
{
    if i < m.len() {
        Some(string_of(m[i].as_slice()))
    } else {
        None
    }
}

/// Runs the legacy pass over the lines `ls`.
pub fn extract_legacy(ls: &Vec<Vec<char>>, r: &mut DiscoveryResult)
    ensures
        final(r)@ == legacy(views(ls@), old(r)@),
{
    let m = map_list_exec(ls);
    let street = text_at(&m, 0);
    let zone = text_at(&m, 1);
    let city = if m.len() > 0 {
        text_at(&m, m.len() - 1)
    } else {
        None
    };
    let latitude = chars_of(LATITUDE);
    let longitude = chars_of(LONGITUDE);
    fill_text(&mut r.city, city);
    fill_text(&mut r.zone, zone);
    fill_text(&mut r.street, street);
    fill_value(&mut r.lat, coordinate_exec(ls, latitude.as_slice()));
    fill_value(&mut r.lng, coordinate_exec(ls, longitude.as_slice()));
    fill_value(&mut r.rooms_number, legacy_rooms_exec(ls));
    fill_value(&mut r.square_meters, legacy_area_exec(ls));
    fill_value(&mut r.cost, legacy_cost_exec(ls));
}

} // verus!
