//! Properties of the extraction pipeline as a whole and of its merge rules.
use vstd::prelude::*;
use crate::island::{MapConfig, name_of, selected_location, street_of, structured};
use crate::numeric::unsigned_of;
use crate::passes::{
    AREA_LABEL, MAP_LIST_HEADER, ROOMS_LABEL, U32_MAX, U8_MAX, as_u32, as_u8, legacy, map_list,
    map_list_upto, planimetry_value, price_total, prices,
};
use crate::record::RecordView;
use crate::service::pipeline;
use crate::text::{contains, lines, trim};

verus! {

/// The pipeline is a function of its input: the same document and island always
/// give the same outcome.
pub proof fn lemma_pipeline_deterministic(
    t1: Seq<char>,
    t2: Seq<char>,
    i1: Option<MapConfig>,
    i2: Option<MapConfig>,
)
    requires
        t1 == t2,
        i1 == i2,
    ensures
        pipeline(t1, i1) == pipeline(t2, i2),
{
}

/// A field that a pass overwrites ends up holding that pass's candidate, whatever
/// the later fill-if-absent fallback would have found: the planimetry room count
/// and surface, and the island's city, zone and street.
pub proof fn lemma_overwrite_precedence(text: Seq<char>, island: Option<MapConfig>)
    requires
        pipeline(text, island) is Some,
    ensures
        ({
            let r = pipeline(text, island)->0;
            let ls = lines(text);
            &&& planimetry_value(ls, ROOMS_LABEL@) matches Some(t) ==> r.rooms_number == as_u8(
                unsigned_of(t, U8_MAX as nat),
            )
            &&& planimetry_value(ls, AREA_LABEL@) matches Some(t) ==> r.square_meters == as_u32(
                unsigned_of(t, U32_MAX as nat),
            )
            &&& selected_location(island) matches Some(l) ==> {
                &&& name_of(l.city) is Some ==> r.city == name_of(l.city)
                &&& name_of(l.microzone) is Some ==> r.zone == name_of(l.microzone)
                &&& street_of(l) is Some ==> r.street == street_of(l)
            }
        }),
{
}

/// A fill-if-absent pass never changes a field that already holds a value: no
/// field under the legacy pass, and neither coordinate under the island.
pub proof fn lemma_fill_keeps_prior(ls: Seq<Seq<char>>, island: Option<MapConfig>, r: RecordView)
    ensures
        r.city is Some ==> legacy(ls, r).city == r.city,
        r.zone is Some ==> legacy(ls, r).zone == r.zone,
        r.street is Some ==> legacy(ls, r).street == r.street,
        r.lat is Some ==> legacy(ls, r).lat == r.lat,
        r.lng is Some ==> legacy(ls, r).lng == r.lng,
        r.rooms_number is Some ==> legacy(ls, r).rooms_number == r.rooms_number,
        r.square_meters is Some ==> legacy(ls, r).square_meters == r.square_meters,
        r.cost is Some ==> legacy(ls, r).cost == r.cost,
        r.lat is Some ==> structured(island, r).lat == r.lat,
        r.lng is Some ==> structured(island, r).lng == r.lng,
{
}

/// When the price rows sum to zero, or there are none, the price pass leaves the
/// record as it was; an absent cost stays absent.
pub proof fn lemma_zero_sum_keeps_cost(ls: Seq<Seq<char>>, r: RecordView)
    requires
        price_total(ls, ls.len() as int) == 0,
    ensures
        prices(ls, r) == r,
        r.cost is None ==> prices(ls, r).cost is None,
{
}

/// The legacy pass picks street, zone and city from the map-list candidates by
/// position: the first, the second and the last, each only where the field is absent.
pub proof fn lemma_map_list_positions(ls: Seq<Seq<char>>, r: RecordView)
    ensures
        ({
            let m = map_list(ls);
            let out = legacy(ls, r);
            &&& r.street is None && m.len() > 0 ==> out.street == Some(m[0])
            &&& r.zone is None && m.len() > 1 ==> out.zone == Some(m[1])
            &&& r.city is None && m.len() > 0 ==> out.city == Some(m[m.len() - 1])
            &&& m.len() == 0 ==> out.street == r.street && out.city == r.city
            &&& m.len() < 2 ==> out.zone == r.zone
            &&& r.street is Some ==> out.street == r.street
            &&& r.zone is Some ==> out.zone == r.zone
            &&& r.city is Some ==> out.city == r.city
        }),
{
}

/// `s` is the trimmed line right after line `i`, and line `i` holds the map-list header.
pub open spec fn follows_header(ls: Seq<Seq<char>>, s: Seq<char>, i: int) -> bool {
    0 <= i && i + 1 < ls.len() && contains(ls[i], MAP_LIST_HEADER@) && s == trim(ls[i + 1])
}

/// The header lines among the first `n` lines that have a line after them, in order.
pub open spec fn header_lines(ls: Seq<Seq<char>>, n: int) -> Seq<int>
    decreases n,
{
    if n <= 0 {
        Seq::empty()
    } else {
        let p = header_lines(ls, n - 1);
        if n < ls.len() && contains(ls[n - 1], MAP_LIST_HEADER@) {
            p.push(n - 1)
        } else {
            p
        }
    }
}

/// The map-list candidates come one for one from the header lines, in document
/// order: candidate `k` is the trimmed line after the `k`-th header line.
pub proof fn lemma_map_list_from_headers(ls: Seq<Seq<char>>, n: int)
    ensures
        header_lines(ls, n).len() == map_list_upto(ls, n).len(),
        forall|k: int|
            0 <= k < header_lines(ls, n).len() ==> #[trigger] header_lines(ls, n)[k] < n
                && follows_header(ls, map_list_upto(ls, n)[k], header_lines(ls, n)[k]),
        forall|k1: int, k2: int|
            0 <= k1 < k2 < header_lines(ls, n).len() ==> #[trigger] header_lines(ls, n)[k1]
                < #[trigger] header_lines(ls, n)[k2],
    decreases n,
{
    if n > 0 {
        lemma_map_list_from_headers(ls, n - 1);
    }
}

} // verus!
