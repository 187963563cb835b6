use preference_be::island::{Listing, Location, MapConfig, MicroZone, Property};
use preference_be::numeric::Decimal;
use preference_be::record::DiscoveryResult;
use preference_be::service::{extract_listing, island_of, DiscoveryError, DiscoveryService};

fn text(v: &serde_json::Value, key: &str) -> Option<String> {
    v.get(key).and_then(|x| x.as_str()).map(|s| s.to_string())
}

fn number(v: &serde_json::Value, key: &str) -> Option<Decimal> {
    v.get(key)
        .and_then(|x| x.as_number())
        .and_then(|n| Decimal::parse(&n.to_string()))
}

fn zone(v: &serde_json::Value, key: &str) -> Option<MicroZone> {
    v.get(key).map(|z| MicroZone { name: text(z, "name") })
}

fn decode_island(island: &str) -> Option<MapConfig> {
    let v: serde_json::Value = serde_json::from_str(island).ok()?;
    let props = v.get("listing")?.get("properties")?.as_array()?;
    let properties = props
        .iter()
        .map(|p| Property {
            location: p.get("location").filter(|l| !l.is_null()).map(|l| Location {
                latitude: number(l, "latitude"),
                longitude: number(l, "longitude"),
                address: text(l, "address"),
                street_number: text(l, "streetNumber"),
                microzone: zone(l, "microzone"),
                city: zone(l, "city"),
            }),
        })
        .collect();
    Some(MapConfig { listing: Listing { properties } })
}

fn run(body: &str) -> Result<DiscoveryResult, DiscoveryError> {
    let service = DiscoveryService::new();
    let island = service.island(body).and_then(|t| decode_island(&t));
    service.discover("/foo", true, body, island)
}

fn dec(mantissa: u64, scale: u32) -> Decimal {
    Decimal { negative: false, mantissa, scale }
}

const PAGE_A: &str = r#"<!DOCTYPE html>
<html>
<body>
<ul class="im-mainFeatures">
<li>
<span class="im-mainFeatures__label">locali</span>
2
</li>
<li>
<span class="im-mainFeatures__label">superficie</span>
60
</li>
</ul>
<dl>
<dt class="im-features__title">prezzo</dt>
<dd class="im-features__value">
€ 1.800/mese
</dd>
<dt class="im-features__title">spese condominio</dt>
<dd class="im-features__value">
€ 300/mese
</dd>
</dl>
<script type="application/json" id="js-hydration">{"listing":{"properties":[{"location":{"latitude":45.5081,"longitude":9.1775,"address":"Via Pellegrino Rossi","streetNumber":"13","microzone":{"name":"Dergano"},"city":{"name":"Milano"}}}]}}</script>
</body>
</html>
"#;

const PAGE_B: &str = "<html>\r
<body>\r
<span class=\"im-mainFeatures__label\">locali</span>\r
  2  \r
<span class=\"im-mainFeatures__label\">superficie</span>\r
70\r
<dt class=\"im-features__title\">prezzo</dt>\r
<dd>\r
€ 1.200/mese\r
<script id=\"js-hydration\">{\"listing\":{\"properties\":[{\"location\":null},{\"location\":{\"address\":\"Viale Ranzoni\",\"streetNumber\":\"19\",\"microzone\":{\"name\":\"Area Residenziale de angeli\"},\"city\":{\"name\":\"Milano\"}}}]}}</script>\r
<script>\r
latitude: '45.4688239',\r
longitude: '9.1451057',\r
</script>\r
<li class=\"header-map-list\">\r
Via Altrove\r
<li class=\"header-map-list\">\r
Altra Zona\r
<li>5 locali</li>\r
<strong class=\"price\">€/mese 900</strong>\r
</body>\r
</html>";

#[test]
fn discovery_service_test_flow() {
    let a = run(PAGE_A).unwrap();
    assert_eq!(
        a,
        DiscoveryResult {
            city: Some("Milano".to_string()),
            zone: Some("Dergano".to_string()),
            street: Some("Via Pellegrino Rossi, 13".to_string()),
            lat: Some(dec(455081, 4)),
            lng: Some(dec(91775, 4)),
            rooms_number: Some(2),
            square_meters: Some(60),
            cost: Some(2100)
        }
    );
}

#[test]
fn test_flow2() {
    let a = run(PAGE_B).unwrap();
    assert_eq!(
        a,
        DiscoveryResult {
            city: Some("Milano".to_string()),
            zone: Some("Area Residenziale de angeli".to_string()),
            street: Some("Viale Ranzoni, 19".to_string()),
            lat: Some(dec(454688239, 7)),
            lng: Some(dec(91451057, 7)),
            rooms_number: Some(2),
            square_meters: Some(70),
            cost: Some(1200)
        }
    );
}

#[test]
fn island_text_is_framed_between_first_gt_and_last_lt() {
    let body = "x\n<div id=\"js-hydration\">{\"a\":1}</div>\ny";
    assert_eq!(island_of(body), Some("{\"a\":1}".to_string()));
    assert_eq!(island_of("<p id=\"js-hydration\">"), None);
    assert_eq!(island_of("no island here"), None);
}

#[test]
fn no_markers_gives_empty_record() {
    let r = run("<html>\n<body>\nnothing to see\n</body>\n</html>\n").unwrap();
    assert_eq!(r, DiscoveryResult::new());
    assert_eq!(extract_listing("", None).unwrap(), DiscoveryResult::new());
}

#[test]
fn non_numeric_planimetry_value_fails() {
    let body = "<span class=\"im-mainFeatures__label\">locali</span>\ntanti\n";
    assert!(matches!(run(body), Err(DiscoveryError::InvalidPlanimetry)));
    let body = "<span class=\"im-mainFeatures__label\">superficie</span>\n12a\n";
    assert!(matches!(run(body), Err(DiscoveryError::InvalidPlanimetry)));
}

#[test]
fn planimetry_room_count_over_u8_fails() {
    let body = "<span class=\"im-mainFeatures__label\">locali</span>\n256\n";
    assert!(matches!(run(body), Err(DiscoveryError::InvalidPlanimetry)));
    let body = "<span class=\"im-mainFeatures__label\">locali</span>\n+255\n";
    assert_eq!(run(body).unwrap().rooms_number, Some(255));
}

#[test]
fn planimetry_label_on_last_line_is_ignored() {
    let body = "a\n<span class=\"im-mainFeatures__label\">locali</span>";
    assert_eq!(run(body).unwrap(), DiscoveryResult::new());
}

#[test]
fn failed_fetch_is_not_found_with_url() {
    let service = DiscoveryService::new();
    match service.discover("http://the.link/foo", false, PAGE_A, None) {
        Err(DiscoveryError::NotFound(u)) => assert_eq!(u, "http://the.link/foo"),
        _ => panic!("expected not found"),
    }
}

#[test]
fn pipeline_is_deterministic() {
    assert_eq!(run(PAGE_A).unwrap(), run(PAGE_A).unwrap());
    assert_eq!(run(PAGE_B).unwrap(), run(PAGE_B).unwrap());
}

#[test]
fn overwritten_fields_beat_legacy_candidates() {
    let body = "<span class=\"im-mainFeatures__label\">locali</span>\n3\n<li>7 locali</li>\n<li>99 m² </li>\n<span class=\"im-mainFeatures__label\">superficie</span>\n80\n";
    let r = run(body).unwrap();
    assert_eq!(r.rooms_number, Some(3));
    assert_eq!(r.square_meters, Some(80));
}

#[test]
fn fill_if_absent_keeps_island_values() {
    let r = run(PAGE_B).unwrap();
    assert_eq!(r.street, Some("Viale Ranzoni, 19".to_string()));
    assert_eq!(r.zone, Some("Area Residenziale de angeli".to_string()));
    assert_eq!(r.cost, Some(1200));
    let body = "<div id=\"js-hydration\">{\"listing\":{\"properties\":[{\"location\":{\"latitude\":1.5,\"longitude\":-2.25}}]}}</div>\nlatitude: '7.0',\nlongitude: '8.0',\n";
    let r = run(body).unwrap();
    assert_eq!(r.lat, Some(dec(15, 1)));
    assert_eq!(r.lng, Some(Decimal { negative: true, mantissa: 225, scale: 2 }));
}

#[test]
fn zero_price_sum_leaves_cost_absent() {
    let body = "<dt>prezzo</dt>\n<dd>\n€ su richiesta\n";
    assert_eq!(run(body).unwrap().cost, None);
    let body = "<dt>prezzo</dt>\n<dd>\n€ 0/mese\n";
    assert_eq!(run(body).unwrap().cost, None);
}

#[test]
fn zero_price_sum_lets_legacy_cost_fill() {
    let body = "<dt>prezzo</dt>\n<dd>\n€ su richiesta\n<strong class=\"price\">€/mese 1.350</strong>\n";
    assert_eq!(run(body).unwrap().cost, Some(1350));
}

#[test]
fn price_rows_need_currency_two_lines_below() {
    let body = "<dt>prezzo</dt>\n€ 500\n700\n<dt>spese condominio</dt>\n<dd>\n€ 40\n";
    assert_eq!(run(body).unwrap().cost, Some(40));
}

#[test]
fn map_list_positions_three_candidates() {
    let body = "<li class=\"header-map-list\">\n Via Roma \n<li class=\"header-map-list\">\nCentro\n<li class=\"header-map-list\">\nTorino\n";
    let r = run(body).unwrap();
    assert_eq!(r.street, Some("Via Roma".to_string()));
    assert_eq!(r.zone, Some("Centro".to_string()));
    assert_eq!(r.city, Some("Torino".to_string()));
}

#[test]
fn map_list_positions_single_candidate() {
    let body = "<li class=\"header-map-list\">\nBologna\n";
    let r = run(body).unwrap();
    assert_eq!(r.street, Some("Bologna".to_string()));
    assert_eq!(r.zone, None);
    assert_eq!(r.city, Some("Bologna".to_string()));
}

#[test]
fn legacy_rooms_area_and_cost() {
    let body = "<li>4 locali</li>\n<li>1.000 m²</li>\n<li>120 m² commerciali</li>\n<strong class=\"price\">€/mese 2.400</strong>\n";
    let r = run(body).unwrap();
    assert_eq!(r.rooms_number, Some(4));
    assert_eq!(r.square_meters, None);
    assert_eq!(r.cost, Some(2400));
}

#[test]
fn legacy_area_reads_text_before_unit() {
    let body = "<li> 85 m² </li>\n";
    assert_eq!(run(body).unwrap().square_meters, Some(85));
}
