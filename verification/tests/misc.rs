use arcgis::error::Error;
use arcgis::esri::{EsriErrorDetail, EsriErrorStatus, check_esri_error_parsed};
use arcgis::geometry::GeometryType;
use arcgis::http::check_status;
use arcgis::ids::{LayerId, ObjectId};
use arcgis::image::ImageServiceClient;
use arcgis::json::render_object;
use arcgis::map::types::TileCoordinate;
use arcgis::parse::parse_i32;
use arcgis::places::PlacesClient;
use arcgis::text::replace_all;
use arcgis::vector_tile::client::VectorTileServiceClient;
use arcgis::vector_tile::types::{FontStack, GlyphRange};

#[test]
fn http_errors_carry_status_and_body() {
    assert!(check_status(200, "ok").is_ok());
    assert!(check_status(204, "").is_ok());
    match check_status(404, "nope") {
        Err(Error::Api { code, message }) => {
            assert_eq!(code, 404);
            assert_eq!(message, "HTTP 404 Not Found: nope");
        }
        _ => panic!("expected an HTTP error"),
    }
    match check_status(599, "x") {
        Err(Error::Api { code, message }) => {
            assert_eq!(code, 599);
            assert_eq!(message, "HTTP 599 <unknown status code>: x");
        }
        _ => panic!("expected an HTTP error"),
    }
}

#[test]
fn esri_errors_in_successful_responses() {
    assert!(check_esri_error_parsed("{\"success\":true}", "op", None, None).is_ok());
    let text = "{\"error\":{\"code\":498,\"message\":\"Invalid token\"}}";
    let d = EsriErrorDetail { code: 498, message: "Invalid token".to_string() };
    match check_esri_error_parsed(text, "op", Some(d), None) {
        Err(Error::Api { code, message }) => {
            assert_eq!(code, 498);
            assert_eq!(message, "Invalid token");
        }
        _ => panic!("expected the service error"),
    }
    let s = EsriErrorStatus { success: false, message: "bad".to_string(), code: None };
    match check_esri_error_parsed("{\"success\":false,\"error\":{\"message\":\"bad\"}}", "op", None, Some(s)) {
        Err(Error::Api { code, message }) => {
            assert_eq!(code, 0);
            assert_eq!(message, "bad");
        }
        _ => panic!("expected the service error"),
    }
    match check_esri_error_parsed("\"error\"", "addItem", None, None) {
        Err(Error::Api { code, message }) => {
            assert_eq!(code, -1);
            assert_eq!(message, "addItem returned unexpected error: \"error\"");
        }
        _ => panic!("expected the fallback error"),
    }
}

#[test]
fn integers_parse_like_str_parse() {
    assert_eq!(parse_i32("42"), Some(42));
    assert_eq!(parse_i32("-2147483648"), Some(i32::MIN));
    assert_eq!(parse_i32("+7"), Some(7));
    assert_eq!(parse_i32("2147483648"), None);
    assert_eq!(parse_i32(""), None);
    assert_eq!(parse_i32("-"), None);
    assert_eq!(parse_i32(" 1"), None);
    for n in [0, 1, -1, 123456, i32::MAX, i32::MIN] {
        assert_eq!(parse_i32(&n.to_string()), Some(n));
    }
}

#[test]
fn json_objects_quote_keys_and_escape() {
    let m = vec![("k\"1".to_string(), "1".to_string()), ("k2".to_string(), "\"v\"".to_string())];
    assert_eq!(render_object(&m), "{\"k\\\"1\":1,\"k2\":\"v\"}");
    assert_eq!(render_object(&Vec::new()), "{}");
}

#[test]
fn replace_is_left_to_right_and_non_overlapping() {
    assert_eq!(replace_all("aaa", "aa", "b"), "ba");
    assert_eq!(replace_all("x{u}y{u}", "{u}", "Z"), "xZyZ");
    assert_eq!(replace_all("héllo", "l", "L"), "héLLo");
}

#[test]
fn identifiers_and_glyph_ranges() {
    assert_eq!(LayerId::new(5).to_string(), "5");
    assert_eq!(LayerId::from(7u32).get(), 7);
    assert_eq!(ObjectId::new(4294967295).to_string(), "4294967295");
    assert_eq!(GlyphRange::ascii().format(), "0-255");
    assert_eq!(GlyphRange::latin_1_supplement().to_string(), "128-255");
    assert_eq!(GlyphRange::basic_latin().end(), 127);
}

#[test]
fn vector_tile_places_and_image_requests() {
    let v = VectorTileServiceClient::new("https://h/VectorTileServer".to_string());
    assert_eq!(v.tile_request(&TileCoordinate::new(1, 2, 3)).url, "https://h/VectorTileServer/tile/1/2/3.pbf");
    let many = v.tiles_requests(&[TileCoordinate::new(0, 0, 0), TileCoordinate::new(1, 1, 0)]);
    assert_eq!(many.len(), 2);
    assert_eq!(many[1].url, "https://h/VectorTileServer/tile/1/1/0.pbf");
    assert_eq!(
        v.fonts_request(&FontStack::new("Arial Regular".to_string()), &GlyphRange::new(256, 511)).url,
        "https://h/VectorTileServer/resources/fonts/Arial Regular/256-511.pbf"
    );
    assert_eq!(v.style_request().url, "https://h/VectorTileServer/resources/styles/root.json");
    let p = PlacesClient::new();
    assert_eq!(
        p.categories_request().url,
        "https://places-api.arcgis.com/arcgis/rest/services/places-service/v1/categories"
    );
    let near = p.near_point_request("-117.1", "34", &vec![("radius".to_string(), "100.0".to_string())]);
    assert_eq!(near.query.len(), 4);
    assert_eq!(near.query[3].0, "radius");
    let i = ImageServiceClient::new("https://h/ImageServer".to_string());
    let r = i.identify_request("{}", GeometryType::Polyline);
    assert_eq!(r.query[2], ("geometryType".to_string(), "esriGeometryPoint".to_string()));
    let r = i.identify_request("{}", GeometryType::Polygon);
    assert_eq!(r.query[2].1, "esriGeometryPolygon");
    assert_eq!(i.export_image_request("{}").url, "https://h/ImageServer/exportImage");
}
