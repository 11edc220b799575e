use arcgis::error::Error;
use arcgis::geometry::GeometryType;
use arcgis::http::{HttpMethod, RequestBody};
use arcgis::ids::LayerId;
use arcgis::map::client::{ExportMode, MapServiceClient};
use arcgis::map::enums::{ImageFormat, LayerOperation, ResponseFormat};
use arcgis::map::types::{ExportMapParams, ExportResult, IdentifyParams, TileCoordinate};

fn pairs(v: &[(&str, &str)]) -> Vec<(String, String)> {
    v.iter().map(|(k, x)| (k.to_string(), x.to_string())).collect()
}

#[test]
fn default_export_parameters_render_in_field_order() {
    let p = ExportMapParams::default();
    assert_eq!(
        p.to_query(),
        pairs(&[
            ("bbox", ""),
            ("size", "400,400"),
            ("format", "png"),
            ("transparent", "false"),
            ("dpi", "96"),
            ("f", "json"),
        ])
    );
}

#[test]
fn export_without_bbox_is_refused() {
    let c = MapServiceClient::new("https://h/MapServer".to_string());
    match c.export_map_request(&ExportMapParams::default(), "t") {
        Err(Error::Api { code, message }) => {
            assert_eq!(code, 400);
            assert_eq!(message, "bbox parameter is required");
        }
        _ => panic!("expected the bbox error"),
    }
}

#[test]
fn export_format_decides_how_the_image_is_fetched() {
    let c = MapServiceClient::new("https://h/MapServer".to_string());
    let b = c.export().bbox("1,2,3,4".to_string()).format(ImageFormat::Jpg);
    match c.export_map_request(&b.params, "tok") {
        Ok((mode, req)) => {
            assert_eq!(mode, ExportMode::ViaJson);
            assert_eq!(req.url, "https://h/MapServer/export");
            assert_eq!(req.query.first(), Some(&("bbox".to_string(), "1,2,3,4".to_string())));
            assert_eq!(req.query.last(), Some(&("token".to_string(), "tok".to_string())));
            assert!(req.query.contains(&("format".to_string(), "jpg".to_string())));
        }
        _ => panic!("expected a request"),
    }
    let img = b.clone().response_format(ResponseFormat::Image);
    assert!(matches!(c.export_map_request(&img.params, "t"), Ok((ExportMode::Stream, _))));
    let pj = b.clone().pretty_json(true);
    assert_eq!(pj.params.format_response, ResponseFormat::PJson);
    let html = b.response_format(ResponseFormat::Html);
    match c.export_map_request(&html.params, "t") {
        Err(Error::Api { code, message }) => {
            assert_eq!(code, 400);
            assert_eq!(message, "Unsupported response format: Html");
        }
        _ => panic!("expected the format error"),
    }
}

#[test]
fn builder_formats_layers_and_size() {
    let c = MapServiceClient::new("u".to_string());
    let b = c.export().layer_visibility(LayerOperation::Show, &[1, 2, -3]).size(800, 600);
    assert_eq!(b.params.layers, Some("show:1,2,-3".to_string()));
    assert_eq!(b.params.size, Some("800,600".to_string()));
    assert_eq!(LayerOperation::Exclude.as_str(), "exclude");
}

#[test]
fn tile_legend_metadata_and_identify_requests() {
    let c = MapServiceClient::new("https://h/MapServer".to_string());
    let t = c.export_tile_request(&TileCoordinate::new(3, 4, 5), "tok");
    assert_eq!(t.url, "https://h/MapServer/tile/3/4/5");
    assert_eq!(t.query, pairs(&[("token", "tok")]));
    assert_eq!(c.legend_request("k").query, pairs(&[("f", "json"), ("token", "k")]));
    assert_eq!(c.metadata_request("k").url, "https://h/MapServer");
    let mut ip = IdentifyParams::default();
    ip.geometry = "1,2".to_string();
    ip.geometry_type = GeometryType::Polygon;
    let r = c.identify_request(&ip, "k");
    assert_eq!(r.url, "https://h/MapServer/identify");
    assert_eq!(
        r.query[..3].to_vec(),
        pairs(&[("geometry", "1,2"), ("geometryType", "esriGeometryPolygon"), ("tolerance", "3")])
    );
    assert_eq!(r.query[r.query.len() - 2..].to_vec(), pairs(&[("token", "k"), ("f", "json")]));
}

#[test]
fn query_domains_lists_layers_only_when_given() {
    let c = MapServiceClient::new("https://h/MapServer".to_string());
    let none = c.query_domains_request(&Vec::new(), "k");
    match none.body {
        RequestBody::Form(f) => assert_eq!(f, pairs(&[("f", "json"), ("token", "k")])),
        _ => panic!("expected a form"),
    }
    let some = c.query_domains_request(&vec![LayerId::new(1), LayerId::new(20)], "k");
    assert_eq!(some.method, HttpMethod::Post);
    match some.body {
        RequestBody::Form(f) => {
            assert_eq!(f, pairs(&[("f", "json"), ("token", "k"), ("layers", "1,20")]))
        }
        _ => panic!("expected a form"),
    }
}

#[test]
fn renderer_find_and_kml_requests() {
    let c = MapServiceClient::new("https://h/MapServer".to_string());
    let r = c.generate_renderer_request(2, "{}", "k");
    assert_eq!(r.url, "https://h/MapServer/2/generateRenderer");
    let f = c.find_request("searchText=a".to_string(), "k");
    assert_eq!(f.query, pairs(&[("token", "k"), ("f", "json")]));
    assert!(matches!(f.body, RequestBody::Encoded(ref b) if b == "searchText=a"));
    let k = c.generate_kml_request(String::new(), "k");
    assert_eq!(k.query, pairs(&[("token", "k"), ("f", "kmz")]));
}

#[test]
fn export_result_answers_one_accessor() {
    let b = ExportResult::Bytes(vec![1, 2]);
    assert_eq!(b.bytes(), Some(&[1u8, 2u8][..]));
    assert!(b.path().is_none());
    assert!(b.written().is_none());
    let w = ExportResult::Written(9);
    assert_eq!(w.written(), Some(9));
    assert!(w.bytes().is_none());
}
