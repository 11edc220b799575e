//! Requests of a map service and the choices made before sending them.

use vstd::prelude::*;
use crate::error::Error;
use crate::http::{
    ApiRequest, HttpMethod, RequestBody, f_json, form_post, get_request, json_token_query, pair,
    opt_pair, push_pair,
};
use crate::ids::LayerId;
use crate::map::enums::ResponseFormat;
use crate::map::export::ExportMapBuilder;
use crate::map::types::{ExportMapParams, IdentifyParams, TileCoordinate};
use crate::query::{no_pairs, push_text};
use crate::text::{concat2, concat3, dec_digits, i32_text, int_text, join, seq_join, u32_text};

verus! {

/// Client for one map service, identified by its base URL.
#[derive(Debug, Clone)]
pub struct MapServiceClient {
    base_url: String,
}

/// How an accepted export gets its image.
#[derive(Debug, Clone, Copy, PartialEq, Eq, Structural)]
pub enum ExportMode {
    /// The export call answers with the image itself.
    Stream,
    /// The export call answers with JSON whose `href` names the image.
    ViaJson,
}

/// The query `token=<token>`.
pub open spec fn token_query(token: Seq<char>) -> Seq<(Seq<char>, Seq<char>)> {
    pair("token"@, token)
}

fn token_pairs(token: &str) -> (r: Vec<(String, String)>)
    ensures
        r.deep_view() == token_query(token@),
{
    let mut q = no_pairs();
    push_pair(&mut q, "token", token);
    q
}

fn json_token_pairs(token: &str) -> (r: Vec<(String, String)>)
    ensures
        r.deep_view() == f_json() + token_query(token@),
{
    let mut q = no_pairs();
    push_pair(&mut q, "f", "json");
    push_pair(&mut q, "token", token);
    proof {
        assert(q.deep_view() =~= f_json() + token_query(token@));
    }
    q
}

/// Error of an export without an extent.
pub open spec fn missing_bbox_error() -> (i32, Seq<char>) {
    (400, "bbox parameter is required"@)
}

/// Error of an export asking for a response format it cannot return.
pub open spec fn unsupported_format_error(f: ResponseFormat) -> (i32, Seq<char>) {
    (400, "Unsupported response format: "@ + f.debug_name())
}

/// Comma-separated decimal IDs of the layers.
pub open spec fn layer_id_list(layers: Seq<LayerId>) -> Seq<char> {
    seq_join(layers.map_values(|l: LayerId| dec_digits(l.0 as nat)), ","@)
}

impl MapServiceClient {
    /// Base URL of the service.
    pub closed spec fn base(&self) -> Seq<char> {
        self.base_url@
    }

    /// A client for the map service at `base_url`.
    pub fn new(base_url: String) -> (r: MapServiceClient)
        ensures
            r.base() == base_url@,
    {
        MapServiceClient { base_url }
    }

    /// Starts an export of this service with the default settings.
    pub fn export(&self) -> (r: ExportMapBuilder)
        ensures
            r.client.base() == self.base(),
            r.params.is_default(),
    {
        ExportMapBuilder::new(MapServiceClient { base_url: self.base_url.clone() })
    }

    /// Rejects an export without an extent, the first check of an export.
    pub fn check_export_bbox(params: &ExportMapParams) -> (r: Result<(), Error>)
        ensures
            r is Ok <==> params.bbox@.len() > 0,
            r matches Err(e) ==> e.api_parts() == Some(missing_bbox_error()),
    {
        if params.bbox.as_str().unicode_len() == 0 {
            Err(Error::Api { code: 400, message: String::from_str("bbox parameter is required") })
        } else {
            Ok(())
        }
    }

    /// The export request and how its answer yields the image: `GET
    /// <base>/export` with the parameters and the token. An image response
    /// is streamed; a JSON response names the image to fetch; any other
    /// format, or a missing extent, is refused with code 400.
    pub fn export_map_request(&self, params: &ExportMapParams, token: &str) -> (r: Result<
        (ExportMode, ApiRequest),
        Error,
    >)
        ensures
            params.bbox@.len() == 0 ==> (r matches Err(e) && e.api_parts() == Some(
                missing_bbox_error(),
            )),
            params.bbox@.len() > 0 ==> match params.format_response {
                ResponseFormat::Image => r matches Ok((m, req)) && m == ExportMode::Stream
                    && req.is_get(self.base() + "/export"@, params.query() + token_query(token@)),
                ResponseFormat::Json | ResponseFormat::PJson => r matches Ok((m, req)) && m
                    == ExportMode::ViaJson && req.is_get(
                    self.base() + "/export"@,
                    params.query() + token_query(token@),
                ),
                f => r matches Err(e) && e.api_parts() == Some(unsupported_format_error(f)),
            },
    {
        Self::check_export_bbox(params)?;
        let mode = match params.format_response {
            ResponseFormat::Image => ExportMode::Stream,
            ResponseFormat::Json | ResponseFormat::PJson => ExportMode::ViaJson,
            f => {
                let message = concat2("Unsupported response format: ", f.debug_str());
                return Err(Error::Api { code: 400, message });
            },
        };
        let mut q = params.to_query();
        push_pair(&mut q, "token", token);
        let url = concat2(self.base_url.as_str(), "/export");
        Ok((mode, get_request(url, q)))
    }

    /// The request for the image named by an export's `href`, with the
    /// token.
    pub fn export_image_request(href: &str, token: &str) -> (r: ApiRequest)
        ensures
            r.is_get(href@, token_query(token@)),
    {
        get_request(String::from_str(href), token_pairs(token))
    }

    /// The tile request: `GET <base>/tile/<level>/<row>/<col>?token=...`.
    pub fn export_tile_request(&self, coord: &TileCoordinate, token: &str) -> (r: ApiRequest)
        ensures
            r.is_get(
                self.base() + "/tile/"@ + dec_digits(coord.level_of() as nat) + "/"@ + dec_digits(
                    coord.row_of() as nat,
                ) + "/"@ + dec_digits(coord.col_of() as nat),
                token_query(token@),
            ),
    {
        let mut url = concat2(self.base_url.as_str(), "/tile/");
        let l = u32_text(coord.level());
        url.append(l.as_str());
        url.append("/");
        let rw = u32_text(coord.row());
        url.append(rw.as_str());
        url.append("/");
        let c = u32_text(coord.col());
        url.append(c.as_str());
        get_request(url, token_pairs(token))
    }

    /// The legend request: `GET <base>/legend?f=json&token=...`.
    pub fn legend_request(&self, token: &str) -> (r: ApiRequest)
        ensures
            r.is_get(self.base() + "/legend"@, f_json() + token_query(token@)),
    {
        get_request(concat2(self.base_url.as_str(), "/legend"), json_token_pairs(token))
    }

    /// The service metadata request: `GET <base>?f=json&token=...`.
    pub fn metadata_request(&self, token: &str) -> (r: ApiRequest)
        ensures
            r.is_get(self.base(), f_json() + token_query(token@)),
    {
        get_request(self.base_url.clone(), json_token_pairs(token))
    }

    /// The identify request: `GET <base>/identify` with the parameters, then
    /// the token and `f=json`.
    pub fn identify_request(&self, params: &IdentifyParams, token: &str) -> (r: ApiRequest)
        ensures
            r.is_get(
                self.base() + "/identify"@,
                params.query() + token_query(token@) + f_json(),
            ),
    {
        let mut q = params.to_query();
        push_pair(&mut q, "token", token);
        push_pair(&mut q, "f", "json");
        get_request(concat2(self.base_url.as_str(), "/identify"), q)
    }

    /// The find request: `GET <base>/find?token=...&f=json` whose body is
    /// the urlencoded search parameters.
    pub fn find_request(&self, encoded_params: String, token: &str) -> (r: ApiRequest)
        ensures
            r.method == HttpMethod::Get,
            r.url@ == self.base() + "/find"@,
            r.query_view() == token_query(token@) + f_json(),
            r.body matches RequestBody::Encoded(b) && b@ == encoded_params@,
    {
        let mut q = token_pairs(token);
        push_pair(&mut q, "f", "json");
        ApiRequest {
            method: HttpMethod::Get,
            url: concat2(self.base_url.as_str(), "/find"),
            query: q,
            body: RequestBody::Encoded(encoded_params),
        }
    }

    /// The KML request: `GET <base>/generateKml?token=...&f=kmz` whose body
    /// is the urlencoded KML parameters.
    pub fn generate_kml_request(&self, encoded_params: String, token: &str) -> (r: ApiRequest)
        ensures
            r.method == HttpMethod::Get,
            r.url@ == self.base() + "/generateKml"@,
            r.query_view() == token_query(token@) + pair("f"@, "kmz"@),
            r.body matches RequestBody::Encoded(b) && b@ == encoded_params@,
    {
        let mut q = token_pairs(token);
        push_pair(&mut q, "f", "kmz");
        ApiRequest {
            method: HttpMethod::Get,
            url: concat2(self.base_url.as_str(), "/generateKml"),
            query: q,
            body: RequestBody::Encoded(encoded_params),
        }
    }

    /// The renderer request: `POST <base>/<layer>/generateRenderer` with
    /// the classification definition (JSON), `f=json` and the token.
    pub fn generate_renderer_request(
        &self,
        layer_id: i32,
        classification_def: &str,
        token: &str,
    ) -> (r: ApiRequest)
        ensures
            r.is_form_post(
                self.base() + "/"@ + int_text(layer_id as int) + "/generateRenderer"@,
                pair("classificationDef"@, classification_def@) + f_json() + token_query(token@),
            ),
    {
        let id = i32_text(layer_id);
        let mut url = concat3(self.base_url.as_str(), "/", id.as_str());
        url.append("/generateRenderer");
        let mut form = no_pairs();
        push_text(&mut form, "classificationDef", classification_def);
        push_pair(&mut form, "f", "json");
        push_pair(&mut form, "token", token);
        form_post(url, form)
    }

    /// The domains request: `POST <base>/queryDomains` with `f=json`, the
    /// token, and the comma-separated layer IDs when there are any.
    pub fn query_domains_request(&self, layers: &Vec<LayerId>, token: &str) -> (r: ApiRequest)
        ensures
            r.is_form_post(
                self.base() + "/queryDomains"@,
                f_json() + token_query(token@) + opt_pair(
                    "layers"@,
                    if layers@.len() > 0 {
                        Some(layer_id_list(layers@))
                    } else {
                        None
                    },
                ),
            ),
    {
        let mut texts: Vec<String> = Vec::new();
        let mut i: usize = 0;
        while i < layers.len()
            invariant
                i <= layers@.len(),
                texts.deep_view().len() == i,
                forall|k: int| 0 <= k < i ==> #[trigger] texts.deep_view()[k] == dec_digits(
                    layers@[k].0 as nat,
                ),
            decreases layers@.len() - i,
        {
            let ghost before = texts.deep_view();
            let t = layers[i].to_string();
            let ghost tv = t@;
            texts.push(t);
            proof {
                assert(texts.deep_view() =~= before.push(tv));
            }
            i = i + 1;
        }
        proof {
            assert(texts.deep_view() =~= layers@.map_values(|l: LayerId| dec_digits(l.0 as nat)));
        }
        let list = join(&texts, ",");
        let mut form = json_token_pairs(token);
        if layers.len() > 0 {
            push_pair(&mut form, "layers", list.as_str());
        } else {
            assert(form.deep_view() =~= f_json() + token_query(token@) + opt_pair(
                "layers"@,
                None,
            ));
        }
        form_post(concat2(self.base_url.as_str(), "/queryDomains"), form)
    }
}

} // verus!
