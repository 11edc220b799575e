//! Requests of a vector tile service. None carries a query.

use vstd::prelude::*;
use crate::http::{ApiRequest, get_request};
use crate::map::types::TileCoordinate;
use crate::query::no_pairs;
use crate::text::{concat2, concat3, dec_digits, u32_text};
use crate::vector_tile::types::{FontStack, GlyphRange, range_text};

verus! {

/// Client for one vector tile service, identified by its URL.
#[derive(Debug, Clone)]
pub struct VectorTileServiceClient {
    url: String,
}

/// URL of a tile: `<service>/tile/<level>/<row>/<col>.pbf`.
pub open spec fn tile_url(service: Seq<char>, t: TileCoordinate) -> Seq<char> {
    service + "/tile/"@ + dec_digits(t.level_of() as nat) + "/"@ + dec_digits(t.row_of() as nat)
        + "/"@ + dec_digits(t.col_of() as nat) + ".pbf"@
}

impl VectorTileServiceClient {
    /// URL of the service.
    pub closed spec fn service(&self) -> Seq<char> {
        self.url@
    }

    /// A client for the service at `url`.
    pub fn new(url: String) -> (r: VectorTileServiceClient)
        ensures
            r.service() == url@,
    {
        VectorTileServiceClient { url }
    }

    /// The request for one tile.
    pub fn tile_request(&self, tile: &TileCoordinate) -> (r: ApiRequest)
        ensures
            r.is_get(tile_url(self.service(), *tile), Seq::empty()),
    {
        let mut url = concat2(self.url.as_str(), "/tile/");
        let l = u32_text(tile.level());
        url.append(l.as_str());
        url.append("/");
        let rw = u32_text(tile.row());
        url.append(rw.as_str());
        url.append("/");
        let c = u32_text(tile.col());
        url.append(c.as_str());
        url.append(".pbf");
        get_request(url, no_pairs())
    }

    /// The requests for several tiles, in order; fetching them one after the
    /// other gives the tiles in the same order.
    pub fn tiles_requests(&self, tiles: &[TileCoordinate]) -> (r: Vec<ApiRequest>)
        ensures
            r@.len() == tiles@.len(),
            forall|i: int| 0 <= i < tiles@.len() ==> #[trigger] r@[i].is_get(
                tile_url(self.service(), tiles@[i]),
                Seq::empty(),
            ),
    {
        let mut out: Vec<ApiRequest> = Vec::new();
        let mut i: usize = 0;
        while i < tiles.len()
            invariant
                i <= tiles@.len(),
                out@.len() == i,
                forall|k: int| 0 <= k < i ==> #[trigger] out@[k].is_get(
                    tile_url(self.service(), tiles@[k]),
                    Seq::empty(),
                ),
            decreases tiles@.len() - i,
        {
            out.push(self.tile_request(&tiles[i]));
            i = i + 1;
        }
        out
    }

    /// The root style: `<service>/resources/styles/root.json`.
    pub fn style_request(&self) -> (r: ApiRequest)
        ensures
            r.is_get(self.service() + "/resources/styles/root.json"@, Seq::empty()),
    {
        get_request(concat2(self.url.as_str(), "/resources/styles/root.json"), no_pairs())
    }

    /// Glyphs of a font stack: `<service>/resources/fonts/<stack>/<range>.pbf`.
    pub fn fonts_request(&self, font_stack: &FontStack, range: &GlyphRange) -> (r: ApiRequest)
        ensures
            r.is_get(
                self.service() + "/resources/fonts/"@ + font_stack.0@ + "/"@ + range_text(
                    range.first(),
                    range.last(),
                ) + ".pbf"@,
                Seq::empty(),
            ),
    {
        let mut url = concat3(self.url.as_str(), "/resources/fonts/", font_stack.0.as_str());
        url.append("/");
        let f = range.format();
        url.append(f.as_str());
        url.append(".pbf");
        get_request(url, no_pairs())
    }

    /// Sprite metadata: `<service>/resources/sprites/sprite.json`.
    pub fn sprite_metadata_request(&self) -> (r: ApiRequest)
        ensures
            r.is_get(self.service() + "/resources/sprites/sprite.json"@, Seq::empty()),
    {
        get_request(concat2(self.url.as_str(), "/resources/sprites/sprite.json"), no_pairs())
    }

    /// Sprite sheet: `<service>/resources/sprites/sprite.png`.
    pub fn sprite_image_request(&self) -> (r: ApiRequest)
        ensures
            r.is_get(self.service() + "/resources/sprites/sprite.png"@, Seq::empty()),
    {
        get_request(concat2(self.url.as_str(), "/resources/sprites/sprite.png"), no_pairs())
    }
}

} // verus!
